use heapless::String;
use pico_demo_device::{
    deserialize_config, parse_command, Configuration, LedCommandParameter, PicoCommand,
};
use serde::de::{Deserialize, Deserializer, Error, IgnoredAny, MapAccess, Visitor};

const FIELDS: &[&str] = &[
    "led_pin",
    "name",
    "wifi_ssid",
    "wifi_password",
    "mqtt_server",
    "mqtt_port",
    "mqtt_username",
    "mqtt_password",
];

/// A configuration as JSON describes it.
struct JsonConfiguration(Configuration);

struct ConfigurationVisitor;

impl<'de> Visitor<'de> for ConfigurationVisitor {
    type Value = JsonConfiguration;

    fn expecting(&self, formatter: &mut std::fmt::Formatter<'_>) -> std::fmt::Result {
        formatter.write_str("a configuration")
    }

    fn visit_map<A: MapAccess<'de>>(self, mut map: A) -> Result<JsonConfiguration, A::Error> {
        let mut led_pin: Option<u8> = None;
        let mut mqtt_port: Option<u16> = None;
        let mut texts: [Option<String<64>>; 8] = [const { None }; 8];
        while let Some(key) = map.next_key::<&str>()? {
            match key {
                "led_pin" => led_pin = Some(map.next_value()?),
                "mqtt_port" => mqtt_port = Some(map.next_value()?),
                _ => match FIELDS.iter().position(|field| *field == key) {
                    Some(i) => texts[i] = Some(map.next_value()?),
                    None => {
                        map.next_value::<IgnoredAny>()?;
                    }
                },
            }
        }
        let [_, name, wifi_ssid, wifi_password, mqtt_server, _, mqtt_username, mqtt_password] =
            texts;
        let missing = || A::Error::custom("missing field");
        Ok(JsonConfiguration(Configuration {
            led_pin: led_pin.ok_or_else(missing)?,
            name: name.ok_or_else(missing)?,
            wifi_ssid: wifi_ssid.ok_or_else(missing)?,
            wifi_password: wifi_password.ok_or_else(missing)?,
            mqtt_server: mqtt_server.ok_or_else(missing)?,
            mqtt_port: mqtt_port.ok_or_else(missing)?,
            mqtt_username: mqtt_username.ok_or_else(missing)?,
            mqtt_password: mqtt_password.ok_or_else(missing)?,
        }))
    }
}

impl<'de> Deserialize<'de> for JsonConfiguration {
    fn deserialize<D: Deserializer<'de>>(deserializer: D) -> Result<Self, D::Error> {
        deserializer.deserialize_struct("Configuration", FIELDS, ConfigurationVisitor)
    }
}

fn decode(json: &String<256>) -> Option<Configuration> {
    match serde_json_core::from_str::<JsonConfiguration>(json) {
        Ok((config, _)) => Some(config.0),
        Err(_) => None,
    }
}

fn parse(line: &str) -> Result<PicoCommand, &'static str> {
    let mut input = String::new();
    input.push_str(line).unwrap();
    parse_command(input, decode)
}

/// Parses a line that is not for a configuration.
fn parse_plain(line: &str) -> Result<PicoCommand, &'static str> {
    let mut input = String::new();
    input.push_str(line).unwrap();
    parse_command(input, |_| panic!("not a configuration"))
}

#[test]
fn test_parse_led() {
    let mut input = String::new();
    input.push_str("LED ON").unwrap();
    let command = parse_command(input, decode).unwrap();
    assert_eq!(command, PicoCommand::Led(LedCommandParameter::On));

    let mut input = String::new();
    input.push_str("LED OFF").unwrap();
    let command = parse_command(input, decode).unwrap();
    assert_eq!(command, PicoCommand::Led(LedCommandParameter::Off));
}

#[test]
fn test_parse_config() {
    let mut input = String::new();
    input.push_str(r#"CONFIG {"wifi_ssid":"PerkyIoT","wifi_password":"M5T$f6FrmACKoY9k","mqtt_server":"192.168.1.88","mqtt_username":"Test","mqtt_password":"Test","mqtt_port":1883,"led_pin":1,"name":"Test Name"}"#).unwrap();
    let command = parse_command(input, decode).unwrap();
    assert!(matches!(command, PicoCommand::SetConfig(_)));
}

#[test]
fn test_deserialize_config() {
    let test_config = r#"{"wifi_ssid":"ssid","wifi_password":"password","mqtt_server":"server","mqtt_username":"username","mqtt_password":"password","mqtt_port":1883,"led_pin":1,"name":"Test Device"}"#;

    let mut input = String::new();
    input.push_str(test_config).unwrap();
    let config = deserialize_config(&input, decode).unwrap();

    assert_eq!(config.led_pin, 1);
    assert_eq!(config.wifi_ssid, "ssid");
    assert_eq!(config.wifi_password, "password");
    assert_eq!(config.mqtt_server, "server");
    assert_eq!(config.mqtt_port, 1883);
    assert_eq!(config.mqtt_username, "username");
    assert_eq!(config.mqtt_password, "password");
    assert_eq!(config.name, "Test Device");
}

#[test]
fn every_plain_command_parses() {
    assert_eq!(
        parse_plain("LED TOGGLE"),
        Ok(PicoCommand::Led(LedCommandParameter::Toggle))
    );
    assert_eq!(parse_plain("TEMP"), Ok(PicoCommand::Temperature));
    assert_eq!(parse_plain("RESET"), Ok(PicoCommand::Reset));
    assert_eq!(parse_plain("PRINT"), Ok(PicoCommand::PrintState));
}

#[test]
fn led_needs_a_known_parameter() {
    assert_eq!(
        parse_plain("LED"),
        Err("LED command requires a parameter of ON or OFF")
    );
    assert_eq!(parse_plain("LED "), Err("Invalid value for LED"));
    assert_eq!(parse_plain("LED on"), Err("Invalid value for LED"));
    assert_eq!(parse_plain("LED ON "), Err("Invalid value for LED"));
    assert_eq!(parse_plain("LED  ON"), Err("Invalid value for LED"));
}

#[test]
fn parameters_are_refused_where_none_is_taken() {
    assert_eq!(
        parse_plain("TEMP now"),
        Err("TEMP command does not take any parameters")
    );
    assert_eq!(
        parse_plain("TEMP "),
        Err("TEMP command does not take any parameters")
    );
    assert_eq!(
        parse_plain("RESET now"),
        Err("RESET command does not take any parameters")
    );
    assert_eq!(
        parse_plain("PRINT all"),
        Err("PRINT command does not take any parameters")
    );
}

#[test]
fn unknown_commands_are_refused() {
    assert_eq!(parse_plain(""), Err("Unknown command"));
    assert_eq!(parse_plain(" LED ON"), Err("Unknown command"));
    assert_eq!(parse_plain("led ON"), Err("Unknown command"));
    assert_eq!(parse_plain("TEMPO"), Err("Unknown command"));
    assert_eq!(parse_plain("LÄD ON"), Err("Unknown command"));
}

#[test]
fn configuration_needs_json() {
    assert_eq!(parse_plain("CONFIG"), Err("CONFIG requires a Json parameter"));
    assert_eq!(parse("CONFIG "), Err("Unable to parse Json"));
    assert_eq!(parse("CONFIG {\"led_pin\":1}"), Err("Unable to parse Json"));
    let mut input = String::new();
    input.push_str("[1,2]").unwrap();
    assert_eq!(deserialize_config(&input, decode), Err("Unable to parse Json"));
}

#[test]
fn all_that_follows_the_first_space_is_decoded() {
    let mut input = String::new();
    input.push_str("CONFIG  {\"a b\": \"ü c\"} ").unwrap();
    let mut seen = std::string::String::new();
    let result = parse_command(input, |json| {
        seen.push_str(json.as_str());
        None
    });
    assert_eq!(result, Err("Unable to parse Json"));
    assert_eq!(seen, " {\"a b\": \"ü c\"} ");
}

#[test]
fn the_longest_configuration_line_is_decoded_whole() {
    let mut input: String<256> = String::new();
    input.push_str("CONFIG ").unwrap();
    for _ in 0..249 {
        input.push('x').unwrap();
    }
    let mut length = 0;
    let _ = parse_command(input, |json| {
        length = json.len();
        None
    });
    assert_eq!(length, 249);
}
