use heapless::String;
use pico_demo_device::description::{describe, lay_out};
use pico_demo_device::device::{JsonStage, PublishStage, ReadStage};
use pico_demo_device::effect::Publication;
use pico_demo_device::execute::CommandStage;
use pico_demo_device::mqtt::{
    client_id, command_topic, name_topic, parse_address, state_topic, status_topic,
};
use pico_demo_device::storage::StoreStage;
use pico_demo_device::temperature::print_temperature;
use pico_demo_device::{
    Action, Answer, Configuration, DemoDevice, DemoDeviceBuilder, DeviceState, Effect, Fault,
    LedCommandParameter, Peripherals, PicoCommand, Reply, Turn,
};

type Device = DemoDevice<Peripherals<u8, u16, u32, u64, i8, i16, i32>>;

fn text<const N: usize>(s: &str) -> String<N> {
    let mut r = String::new();
    r.push_str(s).unwrap();
    r
}

fn id(s: &str) -> &'static String<16> {
    Box::leak(Box::new(text(s)))
}

fn device() -> Device {
    DemoDeviceBuilder::new()
        .with_flash(7)
        .with_watchdog(6)
        .with_adc(4, 5)
        .with_control(3)
        .with_stack(2)
        .with_command_receiver(0)
        .with_id(id("E6614"))
        .with_command_receiver(1)
        .build(99)
}

fn config() -> Configuration {
    Configuration {
        led_pin: 0,
        name: text("Kitchen"),
        wifi_ssid: text("net"),
        wifi_password: text("secret"),
        mqtt_server: text("10.0.0.1"),
        mqtt_port: 1884,
        mqtt_username: text("user"),
        mqtt_password: text("pass"),
    }
}

fn long_config() -> Configuration {
    let long = "a".repeat(64);
    Configuration {
        name: text(&long),
        wifi_ssid: text(&long),
        wifi_password: text(&long),
        mqtt_server: text(&long),
        ..config()
    }
}

/// Carries out a command, with a reply for each effect that it performs.
fn execute(d: &mut Device, command: PicoCommand, replies: Vec<Reply>) -> (Vec<Action>, Turn<(), (), Answer>) {
    let mut effects = Vec::new();
    let mut replies = replies.into_iter();
    let mut at = CommandStage::Start(command);
    let mut reply = Reply::Ack(true);
    loop {
        match d.execute_command(at, reply) {
            Turn::Perform(effect, next) => {
                effects.push(effect);
                at = next;
                reply = replies.next().unwrap_or(Reply::Ack(true));
            }
            Turn::Done(answer) => return (effects, Turn::Done(answer)),
            Turn::Halt(fault) => return (effects, Turn::Halt(fault)),
        }
    }
}

fn state_message(json: &str) -> Action {
    Effect::Send(Publication {
        topic: text("device/E6614/state"),
        payload: text(json),
        qos: 1,
        retain: true,
    })
}

#[test]
fn builder_hands_on_what_it_was_given() {
    let d = device();
    assert_eq!(d.peripherals.command_receiver, 1);
    assert_eq!(d.peripherals.stack, 2);
    assert_eq!(d.peripherals.control, 3);
    assert_eq!(d.peripherals.adc, (4, 5));
    assert_eq!(d.peripherals.watchdog, 6);
    assert_eq!(d.peripherals.flash, 7);
    assert_eq!(d.id_string.as_str(), "E6614");
    assert_eq!(d.get_config(), None);
    assert!(!d.current_led_state);
    assert!(!d.mqtt_connected);
    assert_eq!(d.last_publish, 99);
}

#[test]
fn a_new_builder_holds_nothing() {
    let b: DemoDeviceBuilder<u8, u16, u32, u64, i8, i16, i32> = DemoDeviceBuilder::new();
    assert!(b.command_receiver.is_none() && b.stack.is_none() && b.control.is_none());
    assert!(b.adc.is_none() && b.id_string.is_none());
    assert!(b.watchdog.is_none() && b.flash.is_none());
}

#[test]
fn led_follows_commands() {
    let mut d = device();
    // The pin that the configuration names is not looked at.
    d.set_config(Configuration { led_pin: 25, ..config() });
    let drive = |level| Effect::DriveLed { line: 0, level };
    assert_eq!(d.set_led(LedCommandParameter::On), drive(true));
    assert_eq!(d.set_led(LedCommandParameter::On), drive(true));
    assert_eq!(d.set_led(LedCommandParameter::Toggle), drive(false));
    assert_eq!(d.set_led(LedCommandParameter::Toggle), drive(true));
    assert_eq!(d.set_led(LedCommandParameter::Off), drive(false));
    assert!(!d.current_led_state);
}

#[test]
fn configuration_is_kept() {
    let mut d = device();
    d.set_config(config());
    assert_eq!(d.get_config(), Some(&config()));
}

#[test]
fn temperature_is_sampled() {
    let d = device();
    assert_eq!(
        d.read_temperature(ReadStage::Start, Reply::Ack(true)),
        Turn::Perform(Effect::SampleTemperature, ReadStage::Sampling)
    );
    assert_eq!(
        d.read_temperature(ReadStage::Sampling, Reply::Temperature(-273)),
        Turn::Done(-273)
    );
    assert_eq!(
        d.read_temperature(ReadStage::Sampling, Reply::Ack(true)),
        Turn::Halt(Fault::SensorFailed)
    );
}

#[test]
fn state_is_temperature_and_led() {
    let mut d = device();
    d.set_led(LedCommandParameter::On);
    assert_eq!(
        d.get_state(ReadStage::Sampling, Reply::Temperature(215)),
        Turn::Done(DeviceState { temperature: 215, led_state: true })
    );
}

#[test]
fn state_that_cannot_be_written_down() {
    let d = device();
    assert_eq!(
        d.get_state_json(JsonStage::Encoding, Reply::Ack(false)),
        Turn::Done(Err("Failed to serialize state"))
    );
    let mut connected = device();
    connected.mqtt_connected = true;
    assert_eq!(
        connected.publish_state(PublishStage::Encoding(JsonStage::Encoding), Reply::Ack(false)),
        Turn::Halt(Fault::StateNotEncoded)
    );
    assert_eq!(
        connected.publish_state(PublishStage::Sending, Reply::Ack(false)),
        Turn::Halt(Fault::SendFailed)
    );
}

#[test]
fn nothing_is_published_without_a_session() {
    assert_eq!(
        device().publish_state(PublishStage::Start, Reply::Ack(true)),
        Turn::Done(())
    );
}

#[test]
fn led_command_without_a_session() {
    let mut d = device();
    let (effects, answer) = execute(&mut d, PicoCommand::Led(LedCommandParameter::Toggle), vec![]);
    assert_eq!(effects, vec![Effect::DriveLed { line: 0, level: true }]);
    assert_eq!(answer, Turn::Done(Ok(text("LED set to true"))));
    assert!(d.current_led_state);
}

#[test]
fn led_command_with_a_session() {
    let mut d = device();
    d.mqtt_connected = true;
    let json = "{\"temperature\":21.5,\"led_state\":false}";
    let (effects, answer) = execute(
        &mut d,
        PicoCommand::Led(LedCommandParameter::Off),
        vec![Reply::Ack(true), Reply::Temperature(215), Reply::Json(text(json))],
    );
    assert_eq!(
        effects,
        vec![
            Effect::DriveLed { line: 0, level: false },
            Effect::SampleTemperature,
            Effect::EncodeState(DeviceState { temperature: 215, led_state: false }),
            state_message(json),
        ]
    );
    assert_eq!(answer, Turn::Done(Ok(text("LED set to false"))));
}

#[test]
fn reset_command() {
    let (effects, answer) = execute(&mut device(), PicoCommand::Reset, vec![]);
    assert_eq!(effects, vec![Effect::TriggerReset]);
    assert_eq!(answer, Turn::Done(Ok(text("Resetting"))));
}

#[test]
fn temperature_command() {
    let (effects, answer) = execute(
        &mut device(),
        PicoCommand::Temperature,
        vec![Reply::Temperature(-7)],
    );
    assert_eq!(effects, vec![Effect::SampleTemperature]);
    assert_eq!(answer, Turn::Done(Ok(text("-0.70° C"))));
}

#[test]
fn print_command() {
    let mut d = device();
    let (effects, answer) = execute(&mut d, PicoCommand::PrintState, vec![]);
    assert_eq!(effects, vec![]);
    assert_eq!(answer, Turn::Done(Err("Config not set")));

    d.set_config(config());
    let (effects, answer) = execute(
        &mut d,
        PicoCommand::PrintState,
        vec![Reply::Temperature(0), Reply::Json(text("{}"))],
    );
    assert_eq!(
        effects,
        vec![
            Effect::SampleTemperature,
            Effect::EncodeState(DeviceState { temperature: 0, led_state: false }),
        ]
    );
    assert_eq!(answer, Turn::Done(Ok(text("{}"))));

    let (_, answer) = execute(&mut d, PicoCommand::PrintState, vec![Reply::Temperature(0)]);
    assert_eq!(answer, Turn::Done(Err("Failed to serialize state")));
}

#[test]
fn config_command() {
    let mut d = device();
    let (effects, answer) = execute(&mut d, PicoCommand::SetConfig(config()), vec![]);
    assert_eq!(effects.len(), 2);
    assert!(matches!(effects[0], Effect::EraseFlash { .. }));
    assert!(matches!(effects[1], Effect::WriteFlash { .. }));
    assert_eq!(answer, Turn::Done(Ok(text("Config set"))));
    assert_eq!(d.get_config(), Some(&config()));
}

#[test]
fn refused_config_command_changes_nothing() {
    let mut d = device();
    let (effects, answer) = execute(&mut d, PicoCommand::SetConfig(long_config()), vec![]);
    assert_eq!(effects, vec![]);
    assert_eq!(answer, Turn::Done(Err("Failed to set config")));
    let (_, answer) = execute(&mut d, PicoCommand::SetConfig(config()), vec![Reply::Ack(false)]);
    assert_eq!(answer, Turn::Done(Err("Failed to set config")));
    let replies = vec![Reply::Ack(true), Reply::Ack(false)];
    let (_, answer) = execute(&mut d, PicoCommand::SetConfig(config()), replies);
    assert_eq!(answer, Turn::Done(Err("Failed to set config")));
    assert_eq!(d.get_config(), None);
    assert_eq!(
        d.execute_command(
            CommandStage::Storing(config(), StoreStage::Erasing),
            Reply::Clock(0)
        ),
        Turn::Done(Err("Failed to set config"))
    );
}

#[test]
fn topics_of_a_device() {
    let long = id("0123456789abcdef");
    assert_eq!(client_id(long), "device-0123456789abcdef");
    assert_eq!(status_topic(long), "device/0123456789abcdef/status");
    assert_eq!(command_topic(long), "device/0123456789abcdef/command");
    assert_eq!(name_topic(long), "device/0123456789abcdef/name");
    assert_eq!(state_topic(long), "device/0123456789abcdef/state");
    assert_eq!(state_topic(id("")), "device//state");
}

#[test]
fn broker_addresses() {
    assert_eq!(parse_address("192.168.1.88"), Some((192, 168, 1, 88)));
    assert_eq!(parse_address("0.00.000.255"), Some((0, 0, 0, 255)));
    for bad in [
        "", "server", "1.2.3", "1.2.3.4.5", "1.2.3.256", "1.2.3.0004", "1.2.3.4 ", " 1.2.3.4",
        "1..3.4", "1.2.3.", "1.2.3.-4", "1,2,3,4", "1.2.3.999", "٣.2.3.4",
    ] {
        assert_eq!(parse_address(bad), None, "{}", bad);
    }
}

#[test]
fn printed_temperatures() {
    assert_eq!(print_temperature(0), "0.00° C");
    assert_eq!(print_temperature(5), "0.50° C");
    assert_eq!(print_temperature(-5), "-0.50° C");
    assert_eq!(print_temperature(271), "27.10° C");
    assert_eq!(print_temperature(i16::MAX), "3276.70° C");
    assert_eq!(print_temperature(i16::MIN), "-3276.80° C");
}

#[test]
fn printed_temperatures_are_those_of_the_fraction() {
    for tenths in i16::MIN..=i16::MAX {
        let expected = format!("{:.2}° C", (tenths as f32) / 10.0);
        assert_eq!(print_temperature(tenths), expected.as_str());
    }
}

#[test]
fn different_temperatures_print_differently() {
    let mut printed: Vec<String<64>> = (i16::MIN..=i16::MAX).map(print_temperature).collect();
    printed.sort();
    assert!(printed.windows(2).all(|pair| pair[0] != pair[1]));
}

#[test]
fn topics_tell_device_and_purpose() {
    // An id that looks like a part of a topic does not make two topics alike.
    let topics = [
        status_topic(id("a")),
        name_topic(id("a")),
        status_topic(id("a/name")),
        name_topic(id("a/status")),
        name_topic(id("")),
        state_topic(id("/name")),
    ];
    for (i, a) in topics.iter().enumerate() {
        assert!(topics.iter().skip(i + 1).all(|b| a != b));
    }
}

#[test]
fn described_configurations() {
    let mut escaped = config();
    escaped.led_pin = 255;
    escaped.name = text("a\"b\\c\n\u{7f}ü°\u{301}'");
    escaped.wifi_ssid = text("");
    escaped.mqtt_port = 0;
    for c in [config(), escaped] {
        let expected = format!("{:?}", Some(c.clone()));
        assert!(expected.len() <= 256);
        assert_eq!(describe(&c).unwrap(), expected.as_str());
    }
    assert_eq!(describe(&long_config()), None);
}

#[test]
fn a_description_must_fit() {
    // Grow the texts a byte at a time, past what a description can take.
    for n in 0..=120 {
        let c = Configuration {
            wifi_password: text(&"p".repeat(n / 2)),
            mqtt_password: text(&"q".repeat(n - n / 2)),
            ..config()
        };
        let expected = format!("{:?}", Some(c.clone()));
        match describe(&c) {
            Some(description) => assert_eq!(description, expected.as_str()),
            None => assert!(expected.len() > 256),
        }
    }
    let laid_out = lay_out(7, "A", "B", "C", "D", 65535, "E", "F").unwrap();
    assert_eq!(
        laid_out,
        "Some(Configuration { led_pin: 7, name: A, wifi_ssid: B, wifi_password: C, \
         mqtt_server: D, mqtt_port: 65535, mqtt_username: E, mqtt_password: F })"
    );
    let rest = 256 - laid_out.len();
    let fits = "x".repeat(1 + rest);
    assert!(lay_out(7, &fits, "B", "C", "D", 65535, "E", "F").is_some());
    let too_long = "x".repeat(2 + rest);
    assert!(lay_out(7, &too_long, "B", "C", "D", 65535, "E", "F").is_none());
}
