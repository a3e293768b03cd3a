//! The description of a configuration for a log.
use vstd::prelude::*;
use crate::config::{ConfigModel, Configuration};
use crate::temperature::{decimal, print_decimal};
use crate::text::{
    as_str64, byte_len, lemma_ascii_byte_len, lemma_encode_concat, new256, push256, text256,
};

verus! {

/// The most bytes that a description takes.
pub const DESCRIPTION_SIZE: usize = 256;

/// A text in quotes, with escapes where they are called for.
pub uninterp spec fn quoted(s: Seq<char>) -> Seq<char>;

/// `core::fmt::Debug` for `str`, through `format!`: the text in quotes. Which characters are
/// escaped, and how, is left unsaid; it depends on the text alone.
#[verifier::external_body]
fn quote(s: &str) -> (r: String)
    ensures
        r@ == quoted(s@),
{
    format!("{:?}", s)
}

/// The description of a configuration whose texts are in quotes already.
pub open spec fn layout(q: ConfigModel) -> Seq<char> {
    "Some(Configuration { led_pin: "@ + decimal(q.led_pin as nat) + ", name: "@ + q.name
        + ", wifi_ssid: "@ + q.wifi_ssid + ", wifi_password: "@ + q.wifi_password
        + ", mqtt_server: "@ + q.mqtt_server + ", mqtt_port: "@ + decimal(q.mqtt_port as nat)
        + ", mqtt_username: "@ + q.mqtt_username + ", mqtt_password: "@ + q.mqtt_password + " })"@
}

/// The description of a configuration.
pub open spec fn description(c: ConfigModel) -> Seq<char> {
    layout(
        ConfigModel {
            name: quoted(c.name),
            wifi_ssid: quoted(c.wifi_ssid),
            wifi_password: quoted(c.wifi_password),
            mqtt_server: quoted(c.mqtt_server),
            mqtt_username: quoted(c.mqtt_username),
            mqtt_password: quoted(c.mqtt_password),
            ..c
        },
    )
}

/// `s` holds the whole text, or there is no room for it.
pub open spec fn holds(s: Option<heapless::String<256>>, whole: Seq<char>) -> bool {
    match s {
        Some(t) => text256(t) == whole && byte_len(whole) <= DESCRIPTION_SIZE,
        None => byte_len(whole) > DESCRIPTION_SIZE,
    }
}

/// What is held so far, with a piece more.
fn extend(s: Option<heapless::String<256>>, piece: &str) -> (r: Option<heapless::String<256>>)
    ensures
        forall|whole: Seq<char>| #[trigger] holds(s, whole) ==> holds(r, whole + piece@),
{
    proof {
        assert forall|whole: Seq<char>| #[trigger] holds(s, whole) implies byte_len(whole + piece@)
            == byte_len(whole) + byte_len(piece@) by {
            lemma_encode_concat(whole, piece@);
        }
    }
    match s {
        None => None,
        Some(text) => {
            let mut text = text;
            match push256(&mut text, piece) {
                Ok(()) => Some(text),
                Err(()) => None,
            }
        },
    }
}

/// The description of a configuration whose texts are in quotes already, if there is room for it.
pub fn lay_out(
    led_pin: u8,
    name: &str,
    wifi_ssid: &str,
    wifi_password: &str,
    mqtt_server: &str,
    mqtt_port: u16,
    mqtt_username: &str,
    mqtt_password: &str,
) -> (r: Option<heapless::String<256>>)
    ensures
        holds(
            r,
            layout(
                ConfigModel {
                    led_pin,
                    name: name@,
                    wifi_ssid: wifi_ssid@,
                    wifi_password: wifi_password@,
                    mqtt_server: mqtt_server@,
                    mqtt_port,
                    mqtt_username: mqtt_username@,
                    mqtt_password: mqtt_password@,
                },
            ),
        ),
        ({
            let whole = "Some(Configuration { led_pin: "@ + decimal(led_pin as nat) + ", name: "@
                + name@ + ", wifi_ssid: "@ + wifi_ssid@ + ", wifi_password: "@ + wifi_password@
                + ", mqtt_server: "@ + mqtt_server@ + ", mqtt_port: "@ + decimal(mqtt_port as nat)
                + ", mqtt_username: "@ + mqtt_username@ + ", mqtt_password: "@ + mqtt_password@
                + " })"@;
            &&& r is Some <==> byte_len(whole) <= 256
            &&& r matches Some(t) ==> text256(t) == whole
        }),
{
    let pin = print_decimal(led_pin as u16);
    let port = print_decimal(mqtt_port);
    let s = Some(new256());
    let first = "Some(Configuration { led_pin: ";
    assert(Seq::<char>::empty() + first@ =~= first@);
    assert(holds(s, Seq::empty()));
    let s = extend(s, first);
    let s = extend(s, as_str64(&pin));
    let s = extend(extend(s, ", name: "), name);
    let s = extend(extend(s, ", wifi_ssid: "), wifi_ssid);
    let s = extend(extend(s, ", wifi_password: "), wifi_password);
    let s = extend(extend(s, ", mqtt_server: "), mqtt_server);
    let s = extend(s, ", mqtt_port: ");
    let s = extend(s, as_str64(&port));
    let s = extend(extend(s, ", mqtt_username: "), mqtt_username);
    let s = extend(extend(s, ", mqtt_password: "), mqtt_password);
    extend(s, " })")
}

/// The description of a configuration, if there is room for it.
pub fn describe(config: &Configuration) -> (r: Option<heapless::String<256>>)
    ensures
        holds(r, description(config@)),
        r is Some <==> byte_len(description(config@)) <= 256,
        r matches Some(t) ==> text256(t) == description(config@),
{
    let name = quote(as_str64(&config.name));
    let wifi_ssid = quote(as_str64(&config.wifi_ssid));
    let wifi_password = quote(as_str64(&config.wifi_password));
    let mqtt_server = quote(as_str64(&config.mqtt_server));
    let mqtt_username = quote(as_str64(&config.mqtt_username));
    let mqtt_password = quote(as_str64(&config.mqtt_password));
    lay_out(
        config.led_pin,
        name.as_str(),
        wifi_ssid.as_str(),
        wifi_password.as_str(),
        mqtt_server.as_str(),
        config.mqtt_port,
        mqtt_username.as_str(),
        mqtt_password.as_str(),
    )
}

/// The description of a configuration, spelled out, and the bytes that it takes: a fixed number for
/// the names of the fields, and those of the values.
pub proof fn law_description(c: ConfigModel)
    ensures
        description(c) == "Some(Configuration { led_pin: "@ + decimal(c.led_pin as nat)
            + ", name: "@ + quoted(c.name) + ", wifi_ssid: "@ + quoted(c.wifi_ssid)
            + ", wifi_password: "@ + quoted(c.wifi_password) + ", mqtt_server: "@ + quoted(
            c.mqtt_server,
        ) + ", mqtt_port: "@ + decimal(c.mqtt_port as nat) + ", mqtt_username: "@ + quoted(
            c.mqtt_username,
        ) + ", mqtt_password: "@ + quoted(c.mqtt_password) + " })"@,
        byte_len(description(c)) == 133 + byte_len(decimal(c.led_pin as nat)) + byte_len(
            quoted(c.name),
        ) + byte_len(quoted(c.wifi_ssid)) + byte_len(quoted(c.wifi_password)) + byte_len(
            quoted(c.mqtt_server),
        ) + byte_len(decimal(c.mqtt_port as nat)) + byte_len(quoted(c.mqtt_username)) + byte_len(
            quoted(c.mqtt_password),
        ),
{
    reveal_strlit("Some(Configuration { led_pin: ");
    reveal_strlit(", name: ");
    reveal_strlit(", wifi_ssid: ");
    reveal_strlit(", wifi_password: ");
    reveal_strlit(", mqtt_server: ");
    reveal_strlit(", mqtt_port: ");
    reveal_strlit(", mqtt_username: ");
    reveal_strlit(", mqtt_password: ");
    reveal_strlit(" })");
    lemma_ascii_byte_len("Some(Configuration { led_pin: "@);
    lemma_ascii_byte_len(", name: "@);
    lemma_ascii_byte_len(", wifi_ssid: "@);
    lemma_ascii_byte_len(", wifi_password: "@);
    lemma_ascii_byte_len(", mqtt_server: "@);
    lemma_ascii_byte_len(", mqtt_port: "@);
    lemma_ascii_byte_len(", mqtt_username: "@);
    lemma_ascii_byte_len(", mqtt_password: "@);
    lemma_ascii_byte_len(" })"@);
    assert forall|a: Seq<char>, b: Seq<char>| #[trigger] byte_len(a + b) == byte_len(a) + byte_len(
        b,
    ) by {
        lemma_encode_concat(a, b);
    }
}

} // verus!
