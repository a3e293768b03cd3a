//! The device's configuration and the bytes that it is stored as.
use vstd::prelude::*;
use vstd::utf8::encode_utf8;
use crate::text::{as_str64, byte_len, copy64, text64};
use crate::wire::{
    field_bytes, lemma_message_reads_back, lemma_reading_unique, message_bytes, message_reads,
    same_shape, texts_within, varint_bytes, Field,
};

verus! {

/// Where in flash the configuration is stored.
pub const ADDR_OFFSET: u32 = 0x100000;

/// The size of the flash sector that is erased before the configuration is written.
pub const SECTOR_SIZE: u32 = 4096;

/// The most bytes that a stored configuration takes, and the number that is read back.
pub const CONFIG_SIZE: usize = 256;

/// How the device reaches its network and its broker.
#[derive(Debug, PartialEq)]
pub struct Configuration {
    pub led_pin: u8,
    pub name: heapless::String<64>,
    pub wifi_ssid: heapless::String<64>,
    pub wifi_password: heapless::String<64>,
    pub mqtt_server: heapless::String<64>,
    pub mqtt_port: u16,
    pub mqtt_username: heapless::String<64>,
    pub mqtt_password: heapless::String<64>,
}

/// The values that a configuration holds.
pub struct ConfigModel {
    pub led_pin: u8,
    pub name: Seq<char>,
    pub wifi_ssid: Seq<char>,
    pub wifi_password: Seq<char>,
    pub mqtt_server: Seq<char>,
    pub mqtt_port: u16,
    pub mqtt_username: Seq<char>,
    pub mqtt_password: Seq<char>,
}

impl View for Configuration {
    type V = ConfigModel;

    open spec fn view(&self) -> ConfigModel {
        ConfigModel {
            led_pin: self.led_pin,
            name: text64(self.name),
            wifi_ssid: text64(self.wifi_ssid),
            wifi_password: text64(self.wifi_password),
            mqtt_server: text64(self.mqtt_server),
            mqtt_port: self.mqtt_port,
            mqtt_username: text64(self.mqtt_username),
            mqtt_password: text64(self.mqtt_password),
        }
    }
}

impl Clone for Configuration {
    fn clone(&self) -> (r: Self)
        ensures
            r@ == self@,
    {
        Configuration {
            led_pin: self.led_pin,
            name: copy64(&self.name),
            wifi_ssid: copy64(&self.wifi_ssid),
            wifi_password: copy64(&self.wifi_password),
            mqtt_server: copy64(&self.mqtt_server),
            mqtt_port: self.mqtt_port,
            mqtt_username: copy64(&self.mqtt_username),
            mqtt_password: copy64(&self.mqtt_password),
        }
    }
}

impl ConfigModel {
    /// The fields in the order in which they are stored.
    pub open spec fn fields(self) -> Seq<Field> {
        seq![
            Field::Byte(self.led_pin),
            Field::Text(self.name),
            Field::Text(self.wifi_ssid),
            Field::Text(self.wifi_password),
            Field::Text(self.mqtt_server),
            Field::Number(self.mqtt_port),
            Field::Text(self.mqtt_username),
            Field::Text(self.mqtt_password),
        ]
    }

    /// Every text fits the string that holds it.
    pub open spec fn valid(self) -> bool {
        texts_within(self.fields(), 64)
    }

    /// The bytes that the configuration is stored as.
    pub open spec fn bytes(self) -> Seq<u8> {
        message_bytes(self.fields())
    }

    /// Whether the stored configuration fits the space that is set aside for it.
    pub open spec fn storable(self) -> bool {
        self.bytes().len() <= CONFIG_SIZE
    }
}

/// The most bytes that the length of a text may be spelled in: as many groups of seven bits as a
/// word of the machine takes.
pub open spec fn length_width() -> nat {
    (usize::BITS as nat + 6) / 7
}

/// The bytes begin with the configuration.
pub open spec fn reads_as(bytes: Seq<u8>, c: ConfigModel) -> bool {
    c.valid() && message_reads(bytes, c.fields(), length_width())
}

/// The configuration that stored bytes begin with, if they begin with one.
pub open spec fn stored_config(bytes: Seq<u8>) -> Option<ConfigModel> {
    if exists|c: ConfigModel| reads_as(bytes, c) {
        Some(choose|c: ConfigModel| reads_as(bytes, c))
    } else {
        None
    }
}

/// The error of `postcard`.
#[verifier::external_type_specification]
#[verifier::external_body]
pub struct ExPostcardError(postcard::Error);

/// `postcard::to_vec` on the configuration's fields in their order, which is how it lays out a
/// struct of them too: the bytes of the message if there is room for them, and otherwise an error.
#[verifier::external_body]
fn postcard_to_vec(c: &Configuration) -> (r: Result<Vec<u8>, postcard::Error>)
    ensures
        r is Ok <==> c@.storable(),
        r matches Ok(v) ==> v@ == c@.bytes(),
{
    let bytes = postcard::to_vec::<_, 256>(&(
        c.led_pin,
        c.name.as_str(),
        c.wifi_ssid.as_str(),
        c.wifi_password.as_str(),
        c.mqtt_server.as_str(),
        c.mqtt_port,
        c.mqtt_username.as_str(),
        c.mqtt_password.as_str(),
    ))?;
    Ok(bytes.to_vec())
}

/// `postcard::from_bytes` into the configuration's fields in their order: the message that the
/// bytes begin with, whatever follows it, and an error if they begin with none. The length of a
/// text is read as a word of the machine.
#[verifier::external_body]
fn postcard_from_bytes(bytes: &[u8]) -> (r: Result<Configuration, postcard::Error>)
    ensures
        match r {
            Ok(c) => reads_as(bytes@, c@),
            Err(_) => forall|c: ConfigModel| !reads_as(bytes@, c),
        },
{
    let (led_pin, name, wifi_ssid, wifi_password, mqtt_server, mqtt_port, mqtt_username, mqtt_password) =
        postcard::from_bytes(bytes)?;
    Ok(Configuration {
        led_pin,
        name,
        wifi_ssid,
        wifi_password,
        mqtt_server,
        mqtt_port,
        mqtt_username,
        mqtt_password,
    })
}

/// The texts of a configuration fit the strings that hold them.
fn texts_fit(config: &Configuration)
    ensures
        config@.valid(),
{
    let _ = as_str64(&config.name);
    let _ = as_str64(&config.wifi_ssid);
    let _ = as_str64(&config.wifi_password);
    let _ = as_str64(&config.mqtt_server);
    let _ = as_str64(&config.mqtt_username);
    let _ = as_str64(&config.mqtt_password);
}

/// The bytes to store for a configuration.
pub fn encode_config(config: &Configuration) -> (r: Result<Vec<u8>, &'static str>)
    ensures
        config@.valid(),
        match r {
            Ok(v) => config@.storable() && v@ == config@.bytes(),
            Err(e) => !config@.storable() && e@ == "Failed to serialize config"@,
        },
{
    texts_fit(config);
    match postcard_to_vec(config) {
        Ok(v) => Ok(v),
        Err(_) => Err("Failed to serialize config"),
    }
}

/// The configuration that stored bytes begin with.
pub fn decode_config(bytes: &[u8]) -> (r: Result<Configuration, &'static str>)
    ensures
        match r {
            Ok(c) => stored_config(bytes@) == Some(c@),
            Err(e) => stored_config(bytes@) is None && e@ == "Failed to deserialize config"@,
        },
{
    match postcard_from_bytes(bytes) {
        Ok(c) => {
            proof {
                law_config_read_unique(bytes@, c@, stored_config(bytes@)->Some_0);
            }
            Ok(c)
        },
        Err(_) => Err("Failed to deserialize config"),
    }
}

/// Bytes begin with at most one configuration.
pub proof fn law_config_read_unique(bytes: Seq<u8>, a: ConfigModel, b: ConfigModel)
    requires
        reads_as(bytes, a),
        reads_as(bytes, b),
    ensures
        a == b,
{
    assert(same_shape(a.fields(), b.fields()));
    lemma_reading_unique(bytes, a.fields(), b.fields(), length_width());
    lemma_fields_determine(a, b);
}

/// A configuration is determined by its fields.
proof fn lemma_fields_determine(a: ConfigModel, b: ConfigModel)
    requires
        a.fields() == b.fields(),
    ensures
        a == b,
{
    let f = a.fields();
    let g = b.fields();
    assert(f[0] == g[0] && f[1] == g[1] && f[2] == g[2] && f[3] == g[3]);
    assert(f[4] == g[4] && f[5] == g[5] && f[6] == g[6] && f[7] == g[7]);
}

/// Bytes that begin with a stored configuration are read as that configuration, whatever follows.
pub proof fn law_config_reads_back(bytes: Seq<u8>, c: ConfigModel)
    requires
        c.valid(),
        c.bytes().is_prefix_of(bytes),
    ensures
        stored_config(bytes) == Some(c),
{
    assert(texts_within(c.fields(), 127));
    lemma_message_reads_back(bytes, c.fields(), length_width());
    assert(reads_as(bytes, c));
    law_config_read_unique(bytes, c, stored_config(bytes)->Some_0);
}

/// No configuration's bytes are the beginning of another's, so that each is stored differently.
pub proof fn law_config_bytes_injective(a: ConfigModel, b: ConfigModel)
    requires
        a.valid(),
        b.valid(),
        a.bytes().is_prefix_of(b.bytes()),
    ensures
        a == b,
{
    assert(b.bytes().is_prefix_of(b.bytes())) by {
        assert(b.bytes() =~= b.bytes().subrange(0, b.bytes().len() as int));
    }
    law_config_reads_back(b.bytes(), a);
    law_config_reads_back(b.bytes(), b);
}

/// What contracts speak of is what a configuration holds, field by field.
pub proof fn law_configuration_modelled(config: Configuration)
    ensures
        config@.led_pin == config.led_pin,
        config@.name == text64(config.name),
        config@.wifi_ssid == text64(config.wifi_ssid),
        config@.wifi_password == text64(config.wifi_password),
        config@.mqtt_server == text64(config.mqtt_server),
        config@.mqtt_port == config.mqtt_port,
        config@.mqtt_username == text64(config.mqtt_username),
        config@.mqtt_password == text64(config.mqtt_password),
{
}

/// A configuration can be held exactly if each of its texts takes at most 64 bytes.
pub proof fn law_config_valid(c: ConfigModel)
    ensures
        c.valid() <==> {
            &&& byte_len(c.name) <= 64
            &&& byte_len(c.wifi_ssid) <= 64
            &&& byte_len(c.wifi_password) <= 64
            &&& byte_len(c.mqtt_server) <= 64
            &&& byte_len(c.mqtt_username) <= 64
            &&& byte_len(c.mqtt_password) <= 64
        },
{
    let f = c.fields();
    assert(f[1] == Field::Text(c.name) && f[2] == Field::Text(c.wifi_ssid));
    assert(f[3] == Field::Text(c.wifi_password) && f[4] == Field::Text(c.mqtt_server));
    assert(f[6] == Field::Text(c.mqtt_username) && f[7] == Field::Text(c.mqtt_password));
}

/// A text that is short enough is stored as a byte that counts its bytes, and those bytes.
proof fn lemma_text_bytes(s: Seq<char>)
    requires
        byte_len(s) <= 64,
    ensures
        field_bytes(Field::Text(s)) == seq![byte_len(s) as u8] + encode_utf8(s),
{
}

/// A port is stored in one to three groups of seven bits.
proof fn lemma_port_bytes(port: u16)
    ensures
        field_bytes(Field::Number(port)) == if port < 128 {
            seq![port as u8]
        } else if port < 16384 {
            seq![(port % 128 + 128) as u8, (port / 128) as u8]
        } else {
            seq![
                (port % 128 + 128) as u8,
                (port / 128 % 128 + 128) as u8,
                (port / 16384) as u8,
            ]
        },
{
    let n = port as nat;
    assert(n / 128 / 128 == n / 16384);
    reveal_with_fuel(varint_bytes, 3);
    if n < 128 {
        assert(varint_bytes(n) =~= seq![port as u8]);
    } else if n < 16384 {
        assert(varint_bytes(n) =~= seq![(port % 128 + 128) as u8, (port / 128) as u8]);
    } else {
        assert(varint_bytes(n) =~= seq![
            (port % 128 + 128) as u8,
            (port / 128 % 128 + 128) as u8,
            (port / 16384) as u8,
        ]);
    }
}

/// The stored bytes, spelled out: the pin; each text behind the number of its bytes; and, between
/// the server and the user, the port in one to three groups of seven bits.
pub proof fn law_config_bytes(c: ConfigModel)
    requires
        c.valid(),
    ensures
        c.bytes() == seq![c.led_pin] + (seq![byte_len(c.name) as u8] + encode_utf8(c.name) + (
        seq![byte_len(c.wifi_ssid) as u8] + encode_utf8(c.wifi_ssid) + (
        seq![byte_len(c.wifi_password) as u8] + encode_utf8(c.wifi_password) + (
        seq![byte_len(c.mqtt_server) as u8] + encode_utf8(c.mqtt_server) + ((
        if c.mqtt_port < 128 {
            seq![c.mqtt_port as u8]
        } else if c.mqtt_port < 16384 {
            seq![(c.mqtt_port % 128 + 128) as u8, (c.mqtt_port / 128) as u8]
        } else {
            seq![
                (c.mqtt_port % 128 + 128) as u8,
                (c.mqtt_port / 128 % 128 + 128) as u8,
                (c.mqtt_port / 16384) as u8,
            ]
        }) + (seq![byte_len(c.mqtt_username) as u8] + encode_utf8(c.mqtt_username) + (
        seq![byte_len(c.mqtt_password) as u8] + encode_utf8(c.mqtt_password)))))))),
{
    let f0 = c.fields();
    let f1 = f0.drop_first();
    let f2 = f1.drop_first();
    let f3 = f2.drop_first();
    let f4 = f3.drop_first();
    let f5 = f4.drop_first();
    let f6 = f5.drop_first();
    let f7 = f6.drop_first();
    assert(f0[1] == Field::Text(c.name) && f0[2] == Field::Text(c.wifi_ssid));
    assert(f0[3] == Field::Text(c.wifi_password) && f0[4] == Field::Text(c.mqtt_server));
    assert(f0[6] == Field::Text(c.mqtt_username) && f0[7] == Field::Text(c.mqtt_password));
    lemma_text_bytes(c.name);
    lemma_text_bytes(c.wifi_ssid);
    lemma_text_bytes(c.wifi_password);
    lemma_text_bytes(c.mqtt_server);
    lemma_text_bytes(c.mqtt_username);
    lemma_text_bytes(c.mqtt_password);
    lemma_port_bytes(c.mqtt_port);
    assert(message_bytes(f7) =~= field_bytes(f0[7])) by {
        assert(f7[0] == f0[7]);
        assert(message_bytes(f7.drop_first()) =~= Seq::empty());
    }
    assert(message_bytes(f6) == field_bytes(f0[6]) + message_bytes(f7));
    assert(message_bytes(f5) == field_bytes(f0[5]) + message_bytes(f6));
    assert(message_bytes(f4) == field_bytes(f0[4]) + message_bytes(f5));
    assert(message_bytes(f3) == field_bytes(f0[3]) + message_bytes(f4));
    assert(message_bytes(f2) == field_bytes(f0[2]) + message_bytes(f3));
    assert(message_bytes(f1) == field_bytes(f0[1]) + message_bytes(f2));
    assert(message_bytes(f0) == field_bytes(f0[0]) + message_bytes(f1));
}

/// A configuration can be stored exactly if its texts take no more bytes than are left beside the
/// pin, their six lengths and the port.
pub proof fn law_config_room(c: ConfigModel)
    requires
        c.valid(),
    ensures
        c.storable() <==> byte_len(c.name) + byte_len(c.wifi_ssid) + byte_len(c.wifi_password)
            + byte_len(c.mqtt_server) + byte_len(c.mqtt_username) + byte_len(c.mqtt_password) <= (
        if c.mqtt_port < 128 {
            248int
        } else if c.mqtt_port < 16384 {
            247
        } else {
            246
        }),
{
    law_config_bytes(c);
}

/// The outcome of reading is the one configuration that the bytes begin with, and none only where
/// they begin with none.
pub proof fn law_config_found(bytes: Seq<u8>, c: ConfigModel)
    ensures
        stored_config(bytes) == Some(c) <==> reads_as(bytes, c),
{
    if reads_as(bytes, c) {
        law_config_read_unique(bytes, c, stored_config(bytes)->Some_0);
    }
}

} // verus!
