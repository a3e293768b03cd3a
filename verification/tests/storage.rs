use heapless::String;
use pico_demo_device::config::{decode_config, encode_config, ADDR_OFFSET, SECTOR_SIZE};
use pico_demo_device::storage::{LoadStage, StoreStage};
use pico_demo_device::{Configuration, DemoDevice, DemoDeviceBuilder, Effect, Peripherals, Reply, Turn};

type Device = DemoDevice<Peripherals<(), (), (), (), (), (), ()>>;

fn device() -> Device {
    let id: &'static String<16> = Box::leak(Box::new(text("A1")));
    DemoDeviceBuilder::new()
        .with_id(id)
        .with_command_receiver(())
        .with_stack(())
        .with_flash(())
        .with_control(())
        .with_adc((), ())
        .with_watchdog(())
        .build(0)
}

fn text<const N: usize>(s: &str) -> String<N> {
    let mut r = String::new();
    r.push_str(s).unwrap();
    r
}

fn config(name: &str, port: u16) -> Configuration {
    Configuration {
        led_pin: 7,
        name: text(name),
        wifi_ssid: text("net"),
        wifi_password: text(""),
        mqtt_server: text("10.0.0.1"),
        mqtt_port: port,
        mqtt_username: text("u"),
        mqtt_password: text("pw"),
    }
}

fn expected_bytes(name: &str, port: &[u8]) -> Vec<u8> {
    let mut v = vec![7, name.len() as u8];
    v.extend_from_slice(name.as_bytes());
    v.extend_from_slice(b"\x03net\x00\x0810.0.0.1");
    v.extend_from_slice(port);
    v.extend_from_slice(b"\x01u\x02pw");
    v
}

#[test]
fn configuration_bytes() {
    assert_eq!(encode_config(&config("Ä", 5)), Ok(expected_bytes("Ä", &[5])));
    assert_eq!(encode_config(&config("x", 127)), Ok(expected_bytes("x", &[127])));
    assert_eq!(encode_config(&config("x", 128)), Ok(expected_bytes("x", &[128, 1])));
    assert_eq!(
        encode_config(&config("x", 1883)),
        Ok(expected_bytes("x", &[0xdb, 0x0e]))
    );
    assert_eq!(
        encode_config(&config("x", 65535)),
        Ok(expected_bytes("x", &[0xff, 0xff, 0x03]))
    );
}

#[test]
fn stored_configuration_reads_back() {
    for port in [0, 127, 128, 1883, 16383, 16384, 65535] {
        let c = config("Wohnzimmer Ü", port);
        let mut bytes = encode_config(&c).unwrap();
        assert_eq!(decode_config(&bytes), Ok(c.clone()));
        bytes.resize(256, 0xff);
        assert_eq!(decode_config(&bytes), Ok(c));
    }
}

#[test]
fn superfluous_zero_groups_are_read() {
    let c = config("x", 5);
    assert_eq!(decode_config(&expected_bytes("x", &[0x85, 0x80, 0x00])), Ok(c.clone()));
    let mut bytes = vec![7, 0x81, 0x00];
    bytes.extend_from_slice(&expected_bytes("x", &[5])[2..]);
    assert_eq!(decode_config(&bytes), Ok(c));
}

#[test]
fn malformed_bytes_are_refused() {
    let refused = Err("Failed to deserialize config");
    assert_eq!(decode_config(&[]), refused);
    assert_eq!(decode_config(&[0xff; 256]), refused);
    let whole = expected_bytes("x", &[5]);
    assert_eq!(decode_config(&whole[..whole.len() - 1]), refused);
    // Too large a number, not UTF-8, and too long a text.
    assert_eq!(decode_config(&expected_bytes("x", &[0xff, 0xff, 0x04])), refused);
    let mut bad = whole.clone();
    bad[2] = 0xff;
    assert_eq!(decode_config(&bad), refused);
    let mut long = vec![7, 65];
    long.extend_from_slice(&[b'a'; 65]);
    long.extend_from_slice(&whole[3..]);
    assert_eq!(decode_config(&long), refused);
}

fn filled(lengths: [usize; 6]) -> Configuration {
    let t = |n: usize| text(&"a".repeat(n));
    Configuration {
        led_pin: 1,
        name: t(lengths[0]),
        wifi_ssid: t(lengths[1]),
        wifi_password: t(lengths[2]),
        mqtt_server: t(lengths[3]),
        mqtt_port: 1,
        mqtt_username: t(lengths[4]),
        mqtt_password: t(lengths[5]),
    }
}

#[test]
fn a_configuration_must_fit_its_space() {
    // Two numbers, six lengths and the texts.
    let fits = filled([64, 64, 64, 56, 0, 0]);
    assert_eq!(encode_config(&fits).unwrap().len(), 256);
    assert_eq!(decode_config(&encode_config(&fits).unwrap()), Ok(fits));
    let too_long = filled([64, 64, 64, 57, 0, 0]);
    assert_eq!(encode_config(&too_long), Err("Failed to serialize config"));
}

#[test]
fn cloned_configuration_is_equal() {
    let c = config("x", 9);
    assert_eq!(c.clone(), c);
}

#[test]
fn writing_erases_then_writes() {
    let d = device();
    let c = config("x", 1883);
    assert_eq!(
        d.write_config(&c, StoreStage::Start, Reply::Ack(true)),
        Turn::Perform(
            Effect::EraseFlash { from: 0x100000, to: 0x101000 },
            StoreStage::Erasing
        )
    );
    assert_eq!(
        d.write_config(&c, StoreStage::Erasing, Reply::Ack(true)),
        Turn::Perform(
            Effect::WriteFlash {
                offset: 0x100000,
                bytes: expected_bytes("x", &[0xdb, 0x0e])
            },
            StoreStage::Writing
        )
    );
    assert_eq!(
        d.write_config(&c, StoreStage::Writing, Reply::Ack(true)),
        Turn::Done(Ok(()))
    );
}

#[test]
fn writing_fails_where_flash_does() {
    let d = device();
    let c = config("x", 1883);
    assert_eq!(
        d.write_config(&filled([64; 6]), StoreStage::Start, Reply::Ack(true)),
        Turn::Done(Err("Failed to serialize config"))
    );
    assert_eq!(
        d.write_config(&c, StoreStage::Erasing, Reply::Ack(false)),
        Turn::Done(Err("Failed to erase flash"))
    );
    assert_eq!(
        d.write_config(&c, StoreStage::Writing, Reply::Ack(false)),
        Turn::Done(Err("Failed to write config"))
    );
}

#[test]
fn reading_takes_over_what_was_written() {
    let mut flash = vec![0x5a_u8; (ADDR_OFFSET + SECTOR_SIZE) as usize];
    let mut d = device();
    let c = config("Kitchen", 1883);
    let mut at = StoreStage::Start;
    loop {
        match d.write_config(&c, at, Reply::Ack(true)) {
            Turn::Perform(Effect::EraseFlash { from, to }, next) => {
                flash[from as usize..to as usize].fill(0xff);
                at = next;
            }
            Turn::Perform(Effect::WriteFlash { offset, bytes }, next) => {
                for (i, b) in bytes.iter().enumerate() {
                    flash[offset as usize + i] &= b;
                }
                at = next;
            }
            other => {
                assert_eq!(other, Turn::Done(Ok(())));
                break;
            }
        }
    }
    assert_eq!(d.get_config(), None);
    let read = match d.read_config(LoadStage::Start, Reply::Ack(true)) {
        Turn::Perform(Effect::ReadFlash { offset, length }, LoadStage::Loading) => {
            flash[offset as usize..offset as usize + length].to_vec()
        }
        other => panic!("{:?}", other),
    };
    assert_eq!(read.len(), 256);
    assert_eq!(
        d.read_config(LoadStage::Loading, Reply::Flash(read)),
        Turn::Done(Ok(()))
    );
    assert_eq!(d.get_config(), Some(&c));
}

#[test]
fn reading_keeps_the_configuration_on_failure() {
    let mut d = device();
    let c = config("x", 1);
    d.set_config(c.clone());
    assert_eq!(
        d.read_config(LoadStage::Loading, Reply::Ack(false)),
        Turn::Done(Err("Failed to read config"))
    );
    assert_eq!(
        d.read_config(LoadStage::Loading, Reply::Flash(vec![0xff; 256])),
        Turn::Done(Err("Failed to deserialize config"))
    );
    assert_eq!(d.get_config(), Some(&c));
}

#[test]
fn no_stored_configuration_begins_another() {
    let stored: Vec<Vec<u8>> = ["", "a", "ab", "b"]
        .iter()
        .flat_map(|name| [0, 5, 128, 1883].map(|port| encode_config(&config(name, port)).unwrap()))
        .collect();
    for (i, a) in stored.iter().enumerate() {
        for (j, b) in stored.iter().enumerate() {
            assert_eq!(b.starts_with(a), i == j);
        }
    }
}
