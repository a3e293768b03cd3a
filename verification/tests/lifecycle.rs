use heapless::String;
use pico_demo_device::command::parse_command;
use pico_demo_device::config::encode_config;
use pico_demo_device::effect::{MqttSession, Publication};
use pico_demo_device::lifecycle::{CheckStage, InitStage, RunStage};
use pico_demo_device::network::{MqttStage, WifiStage};
use pico_demo_device::{
    Action, Configuration, DemoDevice, DemoDeviceBuilder, DeviceState, Effect, Fault,
    LedCommandParameter, Peripherals, PicoCommand, Reply, Turn,
};

type Device = DemoDevice<Peripherals<(), (), (), (), (), (), ()>>;

/// What a device did: its effects, and the fault that it stopped on, if it did.
type Trace = (Vec<Action>, Option<Fault>);

fn text<const N: usize>(s: &str) -> String<N> {
    let mut r = String::new();
    r.push_str(s).unwrap();
    r
}

fn device() -> Device {
    let id: &'static String<16> = Box::leak(Box::new(text("A1")));
    DemoDeviceBuilder::new()
        .with_id(id)
        .with_command_receiver(())
        .with_stack(())
        .with_flash(())
        .with_control(())
        .with_adc((), ())
        .with_watchdog(())
        .build(0)
}

fn config() -> Configuration {
    Configuration {
        led_pin: 0,
        name: text("Kitchen"),
        wifi_ssid: text("net"),
        wifi_password: text("secret"),
        mqtt_server: text("10.0.0.1"),
        mqtt_port: 1884,
        mqtt_username: text("user"),
        mqtt_password: text("pass"),
    }
}

fn configured() -> Device {
    let mut d = device();
    d.set_config(config());
    d
}

fn send(leaf: &str, payload: &str) -> Action {
    Effect::Send(Publication {
        topic: text(&format!("device/A1/{}", leaf)),
        payload: text(payload),
        qos: 1,
        retain: true,
    })
}

/// The replies of a world in which everything succeeds, except where a list of replies says
/// otherwise: each effect takes the first reply of the list that is meant for its kind.
struct World {
    scripted: Vec<(fn(&Action) -> bool, Reply)>,
}

impl World {
    fn reply(&mut self, effect: &Action) -> Reply {
        if let Some(i) = self.scripted.iter().position(|(meant, _)| meant(effect)) {
            return self.scripted.remove(i).1;
        }
        match effect {
            Effect::SampleTemperature => Reply::Temperature(215),
            Effect::EncodeState(_) => Reply::Json(text("{}")),
            Effect::ReadClock => Reply::Clock(0),
            Effect::ReadFlash { .. } => Reply::Flash(vec![0xff; 256]),
            Effect::ReceiveCommand => Reply::Ack(false),
            _ => Reply::Ack(true),
        }
    }
}

fn init(d: &mut Device, scripted: Vec<(fn(&Action) -> bool, Reply)>) -> Trace {
    let mut world = World { scripted };
    let mut effects = Vec::new();
    let mut at = InitStage::Start;
    let mut reply = Reply::Ack(true);
    loop {
        match d.init(at, reply) {
            Turn::Perform(effect, next) => {
                reply = world.reply(&effect);
                effects.push(effect);
                at = next;
            }
            Turn::Done(()) => return (effects, None),
            Turn::Halt(fault) => return (effects, Some(fault)),
        }
    }
}

fn run(d: &mut Device, scripted: Vec<(fn(&Action) -> bool, Reply)>) -> Trace {
    let mut world = World { scripted };
    let mut effects = Vec::new();
    let mut at = RunStage::Start;
    let mut reply = Reply::Ack(true);
    loop {
        match d.run(at, reply) {
            Turn::Perform(effect, next) => {
                reply = world.reply(&effect);
                effects.push(effect);
                at = next;
            }
            Turn::Done(()) => return (effects, None),
            Turn::Halt(fault) => return (effects, Some(fault)),
        }
    }
}

fn connect_mqtt(d: &mut Device, scripted: Vec<(fn(&Action) -> bool, Reply)>) -> Trace {
    let mut world = World { scripted };
    let mut effects = Vec::new();
    let mut at = MqttStage::Start;
    let mut reply = Reply::Ack(true);
    loop {
        match d.connect_mqtt(at, reply) {
            Turn::Perform(effect, next) => {
                reply = world.reply(&effect);
                effects.push(effect);
                at = next;
            }
            Turn::Done(()) => return (effects, None),
            Turn::Halt(fault) => return (effects, Some(fault)),
        }
    }
}

fn connect_wifi(d: &Device, scripted: Vec<(fn(&Action) -> bool, Reply)>) -> Trace {
    let mut world = World { scripted };
    let mut effects = Vec::new();
    let mut at = WifiStage::Start;
    let mut reply = Reply::Ack(true);
    loop {
        match d.connect_wifi(at, reply) {
            Turn::Perform(effect, next) => {
                reply = world.reply(&effect);
                effects.push(effect);
                at = next;
            }
            Turn::Done(()) => return (effects, None),
            Turn::Halt(fault) => return (effects, Some(fault)),
        }
    }
}

fn opening() -> Vec<Action> {
    vec![
        Effect::SavePower,
        drive(true),
        Effect::Sleep(1000),
        drive(false),
        Effect::Sleep(1000),
        drive(true),
        Effect::Sleep(1000),
        drive(false),
        Effect::Sleep(1000),
        Effect::ReadFlash {
            offset: 0x100000,
            length: 256,
        },
    ]
}

fn drive(level: bool) -> Action {
    Effect::DriveLed { line: 0, level }
}

fn joining() -> Action {
    Effect::JoinWifi {
        ssid: text("net"),
        password: text("secret"),
    }
}

fn wifi_effects() -> Vec<Action> {
    vec![
        joining(),
        Effect::QueryConfigUp,
        Effect::QueryLinkUp,
        Effect::WaitConfigUp,
    ]
}

fn mqtt_effects() -> Vec<Action> {
    vec![
        Effect::Dial {
            address: (10, 0, 0, 1),
            port: 1883,
        },
        Effect::FeedWatchdog,
        Effect::OpenSession(MqttSession {
            version: 5,
            packet_seed: 20000,
            client_id: text("device-A1"),
            username: text("user"),
            password: text("pass"),
            will_topic: text("device/A1/status"),
            will_payload: text("DISCONNECTED"),
            will_retain: true,
            max_subscribe_qos: 1,
            max_packet_size: 100,
        }),
        Effect::FeedWatchdog,
        Effect::Subscribe(text("device/A1/command")),
        send("status", "CONNECTED"),
        send("name", "Kitchen"),
        Effect::FeedWatchdog,
    ]
}

#[test]
fn wifi_is_joined() {
    assert_eq!(connect_wifi(&configured(), vec![]), (wifi_effects(), None));
    assert_eq!(
        connect_wifi(&device(), vec![]),
        (vec![], Some(Fault::NotConfigured))
    );
}

#[test]
fn wifi_is_waited_for() {
    let (effects, fault) = connect_wifi(
        &configured(),
        vec![
            (|e| matches!(e, Effect::JoinWifi { .. }), Reply::Ack(false)),
            (|e| matches!(e, Effect::JoinWifi { .. }), Reply::Clock(1)),
            (|e| *e == Effect::QueryConfigUp, Reply::Ack(false)),
            (|e| *e == Effect::QueryLinkUp, Reply::Ack(false)),
            (|e| *e == Effect::QueryLinkUp, Reply::Ack(false)),
        ],
    );
    assert_eq!(fault, None);
    assert_eq!(
        effects,
        vec![
            joining(),
            joining(),
            joining(),
            Effect::QueryConfigUp,
            Effect::Sleep(100),
            Effect::QueryConfigUp,
            Effect::QueryLinkUp,
            Effect::Sleep(500),
            Effect::QueryLinkUp,
            Effect::Sleep(500),
            Effect::QueryLinkUp,
            Effect::WaitConfigUp,
        ]
    );
}

#[test]
fn broker_is_connected_to() {
    let mut d = configured();
    assert_eq!(connect_mqtt(&mut d, vec![]), (mqtt_effects(), None));
    assert!(d.mqtt_connected);
}

#[test]
fn a_session_that_is_not_opened_is_gone_on_with() {
    let mut d = configured();
    let refused: Vec<(fn(&Action) -> bool, Reply)> = vec![(
        |e| matches!(e, Effect::OpenSession(_)),
        Reply::Ack(false),
    )];
    assert_eq!(connect_mqtt(&mut d, refused), (mqtt_effects(), None));
}

#[test]
fn broker_faults_stop_the_device() {
    let is_dial: fn(&Action) -> bool = |e| matches!(e, Effect::Dial { .. });
    let is_subscribe: fn(&Action) -> bool = |e| matches!(e, Effect::Subscribe(_));
    let is_status: fn(&Action) -> bool = |e| *e == send("status", "CONNECTED");
    let is_name: fn(&Action) -> bool = |e| *e == send("name", "Kitchen");
    for (meant, performed, fault) in [
        (is_dial, 1, Fault::BrokerUnreachable),
        (is_subscribe, 5, Fault::SubscribeFailed),
        (is_status, 6, Fault::SendFailed),
        (is_name, 7, Fault::SendFailed),
    ] {
        let mut d = configured();
        let (effects, stopped) = connect_mqtt(&mut d, vec![(meant, Reply::Ack(false))]);
        assert_eq!(effects, mqtt_effects()[..performed]);
        assert_eq!(stopped, Some(fault));
        assert!(!d.mqtt_connected);
    }
}

#[test]
fn broker_needs_a_configuration_and_an_address() {
    assert_eq!(
        connect_mqtt(&mut device(), vec![]),
        (vec![], Some(Fault::NotConfigured))
    );
    let mut d = device();
    d.set_config(Configuration {
        mqtt_server: text("broker.local"),
        ..config()
    });
    assert_eq!(
        connect_mqtt(&mut d, vec![]),
        (vec![], Some(Fault::BadServerAddress))
    );
}

#[test]
fn stored_configuration_is_started_with() {
    let mut d = device();
    let mut flash = encode_config(&config()).unwrap();
    flash.resize(256, 0xff);
    let (effects, fault) = init(
        &mut d,
        vec![(|e| matches!(e, Effect::ReadFlash { .. }), Reply::Flash(flash))],
    );
    let mut expected = opening();
    expected.push(Effect::Sleep(5000));
    expected.extend(wifi_effects());
    expected.extend(mqtt_effects());
    expected.push(Effect::StartWatchdog(5000));
    assert_eq!(effects, expected);
    assert_eq!(fault, None);
    assert!(d.mqtt_connected);
    assert_eq!(d.get_config(), Some(&config()));
}

#[test]
fn configuration_is_waited_for() {
    let mut d = device();
    let (effects, fault) = init(
        &mut d,
        vec![
            (|e| *e == Effect::ReceiveCommand, Reply::Ack(false)),
            (
                |e| *e == Effect::ReceiveCommand,
                Reply::Command(Ok(PicoCommand::SetConfig(config()))),
            ),
        ],
    );
    let flash = vec![
        Effect::Sleep(1000),
        drive(true),
        Effect::Sleep(100),
        drive(false),
    ];
    let mut expected = opening();
    expected.push(Effect::ReceiveCommand);
    expected.extend(flash);
    expected.push(Effect::ReceiveCommand);
    expected.push(Effect::EraseFlash {
        from: 0x100000,
        to: 0x101000,
    });
    expected.push(Effect::WriteFlash {
        offset: 0x100000,
        bytes: encode_config(&config()).unwrap(),
    });
    expected.push(Effect::Report(Ok(text("Config set"))));
    expected.extend(vec![
        Effect::Sleep(1000),
        drive(true),
        Effect::Sleep(100),
        drive(false),
    ]);
    expected.extend(wifi_effects());
    expected.extend(mqtt_effects());
    expected.push(Effect::StartWatchdog(5000));
    assert_eq!(effects, expected);
    assert_eq!(fault, None);
}

#[test]
fn the_led_is_dark_after_the_start() {
    let mut d = device();
    let (effects, fault) = init(
        &mut d,
        vec![
            (
                |e| *e == Effect::ReceiveCommand,
                Reply::Command(Ok(PicoCommand::Led(LedCommandParameter::On))),
            ),
            (
                |e| *e == Effect::ReceiveCommand,
                Reply::Command(Ok(PicoCommand::SetConfig(config()))),
            ),
        ],
    );
    assert_eq!(fault, None);
    assert!(!d.current_led_state);
    let last_switch = effects.iter().rev().find(|e| matches!(e, Effect::DriveLed { .. }));
    assert_eq!(last_switch, Some(&drive(false)));
    let starts = effects.iter().filter(|e| matches!(e, Effect::StartWatchdog(_)));
    assert_eq!(starts.count(), 1);
    let mut end = vec![Effect::WaitConfigUp];
    end.extend(mqtt_effects());
    end.push(Effect::StartWatchdog(5000));
    assert!(effects.ends_with(&end));
}

#[test]
fn a_configuration_that_cannot_be_described_stops_the_start() {
    let long = Configuration {
        wifi_ssid: text(&"s".repeat(64)),
        wifi_password: text(&"p".repeat(64)),
        ..config()
    };
    assert!(format!("{:?}", Some(long.clone())).len() > 256);
    let mut d = device();
    let flash = encode_config(&long).unwrap();
    let (effects, fault) = init(
        &mut d,
        vec![(|e| matches!(e, Effect::ReadFlash { .. }), Reply::Flash(flash))],
    );
    assert_eq!(effects, opening());
    assert_eq!(fault, Some(Fault::ConfigNotDescribed));
    assert_eq!(d.get_config(), Some(&long));
}

#[test]
fn a_failed_start_tells_why() {
    let mut d = device();
    let flash = encode_config(&Configuration {
        mqtt_server: text("nowhere"),
        ..config()
    })
    .unwrap();
    let (_, fault) = init(
        &mut d,
        vec![(|e| matches!(e, Effect::ReadFlash { .. }), Reply::Flash(flash))],
    );
    assert_eq!(fault, Some(Fault::BadServerAddress));
}

#[test]
fn no_command_is_nothing_to_do() {
    let mut d = device();
    assert_eq!(
        d.check_for_command(CheckStage::Start, Reply::Ack(true)),
        Turn::Perform(Effect::ReceiveCommand, CheckStage::Receiving)
    );
    assert_eq!(
        d.check_for_command(CheckStage::Receiving, Reply::Ack(false)),
        Turn::Done(())
    );
}

#[test]
fn a_refused_line_is_reported() {
    let mut d = device();
    let refused = parse_command(text("LED BLINK"), |_| None);
    assert_eq!(
        d.check_for_command(CheckStage::Receiving, Reply::Command(refused)),
        Turn::Perform(
            Effect::Report(Err("Invalid value for LED")),
            CheckStage::Reporting
        )
    );
    assert_eq!(
        d.check_for_command(CheckStage::Reporting, Reply::Ack(true)),
        Turn::Done(())
    );
}

#[test]
fn a_round_carries_out_a_command() {
    let mut d = device();
    let (effects, fault) = run(
        &mut d,
        vec![(
            |e| *e == Effect::ReceiveCommand,
            Reply::Command(Ok(PicoCommand::Led(LedCommandParameter::On))),
        )],
    );
    assert_eq!(
        effects,
        vec![
            Effect::FeedWatchdog,
            Effect::ReceiveCommand,
            drive(true),
            Effect::Report(Ok(text("LED set to true"))),
            Effect::ReadClock,
        ]
    );
    assert_eq!(fault, None);
    assert!(d.current_led_state);
}

#[test]
fn a_round_takes_one_command_before_it_publishes() {
    let mut d = configured();
    d.mqtt_connected = true;
    let receive: fn(&Action) -> bool = |e| *e == Effect::ReceiveCommand;
    let at: fn(&Action) -> bool = |e| *e == Effect::ReadClock;
    let led = || Reply::Command(Ok(PicoCommand::Led(LedCommandParameter::Toggle)));
    let (effects, fault) = run(
        &mut d,
        vec![(receive, led()), (receive, led()), (at, Reply::Clock(2_000_000))],
    );
    assert_eq!(fault, None);
    let state = || {
        Effect::EncodeState(DeviceState {
            temperature: 215,
            led_state: true,
        })
    };
    assert_eq!(
        effects,
        vec![
            Effect::FeedWatchdog,
            Effect::ReceiveCommand,
            drive(true),
            Effect::SampleTemperature,
            state(),
            send("state", "{}"),
            Effect::Report(Ok(text("LED set to true"))),
            Effect::ReadClock,
            Effect::SampleTemperature,
            state(),
            send("state", "{}"),
            Effect::ReadClock,
        ]
    );
}

#[test]
fn publications_are_paced() {
    let mut d = configured();
    d.mqtt_connected = true;
    let early = vec![Effect::FeedWatchdog, Effect::ReceiveCommand, Effect::ReadClock];

    // After exactly a second it is still too early.
    let at: fn(&Action) -> bool = |e| *e == Effect::ReadClock;
    let (effects, fault) = run(&mut d, vec![(at, Reply::Clock(1_000_000))]);
    assert_eq!((effects, fault), (early, None));
    assert_eq!(d.last_publish, 0);

    let (effects, fault) = run(
        &mut d,
        vec![(at, Reply::Clock(1_000_001)), (at, Reply::Clock(1_000_050))],
    );
    assert_eq!(
        effects,
        vec![
            Effect::FeedWatchdog,
            Effect::ReceiveCommand,
            Effect::ReadClock,
            Effect::SampleTemperature,
            Effect::EncodeState(DeviceState {
                temperature: 215,
                led_state: false
            }),
            send("state", "{}"),
            Effect::ReadClock,
        ]
    );
    assert_eq!(fault, None);
    assert_eq!(d.last_publish, 1_000_050);

    let (effects, _) = run(&mut d, vec![(at, Reply::Clock(2_000_050))]);
    assert_eq!(effects.len(), 3);
}

#[test]
fn time_is_noted_without_a_session() {
    let mut d = device();
    let at: fn(&Action) -> bool = |e| *e == Effect::ReadClock;
    let (effects, fault) = run(
        &mut d,
        vec![(at, Reply::Clock(5_000_000)), (at, Reply::Clock(5_000_001))],
    );
    assert_eq!(
        effects,
        vec![
            Effect::FeedWatchdog,
            Effect::ReceiveCommand,
            Effect::ReadClock,
            Effect::ReadClock,
        ]
    );
    assert_eq!(fault, None);
    assert_eq!(d.last_publish, 5_000_001);
}

#[test]
fn rounds_stop_on_faults() {
    let mut d = device();
    d.last_publish = 10;
    let at: fn(&Action) -> bool = |e| *e == Effect::ReadClock;
    let (_, fault) = run(&mut d, vec![(at, Reply::Clock(9))]);
    assert_eq!(fault, Some(Fault::ClockFailed));

    let mut d = configured();
    d.mqtt_connected = true;
    let due = || Reply::Clock(2_000_000);
    let sample: fn(&Action) -> bool = |e| *e == Effect::SampleTemperature;
    let (_, fault) = run(&mut d, vec![(at, due()), (sample, Reply::Ack(false))]);
    assert_eq!(fault, Some(Fault::SensorFailed));
    let encode: fn(&Action) -> bool = |e| matches!(e, Effect::EncodeState(_));
    let (_, fault) = run(&mut d, vec![(at, due()), (encode, Reply::Ack(false))]);
    assert_eq!(fault, Some(Fault::StateNotEncoded));
    let sending: fn(&Action) -> bool = |e| matches!(e, Effect::Send(_));
    let (_, fault) = run(&mut d, vec![(at, due()), (sending, Reply::Ack(false))]);
    assert_eq!(fault, Some(Fault::SendFailed));
    assert_eq!(d.last_publish, 0);
}
