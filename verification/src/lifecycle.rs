//! Starting up, and what the device does over and over from then on.
use vstd::prelude::*;
use crate::command::{LedCommandParameter, PicoCommand};
use crate::config::{
    law_config_found, reads_as, stored_config, ConfigModel, ADDR_OFFSET, CONFIG_SIZE,
};
use crate::description::{describe, description, DESCRIPTION_SIZE};
use crate::device::{
    led_after, publish_turn, DemoDevice, DeviceModel, JsonStage, PublishStage, ReadStage, LED_LINE,
};
use crate::effect::{Action, ActionModel, Effect, Fault, Modelled, Reply, Turn};
use crate::execute::{command_turn, CommandStage};
use crate::history::History;
use crate::mqtt::ipv4_address;
use crate::network::{
    law_wifi_steps, mqtt_effects, mqtt_stages, mqtt_turn, wifi_turn, MqttStage, WifiStage, WifiTurn,
};
use crate::storage::{load_turn, LoadStage};
use crate::text::byte_len;

verus! {

/// How long the LED is lit and dark when the device starts, in milliseconds.
pub const BLINK_MS: u64 = 1000;

/// The time for which a device that was configured before waits until it connects, in
/// milliseconds.
pub const SETTLE_MS: u64 = 5000;

/// The time between two looks for a command while there is no configuration, in milliseconds.
pub const WAIT_MS: u64 = 1000;

/// How long the LED is lit between two such looks, in milliseconds.
pub const FLASH_MS: u64 = 100;

/// The time after which the watchdog restarts a device that does not put it off, in milliseconds.
pub const WATCHDOG_MS: u64 = 5000;

/// The time that has to go by between two publications of the state, in milliseconds.
pub const PUBLISH_MS: u64 = 1000;

/// The number of clock ticks in a millisecond.
pub const TICKS_PER_MS: u64 = 1000;

/// Where the handling of a command that may have come in stands.
#[derive(Debug, PartialEq)]
pub enum CheckStage {
    Start,
    Receiving,
    Executing(CommandStage),
    Reporting,
}

/// Where a round stands.
#[derive(Debug, PartialEq)]
pub enum RunStage {
    Start,
    Feeding,
    Checking(CheckStage),
    Timing,
    Publishing(PublishStage),
    Stamping,
}

/// Where the start stands. The number counts the blinks that are still to come.
#[derive(Debug, PartialEq)]
pub enum InitStage {
    Start,
    SavingPower,
    BlinkLighting(u8),
    BlinkLit(u8),
    BlinkDarkening(u8),
    BlinkDark(u8),
    Loading(LoadStage),
    Settling,
    Checking(CheckStage),
    Waiting,
    FlashLighting,
    FlashLit,
    FlashDarkening,
    JoiningWifi(WifiStage),
    JoiningMqtt(MqttStage),
    Guarding,
}

/// What a step in handling a command that may have come in comes to, by its values.
pub type CheckTurn = Turn<ActionModel, CheckStage, ()>;

/// What a step of a round comes to, by its values.
pub type RunTurn = Turn<ActionModel, RunStage, ()>;

/// What a step of the start comes to, by its values.
pub type InitTurn = Turn<ActionModel, InitStage, ()>;

/// A step while a command is carried out. Its answer is reported.
pub open spec fn executing_turn(dev: DeviceModel, stage: CommandStage, reply: Reply) -> (
    DeviceModel,
    CheckTurn,
) {
    let (next_dev, turn) = command_turn(dev, stage, reply);
    (
        next_dev,
        match turn {
            Turn::Perform(action, next) => Turn::Perform(action, CheckStage::Executing(next)),
            Turn::Done(answer) => Turn::Perform(Effect::Report(answer), CheckStage::Reporting),
            Turn::Halt(fault) => Turn::Halt(fault),
        },
    )
}

/// A step in handling a command that may have come in, and what the device remembers after it: if
/// there is none, nothing is done; one that was refused is reported as such; any other is carried
/// out.
pub open spec fn check_turn(dev: DeviceModel, at: CheckStage, reply: Reply) -> (
    DeviceModel,
    CheckTurn,
) {
    match at {
        CheckStage::Start => (dev, Turn::Perform(Effect::ReceiveCommand, CheckStage::Receiving)),
        CheckStage::Receiving => match reply {
            Reply::Command(Ok(command)) => executing_turn(
                dev,
                CommandStage::Start(command),
                Reply::Ack(true),
            ),
            Reply::Command(Err(message)) => (
                dev,
                Turn::Perform(Effect::Report(Err(message@)), CheckStage::Reporting),
            ),
            _ => (dev, Turn::Done(())),
        },
        CheckStage::Executing(stage) => executing_turn(dev, stage, reply),
        CheckStage::Reporting => (dev, Turn::Done(())),
    }
}

/// Whether more than the publication interval has gone by since the state was last published.
pub open spec fn publish_due(dev: DeviceModel, now: u64) -> bool {
    now - dev.last_publish > PUBLISH_MS * TICKS_PER_MS
}

/// A step of a round while a command that may have come in is handled.
pub open spec fn run_checking_turn(dev: DeviceModel, stage: CheckStage, reply: Reply) -> (
    DeviceModel,
    RunTurn,
) {
    let (next_dev, turn) = check_turn(dev, stage, reply);
    (
        next_dev,
        match turn {
            Turn::Perform(action, next) => Turn::Perform(action, RunStage::Checking(next)),
            Turn::Done(()) => Turn::Perform(Effect::ReadClock, RunStage::Timing),
            Turn::Halt(fault) => Turn::Halt(fault),
        },
    )
}

/// A step of a round while the state is published.
pub open spec fn run_publishing_turn(dev: DeviceModel, stage: PublishStage, reply: Reply) -> RunTurn {
    match publish_turn(dev, stage, reply) {
        Turn::Perform(action, next) => Turn::Perform(action, RunStage::Publishing(next)),
        Turn::Done(()) => Turn::Perform(Effect::ReadClock, RunStage::Stamping),
        Turn::Halt(fault) => Turn::Halt(fault),
    }
}

/// A step of a round, and what the device remembers after it: the watchdog is put off, a command
/// that may have come in is handled, and the state is published if that is due.
pub open spec fn run_turn(dev: DeviceModel, at: RunStage, reply: Reply) -> (DeviceModel, RunTurn) {
    match at {
        RunStage::Start => (dev, Turn::Perform(Effect::FeedWatchdog, RunStage::Feeding)),
        RunStage::Feeding => run_checking_turn(dev, CheckStage::Start, Reply::Ack(true)),
        RunStage::Checking(stage) => run_checking_turn(dev, stage, reply),
        RunStage::Timing => (
            dev,
            match reply {
                Reply::Clock(now) => if now < dev.last_publish {
                    Turn::Halt(Fault::ClockFailed)
                } else if publish_due(dev, now) {
                    run_publishing_turn(dev, PublishStage::Start, Reply::Ack(true))
                } else {
                    Turn::Done(())
                },
                _ => Turn::Halt(Fault::ClockFailed),
            },
        ),
        RunStage::Publishing(stage) => (dev, run_publishing_turn(dev, stage, reply)),
        RunStage::Stamping => match reply {
            Reply::Clock(now) => (DeviceModel { last_publish: now, ..dev }, Turn::Done(())),
            _ => (dev, Turn::Halt(Fault::ClockFailed)),
        },
    }
}

/// The effect that sets the LED.
pub open spec fn drive(level: bool) -> ActionModel {
    Effect::DriveLed { line: LED_LINE, level }
}

/// The LED is switched as part of the start.
pub open spec fn switch_turn(dev: DeviceModel, value: LedCommandParameter, next: InitStage) -> (
    DeviceModel,
    InitTurn,
) {
    let led = led_after(value, dev.led);
    (DeviceModel { led, ..dev }, Turn::Perform(drive(led), next))
}

/// A step of the start while a command that may have come in is handled.
pub open spec fn init_checking_turn(dev: DeviceModel, stage: CheckStage, reply: Reply) -> (
    DeviceModel,
    InitTurn,
) {
    let (next_dev, turn) = check_turn(dev, stage, reply);
    (
        next_dev,
        match turn {
            Turn::Perform(action, next) => Turn::Perform(action, InitStage::Checking(next)),
            Turn::Done(()) => Turn::Perform(Effect::Sleep(WAIT_MS), InitStage::Waiting),
            Turn::Halt(fault) => Turn::Halt(fault),
        },
    )
}

/// A step of the start while the network is joined.
pub open spec fn init_wifi_turn(dev: DeviceModel, stage: WifiStage, reply: Reply) -> (
    DeviceModel,
    InitTurn,
) {
    match wifi_turn(dev, stage, reply) {
        Turn::Perform(action, next) => (dev, Turn::Perform(action, InitStage::JoiningWifi(next))),
        Turn::Done(()) => init_mqtt_turn(dev, MqttStage::Start, Reply::Ack(true)),
        Turn::Halt(fault) => (dev, Turn::Halt(fault)),
    }
}

/// A step of the start while the broker is connected to.
pub open spec fn init_mqtt_turn(dev: DeviceModel, stage: MqttStage, reply: Reply) -> (
    DeviceModel,
    InitTurn,
) {
    let (next_dev, turn) = mqtt_turn(dev, stage, reply);
    (
        next_dev,
        match turn {
            Turn::Perform(action, next) => Turn::Perform(action, InitStage::JoiningMqtt(next)),
            Turn::Done(()) => Turn::Perform(
                Effect::StartWatchdog(WATCHDOG_MS),
                InitStage::Guarding,
            ),
            Turn::Halt(fault) => Turn::Halt(fault),
        },
    )
}

/// The start goes on: by looking for a command while there is no configuration, and by connecting
/// once there is one.
pub open spec fn proceed_turn(dev: DeviceModel) -> (DeviceModel, InitTurn) {
    if dev.config is None {
        init_checking_turn(dev, CheckStage::Start, Reply::Ack(true))
    } else {
        init_wifi_turn(dev, WifiStage::Start, Reply::Ack(true))
    }
}

/// Whether there is room for the description of the device's configuration.
pub open spec fn describable(dev: DeviceModel) -> bool {
    dev.config matches Some(c) ==> byte_len(description(c)) <= DESCRIPTION_SIZE
}

/// A step of the start while the configuration is read: with one, there is a pause before the start
/// goes on, but the device stops if there is no room to describe it; without one, the start goes on
/// at once.
pub open spec fn loading_turn(dev: DeviceModel, stage: LoadStage, reply: Reply) -> (
    DeviceModel,
    InitTurn,
) {
    let (next_dev, turn) = load_turn(dev, stage, reply);
    match turn {
        Turn::Perform(action, next) => (
            next_dev,
            Turn::Perform(action, InitStage::Loading(next)),
        ),
        Turn::Done(Ok(())) => (
            next_dev,
            if describable(next_dev) {
                Turn::Perform(Effect::Sleep(SETTLE_MS), InitStage::Settling)
            } else {
                Turn::Halt(Fault::ConfigNotDescribed)
            },
        ),
        Turn::Done(Err(_)) => proceed_turn(next_dev),
        Turn::Halt(fault) => (next_dev, Turn::Halt(fault)),
    }
}

/// A step of the start, and what the device remembers after it.
pub open spec fn init_turn(dev: DeviceModel, at: InitStage, reply: Reply) -> (
    DeviceModel,
    InitTurn,
) {
    match at {
        InitStage::Start => (dev, Turn::Perform(Effect::SavePower, InitStage::SavingPower)),
        InitStage::SavingPower => switch_turn(
            dev,
            LedCommandParameter::On,
            InitStage::BlinkLighting(1),
        ),
        InitStage::BlinkLighting(more) => (
            dev,
            Turn::Perform(Effect::Sleep(BLINK_MS), InitStage::BlinkLit(more)),
        ),
        InitStage::BlinkLit(more) => switch_turn(
            dev,
            LedCommandParameter::Off,
            InitStage::BlinkDarkening(more),
        ),
        InitStage::BlinkDarkening(more) => (
            dev,
            Turn::Perform(Effect::Sleep(BLINK_MS), InitStage::BlinkDark(more)),
        ),
        InitStage::BlinkDark(more) => if more > 0 {
            switch_turn(
                dev,
                LedCommandParameter::On,
                InitStage::BlinkLighting((more - 1) as u8),
            )
        } else {
            loading_turn(dev, LoadStage::Start, reply)
        },
        InitStage::Loading(stage) => loading_turn(dev, stage, reply),
        InitStage::Settling => proceed_turn(dev),
        InitStage::Checking(stage) => init_checking_turn(dev, stage, reply),
        InitStage::Waiting => switch_turn(dev, LedCommandParameter::On, InitStage::FlashLighting),
        InitStage::FlashLighting => (
            dev,
            Turn::Perform(Effect::Sleep(FLASH_MS), InitStage::FlashLit),
        ),
        InitStage::FlashLit => switch_turn(
            dev,
            LedCommandParameter::Off,
            InitStage::FlashDarkening,
        ),
        InitStage::FlashDarkening => proceed_turn(dev),
        InitStage::JoiningWifi(stage) => init_wifi_turn(dev, stage, reply),
        InitStage::JoiningMqtt(stage) => init_mqtt_turn(dev, stage, reply),
        InitStage::Guarding => (dev, Turn::Done(())),
    }
}

/// `embassy_time::Duration::from_millis`: the number of ticks in so many milliseconds, for a clock
/// that ticks a million times a second.
#[verifier::external_body]
fn ticks_of_millis(ms: u64) -> (ticks: u64)
    requires
        ms * TICKS_PER_MS <= u64::MAX,
    ensures
        ticks == ms * TICKS_PER_MS,
{
    embassy_time::Duration::from_millis(ms).as_ticks()
}

impl<P> DemoDevice<P> {
    fn executing(&mut self, stage: CommandStage, reply: Reply) -> (r: Turn<Action, CheckStage, ()>)
        ensures
            (final(self)@, r.model()) == executing_turn(old(self)@, stage, reply),
            final(self).peripherals == old(self).peripherals,
    {
        match self.execute_command(stage, reply) {
            Turn::Perform(action, next) => Turn::Perform(action, CheckStage::Executing(next)),
            Turn::Done(answer) => Turn::Perform(Effect::Report(answer), CheckStage::Reporting),
            Turn::Halt(fault) => Turn::Halt(fault),
        }
    }

    /// A step in handling a command that may have come in.
    pub fn check_for_command(&mut self, at: CheckStage, reply: Reply) -> (r: Turn<
        Action,
        CheckStage,
        (),
    >)
        ensures
            (final(self)@, r.model()) == check_turn(old(self)@, at, reply),
            final(self).peripherals == old(self).peripherals,
    {
        match at {
            CheckStage::Start => Turn::Perform(Effect::ReceiveCommand, CheckStage::Receiving),
            CheckStage::Receiving => match reply {
                Reply::Command(Ok(command)) => self.executing(
                    CommandStage::Start(command),
                    Reply::Ack(true),
                ),
                Reply::Command(Err(message)) => Turn::Perform(
                    Effect::Report(Err(message)),
                    CheckStage::Reporting,
                ),
                _ => Turn::Done(()),
            },
            CheckStage::Executing(stage) => self.executing(stage, reply),
            CheckStage::Reporting => Turn::Done(()),
        }
    }

    fn run_checking(&mut self, stage: CheckStage, reply: Reply) -> (r: Turn<Action, RunStage, ()>)
        ensures
            (final(self)@, r.model()) == run_checking_turn(old(self)@, stage, reply),
            final(self).peripherals == old(self).peripherals,
    {
        match self.check_for_command(stage, reply) {
            Turn::Perform(action, next) => Turn::Perform(action, RunStage::Checking(next)),
            Turn::Done(()) => Turn::Perform(Effect::ReadClock, RunStage::Timing),
            Turn::Halt(fault) => Turn::Halt(fault),
        }
    }

    fn run_publishing(&self, stage: PublishStage, reply: Reply) -> (r: Turn<Action, RunStage, ()>)
        ensures
            r.model() == run_publishing_turn(self@, stage, reply),
    {
        match self.publish_state(stage, reply) {
            Turn::Perform(action, next) => Turn::Perform(action, RunStage::Publishing(next)),
            Turn::Done(()) => Turn::Perform(Effect::ReadClock, RunStage::Stamping),
            Turn::Halt(fault) => Turn::Halt(fault),
        }
    }

    /// A step of a round of the device's work.
    pub fn run(&mut self, at: RunStage, reply: Reply) -> (r: Turn<Action, RunStage, ()>)
        ensures
            (final(self)@, r.model()) == run_turn(old(self)@, at, reply),
            final(self).peripherals == old(self).peripherals,
    {
        match at {
            RunStage::Start => Turn::Perform(Effect::FeedWatchdog, RunStage::Feeding),
            RunStage::Feeding => self.run_checking(CheckStage::Start, Reply::Ack(true)),
            RunStage::Checking(stage) => self.run_checking(stage, reply),
            RunStage::Timing => match reply {
                Reply::Clock(now) => {
                    if now < self.last_publish {
                        return Turn::Halt(Fault::ClockFailed);
                    }
                    if now - self.last_publish > ticks_of_millis(PUBLISH_MS) {
                        self.run_publishing(PublishStage::Start, Reply::Ack(true))
                    } else {
                        Turn::Done(())
                    }
                },
                _ => Turn::Halt(Fault::ClockFailed),
            },
            RunStage::Publishing(stage) => self.run_publishing(stage, reply),
            RunStage::Stamping => match reply {
                Reply::Clock(now) => {
                    self.last_publish = now;
                    Turn::Done(())
                },
                _ => Turn::Halt(Fault::ClockFailed),
            },
        }
    }

    fn switch(&mut self, value: LedCommandParameter, next: InitStage) -> (r: Turn<
        Action,
        InitStage,
        (),
    >)
        ensures
            (final(self)@, r.model()) == switch_turn(old(self)@, value, next),
            final(self).peripherals == old(self).peripherals,
    {
        let action = self.set_led(value);
        Turn::Perform(action, next)
    }

    fn init_checking(&mut self, stage: CheckStage, reply: Reply) -> (r: Turn<Action, InitStage, ()>)
        ensures
            (final(self)@, r.model()) == init_checking_turn(old(self)@, stage, reply),
            final(self).peripherals == old(self).peripherals,
    {
        match self.check_for_command(stage, reply) {
            Turn::Perform(action, next) => Turn::Perform(action, InitStage::Checking(next)),
            Turn::Done(()) => Turn::Perform(Effect::Sleep(WAIT_MS), InitStage::Waiting),
            Turn::Halt(fault) => Turn::Halt(fault),
        }
    }

    fn init_wifi(&mut self, stage: WifiStage, reply: Reply) -> (r: Turn<Action, InitStage, ()>)
        ensures
            (final(self)@, r.model()) == init_wifi_turn(old(self)@, stage, reply),
            final(self).peripherals == old(self).peripherals,
    {
        match self.connect_wifi(stage, reply) {
            Turn::Perform(action, next) => Turn::Perform(action, InitStage::JoiningWifi(next)),
            Turn::Done(()) => self.init_mqtt(MqttStage::Start, Reply::Ack(true)),
            Turn::Halt(fault) => Turn::Halt(fault),
        }
    }

    fn init_mqtt(&mut self, stage: MqttStage, reply: Reply) -> (r: Turn<Action, InitStage, ()>)
        ensures
            (final(self)@, r.model()) == init_mqtt_turn(old(self)@, stage, reply),
            final(self).peripherals == old(self).peripherals,
    {
        match self.connect_mqtt(stage, reply) {
            Turn::Perform(action, next) => Turn::Perform(action, InitStage::JoiningMqtt(next)),
            Turn::Done(()) => Turn::Perform(
                Effect::StartWatchdog(WATCHDOG_MS),
                InitStage::Guarding,
            ),
            Turn::Halt(fault) => Turn::Halt(fault),
        }
    }

    fn proceed(&mut self) -> (r: Turn<Action, InitStage, ()>)
        ensures
            (final(self)@, r.model()) == proceed_turn(old(self)@),
            final(self).peripherals == old(self).peripherals,
    {
        if self.config.is_none() {
            self.init_checking(CheckStage::Start, Reply::Ack(true))
        } else {
            self.init_wifi(WifiStage::Start, Reply::Ack(true))
        }
    }

    fn loading(&mut self, stage: LoadStage, reply: Reply) -> (r: Turn<Action, InitStage, ()>)
        ensures
            (final(self)@, r.model()) == loading_turn(old(self)@, stage, reply),
            final(self).peripherals == old(self).peripherals,
    {
        match self.read_config(stage, reply) {
            Turn::Perform(action, next) => Turn::Perform(action, InitStage::Loading(next)),
            Turn::Done(Ok(())) => {
                let described = match &self.config {
                    Some(config) => describe(config).is_some(),
                    None => true,
                };
                if described {
                    Turn::Perform(Effect::Sleep(SETTLE_MS), InitStage::Settling)
                } else {
                    Turn::Halt(Fault::ConfigNotDescribed)
                }
            },
            Turn::Done(Err(_)) => self.proceed(),
            Turn::Halt(fault) => Turn::Halt(fault),
        }
    }

    /// A step of the start of the device: it blinks, reads its configuration or waits to be given
    /// one, connects, and starts its watchdog. A configuration that is read from flash has to be
    /// described in 256 bytes; the device stops if it cannot be, although it can be stored.
    pub fn init(&mut self, at: InitStage, reply: Reply) -> (r: Turn<Action, InitStage, ()>)
        ensures
            (final(self)@, r.model()) == init_turn(old(self)@, at, reply),
            final(self).peripherals == old(self).peripherals,
    {
        match at {
            InitStage::Start => Turn::Perform(Effect::SavePower, InitStage::SavingPower),
            InitStage::SavingPower => self.switch(
                LedCommandParameter::On,
                InitStage::BlinkLighting(1),
            ),
            InitStage::BlinkLighting(more) => Turn::Perform(
                Effect::Sleep(BLINK_MS),
                InitStage::BlinkLit(more),
            ),
            InitStage::BlinkLit(more) => self.switch(
                LedCommandParameter::Off,
                InitStage::BlinkDarkening(more),
            ),
            InitStage::BlinkDarkening(more) => Turn::Perform(
                Effect::Sleep(BLINK_MS),
                InitStage::BlinkDark(more),
            ),
            InitStage::BlinkDark(more) => if more > 0 {
                self.switch(LedCommandParameter::On, InitStage::BlinkLighting(more - 1))
            } else {
                self.loading(LoadStage::Start, reply)
            },
            InitStage::Loading(stage) => self.loading(stage, reply),
            InitStage::Settling => self.proceed(),
            InitStage::Checking(stage) => self.init_checking(stage, reply),
            InitStage::Waiting => self.switch(LedCommandParameter::On, InitStage::FlashLighting),
            InitStage::FlashLighting => Turn::Perform(
                Effect::Sleep(FLASH_MS),
                InitStage::FlashLit,
            ),
            InitStage::FlashLit => self.switch(
                LedCommandParameter::Off,
                InitStage::FlashDarkening,
            ),
            InitStage::FlashDarkening => self.proceed(),
            InitStage::JoiningWifi(stage) => self.init_wifi(stage, reply),
            InitStage::JoiningMqtt(stage) => self.init_mqtt(stage, reply),
            InitStage::Guarding => Turn::Done(()),
        }
    }
}

/// The history is one that the steps of the start can lead to, whatever is replied, for a device
/// that is not connected yet.
pub open spec fn init_history(h: History<InitStage>) -> bool {
    &&& h.shaped()
    &&& h.stages[0] == InitStage::Start
    &&& !h.models[0].connected
    &&& forall|i: int|
        #![trigger h.effects[i]]
        0 <= i < h.effects.len() ==> init_turn(h.models[i], h.stages[i], h.replies[i]) == (
            h.models[i + 1],
            InitTurn::Perform(h.effects[i], h.stages[i + 1]),
        )
}

/// What the start performs first, whatever is replied.
pub open spec fn opening_effects() -> Seq<ActionModel> {
    seq![
        Effect::SavePower,
        drive(true),
        Effect::Sleep(BLINK_MS),
        drive(false),
        Effect::Sleep(BLINK_MS),
        drive(true),
        Effect::Sleep(BLINK_MS),
        drive(false),
        Effect::Sleep(BLINK_MS),
        Effect::ReadFlash {
            offset: ADDR_OFFSET,
            length: CONFIG_SIZE,
        },
    ]
}

/// Where the start stands after each of its first effects.
spec fn opening_stages() -> Seq<InitStage> {
    seq![
        InitStage::Start,
        InitStage::SavingPower,
        InitStage::BlinkLighting(1),
        InitStage::BlinkLit(1),
        InitStage::BlinkDarkening(1),
        InitStage::BlinkDark(1),
        InitStage::BlinkLighting(0),
        InitStage::BlinkLit(0),
        InitStage::BlinkDarkening(0),
        InitStage::BlinkDark(0),
        InitStage::Loading(LoadStage::Loading),
    ]
}

proof fn lemma_opening(h: History<InitStage>, n: int)
    requires
        init_history(h),
        0 <= n <= h.effects.len(),
        n <= 10,
    ensures
        h.stages[n] == opening_stages()[n],
        forall|i: int| 0 <= i < n ==> h.effects[i] == opening_effects()[i],
    decreases n,
{
    if n > 0 {
        lemma_opening(h, n - 1);
        let e = h.effects[n - 1];
        assert(init_turn(h.models[n - 1], h.stages[n - 1], h.replies[n - 1]) == (
            h.models[n],
            InitTurn::Perform(e, h.stages[n]),
        ));
    }
}

/// The device starts by saving power, blinking twice and reading its configuration.
pub proof fn law_init_opening(h: History<InitStage>, i: int)
    requires
        init_history(h),
        0 <= i < h.effects.len(),
        i < opening_effects().len(),
    ensures
        h.effects[i] == opening_effects()[i],
{
    lemma_opening(h, i + 1);
}

/// What a start that is done has performed last.
pub open spec fn closing_effects(id: Seq<char>, c: ConfigModel) -> Seq<ActionModel> {
    seq![ActionModel::WaitConfigUp] + mqtt_effects(id, c, ipv4_address(c.mqtt_server)->Some_0)
        + seq![ActionModel::StartWatchdog(WATCHDOG_MS)]
}

/// The LED was switched by the effect at this place, and by none after it.
pub open spec fn last_switch(h: History<InitStage>, k: int) -> bool {
    &&& 0 <= k < h.effects.len()
    &&& h.effects[k] is DriveLed
    &&& forall|j: int| k < j < h.effects.len() ==> !(#[trigger] h.effects[j] is DriveLed)
}

/// An effect on the network or the broker.
pub open spec fn reaches_out(effect: ActionModel) -> bool {
    match effect {
        Effect::JoinWifi { .. } => true,
        Effect::QueryConfigUp => true,
        Effect::QueryLinkUp => true,
        Effect::WaitConfigUp => true,
        Effect::Dial { .. } => true,
        Effect::OpenSession(_) => true,
        Effect::Subscribe(_) => true,
        Effect::Send(_) => true,
        _ => false,
    }
}

/// The LED has been switched off, and is not switched on again before this stage is left.
pub open spec fn init_dark(at: InitStage) -> bool {
    match at {
        InitStage::BlinkDarkening(_) | InitStage::BlinkDark(_) => true,
        InitStage::Loading(_) | InitStage::Settling => true,
        InitStage::FlashDarkening => true,
        InitStage::JoiningWifi(_) | InitStage::JoiningMqtt(_) | InitStage::Guarding => true,
        _ => false,
    }
}

/// What holds at every stage of the start.
pub open spec fn init_sound(dev: DeviceModel, at: InitStage) -> bool {
    &&& init_dark(at) ==> !dev.led
    &&& match at {
        InitStage::JoiningMqtt(MqttStage::Start) => false,
        InitStage::JoiningWifi(_) | InitStage::JoiningMqtt(_) => dev.config is Some
            && !dev.connected,
        InitStage::Guarding => dev.config is Some && dev.connected,
        InitStage::Checking(CheckStage::Executing(CommandStage::Publishing(_))) => false,
        _ => !dev.connected,
    }
}

/// Handling a command does not change who the device is or whether it is connected, and does not
/// lose the configuration. Without a session nothing is published, and nothing is done that only
/// the start does.
proof fn lemma_check_keeps(dev: DeviceModel, at: CheckStage, reply: Reply)
    requires
        !dev.connected,
        !(at matches CheckStage::Executing(CommandStage::Publishing(_))),
    ensures
        ({
            let (after, turn) = check_turn(dev, at, reply);
            &&& after.id == dev.id
            &&& !after.connected
            &&& dev.config is Some ==> after.config is Some
            &&& match turn {
                Turn::Perform(effect, next) => {
                    &&& !(next matches CheckStage::Executing(CommandStage::Publishing(_)))
                    &&& !reaches_out(effect)
                    &&& !(effect is StartWatchdog)
                },
                Turn::Done(()) => true,
                Turn::Halt(fault) => fault == Fault::SensorFailed,
            }
        }),
{
}

/// A step of the start from a sound stage leads to a sound stage.
pub proof fn law_init_step(dev: DeviceModel, at: InitStage, reply: Reply)
    requires
        init_sound(dev, at),
    ensures
        ({
            let (after, turn) = init_turn(dev, at, reply);
            &&& after.id == dev.id
            &&& dev.config is Some ==> after.config is Some
            &&& match turn {
                Turn::Perform(effect, next) => {
                    &&& init_sound(after, next)
                    &&& reaches_out(effect) ==> after.config is Some
                    &&& effect is StartWatchdog <==> next == InitStage::Guarding
                    &&& effect is StartWatchdog ==> effect == ActionModel::StartWatchdog(
                        WATCHDOG_MS,
                    )
                },
                Turn::Done(()) => at == InitStage::Guarding && after == dev,
                Turn::Halt(fault) => fault != Fault::NotConfigured,
            }
        }),
{
    if let InitStage::Checking(stage) = at {
        lemma_check_keeps(dev, stage, reply);
    }
}

proof fn lemma_history_sound(h: History<InitStage>, n: int)
    requires
        init_history(h),
        0 <= n <= h.effects.len(),
    ensures
        init_sound(h.models[n], h.stages[n]),
        h.models[n].id == h.models[0].id,
    decreases n,
{
    if n > 0 {
        lemma_history_sound(h, n - 1);
        let e = h.effects[n - 1];
        law_init_step(h.models[n - 1], h.stages[n - 1], h.replies[n - 1]);
    }
}

/// The device does not reach out to the network or the broker before it is configured.
pub proof fn law_init_configured_before_network(h: History<InitStage>, i: int)
    requires
        init_history(h),
        0 <= i < h.effects.len(),
        reaches_out(h.effects[i]),
    ensures
        h.models[i + 1].config is Some,
{
    lemma_history_sound(h, i);
    law_init_step(h.models[i], h.stages[i], h.replies[i]);
}

/// What a step of the start performs on the way to a stage.
proof fn lemma_init_effects(dev: DeviceModel, at: InitStage, reply: Reply)
    requires
        init_sound(dev, at),
    ensures
        init_turn(dev, at, reply).1 matches Turn::Perform(effect, next) ==> {
            &&& init_dark(next) ==> effect == drive(false) || (init_dark(at)
                && !(effect is DriveLed))
            &&& effect is Dial ==> at == InitStage::JoiningWifi(WifiStage::AwaitingStack)
            &&& next == InitStage::JoiningWifi(WifiStage::AwaitingStack) ==> effect
                == ActionModel::WaitConfigUp
        },
{
}

/// What a step of the start performs on the way to a stage of connecting to the broker.
proof fn lemma_init_mqtt_effects(dev: DeviceModel, at: InitStage, reply: Reply, k: int)
    requires
        init_sound(dev, at),
        1 <= k <= 8,
        init_turn(dev, at, reply).1 matches Turn::Perform(_, next) && next
            == InitStage::JoiningMqtt(mqtt_stages()[k]),
    ensures
        at == if k == 1 {
            InitStage::JoiningWifi(WifiStage::AwaitingStack)
        } else {
            InitStage::JoiningMqtt(mqtt_stages()[k - 1])
        },
        init_turn(dev, at, reply).0 == dev,
        k == 1 ==> ipv4_address(dev.config->Some_0.mqtt_server) is Some,
        ({
            let c = dev.config->Some_0;
            init_turn(dev, at, reply).1->Perform_0 == mqtt_effects(
                dev.id,
                c,
                ipv4_address(c.mqtt_server)->Some_0,
            )[k - 1]
        }),
{
}

/// The watchdog is started when the broker is connected to, and nothing else is changed then.
proof fn lemma_init_guards(dev: DeviceModel, at: InitStage, reply: Reply)
    requires
        init_sound(dev, at),
        init_turn(dev, at, reply).1 matches Turn::Perform(_, InitStage::Guarding),
    ensures
        at == InitStage::JoiningMqtt(MqttStage::Named),
        init_turn(dev, at, reply) == (
            DeviceModel { connected: true, ..dev },
            InitTurn::Perform(Effect::StartWatchdog(WATCHDOG_MS), InitStage::Guarding),
        ),
{
}

/// The last time that the LED was switched before a dark stage.
proof fn lemma_switched_off(h: History<InitStage>, n: int) -> (k: int)
    requires
        init_history(h),
        0 <= n <= h.effects.len(),
        init_dark(h.stages[n]),
    ensures
        0 <= k < n,
        h.effects[k] == drive(false),
        forall|j: int| k < j < n ==> !(#[trigger] h.effects[j] is DriveLed),
    decreases n,
{
    assert(n > 0);
    let e = h.effects[n - 1];
    lemma_history_sound(h, n - 1);
    lemma_init_effects(h.models[n - 1], h.stages[n - 1], h.replies[n - 1]);
    if e == drive(false) {
        n - 1
    } else {
        lemma_switched_off(h, n - 1)
    }
}

/// The effects between two places, with the one at the second place more.
proof fn lemma_effects_extended(effects: Seq<ActionModel>, a: int, n: int)
    requires
        0 <= a < n <= effects.len(),
    ensures
        effects.subrange(a, n) == effects.subrange(a, n - 1).push(effects[n - 1]),
{
    assert(effects.subrange(a, n) =~= effects.subrange(a, n - 1).push(effects[n - 1]));
}

/// What connecting to the broker performs up to some place, with the next effect more.
proof fn lemma_mqtt_extended(id: Seq<char>, c: ConfigModel, address: (u8, u8, u8, u8), k: int)
    requires
        1 <= k <= 8,
    ensures
        ({
            let wait = seq![ActionModel::WaitConfigUp];
            let all = mqtt_effects(id, c, address);
            wait + all.take(k) == (wait + all.take(k - 1)).push(all[k - 1])
        }),
{
    let wait = seq![ActionModel::WaitConfigUp];
    let all = mqtt_effects(id, c, address);
    assert(wait + all.take(k) =~= (wait + all.take(k - 1)).push(all[k - 1]));
}

/// The wait for the network stack is what leads to the stage at which it is waited for.
proof fn lemma_waited(h: History<InitStage>, n: int)
    requires
        init_history(h),
        0 <= n <= h.effects.len(),
        h.stages[n] == InitStage::JoiningWifi(WifiStage::AwaitingStack),
    ensures
        n > 0,
        h.effects[n - 1] == ActionModel::WaitConfigUp,
{
    assert(n > 0);
    let w = h.effects[n - 1];
    lemma_history_sound(h, n - 1);
    lemma_init_effects(h.models[n - 1], h.stages[n - 1], h.replies[n - 1]);
}

/// The effects that lead to a stage of connecting to the broker.
proof fn lemma_mqtt_tail(h: History<InitStage>, n: int, k: int)
    requires
        init_history(h),
        0 <= n <= h.effects.len(),
        1 <= k <= 8,
        h.stages[n] == InitStage::JoiningMqtt(mqtt_stages()[k]),
    ensures
        n > k,
        h.models[n].config is Some,
        ipv4_address(h.models[n].config->Some_0.mqtt_server) is Some,
        ({
            let c = h.models[n].config->Some_0;
            let address = ipv4_address(c.mqtt_server)->Some_0;
            h.effects.subrange(n - k - 1, n) == seq![ActionModel::WaitConfigUp] + mqtt_effects(
                h.models[n].id,
                c,
                address,
            ).take(k)
        }),
    decreases k,
{
    assert(n > 0);
    let e = h.effects[n - 1];
    let dev = h.models[n - 1];
    lemma_history_sound(h, n - 1);
    lemma_init_mqtt_effects(dev, h.stages[n - 1], h.replies[n - 1], k);
    let c = dev.config->Some_0;
    let address = ipv4_address(c.mqtt_server)->Some_0;
    lemma_mqtt_extended(dev.id, c, address, k);
    if k == 1 {
        lemma_waited(h, n - 1);
        lemma_effects_extended(h.effects, n - 2, n - 1);
        assert(h.effects.subrange(n - 2, n - 1) =~= seq![ActionModel::WaitConfigUp] + mqtt_effects(
            dev.id,
            c,
            address,
        ).take(0));
    } else {
        lemma_mqtt_tail(h, n - 1, k - 1);
    }
    lemma_effects_extended(h.effects, n - k - 1, n);
}

/// The broker is not dialed before the network stack is configured, and the watchdog is not started
/// before the end.
pub proof fn law_init_order(h: History<InitStage>, i: int)
    requires
        init_history(h),
        0 <= i < h.effects.len(),
    ensures
        h.effects[i] is Dial ==> i > 0 && h.effects[i - 1] == ActionModel::WaitConfigUp,
        i < h.effects.len() - 1 ==> !(h.effects[i] is StartWatchdog),
{
    let e = h.effects[i];
    lemma_history_sound(h, i);
    law_init_step(h.models[i], h.stages[i], h.replies[i]);
    lemma_init_effects(h.models[i], h.stages[i], h.replies[i]);
    if e is Dial {
        assert(i > 0);
        let w = h.effects[i - 1];
        lemma_history_sound(h, i - 1);
        lemma_init_effects(h.models[i - 1], h.stages[i - 1], h.replies[i - 1]);
    }
    if i < h.effects.len() - 1 {
        let f = h.effects[i + 1];
    }
}

/// What a start that is done has performed last, put together.
proof fn lemma_closing(effects: Seq<ActionModel>, id: Seq<char>, c: ConfigModel)
    requires
        effects.len() >= 10,
        effects.subrange(effects.len() - 10, effects.len() - 1) == seq![ActionModel::WaitConfigUp]
            + mqtt_effects(id, c, ipv4_address(c.mqtt_server)->Some_0).take(8),
        effects.last() == ActionModel::StartWatchdog(WATCHDOG_MS),
    ensures
        effects.skip(effects.len() - 10) == closing_effects(id, c),
{
    let n = effects.len() as int;
    let all = mqtt_effects(id, c, ipv4_address(c.mqtt_server)->Some_0);
    assert(all.take(8) =~= all);
    lemma_effects_extended(effects, n - 10, n);
    assert(effects.skip(n - 10) =~= effects.subrange(n - 10, n));
    assert(closing_effects(id, c) =~= (seq![ActionModel::WaitConfigUp] + all).push(
        effects.last(),
    ));
}

/// The step that starts the watchdog.
proof fn lemma_guarding(h: History<InitStage>)
    requires
        init_history(h),
        h.stages.last() == InitStage::Guarding,
    ensures
        h.effects.len() > 0,
        ({
            let n = h.effects.len() as int;
            &&& h.stages[n - 1] == InitStage::JoiningMqtt(MqttStage::Named)
            &&& h.models[n] == (DeviceModel { connected: true, ..h.models[n - 1] })
            &&& h.effects[n - 1] == ActionModel::StartWatchdog(WATCHDOG_MS)
        }),
{
    let n = h.effects.len() as int;
    assert(n > 0);
    let e = h.effects[n - 1];
    lemma_history_sound(h, n - 1);
    lemma_init_guards(h.models[n - 1], h.stages[n - 1], h.replies[n - 1]);
}

/// What holds, and what has been performed, when the watchdog has been started.
proof fn lemma_guarded(h: History<InitStage>)
    requires
        init_history(h),
        h.stages.last() == InitStage::Guarding,
    ensures
        ({
            let dev = h.models.last();
            let n = h.effects.len() as int;
            &&& dev.config is Some
            &&& dev.connected
            &&& !dev.led
            &&& exists|k: int| #[trigger] last_switch(h, k) && h.effects[k] == drive(false)
            &&& n >= 10
            &&& h.effects.skip(n - 10) == closing_effects(dev.id, dev.config->Some_0)
        }),
{
    let n = h.effects.len() as int;
    let dev = h.models[n];
    lemma_history_sound(h, n);
    lemma_guarding(h);
    let k = lemma_switched_off(h, n);
    assert(last_switch(h, k));
    assert(mqtt_stages()[8] == MqttStage::Named);
    lemma_mqtt_tail(h, n - 1, 8);
    lemma_closing(h.effects, dev.id, dev.config->Some_0);
}

/// The start never stops the device for want of a configuration, and it starts the watchdog at most
/// once. When it is done, the device is configured and connected and its LED is dark; the LED was
/// switched off when it was last switched; and the last things that were performed are the wait for
/// the network stack, all that connecting to the broker performs, and the start of the watchdog.
pub proof fn law_init_end(h: History<InitStage>, reply: Reply)
    requires
        init_history(h),
    ensures
        ({
            let (after, turn) = init_turn(h.models.last(), h.stages.last(), reply);
            let n = h.effects.len() as int;
            &&& turn != InitTurn::Halt(Fault::NotConfigured)
            &&& forall|i: int| 0 <= i < n - 1 ==> !(#[trigger] h.effects[i] is StartWatchdog)
            &&& forall|i: int|
                0 <= i < n && #[trigger] h.effects[i] is Dial ==> exists|j: int|
                    0 <= j < i && #[trigger] h.effects[j] == ActionModel::WaitConfigUp
            &&& turn == InitTurn::Done(()) ==> {
                &&& after.config is Some
                &&& after.connected
                &&& !after.led
                &&& exists|k: int| #[trigger] last_switch(h, k) && h.effects[k] == drive(false)
                &&& n >= 10
                &&& h.effects.skip(n - 10) == closing_effects(after.id, after.config->Some_0)
            }
        }),
{
    let n = h.effects.len() as int;
    assert forall|i: int| 0 <= i < n - 1 implies !(#[trigger] h.effects[i] is StartWatchdog) by {
        law_init_order(h, i);
    }
    assert forall|i: int| 0 <= i < n && #[trigger] h.effects[i] is Dial implies exists|j: int|
        0 <= j < i && #[trigger] h.effects[j] == ActionModel::WaitConfigUp by {
        law_init_order(h, i);
        assert(h.effects[i - 1] == ActionModel::WaitConfigUp);
    }
    lemma_history_sound(h, n);
    law_init_step(h.models[n], h.stages[n], reply);
    if h.stages[n] == InitStage::Guarding {
        lemma_guarded(h);
    }
}

/// While no command comes in, an unconfigured device goes on looking for one, with a short flash of
/// its LED between two looks.
pub proof fn law_init_waits_for_configuration(dev: DeviceModel, reply: Reply)
    requires
        dev.config is None,
        !(reply is Command),
    ensures
        ({
            let receiving = InitStage::Checking(CheckStage::Receiving);
            let lit = DeviceModel { led: true, ..dev };
            let dark = DeviceModel { led: false, ..dev };
            &&& init_turn(dev, receiving, reply) == (
                dev,
                InitTurn::Perform(Effect::Sleep(WAIT_MS), InitStage::Waiting),
            )
            &&& init_turn(dev, InitStage::Waiting, reply) == (
                lit,
                InitTurn::Perform(drive(true), InitStage::FlashLighting),
            )
            &&& init_turn(lit, InitStage::FlashLighting, reply) == (
                lit,
                InitTurn::Perform(Effect::Sleep(FLASH_MS), InitStage::FlashLit),
            )
            &&& init_turn(lit, InitStage::FlashLit, reply) == (
                dark,
                InitTurn::Perform(drive(false), InitStage::FlashDarkening),
            )
            &&& init_turn(dark, InitStage::FlashDarkening, reply) == (
                dark,
                InitTurn::Perform(Effect::ReceiveCommand, receiving),
            )
        }),
{
}

/// A device whose flash holds a configuration that can be described takes it over, pauses, and joins
/// the network with it; if it cannot be described, the device stops. A device whose flash holds no
/// configuration, or cannot be read, looks for a command at once.
pub proof fn law_init_resumes(dev: DeviceModel, c: ConfigModel, read: Reply, reply: Reply)
    requires
        dev.config is None,
    ensures
        ({
            let loading = InitStage::Loading(LoadStage::Loading);
            let resumed = DeviceModel { config: Some(c), ..dev };
            &&& (read matches Reply::Flash(bytes) && stored_config(bytes@) == Some(c)) ==> init_turn(
                dev,
                loading,
                read,
            ) == (
                resumed,
                if byte_len(description(c)) <= DESCRIPTION_SIZE {
                    InitTurn::Perform(Effect::Sleep(SETTLE_MS), InitStage::Settling)
                } else {
                    InitTurn::Halt(Fault::ConfigNotDescribed)
                },
            )
            &&& init_turn(resumed, InitStage::Settling, reply) == (
                resumed,
                InitTurn::Perform(
                    Effect::JoinWifi { ssid: c.wifi_ssid, password: c.wifi_password },
                    InitStage::JoiningWifi(WifiStage::Joining),
                ),
            )
            &&& (read matches Reply::Flash(bytes) ==> stored_config(bytes@) is None) ==> init_turn(
                dev,
                loading,
                read,
            ) == (
                dev,
                InitTurn::Perform(
                    Effect::ReceiveCommand,
                    InitStage::Checking(CheckStage::Receiving),
                ),
            )
        }),
{
}

/// A round that comes too early for a publication ends without one. Any other publishes the state
/// if there is a session, and notes the time; from then on no publication is due until more than
/// the interval has gone by again.
pub proof fn law_run_paces_publications(dev: DeviceModel, now: u64, end: u64, later: u64)
    requires
        dev.last_publish <= now,
        end <= later <= end + PUBLISH_MS * TICKS_PER_MS,
    ensures
        now - dev.last_publish <= PUBLISH_MS * TICKS_PER_MS ==> run_turn(
            dev,
            RunStage::Timing,
            Reply::Clock(now),
        ) == (dev, RunTurn::Done(())),
        now - dev.last_publish > PUBLISH_MS * TICKS_PER_MS ==> run_turn(
            dev,
            RunStage::Timing,
            Reply::Clock(now),
        ) == (dev, run_publishing_turn(dev, PublishStage::Start, Reply::Ack(true))),
        !dev.connected ==> run_publishing_turn(dev, PublishStage::Start, Reply::Ack(true))
            == RunTurn::Perform(Effect::ReadClock, RunStage::Stamping),
        dev.connected ==> run_publishing_turn(dev, PublishStage::Start, Reply::Ack(true)) matches
            Turn::Perform(Effect::SampleTemperature, RunStage::Publishing(_)),
        run_publishing_turn(dev, PublishStage::Sending, Reply::Ack(true)) == RunTurn::Perform(
            Effect::ReadClock,
            RunStage::Stamping,
        ),
        run_turn(dev, RunStage::Stamping, Reply::Clock(end)) == (
            DeviceModel { last_publish: end, ..dev },
            RunTurn::Done(()),
        ),
        !publish_due(DeviceModel { last_publish: end, ..dev }, later),
{
}

/// A round puts off the watchdog before anything else, and it never changes who the device is,
/// whether it is connected, or that it is configured.
pub proof fn law_run_keeps(dev: DeviceModel, at: RunStage, reply: Reply)
    ensures
        run_turn(dev, RunStage::Start, reply) == (
            dev,
            RunTurn::Perform(Effect::FeedWatchdog, RunStage::Feeding),
        ),
        ({
            let after = run_turn(dev, at, reply).0;
            &&& after.id == dev.id
            &&& after.connected == dev.connected
            &&& dev.config is Some ==> after.config is Some
            &&& after.last_publish != dev.last_publish ==> at == RunStage::Stamping
        }),
{
}

/// How far a round has come.
pub open spec fn run_progress(at: RunStage) -> int {
    match at {
        RunStage::Start => 0,
        RunStage::Feeding => 1,
        RunStage::Checking(_) => 2,
        RunStage::Timing => 3,
        RunStage::Publishing(PublishStage::Sending) => 5,
        RunStage::Publishing(_) => 4,
        RunStage::Stamping => 6,
    }
}

/// The history is one that the steps of a round can lead to, whatever is replied.
pub open spec fn run_history(h: History<RunStage>) -> bool {
    &&& h.shaped()
    &&& h.stages[0] == RunStage::Start
    &&& forall|i: int|
        #![trigger h.effects[i]]
        0 <= i < h.effects.len() ==> run_turn(h.models[i], h.stages[i], h.replies[i]) == (
            h.models[i + 1],
            RunTurn::Perform(h.effects[i], h.stages[i + 1]),
        )
}

/// What a step of a round performs, and how far it gets.
proof fn lemma_run_step(dev: DeviceModel, at: RunStage, reply: Reply)
    requires
        at != RunStage::Checking(CheckStage::Start),
    ensures
        run_turn(dev, at, reply).1 matches Turn::Perform(effect, next) ==> {
            &&& next != RunStage::Checking(CheckStage::Start)
            &&& run_progress(at) <= run_progress(next)
            &&& run_progress(at) == run_progress(next) ==> run_progress(at) == 2 || run_progress(at)
                == 4
            &&& at == RunStage::Start ==> next == RunStage::Feeding
            &&& effect is FeedWatchdog <==> at == RunStage::Start
            &&& effect is ReceiveCommand <==> at == RunStage::Feeding
        },
{
}

proof fn lemma_run_history(h: History<RunStage>, m: int, n: int)
    requires
        run_history(h),
        0 <= m <= n <= h.effects.len(),
    ensures
        h.stages[n] != RunStage::Checking(CheckStage::Start),
        run_progress(h.stages[m]) <= run_progress(h.stages[n]),
        m < n && run_progress(h.stages[m]) == run_progress(h.stages[n]) ==> run_progress(
            h.stages[m],
        ) == 2 || run_progress(h.stages[m]) == 4,
        m >= 1 ==> run_progress(h.stages[m]) >= 1,
        m >= 1 ==> (h.stages[m] == RunStage::Feeding <==> m == 1),
        m >= 2 ==> run_progress(h.stages[m]) >= 2,
    decreases n, n - m,
{
    if n > 0 {
        let e = h.effects[n - 1];
        if m < n {
            lemma_run_history(h, m, n - 1);
        } else {
            lemma_run_history(h, n - 1, n - 1);
        }
        lemma_run_step(h.models[n - 1], h.stages[n - 1], h.replies[n - 1]);
    }
}

/// A round puts off the watchdog once, before anything else; it looks for a command once, right
/// after that; it publishes the state of its own accord only once that command has been dealt with;
/// and it sends at most one message that way.
pub proof fn law_run_order(h: History<RunStage>)
    requires
        run_history(h),
    ensures
        forall|i: int|
            0 <= i < h.effects.len() ==> (#[trigger] h.effects[i] == ActionModel::FeedWatchdog <==> i
                == 0),
        forall|i: int|
            0 <= i < h.effects.len() ==> (#[trigger] h.effects[i] == ActionModel::ReceiveCommand
                <==> i == 1),
        forall|i: int, j: int|
            #![trigger h.stages[i], h.stages[j]]
            0 <= i <= h.effects.len() && 0 <= j <= h.effects.len() && h.stages[i] is Publishing
                && h.stages[j] is Checking ==> 1 < j < i,
        forall|i: int, j: int|
            #![trigger h.stages[i], h.stages[j]]
            0 <= i <= j <= h.effects.len() && h.stages[i] == h.stages[j] && h.stages[i]
                == RunStage::Publishing(PublishStage::Sending) ==> i == j,
{
    assert forall|i: int| 0 <= i < h.effects.len() implies (#[trigger] h.effects[i]
        == ActionModel::FeedWatchdog <==> i == 0) && (h.effects[i] == ActionModel::ReceiveCommand
        <==> i == 1) by {
        lemma_run_history(h, i, i);
        lemma_run_step(h.models[i], h.stages[i], h.replies[i]);
    }
    assert forall|i: int, j: int|
        #![trigger h.stages[i], h.stages[j]]
        0 <= i <= h.effects.len() && 0 <= j <= h.effects.len() && h.stages[i] is Publishing
            && h.stages[j] is Checking implies 1 < j < i by {
        lemma_run_history(h, j, j);
        if i <= j {
            lemma_run_history(h, i, j);
        }
    }
    assert forall|i: int, j: int|
        #![trigger h.stages[i], h.stages[j]]
        0 <= i <= j <= h.effects.len() && h.stages[i] == h.stages[j] && h.stages[i]
            == RunStage::Publishing(PublishStage::Sending) implies i == j by {
        lemma_run_history(h, i, j);
    }
}

/// A command that was refused is reported as such, and is not carried out; without a command
/// nothing is done.
pub proof fn law_check_refused(dev: DeviceModel, message: &'static str, reply: Reply)
    requires
        !(reply is Command),
    ensures
        check_turn(dev, CheckStage::Receiving, Reply::Command(Err(message))) == (
            dev,
            CheckTurn::Perform(Effect::Report(Err(message@)), CheckStage::Reporting),
        ),
        check_turn(dev, CheckStage::Receiving, reply) == (dev, CheckTurn::Done(())),
        check_turn(dev, CheckStage::Reporting, reply) == (dev, CheckTurn::Done(())),
{
}

/// Every command that comes in is carried out: the first step does to the device, performs and goes
/// on with what carrying it out does, performs and goes on with, and so does each later step; and
/// when carrying it out is done, exactly its answer is reported.
pub proof fn law_check_carries_out(
    dev: DeviceModel,
    command: PicoCommand,
    any: Reply,
    stage: CommandStage,
    reply: Reply,
)
    ensures
        check_turn(dev, CheckStage::Start, reply) == (
            dev,
            CheckTurn::Perform(Effect::ReceiveCommand, CheckStage::Receiving),
        ),
        ({
            let first = check_turn(dev, CheckStage::Receiving, Reply::Command(Ok(command)));
            let (after, turn) = command_turn(dev, CommandStage::Start(command), any);
            &&& first.0 == after
            &&& match turn {
                Turn::Perform(effect, next) => first.1 == CheckTurn::Perform(
                    effect,
                    CheckStage::Executing(next),
                ),
                Turn::Done(answer) => first.1 == CheckTurn::Perform(
                    Effect::Report(answer),
                    CheckStage::Reporting,
                ),
                Turn::Halt(fault) => first.1 == CheckTurn::Halt(fault),
            }
        }),
        ({
            let later = check_turn(dev, CheckStage::Executing(stage), reply);
            let (after, turn) = command_turn(dev, stage, reply);
            &&& later.0 == after
            &&& match turn {
                Turn::Perform(effect, next) => later.1 == CheckTurn::Perform(
                    effect,
                    CheckStage::Executing(next),
                ),
                Turn::Done(answer) => later.1 == CheckTurn::Perform(
                    Effect::Report(answer),
                    CheckStage::Reporting,
                ),
                Turn::Halt(fault) => later.1 == CheckTurn::Halt(fault),
            }
        }),
{
}

/// The history is one that the steps of handling a command can lead to, whatever is replied.
pub open spec fn check_history(h: History<CheckStage>) -> bool {
    &&& h.shaped()
    &&& h.stages[0] == CheckStage::Start
    &&& forall|i: int|
        #![trigger h.effects[i]]
        0 <= i < h.effects.len() ==> check_turn(h.models[i], h.stages[i], h.replies[i]) == (
            h.models[i + 1],
            CheckTurn::Perform(h.effects[i], h.stages[i + 1]),
        )
}

/// Where a step of handling a command leads.
proof fn lemma_check_step(dev: DeviceModel, at: CheckStage, reply: Reply)
    ensures
        match check_turn(dev, at, reply).1 {
            Turn::Perform(effect, next) => {
                &&& next != CheckStage::Start
                &&& next == CheckStage::Receiving <==> at == CheckStage::Start
                &&& next == CheckStage::Reporting <==> effect is Report
                &&& effect is ReceiveCommand <==> at == CheckStage::Start
            },
            Turn::Done(()) => at == CheckStage::Reporting || (at == CheckStage::Receiving && !(
            reply is Command)),
            Turn::Halt(_) => true,
        },
{
}

proof fn lemma_check_history(h: History<CheckStage>, n: int)
    requires
        check_history(h),
        0 <= n <= h.effects.len(),
    ensures
        h.stages[n] == CheckStage::Start <==> n == 0,
        h.stages[n] == CheckStage::Receiving <==> n == 1,
        h.stages[n] == CheckStage::Reporting ==> n > 1 && h.effects[n - 1] is Report,
    decreases n,
{
    if n > 0 {
        lemma_check_history(h, n - 1);
        let e = h.effects[n - 1];
        lemma_check_step(h.models[n - 1], h.stages[n - 1], h.replies[n - 1]);
    }
}

/// Handling a command that may have come in looks for one first, and for no other after it. It is
/// done without anything more only if there was none; if there was one, it is done only once an
/// answer has been reported, which is reported last and once.
pub proof fn law_check_end(h: History<CheckStage>, reply: Reply)
    requires
        check_history(h),
    ensures
        forall|i: int|
            0 <= i < h.effects.len() ==> (#[trigger] h.effects[i] == ActionModel::ReceiveCommand
                <==> i == 0),
        forall|i: int| 0 <= i < h.effects.len() - 1 ==> !(#[trigger] h.effects[i] is Report),
        check_turn(h.models.last(), h.stages.last(), reply).1 == CheckTurn::Done(()) ==> if
            h.effects.len() == 1 {
            !(reply is Command)
        } else {
            h.effects.len() > 1 && h.replies[1] is Command && h.effects.last() is Report
        },
{
    let n = h.effects.len() as int;
    assert forall|i: int| 0 <= i < n implies (#[trigger] h.effects[i]
        == ActionModel::ReceiveCommand <==> i == 0) by {
        lemma_check_history(h, i);
        lemma_check_step(h.models[i], h.stages[i], h.replies[i]);
    }
    assert forall|i: int| 0 <= i < n - 1 implies !(#[trigger] h.effects[i] is Report) by {
        lemma_check_step(h.models[i], h.stages[i], h.replies[i]);
        let f = h.effects[i + 1];
        lemma_check_step(h.models[i + 1], h.stages[i + 1], h.replies[i + 1]);
    }
    lemma_check_history(h, n);
    lemma_check_step(h.models[n], h.stages[n], reply);
    if n > 1 {
        let f = h.effects[1];
        lemma_check_history(h, 1);
    }
}

/// A round puts off the watchdog, looks for a command and handles it just as that is done on its
/// own. Whenever that is done, whatever the device remembers by then, the clock is read; only a
/// fault keeps it from being read.
pub proof fn law_run_handles_command(dev: DeviceModel, stage: CheckStage, reply: Reply)
    ensures
        run_turn(dev, RunStage::Start, reply) == (
            dev,
            RunTurn::Perform(Effect::FeedWatchdog, RunStage::Feeding),
        ),
        run_turn(dev, RunStage::Feeding, reply) == (
            dev,
            RunTurn::Perform(Effect::ReceiveCommand, RunStage::Checking(CheckStage::Receiving)),
        ),
        ({
            let round = run_turn(dev, RunStage::Checking(stage), reply);
            let (after, turn) = check_turn(dev, stage, reply);
            &&& round.0 == after
            &&& match turn {
                Turn::Perform(effect, next) => round.1 == RunTurn::Perform(
                    effect,
                    RunStage::Checking(next),
                ),
                Turn::Done(()) => round.1 == RunTurn::Perform(Effect::ReadClock, RunStage::Timing),
                Turn::Halt(fault) => round.1 == RunTurn::Halt(fault),
            }
        }),
{
}

/// Up to a second after the last publication, a round ends. Later, it publishes the state if there
/// is a session, just as that is done on its own, and in any case notes the time that it reads
/// afterwards. The device stops if the clock went backwards or cannot be read.
pub proof fn law_run_publishes(dev: DeviceModel, now: u64, stage: PublishStage, reply: Reply)
    ensures
        run_turn(dev, RunStage::Timing, Reply::Clock(now)) == (
            dev,
            if now < dev.last_publish {
                RunTurn::Halt(Fault::ClockFailed)
            } else if now - dev.last_publish <= 1_000_000 {
                RunTurn::Done(())
            } else if dev.connected {
                RunTurn::Perform(
                    Effect::SampleTemperature,
                    RunStage::Publishing(
                        PublishStage::Encoding(JsonStage::Reading(ReadStage::Sampling)),
                    ),
                )
            } else {
                RunTurn::Perform(Effect::ReadClock, RunStage::Stamping)
            },
        ),
        run_turn(dev, RunStage::Publishing(stage), reply).0 == dev,
        match publish_turn(dev, stage, reply) {
            Turn::Perform(effect, next) => run_turn(dev, RunStage::Publishing(stage), reply).1
                == RunTurn::Perform(effect, RunStage::Publishing(next)),
            Turn::Done(()) => run_turn(dev, RunStage::Publishing(stage), reply).1
                == RunTurn::Perform(Effect::ReadClock, RunStage::Stamping),
            Turn::Halt(fault) => run_turn(dev, RunStage::Publishing(stage), reply).1
                == RunTurn::Halt(fault),
        },
        run_turn(dev, RunStage::Stamping, Reply::Clock(now)) == (
            DeviceModel { last_publish: now, ..dev },
            RunTurn::Done(()),
        ),
        !(reply is Clock) ==> run_turn(dev, RunStage::Timing, reply) == (
            dev,
            RunTurn::Halt(Fault::ClockFailed),
        ) && run_turn(dev, RunStage::Stamping, reply) == (dev, RunTurn::Halt(Fault::ClockFailed)),
{
}

/// Where a step of a round comes from, by where it leads.
proof fn lemma_run_origin(dev: DeviceModel, at: RunStage, reply: Reply)
    requires
        at != RunStage::Checking(CheckStage::Start),
        at != RunStage::Publishing(PublishStage::Start),
    ensures
        match run_turn(dev, at, reply).1 {
            Turn::Perform(effect, next) => {
                &&& next != RunStage::Start
                &&& next != RunStage::Checking(CheckStage::Start)
                &&& next != RunStage::Publishing(PublishStage::Start)
                &&& next == RunStage::Timing ==> effect == ActionModel::ReadClock
                &&& next == RunStage::Stamping ==> effect == ActionModel::ReadClock && (at
                    == RunStage::Publishing(PublishStage::Sending) || (at == RunStage::Timing
                    && !dev.connected))
                &&& next is Publishing ==> at == RunStage::Timing || at is Publishing
                &&& next == RunStage::Publishing(PublishStage::Sending) ==> (effect matches
                    Effect::Send(p) && p.topic == "device/"@ + dev.id + "/state"@ && p.qos == 1
                    && p.retain)
            },
            Turn::Done(()) => (at == RunStage::Timing || at == RunStage::Stamping) && reply
                is Clock,
            Turn::Halt(_) => true,
        },
{
}

proof fn lemma_run_kept(h: History<RunStage>, n: int)
    requires
        run_history(h),
        0 <= n <= h.effects.len(),
    ensures
        h.stages[n] != RunStage::Checking(CheckStage::Start),
        h.stages[n] != RunStage::Publishing(PublishStage::Start),
        h.models[n].id == h.models[0].id,
        h.models[n].connected == h.models[0].connected,
    decreases n,
{
    if n > 0 {
        lemma_run_kept(h, n - 1);
        let e = h.effects[n - 1];
        lemma_run_origin(h.models[n - 1], h.stages[n - 1], h.replies[n - 1]);
        law_run_keeps(h.models[n - 1], h.stages[n - 1], h.replies[n - 1]);
    }
}

/// The reading of the clock that a publication follows.
proof fn lemma_run_timed(h: History<RunStage>, n: int) -> (j: int)
    requires
        run_history(h),
        0 <= n <= h.effects.len(),
        h.stages[n] is Publishing || h.stages[n] == RunStage::Timing,
    ensures
        0 < j <= n,
        h.stages[j] == RunStage::Timing,
        h.effects[j - 1] == ActionModel::ReadClock,
        h.stages[n] is Publishing ==> j < n,
    decreases n,
{
    assert(n > 0);
    let e = h.effects[n - 1];
    lemma_run_kept(h, n - 1);
    lemma_run_origin(h.models[n - 1], h.stages[n - 1], h.replies[n - 1]);
    if h.stages[n] == RunStage::Timing {
        n
    } else {
        lemma_run_timed(h, n - 1)
    }
}

/// The round looked at the clock at this place, with no command left to handle.
pub open spec fn timed_at(h: History<RunStage>, j: int) -> bool {
    &&& 1 < j < h.effects.len()
    &&& h.effects[j] == ActionModel::ReadClock
    &&& h.stages[j + 1] == RunStage::Timing
    &&& forall|i: int| j < i <= h.effects.len() ==> !(#[trigger] h.stages[i] is Checking)
}

/// The round sent a message to the state topic at this place.
pub open spec fn state_sent_at(h: History<RunStage>, k: int) -> bool {
    &&& 0 <= k < h.effects.len()
    &&& h.effects[k] matches Effect::Send(p) && p.topic == "device/"@ + h.models[0].id + "/state"@
        && p.qos == 1 && p.retain
}

/// A round that is done has looked at the clock once the command was dealt with. The time that it
/// read last is either at most a second after the last publication, and then nothing has changed
/// by it; or it is noted as the time of the last publication, and if there is a session the state
/// was sent to its topic after that look at the clock.
pub proof fn law_run_end(h: History<RunStage>, reply: Reply)
    requires
        run_history(h),
    ensures
        ({
            let before = h.models.last();
            let (after, turn) = run_turn(before, h.stages.last(), reply);
            turn == RunTurn::Done(()) ==> {
                &&& exists|j: int| #[trigger] timed_at(h, j)
                &&& h.effects.last() == ActionModel::ReadClock
                &&& reply matches Reply::Clock(now) && {
                    ||| before.last_publish <= now <= before.last_publish + 1_000_000 && after
                        == before
                    ||| after == (DeviceModel { last_publish: now, ..before }) && (
                    h.models[0].connected ==> exists|j: int, k: int|
                        #[trigger] timed_at(h, j) && #[trigger] state_sent_at(h, k) && j < k)
                }
            }
        }),
{
    let n = h.effects.len() as int;
    lemma_run_kept(h, n);
    lemma_run_origin(h.models[n], h.stages[n], reply);
    if run_turn(h.models[n], h.stages[n], reply).1 == RunTurn::Done(()) {
        assert(n > 0);
        let e = h.effects[n - 1];
        lemma_run_kept(h, n - 1);
        lemma_run_origin(h.models[n - 1], h.stages[n - 1], h.replies[n - 1]);
        let m = if h.stages[n] == RunStage::Timing {
            n
        } else {
            n - 1
        };
        let t = lemma_run_timed(h, m);
        lemma_run_history(h, t, t);
        assert forall|i: int| t - 1 < i <= n implies !(#[trigger] h.stages[i] is Checking) by {
            lemma_run_history(h, t, i);
        }
        lemma_run_history(h, t - 1, t - 1);
        assert(t > 2) by {
            if t <= 2 {
                let f = h.effects[0];
                lemma_run_step(h.models[0], h.stages[0], h.replies[0]);
                law_run_handles_command(h.models[0], CheckStage::Start, h.replies[0]);
                if t == 2 {
                    let g = h.effects[1];
                    law_run_handles_command(h.models[1], CheckStage::Start, h.replies[1]);
                }
            }
        }
        assert(timed_at(h, t - 1));
        if h.stages[n] == RunStage::Stamping && h.models[0].connected {
            let g = h.effects[n - 2];
            lemma_run_kept(h, n - 2);
            lemma_run_origin(h.models[n - 2], h.stages[n - 2], h.replies[n - 2]);
            assert(state_sent_at(h, n - 2));
        }
    }
}

/// Within the start, the network is joined just as that is done on its own: as long as it is not
/// joined, every step performs the effect of that step and goes on where that step goes on, and the
/// device is left as it is and does not stop. What is not up yet is waited for and asked again.
pub proof fn law_init_joins(dev: DeviceModel, stage: WifiStage, reply: Reply)
    requires
        dev.config is Some,
    ensures
        ({
            let (after, turn) = init_turn(dev, InitStage::JoiningWifi(stage), reply);
            &&& after == dev
            &&& stage != WifiStage::AwaitingStack ==> (turn matches Turn::Perform(
                effect,
                InitStage::JoiningWifi(next),
            ) && wifi_turn(dev, stage, reply) == WifiTurn::Perform(effect, next))
        }),
        reply != Reply::Ack(true) ==> {
            &&& init_turn(dev, InitStage::JoiningWifi(WifiStage::Joining), reply).1
                == InitTurn::Perform(
                Effect::JoinWifi {
                    ssid: dev.config->Some_0.wifi_ssid,
                    password: dev.config->Some_0.wifi_password,
                },
                InitStage::JoiningWifi(WifiStage::Joining),
            )
            &&& init_turn(dev, InitStage::JoiningWifi(WifiStage::AwaitingAddress), reply).1
                == InitTurn::Perform(
                Effect::Sleep(100),
                InitStage::JoiningWifi(WifiStage::AddressPause),
            )
            &&& init_turn(dev, InitStage::JoiningWifi(WifiStage::AwaitingLink), reply).1
                == InitTurn::Perform(
                Effect::Sleep(500),
                InitStage::JoiningWifi(WifiStage::LinkPause),
            )
        },
        init_turn(dev, InitStage::JoiningWifi(WifiStage::AddressPause), reply).1
            == InitTurn::Perform(
            Effect::QueryConfigUp,
            InitStage::JoiningWifi(WifiStage::AwaitingAddress),
        ),
        init_turn(dev, InitStage::JoiningWifi(WifiStage::LinkPause), reply).1 == InitTurn::Perform(
            Effect::QueryLinkUp,
            InitStage::JoiningWifi(WifiStage::AwaitingLink),
        ),
        reply == Reply::Ack(true) ==> {
            &&& init_turn(dev, InitStage::JoiningWifi(WifiStage::Joining), reply).1
                == InitTurn::Perform(
                Effect::QueryConfigUp,
                InitStage::JoiningWifi(WifiStage::AwaitingAddress),
            )
            &&& init_turn(dev, InitStage::JoiningWifi(WifiStage::AwaitingAddress), reply).1
                == InitTurn::Perform(
                Effect::QueryLinkUp,
                InitStage::JoiningWifi(WifiStage::AwaitingLink),
            )
            &&& init_turn(dev, InitStage::JoiningWifi(WifiStage::AwaitingLink), reply).1
                == InitTurn::Perform(
                Effect::WaitConfigUp,
                InitStage::JoiningWifi(WifiStage::AwaitingStack),
            )
        },
{
    law_wifi_steps(dev, reply);
}

/// Within the start, the broker is connected to just as that is done on its own, and right after the
/// network stack is up: every step leaves the device as that step does, performs its effect and goes
/// on where it goes on, or stops on its fault. Once connected, the watchdog is started for five
/// seconds, and with that the start is done.
pub proof fn law_init_connects(dev: DeviceModel, stage: MqttStage, any: Reply, reply: Reply)
    ensures
        ({
            let step = init_turn(dev, InitStage::JoiningMqtt(stage), reply);
            let (after, turn) = mqtt_turn(dev, stage, reply);
            &&& step.0 == after
            &&& match turn {
                Turn::Perform(effect, next) => step.1 == InitTurn::Perform(
                    effect,
                    InitStage::JoiningMqtt(next),
                ),
                Turn::Done(()) => step.1 == InitTurn::Perform(
                    Effect::StartWatchdog(5000),
                    InitStage::Guarding,
                ),
                Turn::Halt(fault) => step.1 == InitTurn::Halt(fault),
            }
        }),
        ({
            let step = init_turn(dev, InitStage::JoiningWifi(WifiStage::AwaitingStack), reply);
            let (after, turn) = mqtt_turn(dev, MqttStage::Start, any);
            &&& step.0 == dev
            &&& match turn {
                Turn::Perform(effect, next) => step.1 == InitTurn::Perform(
                    effect,
                    InitStage::JoiningMqtt(next),
                ),
                Turn::Halt(fault) => step.1 == InitTurn::Halt(fault),
                Turn::Done(()) => false,
            }
        }),
        init_turn(dev, InitStage::Guarding, reply) == (dev, InitTurn::Done(())),
{
}

/// Within the start, a command is handled just as that is done on its own; when that is done, the
/// device pauses for a second, flashes its LED for a tenth of a second, and goes on.
pub proof fn law_init_handles_command(dev: DeviceModel, stage: CheckStage, reply: Reply)
    ensures
        ({
            let step = init_turn(dev, InitStage::Checking(stage), reply);
            let (after, turn) = check_turn(dev, stage, reply);
            &&& step.0 == after
            &&& match turn {
                Turn::Perform(effect, next) => step.1 == InitTurn::Perform(
                    effect,
                    InitStage::Checking(next),
                ),
                Turn::Done(()) => step.1 == InitTurn::Perform(
                    Effect::Sleep(1000),
                    InitStage::Waiting,
                ),
                Turn::Halt(fault) => step.1 == InitTurn::Halt(fault),
            }
        }),
        init_turn(dev, InitStage::Waiting, reply) == (
            DeviceModel { led: true, ..dev },
            InitTurn::Perform(
                Effect::DriveLed { line: 0, level: true },
                InitStage::FlashLighting,
            ),
        ),
        init_turn(dev, InitStage::FlashLighting, reply) == (
            dev,
            InitTurn::Perform(Effect::Sleep(100), InitStage::FlashLit),
        ),
        init_turn(dev, InitStage::FlashLit, reply) == (
            DeviceModel { led: false, ..dev },
            InitTurn::Perform(
                Effect::DriveLed { line: 0, level: false },
                InitStage::FlashDarkening,
            ),
        ),
{
}

/// The start goes on in one of two ways: a device without a configuration looks for a command, and a
/// device with one joins the network of that configuration. It goes on after the pause that follows
/// a configuration that was read, after each flash of the LED, and at once where no configuration
/// could be read. The pause takes five seconds.
pub proof fn law_init_goes_on(
    dev: DeviceModel,
    reply: Reply,
    bytes: Vec<u8>,
    c: ConfigModel,
)
    ensures
        ({
            let goes_on = (
                dev,
                match dev.config {
                    None => InitTurn::Perform(
                        Effect::ReceiveCommand,
                        InitStage::Checking(CheckStage::Receiving),
                    ),
                    Some(own) => InitTurn::Perform(
                        Effect::JoinWifi { ssid: own.wifi_ssid, password: own.wifi_password },
                        InitStage::JoiningWifi(WifiStage::Joining),
                    ),
                },
            );
            let loading = InitStage::Loading(LoadStage::Loading);
            &&& init_turn(dev, InitStage::Settling, reply) == goes_on
            &&& init_turn(dev, InitStage::FlashDarkening, reply) == goes_on
            &&& !(reply is Flash) ==> init_turn(dev, loading, reply) == goes_on
            &&& (forall|d: ConfigModel| !reads_as(bytes@, d)) ==> init_turn(
                dev,
                loading,
                Reply::Flash(bytes),
            ) == goes_on
            &&& reads_as(bytes@, c) ==> init_turn(dev, loading, Reply::Flash(bytes)) == (
                DeviceModel { config: Some(c), ..dev },
                if byte_len(description(c)) <= 256 {
                    InitTurn::Perform(Effect::Sleep(5000), InitStage::Settling)
                } else {
                    InitTurn::Halt(Fault::ConfigNotDescribed)
                },
            )
        }),
{
    law_config_found(bytes@, c);
}

/// The start opens by saving power, lighting the LED for a second and darkening it for a second,
/// twice, and asking for the stored configuration; whatever is replied, none of this is skipped,
/// and nothing but the LED changes by it.
pub proof fn law_init_blinks(dev: DeviceModel, more: u8, reply: Reply)
    ensures
        ({
            let lit = DeviceModel { led: true, ..dev };
            let dark = DeviceModel { led: false, ..dev };
            &&& init_turn(dev, InitStage::Start, reply) == (
                dev,
                InitTurn::Perform(Effect::SavePower, InitStage::SavingPower),
            )
            &&& init_turn(dev, InitStage::SavingPower, reply) == (
                lit,
                InitTurn::Perform(
                    Effect::DriveLed { line: 0, level: true },
                    InitStage::BlinkLighting(1),
                ),
            )
            &&& init_turn(dev, InitStage::BlinkLighting(more), reply) == (
                dev,
                InitTurn::Perform(Effect::Sleep(1000), InitStage::BlinkLit(more)),
            )
            &&& init_turn(dev, InitStage::BlinkLit(more), reply) == (
                dark,
                InitTurn::Perform(
                    Effect::DriveLed { line: 0, level: false },
                    InitStage::BlinkDarkening(more),
                ),
            )
            &&& init_turn(dev, InitStage::BlinkDarkening(more), reply) == (
                dev,
                InitTurn::Perform(Effect::Sleep(1000), InitStage::BlinkDark(more)),
            )
            &&& init_turn(dev, InitStage::BlinkDark(more), reply) == if more > 0 {
                (
                    lit,
                    InitTurn::Perform(
                        Effect::DriveLed { line: 0, level: true },
                        InitStage::BlinkLighting((more - 1) as u8),
                    ),
                )
            } else {
                (
                    dev,
                    InitTurn::Perform(
                        Effect::ReadFlash { offset: 0x100000, length: 256 },
                        InitStage::Loading(LoadStage::Loading),
                    ),
                )
            }
        }),
{
}

} // verus!
