//! Carrying out commands.
use vstd::prelude::*;
use crate::command::{LedCommandParameter, PicoCommand};
use crate::config::Configuration;
use crate::device::{
    json_turn, led_after, publish_turn, temperature_turn, DemoDevice, DeviceModel, JsonStage,
    PublishStage, ReadStage, LED_LINE,
};
use crate::effect::{
    Action, ActionModel, Answer, DeviceState, Effect, Fault, Modelled, Publication, Reply, Turn,
};
use crate::storage::{store_turn, StoreStage};
use crate::temperature::{print_temperature, temperature_text};
use crate::text::{byte_len, from64, join64, lemma_ascii_byte_len, text64};

verus! {

/// Where a command stands.
#[derive(Debug, PartialEq)]
pub enum CommandStage {
    Start(PicoCommand),
    DrivingLed,
    Publishing(PublishStage),
    Resetting,
    Storing(Configuration, StoreStage),
    Sampling(ReadStage),
    Printing(JsonStage),
}

/// What a step of a command comes to, by its values.
pub type CommandTurn = Turn<ActionModel, CommandStage, Result<Seq<char>, Seq<char>>>;

/// The answer to an LED command.
pub open spec fn led_message(led: bool) -> Seq<char> {
    "LED set to "@ + (if led {
        "true"@
    } else {
        "false"@
    })
}

/// A step of an LED command while the new state is published.
pub open spec fn publishing_turn(dev: DeviceModel, stage: PublishStage, reply: Reply) -> CommandTurn {
    match publish_turn(dev, stage, reply) {
        Turn::Perform(action, next) => Turn::Perform(action, CommandStage::Publishing(next)),
        Turn::Done(()) => Turn::Done(Ok(led_message(dev.led))),
        Turn::Halt(fault) => Turn::Halt(fault),
    }
}

/// A step of a configuration command while the configuration is stored. It is taken over once it
/// is, and not otherwise.
pub open spec fn storing_turn(
    dev: DeviceModel,
    config: Configuration,
    stage: StoreStage,
    reply: Reply,
) -> (DeviceModel, CommandTurn) {
    match store_turn(config@, stage, reply) {
        Turn::Perform(action, next) => (
            dev,
            Turn::Perform(action, CommandStage::Storing(config, next)),
        ),
        Turn::Done(Ok(())) => (
            DeviceModel { config: Some(config@), ..dev },
            Turn::Done(Ok("Config set"@)),
        ),
        Turn::Done(Err(_)) => (dev, Turn::Done(Err("Failed to set config"@))),
        Turn::Halt(fault) => (dev, Turn::Halt(fault)),
    }
}

/// A step of a temperature command.
pub open spec fn sampling_turn(stage: ReadStage, reply: Reply) -> CommandTurn {
    match temperature_turn(stage, reply) {
        Turn::Perform(action, next) => Turn::Perform(action, CommandStage::Sampling(next)),
        Turn::Done(tenths) => Turn::Done(Ok(temperature_text(tenths))),
        Turn::Halt(fault) => Turn::Halt(fault),
    }
}

/// A step of a print command.
pub open spec fn printing_turn(dev: DeviceModel, stage: JsonStage, reply: Reply) -> CommandTurn {
    match json_turn(dev, stage, reply) {
        Turn::Perform(action, next) => Turn::Perform(action, CommandStage::Printing(next)),
        Turn::Done(answer) => Turn::Done(answer),
        Turn::Halt(fault) => Turn::Halt(fault),
    }
}

/// A step of a command, and what the device remembers after it.
pub open spec fn command_turn(dev: DeviceModel, at: CommandStage, reply: Reply) -> (
    DeviceModel,
    CommandTurn,
) {
    match at {
        CommandStage::Start(PicoCommand::Led(value)) => {
            let led = led_after(value, dev.led);
            (
                DeviceModel { led, ..dev },
                Turn::Perform(
                    Effect::DriveLed { line: LED_LINE, level: led },
                    CommandStage::DrivingLed,
                ),
            )
        },
        CommandStage::Start(PicoCommand::Reset) => (
            dev,
            Turn::Perform(Effect::TriggerReset, CommandStage::Resetting),
        ),
        CommandStage::Start(PicoCommand::SetConfig(config)) => storing_turn(
            dev,
            config,
            StoreStage::Start,
            reply,
        ),
        CommandStage::Start(PicoCommand::Temperature) => (
            dev,
            sampling_turn(ReadStage::Start, reply),
        ),
        CommandStage::Start(PicoCommand::PrintState) => (
            dev,
            if dev.config is None {
                Turn::Done(Err("Config not set"@))
            } else {
                printing_turn(dev, JsonStage::Reading(ReadStage::Start), reply)
            },
        ),
        CommandStage::DrivingLed => (dev, publishing_turn(dev, PublishStage::Start, reply)),
        CommandStage::Publishing(stage) => (dev, publishing_turn(dev, stage, reply)),
        CommandStage::Resetting => (dev, Turn::Done(Ok("Resetting"@))),
        CommandStage::Storing(config, stage) => storing_turn(dev, config, stage, reply),
        CommandStage::Sampling(stage) => (dev, sampling_turn(stage, reply)),
        CommandStage::Printing(stage) => (dev, printing_turn(dev, stage, reply)),
    }
}

/// The lengths of the fixed answers.
proof fn lemma_answers()
    ensures
        byte_len("LED set to "@) == 11,
        byte_len("true"@) == 4,
        byte_len("false"@) == 5,
        byte_len("Resetting"@) == 9,
        byte_len("Config set"@) == 10,
        byte_len(""@) == 0,
        ""@ =~= Seq::<char>::empty(),
{
    reveal_strlit("LED set to ");
    reveal_strlit("true");
    reveal_strlit("false");
    reveal_strlit("Resetting");
    reveal_strlit("Config set");
    reveal_strlit("");
    lemma_ascii_byte_len("LED set to "@);
    lemma_ascii_byte_len("true"@);
    lemma_ascii_byte_len("false"@);
    lemma_ascii_byte_len("Resetting"@);
    lemma_ascii_byte_len("Config set"@);
    lemma_ascii_byte_len(""@);
}

/// The answer to an LED command.
fn print_led(led: bool) -> (r: heapless::String<64>)
    ensures
        text64(r) == led_message(led),
{
    proof {
        lemma_answers();
    }
    let r = join64("LED set to ", if led { "true" } else { "false" }, "");
    assert(text64(r) =~= led_message(led));
    r
}

impl<P> DemoDevice<P> {
    fn publishing(&self, stage: PublishStage, reply: Reply) -> (r: Turn<Action, CommandStage, Answer>)
        ensures
            r.model() == publishing_turn(self@, stage, reply),
    {
        match self.publish_state(stage, reply) {
            Turn::Perform(action, next) => Turn::Perform(action, CommandStage::Publishing(next)),
            Turn::Done(()) => Turn::Done(Ok(print_led(self.current_led_state))),
            Turn::Halt(fault) => Turn::Halt(fault),
        }
    }

    fn storing(&mut self, config: Configuration, stage: StoreStage, reply: Reply) -> (r: Turn<
        Action,
        CommandStage,
        Answer,
    >)
        ensures
            (final(self)@, r.model()) == storing_turn(old(self)@, config, stage, reply),
            final(self).peripherals == old(self).peripherals,
    {
        match self.write_config(&config, stage, reply) {
            Turn::Perform(action, next) => Turn::Perform(
                action,
                CommandStage::Storing(config, next),
            ),
            Turn::Done(Ok(())) => {
                self.set_config(config);
                proof {
                    lemma_answers();
                }
                Turn::Done(Ok(from64("Config set")))
            },
            Turn::Done(Err(_)) => Turn::Done(Err("Failed to set config")),
            Turn::Halt(fault) => Turn::Halt(fault),
        }
    }

    fn sampling(&self, stage: ReadStage, reply: Reply) -> (r: Turn<Action, CommandStage, Answer>)
        ensures
            r.model() == sampling_turn(stage, reply),
    {
        match self.read_temperature(stage, reply) {
            Turn::Perform(action, next) => Turn::Perform(action, CommandStage::Sampling(next)),
            Turn::Done(tenths) => Turn::Done(Ok(print_temperature(tenths))),
            Turn::Halt(fault) => Turn::Halt(fault),
        }
    }

    fn printing(&self, stage: JsonStage, reply: Reply) -> (r: Turn<Action, CommandStage, Answer>)
        ensures
            r.model() == printing_turn(self@, stage, reply),
    {
        match self.get_state_json(stage, reply) {
            Turn::Perform(action, next) => Turn::Perform(action, CommandStage::Printing(next)),
            Turn::Done(answer) => Turn::Done(answer),
            Turn::Halt(fault) => Turn::Halt(fault),
        }
    }

    /// A step in carrying out a command, whose result is the answer to it.
    pub fn execute_command(&mut self, at: CommandStage, reply: Reply) -> (r: Turn<
        Action,
        CommandStage,
        Answer,
    >)
        ensures
            (final(self)@, r.model()) == command_turn(old(self)@, at, reply),
            final(self).peripherals == old(self).peripherals,
    {
        match at {
            CommandStage::Start(command) => match command {
                PicoCommand::Led(value) => {
                    let action = self.set_led(value);
                    Turn::Perform(action, CommandStage::DrivingLed)
                },
                PicoCommand::Reset => Turn::Perform(Effect::TriggerReset, CommandStage::Resetting),
                PicoCommand::SetConfig(config) => self.storing(config, StoreStage::Start, reply),
                PicoCommand::Temperature => self.sampling(ReadStage::Start, reply),
                PicoCommand::PrintState => {
                    if self.config.is_none() {
                        return Turn::Done(Err("Config not set"));
                    }
                    self.printing(JsonStage::Reading(ReadStage::Start), reply)
                },
            },
            CommandStage::DrivingLed => self.publishing(PublishStage::Start, reply),
            CommandStage::Publishing(stage) => self.publishing(stage, reply),
            CommandStage::Resetting => {
                proof {
                    lemma_answers();
                }
                Turn::Done(Ok(from64("Resetting")))
            },
            CommandStage::Storing(config, stage) => self.storing(config, stage, reply),
            CommandStage::Sampling(stage) => self.sampling(stage, reply),
            CommandStage::Printing(stage) => self.printing(stage, reply),
        }
    }
}

/// A step of a command changes nothing but the LED, in the first step of an LED command, and the
/// configuration, in the step that learns that a new one has been written.
pub proof fn law_command_changes(dev: DeviceModel, at: CommandStage, reply: Reply)
    ensures
        ({
            let after = command_turn(dev, at, reply).0;
            match at {
                CommandStage::Start(PicoCommand::Led(value)) => after == (DeviceModel {
                    led: led_after(value, dev.led),
                    ..dev
                }),
                CommandStage::Storing(config, StoreStage::Writing) => after == (DeviceModel {
                    config: if reply.acknowledged() {
                        Some(config@)
                    } else {
                        dev.config
                    },
                    ..dev
                }),
                _ => after == dev,
            }
        }),
{
}

/// A configuration that fits is written to flash, and then taken over.
pub proof fn law_config_command_accepted(dev: DeviceModel, config: Configuration, reply: Reply)
    requires
        config@.storable(),
    ensures
        command_turn(dev, CommandStage::Start(PicoCommand::SetConfig(config)), reply) == (
            dev,
            CommandTurn::Perform(
                store_turn(config@, StoreStage::Start, reply)->Perform_0,
                CommandStage::Storing(config, StoreStage::Erasing),
            ),
        ),
        command_turn(dev, CommandStage::Storing(config, StoreStage::Erasing), Reply::Ack(true)) == (
            dev,
            CommandTurn::Perform(
                store_turn(config@, StoreStage::Erasing, Reply::Ack(true))->Perform_0,
                CommandStage::Storing(config, StoreStage::Writing),
            ),
        ),
        command_turn(dev, CommandStage::Storing(config, StoreStage::Writing), Reply::Ack(true)) == (
            DeviceModel { config: Some(config@), ..dev },
            CommandTurn::Done(Ok("Config set"@)),
        ),
{
}

/// A configuration that does not fit is refused without an effect, and one that cannot be erased
/// for or written is refused with the same answer. The device keeps what it has.
pub proof fn law_config_command_refused(
    dev: DeviceModel,
    config: Configuration,
    stage: StoreStage,
    reply: Reply,
)
    requires
        if stage == StoreStage::Start {
            !config@.storable()
        } else {
            !reply.acknowledged()
        },
    ensures
        command_turn(dev, CommandStage::Storing(config, stage), reply) == (
            dev,
            CommandTurn::Done(Err("Failed to set config"@)),
        ),
        stage == StoreStage::Start ==> command_turn(
            dev,
            CommandStage::Start(PicoCommand::SetConfig(config)),
            reply,
        ) == (dev, CommandTurn::Done(Err("Failed to set config"@))),
{
}

/// A device without a configuration refuses to print its state, without an effect.
pub proof fn law_print_needs_configuration(dev: DeviceModel, reply: Reply)
    requires
        dev.config is None,
    ensures
        command_turn(dev, CommandStage::Start(PicoCommand::PrintState), reply) == (
            dev,
            CommandTurn::Done(Err("Config not set"@)),
        ),
{
}

/// An LED command drives the LED's line to the level that the device then remembers and answers with, and
/// it publishes the state just as the device does of itself.
pub proof fn law_led_command(
    dev: DeviceModel,
    value: LedCommandParameter,
    stage: PublishStage,
    reply: Reply,
)
    ensures
        ({
            let lit = DeviceModel { led: led_after(value, dev.led), ..dev };
            &&& command_turn(dev, CommandStage::Start(PicoCommand::Led(value)), reply) == (
                lit,
                CommandTurn::Perform(
                    Effect::DriveLed { line: LED_LINE, level: lit.led },
                    CommandStage::DrivingLed,
                ),
            )
            &&& command_turn(lit, CommandStage::DrivingLed, reply) == command_turn(
                lit,
                CommandStage::Publishing(PublishStage::Start),
                reply,
            )
            &&& command_turn(lit, CommandStage::Publishing(stage), reply) == (
                lit,
                match publish_turn(lit, stage, reply) {
                    Turn::Perform(action, next) => CommandTurn::Perform(
                        action,
                        CommandStage::Publishing(next),
                    ),
                    Turn::Done(()) => CommandTurn::Done(Ok(led_message(lit.led))),
                    Turn::Halt(fault) => CommandTurn::Halt(fault),
                },
            )
        }),
{
}

/// The answers to LED commands, whole.
proof fn lemma_led_messages(led: bool)
    ensures
        led_message(led) == if led {
            "LED set to true"@
        } else {
            "LED set to false"@
        },
{
    reveal_strlit("LED set to ");
    reveal_strlit("true");
    reveal_strlit("false");
    reveal_strlit("LED set to true");
    reveal_strlit("LED set to false");
    assert("LED set to "@ + "true"@ =~= "LED set to true"@);
    assert("LED set to "@ + "false"@ =~= "LED set to false"@);
}

/// An LED command lights, darkens or switches over the LED, drives its line to that, and leaves all
/// else as it is. Without a session it is then answered; with one, the state with the LED as it now
/// is goes to the state topic before it is answered. The answer tells the LED.
pub proof fn law_led_command_effects(
    dev: DeviceModel,
    value: LedCommandParameter,
    reply: Reply,
    tenths: i16,
    json: heapless::String<64>,
)
    ensures
        ({
            let level = match value {
                LedCommandParameter::On => true,
                LedCommandParameter::Off => false,
                LedCommandParameter::Toggle => !dev.led,
            };
            let lit = DeviceModel { led: level, ..dev };
            let sampling = CommandStage::Publishing(
                PublishStage::Encoding(JsonStage::Reading(ReadStage::Sampling)),
            );
            let encoding = CommandStage::Publishing(PublishStage::Encoding(JsonStage::Encoding));
            let sending = CommandStage::Publishing(PublishStage::Sending);
            let answered = CommandTurn::Done(
                Ok(
                    if level {
                        "LED set to true"@
                    } else {
                        "LED set to false"@
                    },
                ),
            );
            &&& command_turn(dev, CommandStage::Start(PicoCommand::Led(value)), reply) == (
                lit,
                CommandTurn::Perform(
                    Effect::DriveLed { line: 0, level },
                    CommandStage::DrivingLed,
                ),
            )
            &&& command_turn(lit, CommandStage::DrivingLed, reply) == (
                lit,
                if dev.connected {
                    CommandTurn::Perform(Effect::SampleTemperature, sampling)
                } else {
                    answered
                },
            )
            &&& command_turn(lit, sampling, Reply::Temperature(tenths)) == (
                lit,
                CommandTurn::Perform(
                    Effect::EncodeState(DeviceState { temperature: tenths, led_state: level }),
                    encoding,
                ),
            )
            &&& command_turn(lit, encoding, Reply::Json(json)) == (
                lit,
                CommandTurn::Perform(
                    Effect::Send(
                        Publication {
                            topic: "device/"@ + dev.id + "/state"@,
                            payload: text64(json),
                            qos: 1,
                            retain: true,
                        },
                    ),
                    sending,
                ),
            )
            &&& command_turn(lit, sending, Reply::Ack(true)) == (lit, answered)
            &&& !(reply is Temperature) ==> command_turn(lit, sampling, reply) == (
                lit,
                CommandTurn::Halt(Fault::SensorFailed),
            )
            &&& !(reply is Json) ==> command_turn(lit, encoding, reply) == (
                lit,
                CommandTurn::Halt(Fault::StateNotEncoded),
            )
            &&& reply != Reply::Ack(true) ==> command_turn(lit, sending, reply) == (
                lit,
                CommandTurn::Halt(Fault::SendFailed),
            )
        }),
{
    lemma_led_messages(true);
    lemma_led_messages(false);
}

/// A reset command restarts the device and is answered, and leaves all as it is.
pub proof fn law_reset_command(dev: DeviceModel, reply: Reply)
    ensures
        command_turn(dev, CommandStage::Start(PicoCommand::Reset), reply) == (
            dev,
            CommandTurn::Perform(Effect::TriggerReset, CommandStage::Resetting),
        ),
        command_turn(dev, CommandStage::Resetting, reply) == (
            dev,
            CommandTurn::Done(Ok("Resetting"@)),
        ),
{
}

/// A temperature command samples the sensor and is answered by the text of just the temperature
/// that came back, whether or not there is a configuration or a session.
pub proof fn law_temperature_command(dev: DeviceModel, reply: Reply, tenths: i16)
    ensures
        command_turn(dev, CommandStage::Start(PicoCommand::Temperature), reply) == (
            dev,
            CommandTurn::Perform(
                Effect::SampleTemperature,
                CommandStage::Sampling(ReadStage::Sampling),
            ),
        ),
        command_turn(
            dev,
            CommandStage::Sampling(ReadStage::Sampling),
            Reply::Temperature(tenths),
        ) == (dev, CommandTurn::Done(Ok(temperature_text(tenths)))),
        !(reply is Temperature) ==> command_turn(
            dev,
            CommandStage::Sampling(ReadStage::Sampling),
            reply,
        ) == (dev, CommandTurn::Halt(Fault::SensorFailed)),
{
}

/// A print command on a configured device samples the sensor, encodes what came back together with
/// the LED as it is, and is answered by just the text that comes back for that.
pub proof fn law_print_command(
    dev: DeviceModel,
    reply: Reply,
    tenths: i16,
    json: heapless::String<64>,
)
    requires
        dev.config is Some,
    ensures
        ({
            let sampling = CommandStage::Printing(JsonStage::Reading(ReadStage::Sampling));
            let encoding = CommandStage::Printing(JsonStage::Encoding);
            &&& command_turn(dev, CommandStage::Start(PicoCommand::PrintState), reply) == (
                dev,
                CommandTurn::Perform(Effect::SampleTemperature, sampling),
            )
            &&& command_turn(dev, sampling, Reply::Temperature(tenths)) == (
                dev,
                CommandTurn::Perform(
                    Effect::EncodeState(DeviceState { temperature: tenths, led_state: dev.led }),
                    encoding,
                ),
            )
            &&& !(reply is Temperature) ==> command_turn(dev, sampling, reply) == (
                dev,
                CommandTurn::Halt(Fault::SensorFailed),
            )
            &&& command_turn(dev, encoding, Reply::Json(json)) == (
                dev,
                CommandTurn::Done(Ok(text64(json))),
            )
            &&& !(reply is Json) ==> command_turn(dev, encoding, reply) == (
                dev,
                CommandTurn::Done(Err("Failed to serialize state"@)),
            )
        }),
{
}

/// A configuration command erases the sector and writes the bytes of the configuration it was given;
/// the device has that configuration once it is told that they are written, and is then answered.
/// Wherever this fails, the device keeps the configuration that it has.
pub proof fn law_config_command_effects(dev: DeviceModel, config: Configuration, reply: Reply)
    ensures
        ({
            let refused = (dev, CommandTurn::Done(Err("Failed to set config"@)));
            let erasing = CommandStage::Storing(config, StoreStage::Erasing);
            let writing = CommandStage::Storing(config, StoreStage::Writing);
            &&& command_turn(dev, CommandStage::Start(PicoCommand::SetConfig(config)), reply)
                == if config@.bytes().len() <= 256 {
                (
                    dev,
                    CommandTurn::Perform(
                        Effect::EraseFlash { from: 0x100000, to: 0x101000 },
                        erasing,
                    ),
                )
            } else {
                refused
            }
            &&& config@.bytes().len() <= 256 ==> command_turn(dev, erasing, Reply::Ack(true)) == (
                dev,
                CommandTurn::Perform(
                    Effect::WriteFlash { offset: 0x100000, bytes: config@.bytes() },
                    writing,
                ),
            )
            &&& reply != Reply::Ack(true) ==> command_turn(dev, erasing, reply) == refused
            &&& command_turn(dev, writing, reply) == if reply == Reply::Ack(true) {
                (
                    DeviceModel { config: Some(config@), ..dev },
                    CommandTurn::Done(Ok("Config set"@)),
                )
            } else {
                refused
            }
        }),
{
}

} // verus!
