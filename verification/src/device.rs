//! The device: what it is put together from, what it remembers, and what it reports.
use vstd::prelude::*;
use crate::command::LedCommandParameter;
use crate::config::{ConfigModel, Configuration};
use crate::effect::{
    Action, ActionModel, Answer, DeviceState, Effect, Fault, Modelled, Publication, Reply, Turn,
};
use crate::mqtt::{device_topic, state_topic, AT_LEAST_ONCE};
use crate::text::{text16, text64};

verus! {

/// The line that the LED is wired to, whatever the configuration says of a pin.
pub const LED_LINE: u8 = 0;

/// The handles through which effects are performed. The library only keeps them.
pub struct Peripherals<R, S, C, A, H, W, F> {
    pub command_receiver: R,
    pub stack: S,
    pub control: C,
    pub adc: (A, H),
    pub watchdog: W,
    pub flash: F,
}

/// Collects what a device is made of.
pub struct DemoDeviceBuilder<R, S, C, A, H, W, F> {
    pub command_receiver: Option<R>,
    pub stack: Option<S>,
    pub control: Option<C>,
    pub adc: Option<(A, H)>,
    pub id_string: Option<&'static heapless::String<16>>,
    pub watchdog: Option<W>,
    pub flash: Option<F>,
}

/// The device, with `P` the handles that it keeps.
pub struct DemoDevice<P> {
    pub peripherals: P,
    pub id_string: &'static heapless::String<16>,
    pub config: Option<Configuration>,
    pub current_led_state: bool,
    /// Whether there is a session with the broker.
    pub mqtt_connected: bool,
    /// When the state was last published, in ticks.
    pub last_publish: u64,
}

/// What the device remembers.
pub struct DeviceModel {
    pub id: Seq<char>,
    pub config: Option<ConfigModel>,
    pub led: bool,
    pub connected: bool,
    pub last_publish: u64,
}

impl<P> View for DemoDevice<P> {
    type V = DeviceModel;

    open spec fn view(&self) -> DeviceModel {
        DeviceModel {
            id: text16(*self.id_string),
            config: match self.config {
                Some(c) => Some(c@),
                None => None,
            },
            led: self.current_led_state,
            connected: self.mqtt_connected,
            last_publish: self.last_publish,
        }
    }
}

impl<R, S, C, A, H, W, F> DemoDeviceBuilder<R, S, C, A, H, W, F> {
    /// Whether nothing is missing.
    pub open spec fn complete(self) -> bool {
        &&& self.command_receiver is Some
        &&& self.stack is Some
        &&& self.control is Some
        &&& self.adc is Some
        &&& self.id_string is Some
        &&& self.watchdog is Some
        &&& self.flash is Some
    }

    /// A builder that has been given nothing yet.
    pub fn new() -> (r: Self)
        ensures
            r == (DemoDeviceBuilder::<R, S, C, A, H, W, F> {
                command_receiver: None,
                stack: None,
                control: None,
                adc: None,
                id_string: None,
                watchdog: None,
                flash: None,
            }),
    {
        DemoDeviceBuilder {
            command_receiver: None,
            stack: None,
            control: None,
            adc: None,
            id_string: None,
            watchdog: None,
            flash: None,
        }
    }

    pub fn with_id(self, id: &'static heapless::String<16>) -> (r: Self)
        ensures
            r == (DemoDeviceBuilder { id_string: Some(id), ..self }),
    {
        DemoDeviceBuilder { id_string: Some(id), ..self }
    }

    pub fn with_command_receiver(self, receiver: R) -> (r: Self)
        ensures
            r == (DemoDeviceBuilder { command_receiver: Some(receiver), ..self }),
    {
        DemoDeviceBuilder { command_receiver: Some(receiver), ..self }
    }

    pub fn with_stack(self, stack: S) -> (r: Self)
        ensures
            r == (DemoDeviceBuilder { stack: Some(stack), ..self }),
    {
        DemoDeviceBuilder { stack: Some(stack), ..self }
    }

    pub fn with_flash(self, flash: F) -> (r: Self)
        ensures
            r == (DemoDeviceBuilder { flash: Some(flash), ..self }),
    {
        DemoDeviceBuilder { flash: Some(flash), ..self }
    }

    pub fn with_control(self, control: C) -> (r: Self)
        ensures
            r == (DemoDeviceBuilder { control: Some(control), ..self }),
    {
        DemoDeviceBuilder { control: Some(control), ..self }
    }

    pub fn with_adc(self, adc: A, channel: H) -> (r: Self)
        ensures
            r == (DemoDeviceBuilder { adc: Some((adc, channel)), ..self }),
    {
        DemoDeviceBuilder { adc: Some((adc, channel)), ..self }
    }

    pub fn with_watchdog(self, watchdog: W) -> (r: Self)
        ensures
            r == (DemoDeviceBuilder { watchdog: Some(watchdog), ..self }),
    {
        DemoDeviceBuilder { watchdog: Some(watchdog), ..self }
    }

    /// The device, at the time `now` in ticks: not configured, not connected, its LED dark.
    pub fn build(self, now: u64) -> (r: DemoDevice<Peripherals<R, S, C, A, H, W, F>>)
        requires
            self.complete(),
        ensures
            r == (DemoDevice {
                peripherals: Peripherals {
                    command_receiver: self.command_receiver->Some_0,
                    stack: self.stack->Some_0,
                    control: self.control->Some_0,
                    adc: self.adc->Some_0,
                    watchdog: self.watchdog->Some_0,
                    flash: self.flash->Some_0,
                },
                id_string: self.id_string->Some_0,
                config: None,
                current_led_state: false,
                mqtt_connected: false,
                last_publish: now,
            }),
    {
        DemoDevice {
            peripherals: Peripherals {
                command_receiver: self.command_receiver.unwrap(),
                stack: self.stack.unwrap(),
                control: self.control.unwrap(),
                adc: self.adc.unwrap(),
                watchdog: self.watchdog.unwrap(),
                flash: self.flash.unwrap(),
            },
            id_string: self.id_string.unwrap(),
            config: None,
            current_led_state: false,
            mqtt_connected: false,
            last_publish: now,
        }
    }
}

/// The LED after a command, given what it was before.
pub open spec fn led_after(value: LedCommandParameter, before: bool) -> bool {
    match value {
        LedCommandParameter::On => true,
        LedCommandParameter::Off => false,
        LedCommandParameter::Toggle => !before,
    }
}

/// Where the measurement of the temperature stands.
#[derive(Debug, PartialEq, Eq, Structural, Clone, Copy)]
pub enum ReadStage {
    Start,
    Sampling,
}

/// Where the writing down of the state stands.
#[derive(Debug, PartialEq, Eq, Structural, Clone, Copy)]
pub enum JsonStage {
    Reading(ReadStage),
    Encoding,
}

/// Where the publication of the state stands.
#[derive(Debug, PartialEq, Eq, Structural, Clone, Copy)]
pub enum PublishStage {
    Start,
    Encoding(JsonStage),
    Sending,
}

/// A step in the measurement of the temperature: it is sampled, and that is the result.
pub open spec fn temperature_turn(at: ReadStage, reply: Reply) -> Turn<
    ActionModel,
    ReadStage,
    i16,
> {
    match at {
        ReadStage::Start => Turn::Perform(Effect::SampleTemperature, ReadStage::Sampling),
        ReadStage::Sampling => match reply {
            Reply::Temperature(tenths) => Turn::Done(tenths),
            _ => Turn::Halt(Fault::SensorFailed),
        },
    }
}

/// A step in taking the state: the temperature is measured and put beside the LED.
pub open spec fn state_turn(dev: DeviceModel, at: ReadStage, reply: Reply) -> Turn<
    ActionModel,
    ReadStage,
    DeviceState,
> {
    match temperature_turn(at, reply) {
        Turn::Perform(action, next) => Turn::Perform(action, next),
        Turn::Done(temperature) => Turn::Done(DeviceState { temperature, led_state: dev.led }),
        Turn::Halt(fault) => Turn::Halt(fault),
    }
}

/// A step in writing down the state: it is taken, then encoded.
pub open spec fn json_turn(dev: DeviceModel, at: JsonStage, reply: Reply) -> Turn<
    ActionModel,
    JsonStage,
    Result<Seq<char>, Seq<char>>,
> {
    match at {
        JsonStage::Reading(stage) => match state_turn(dev, stage, reply) {
            Turn::Perform(action, next) => Turn::Perform(action, JsonStage::Reading(next)),
            Turn::Done(state) => Turn::Perform(Effect::EncodeState(state), JsonStage::Encoding),
            Turn::Halt(fault) => Turn::Halt(fault),
        },
        JsonStage::Encoding => match reply {
            Reply::Json(json) => Turn::Done(Ok(text64(json))),
            _ => Turn::Done(Err("Failed to serialize state"@)),
        },
    }
}

/// The message that carries a state to the broker.
pub open spec fn state_message(id: Seq<char>, json: Seq<char>) -> Publication<Seq<char>> {
    Publication { topic: device_topic(id, "/state"@), payload: json, qos: AT_LEAST_ONCE, retain: true }
}

/// A step in publishing the state: without a session there is nothing to do; with one, the state
/// is written down and sent.
pub open spec fn publish_turn(dev: DeviceModel, at: PublishStage, reply: Reply) -> Turn<
    ActionModel,
    PublishStage,
    (),
> {
    match at {
        PublishStage::Start => if dev.connected {
            publish_encoding_turn(dev, JsonStage::Reading(ReadStage::Start), reply)
        } else {
            Turn::Done(())
        },
        PublishStage::Encoding(stage) => publish_encoding_turn(dev, stage, reply),
        PublishStage::Sending => if reply.acknowledged() {
            Turn::Done(())
        } else {
            Turn::Halt(Fault::SendFailed)
        },
    }
}

/// A step in publishing the state while it is being written down.
pub open spec fn publish_encoding_turn(dev: DeviceModel, stage: JsonStage, reply: Reply) -> Turn<
    ActionModel,
    PublishStage,
    (),
> {
    match json_turn(dev, stage, reply) {
        Turn::Perform(action, next) => Turn::Perform(action, PublishStage::Encoding(next)),
        Turn::Done(Ok(json)) => Turn::Perform(
            Effect::Send(state_message(dev.id, json)),
            PublishStage::Sending,
        ),
        Turn::Done(Err(_)) => Turn::Halt(Fault::StateNotEncoded),
        Turn::Halt(fault) => Turn::Halt(fault),
    }
}

impl<P> DemoDevice<P> {
    /// Takes over a configuration.
    pub fn set_config(&mut self, config: Configuration)
        ensures
            *final(self) == (DemoDevice { config: Some(config), ..*old(self) }),
    {
        self.config = Some(config);
    }

    /// The configuration, if there is one.
    pub fn get_config(&self) -> (r: Option<&Configuration>)
        ensures
            match r {
                Some(c) => self.config == Some(*c),
                None => self.config is None,
            },
    {
        self.config.as_ref()
    }

    /// Notes what the LED is set to, and gives the effect that sets it.
    pub fn set_led(&mut self, value: LedCommandParameter) -> (r: Action)
        ensures
            *final(self) == (DemoDevice {
                current_led_state: led_after(value, old(self).current_led_state),
                ..*old(self)
            }),
            r == (Action::DriveLed {
                line: LED_LINE,
                level: led_after(value, old(self).current_led_state),
            }),
    {
        match value {
            LedCommandParameter::On => {
                self.current_led_state = true;
            },
            LedCommandParameter::Off => {
                self.current_led_state = false;
            },
            LedCommandParameter::Toggle => {
                self.current_led_state = !self.current_led_state;
            },
        }
        Effect::DriveLed { line: LED_LINE, level: self.current_led_state }
    }

    /// A step in measuring the temperature, in tenths of a degree Celsius.
    pub fn read_temperature(&self, at: ReadStage, reply: Reply) -> (r: Turn<Action, ReadStage, i16>)
        ensures
            r.model() == temperature_turn(at, reply),
    {
        match at {
            ReadStage::Start => Turn::Perform(Effect::SampleTemperature, ReadStage::Sampling),
            ReadStage::Sampling => match reply {
                Reply::Temperature(tenths) => Turn::Done(tenths),
                _ => Turn::Halt(Fault::SensorFailed),
            },
        }
    }

    /// A step in taking the state.
    pub fn get_state(&self, at: ReadStage, reply: Reply) -> (r: Turn<
        Action,
        ReadStage,
        DeviceState,
    >)
        ensures
            r.model() == state_turn(self@, at, reply),
    {
        match self.read_temperature(at, reply) {
            Turn::Perform(action, next) => Turn::Perform(action, next),
            Turn::Done(temperature) => Turn::Done(
                DeviceState { temperature, led_state: self.current_led_state },
            ),
            Turn::Halt(fault) => Turn::Halt(fault),
        }
    }

    /// A step in writing down the state as JSON.
    pub fn get_state_json(&self, at: JsonStage, reply: Reply) -> (r: Turn<Action, JsonStage, Answer>)
        ensures
            r.model() == json_turn(self@, at, reply),
    {
        match at {
            JsonStage::Reading(stage) => match self.get_state(stage, reply) {
                Turn::Perform(action, next) => Turn::Perform(action, JsonStage::Reading(next)),
                Turn::Done(state) => Turn::Perform(Effect::EncodeState(state), JsonStage::Encoding),
                Turn::Halt(fault) => Turn::Halt(fault),
            },
            JsonStage::Encoding => match reply {
                Reply::Json(json) => Turn::Done(Ok(json)),
                _ => Turn::Done(Err("Failed to serialize state")),
            },
        }
    }

    /// A step in publishing the state.
    pub fn publish_state(&self, at: PublishStage, reply: Reply) -> (r: Turn<
        Action,
        PublishStage,
        (),
    >)
        ensures
            r.model() == publish_turn(self@, at, reply),
    {
        let stage = match at {
            PublishStage::Start => {
                if !self.mqtt_connected {
                    return Turn::Done(());
                }
                JsonStage::Reading(ReadStage::Start)
            },
            PublishStage::Encoding(stage) => stage,
            PublishStage::Sending => {
                return if reply.is_acknowledged() {
                    Turn::Done(())
                } else {
                    Turn::Halt(Fault::SendFailed)
                };
            },
        };
        match self.get_state_json(stage, reply) {
            Turn::Perform(action, next) => Turn::Perform(action, PublishStage::Encoding(next)),
            Turn::Done(Ok(payload)) => Turn::Perform(
                Effect::Send(
                    Publication {
                        topic: state_topic(self.id_string),
                        payload,
                        qos: AT_LEAST_ONCE,
                        retain: true,
                    },
                ),
                PublishStage::Sending,
            ),
            Turn::Done(Err(_)) => Turn::Halt(Fault::StateNotEncoded),
            Turn::Halt(fault) => Turn::Halt(fault),
        }
    }
}

/// Switching the LED on or off does not depend on what it was, so that the last such command wins,
/// and switching it over twice changes nothing.
pub proof fn law_led_commands(before: bool)
    ensures
        led_after(LedCommandParameter::On, before),
        !led_after(LedCommandParameter::Off, before),
        led_after(LedCommandParameter::Toggle, before) != before,
        led_after(
            LedCommandParameter::Toggle,
            led_after(LedCommandParameter::Toggle, before),
        ) == before,
{
}

/// Without a session, publishing the state has no effect.
pub proof fn law_publish_without_session(dev: DeviceModel, reply: Reply)
    requires
        !dev.connected,
    ensures
        publish_turn(dev, PublishStage::Start, reply) == Turn::<ActionModel, PublishStage, ()>::Done(
            (),
        ),
{
}

/// With a session, publishing the state measures the temperature, writes it down together with the
/// LED, and sends just what was written down to the device's state topic.
pub proof fn law_publish_with_session(
    dev: DeviceModel,
    reply: Reply,
    tenths: i16,
    json: heapless::String<64>,
)
    requires
        dev.connected,
    ensures
        ({
            let sampling = PublishStage::Encoding(JsonStage::Reading(ReadStage::Sampling));
            let encoding = PublishStage::Encoding(JsonStage::Encoding);
            let state = DeviceState { temperature: tenths, led_state: dev.led };
            &&& publish_turn(dev, PublishStage::Start, reply) == Turn::<
                ActionModel,
                PublishStage,
                (),
            >::Perform(Effect::SampleTemperature, sampling)
            &&& publish_turn(dev, sampling, Reply::Temperature(tenths)) == Turn::<
                ActionModel,
                PublishStage,
                (),
            >::Perform(Effect::EncodeState(state), encoding)
            &&& publish_turn(dev, encoding, Reply::Json(json)) == Turn::<
                ActionModel,
                PublishStage,
                (),
            >::Perform(
                Effect::Send(state_message(dev.id, text64(json))),
                PublishStage::Sending,
            )
            &&& publish_turn(dev, PublishStage::Sending, Reply::Ack(true)) == Turn::<
                ActionModel,
                PublishStage,
                (),
            >::Done(())
        }),
{
}

/// What contracts speak of is what the device holds.
pub proof fn law_device_modelled<P>(d: DemoDevice<P>)
    ensures
        d@.id == text16(*d.id_string),
        match (d.config, d@.config) {
            (Some(config), Some(c)) => config@ == c,
            (None, None) => true,
            _ => false,
        },
        d@.led == d.current_led_state,
        d@.connected == d.mqtt_connected,
        d@.last_publish == d.last_publish,
{
}

/// What a step in measuring the temperature comes to, by its values.
pub type TemperatureTurn = Turn<ActionModel, ReadStage, i16>;

/// What a step in taking the state comes to, by its values.
pub type StateTurn = Turn<ActionModel, ReadStage, DeviceState>;

/// What a step in writing down the state comes to, by its values.
pub type JsonTurn = Turn<ActionModel, JsonStage, Result<Seq<char>, Seq<char>>>;

/// What a step in publishing the state comes to, by its values.
pub type PublishTurn = Turn<ActionModel, PublishStage, ()>;

/// The sensor is sampled, the result is just what it replies, and the device stops if it does not.
pub proof fn law_temperature_measured(reply: Reply, tenths: i16)
    ensures
        temperature_turn(ReadStage::Start, reply) == TemperatureTurn::Perform(
            Effect::SampleTemperature,
            ReadStage::Sampling,
        ),
        temperature_turn(ReadStage::Sampling, Reply::Temperature(tenths)) == TemperatureTurn::Done(
            tenths,
        ),
        !(reply is Temperature) ==> temperature_turn(ReadStage::Sampling, reply)
            == TemperatureTurn::Halt(Fault::SensorFailed),
{
}

/// The state is the temperature that was measured and the LED as the device remembers it.
pub proof fn law_state_taken(dev: DeviceModel, reply: Reply, tenths: i16)
    ensures
        state_turn(dev, ReadStage::Start, reply) == StateTurn::Perform(
            Effect::SampleTemperature,
            ReadStage::Sampling,
        ),
        state_turn(dev, ReadStage::Sampling, Reply::Temperature(tenths)) == StateTurn::Done(
            DeviceState { temperature: tenths, led_state: dev.led },
        ),
        !(reply is Temperature) ==> state_turn(dev, ReadStage::Sampling, reply) == StateTurn::Halt(
            Fault::SensorFailed,
        ),
{
}

/// The state is measured and encoded, and the result is the text that comes back; only if none
/// comes back is it refused.
pub proof fn law_state_written_down(
    dev: DeviceModel,
    reply: Reply,
    tenths: i16,
    json: heapless::String<64>,
)
    ensures
        json_turn(dev, JsonStage::Reading(ReadStage::Start), reply) == JsonTurn::Perform(
            Effect::SampleTemperature,
            JsonStage::Reading(ReadStage::Sampling),
        ),
        json_turn(dev, JsonStage::Reading(ReadStage::Sampling), Reply::Temperature(tenths))
            == JsonTurn::Perform(
            Effect::EncodeState(DeviceState { temperature: tenths, led_state: dev.led }),
            JsonStage::Encoding,
        ),
        !(reply is Temperature) ==> json_turn(dev, JsonStage::Reading(ReadStage::Sampling), reply)
            == JsonTurn::Halt(Fault::SensorFailed),
        json_turn(dev, JsonStage::Encoding, Reply::Json(json)) == JsonTurn::Done(Ok(text64(json))),
        !(reply is Json) ==> json_turn(dev, JsonStage::Encoding, reply) == JsonTurn::Done(
            Err("Failed to serialize state"@),
        ),
{
}

/// Publishing the state sends, to the device's state topic, at least once and to be kept, just the
/// text that came back for the temperature that came back and the LED as it is. It is begun exactly
/// if there is a session, and once begun it fails only where measuring, encoding or sending does.
pub proof fn law_publish_steps(
    dev: DeviceModel,
    reply: Reply,
    tenths: i16,
    json: heapless::String<64>,
)
    ensures
        ({
            let sampling = PublishStage::Encoding(JsonStage::Reading(ReadStage::Sampling));
            let encoding = PublishStage::Encoding(JsonStage::Encoding);
            let state = DeviceState { temperature: tenths, led_state: dev.led };
            let message = Publication {
                topic: "device/"@ + dev.id + "/state"@,
                payload: text64(json),
                qos: 1,
                retain: true,
            };
            &&& publish_turn(dev, PublishStage::Start, reply) == if dev.connected {
                PublishTurn::Perform(Effect::SampleTemperature, sampling)
            } else {
                PublishTurn::Done(())
            }
            &&& publish_turn(dev, sampling, Reply::Temperature(tenths)) == PublishTurn::Perform(
                Effect::EncodeState(state),
                encoding,
            )
            &&& !(reply is Temperature) ==> publish_turn(dev, sampling, reply) == PublishTurn::Halt(
                Fault::SensorFailed,
            )
            &&& publish_turn(dev, encoding, Reply::Json(json)) == PublishTurn::Perform(
                Effect::Send(message),
                PublishStage::Sending,
            )
            &&& !(reply is Json) ==> publish_turn(dev, encoding, reply) == PublishTurn::Halt(
                Fault::StateNotEncoded,
            )
            &&& publish_turn(dev, PublishStage::Sending, reply) == if reply == Reply::Ack(true) {
                PublishTurn::Done(())
            } else {
                PublishTurn::Halt(Fault::SendFailed)
            }
        }),
{
}

/// The LED is driven by line zero, whatever pin the configuration names.
pub proof fn law_led_line()
    ensures
        LED_LINE == 0,
{
}

} // verus!
