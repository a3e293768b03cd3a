//! What the device does to the world, and what the world answers.
//!
//! The operations of the device are carried out one step at a time. A step is given where the
//! operation stands and the reply to the effect before, and comes to a [`Turn`]: the next effect
//! and where the operation stands while it is performed, or the operation's result, or a fault on
//! which the device stops. Whoever drives the device performs the effects.
use vstd::prelude::*;
use crate::command::PicoCommand;
use crate::text::text64;

verus! {

/// What the device reports of itself.
#[derive(Debug, PartialEq, Eq, Structural, Clone, Copy)]
pub struct DeviceState {
    /// In tenths of a degree Celsius.
    pub temperature: i16,
    pub led_state: bool,
}

/// A message for the broker.
#[derive(Debug, PartialEq)]
pub struct Publication<T> {
    pub topic: T,
    pub payload: T,
    /// The quality of service.
    pub qos: u8,
    /// Whether the broker keeps the message for later subscribers.
    pub retain: bool,
}

/// What is agreed with the broker when a session is opened.
#[derive(Debug, PartialEq)]
pub struct MqttSession<T> {
    /// The version of the protocol.
    pub version: u8,
    /// Where the numbering of packets starts.
    pub packet_seed: u64,
    pub client_id: T,
    pub username: T,
    pub password: T,
    /// Where the broker publishes that the device is lost.
    pub will_topic: T,
    /// What the broker publishes when the device is lost.
    pub will_payload: T,
    /// Whether the broker keeps that message for later subscribers.
    pub will_retain: bool,
    /// The highest quality of service for what the device subscribes to.
    pub max_subscribe_qos: u8,
    pub max_packet_size: u32,
}

/// Something to be done outside the device's own state. `T` is the type of a text, `E` that of an
/// error message and `B` that of a run of bytes.
#[derive(Debug, PartialEq)]
pub enum Effect<T, E, B> {
    /// Put the radio into its power-saving mode.
    SavePower,
    /// Drive a line of the radio chip, to which the LED is wired.
    DriveLed { line: u8, level: bool },
    /// Wait for so many milliseconds.
    Sleep(u64),
    /// Read bytes from flash. Replied to by the bytes.
    ReadFlash { offset: u32, length: usize },
    /// Erase flash from one offset up to another. Replied to by whether it was done.
    EraseFlash { from: u32, to: u32 },
    /// Write bytes to flash. Replied to by whether it was done.
    WriteFlash { offset: u32, bytes: B },
    /// Take the next command, without waiting for one. Replied to by the command, if there is one.
    ReceiveCommand,
    /// Print what came of a command.
    Report(Result<T, E>),
    /// Measure the temperature. Replied to by the temperature.
    SampleTemperature,
    /// Write a state down as JSON. Replied to by the JSON text, if it fits.
    EncodeState(DeviceState),
    /// Restart the device.
    TriggerReset,
    /// Join a wireless network. Replied to by whether it was joined.
    JoinWifi { ssid: T, password: T },
    /// Replied to by whether the device has been given a network address.
    QueryConfigUp,
    /// Replied to by whether the link is up.
    QueryLinkUp,
    /// Wait until the network stack is configured.
    WaitConfigUp,
    /// Connect to the broker's socket. Replied to by whether it was reached.
    Dial { address: (u8, u8, u8, u8), port: u16 },
    /// Open a session with the broker.
    OpenSession(MqttSession<T>),
    /// Subscribe to a topic. Replied to by whether it was done.
    Subscribe(T),
    /// Send a message to the broker. Replied to by whether it was sent.
    Send(Publication<T>),
    /// Start the watchdog, to expire after so many milliseconds.
    StartWatchdog(u64),
    /// Put off the watchdog.
    FeedWatchdog,
    /// Replied to by the time, in ticks.
    ReadClock,
}

/// An effect to be performed.
pub type Action = Effect<heapless::String<64>, &'static str, Vec<u8>>;

/// An effect by the values that it holds.
pub type ActionModel = Effect<Seq<char>, Seq<char>, Seq<u8>>;

/// The reply to an effect. A reply of a kind that the effect does not ask for counts as the
/// failure of that effect, where it can fail.
#[derive(Debug, PartialEq)]
pub enum Reply {
    /// Whether the effect was performed, or whether what was asked is so.
    Ack(bool),
    Flash(Vec<u8>),
    /// In tenths of a degree Celsius.
    Temperature(i16),
    Json(heapless::String<64>),
    Command(Result<PicoCommand, &'static str>),
    /// In ticks.
    Clock(u64),
}

impl Reply {
    /// Whether the reply says that the effect was performed.
    pub open spec fn acknowledged(self) -> bool {
        self == Reply::Ack(true)
    }

    pub(crate) fn is_acknowledged(&self) -> (r: bool)
        ensures
            r == self.acknowledged(),
    {
        match self {
            Reply::Ack(done) => *done,
            _ => false,
        }
    }
}

/// Why the device stops.
#[derive(Debug, PartialEq, Eq, Structural, Clone, Copy)]
pub enum Fault {
    /// There is no configuration to connect with.
    NotConfigured,
    /// The broker's address is not an IPv4 address.
    BadServerAddress,
    /// The broker cannot be reached.
    BrokerUnreachable,
    /// The broker did not accept a subscription.
    SubscribeFailed,
    /// A message could not be sent.
    SendFailed,
    /// The temperature could not be measured.
    SensorFailed,
    /// The state could not be written down.
    StateNotEncoded,
    /// The clock cannot be read, or went backwards.
    ClockFailed,
    /// The stored configuration takes more room to describe than there is.
    ConfigNotDescribed,
}

/// What a step comes to. `A` is the type of an effect, `S` that of a stage of the operation and
/// `R` that of its result.
#[derive(Debug, PartialEq)]
pub enum Turn<A, S, R> {
    Perform(A, S),
    Done(R),
    Halt(Fault),
}

/// The answer to a request: a text, or the message that refuses it.
pub type Answer = Result<heapless::String<64>, &'static str>;

/// A value together with the mathematical value that contracts speak of.
pub trait Modelled: Sized {
    type M;

    spec fn model(self) -> Self::M;
}

impl Modelled for () {
    type M = ();

    open spec fn model(self) -> () {
        self
    }
}

impl Modelled for i16 {
    type M = i16;

    open spec fn model(self) -> i16 {
        self
    }
}

impl Modelled for DeviceState {
    type M = DeviceState;

    open spec fn model(self) -> DeviceState {
        self
    }
}

impl Modelled for Result<(), &'static str> {
    type M = Result<(), Seq<char>>;

    open spec fn model(self) -> Result<(), Seq<char>> {
        match self {
            Ok(()) => Ok(()),
            Err(e) => Err(e@),
        }
    }
}

impl Modelled for Answer {
    type M = Result<Seq<char>, Seq<char>>;

    open spec fn model(self) -> Result<Seq<char>, Seq<char>> {
        match self {
            Ok(s) => Ok(text64(s)),
            Err(e) => Err(e@),
        }
    }
}

impl Modelled for Publication<heapless::String<64>> {
    type M = Publication<Seq<char>>;

    open spec fn model(self) -> Publication<Seq<char>> {
        Publication {
            topic: text64(self.topic),
            payload: text64(self.payload),
            qos: self.qos,
            retain: self.retain,
        }
    }
}

impl Modelled for MqttSession<heapless::String<64>> {
    type M = MqttSession<Seq<char>>;

    open spec fn model(self) -> MqttSession<Seq<char>> {
        MqttSession {
            version: self.version,
            packet_seed: self.packet_seed,
            client_id: text64(self.client_id),
            username: text64(self.username),
            password: text64(self.password),
            will_topic: text64(self.will_topic),
            will_payload: text64(self.will_payload),
            will_retain: self.will_retain,
            max_subscribe_qos: self.max_subscribe_qos,
            max_packet_size: self.max_packet_size,
        }
    }
}

impl Modelled for Action {
    type M = ActionModel;

    open spec fn model(self) -> ActionModel {
        match self {
            Effect::SavePower => Effect::SavePower,
            Effect::DriveLed { line, level } => Effect::DriveLed { line, level },
            Effect::Sleep(ms) => Effect::Sleep(ms),
            Effect::ReadFlash { offset, length } => Effect::ReadFlash { offset, length },
            Effect::EraseFlash { from, to } => Effect::EraseFlash { from, to },
            Effect::WriteFlash { offset, bytes } => Effect::WriteFlash { offset, bytes: bytes@ },
            Effect::ReceiveCommand => Effect::ReceiveCommand,
            Effect::Report(answer) => Effect::Report(answer.model()),
            Effect::SampleTemperature => Effect::SampleTemperature,
            Effect::EncodeState(state) => Effect::EncodeState(state),
            Effect::TriggerReset => Effect::TriggerReset,
            Effect::JoinWifi { ssid, password } => Effect::JoinWifi {
                ssid: text64(ssid),
                password: text64(password),
            },
            Effect::QueryConfigUp => Effect::QueryConfigUp,
            Effect::QueryLinkUp => Effect::QueryLinkUp,
            Effect::WaitConfigUp => Effect::WaitConfigUp,
            Effect::Dial { address, port } => Effect::Dial { address, port },
            Effect::OpenSession(session) => Effect::OpenSession(session.model()),
            Effect::Subscribe(topic) => Effect::Subscribe(text64(topic)),
            Effect::Send(publication) => Effect::Send(publication.model()),
            Effect::StartWatchdog(ms) => Effect::StartWatchdog(ms),
            Effect::FeedWatchdog => Effect::FeedWatchdog,
            Effect::ReadClock => Effect::ReadClock,
        }
    }
}

impl<S, R: Modelled> Modelled for Turn<Action, S, R> {
    type M = Turn<ActionModel, S, R::M>;

    open spec fn model(self) -> Turn<ActionModel, S, R::M> {
        match self {
            Turn::Perform(action, stage) => Turn::Perform(action.model(), stage),
            Turn::Done(result) => Turn::Done(result.model()),
            Turn::Halt(fault) => Turn::Halt(fault),
        }
    }
}

/// The values that contracts speak of are all the values that a message or a session holds, each in
/// its place.
pub proof fn law_messages_modelled(
    publication: Publication<heapless::String<64>>,
    session: MqttSession<heapless::String<64>>,
)
    ensures
        publication.model().topic == text64(publication.topic),
        publication.model().payload == text64(publication.payload),
        publication.model().qos == publication.qos,
        publication.model().retain == publication.retain,
        session.model().version == session.version,
        session.model().packet_seed == session.packet_seed,
        session.model().client_id == text64(session.client_id),
        session.model().username == text64(session.username),
        session.model().password == text64(session.password),
        session.model().will_topic == text64(session.will_topic),
        session.model().will_payload == text64(session.will_payload),
        session.model().will_retain == session.will_retain,
        session.model().max_subscribe_qos == session.max_subscribe_qos,
        session.model().max_packet_size == session.max_packet_size,
{
}

/// Effects that stand for the same values are alike in kind and in all that they hold.
pub proof fn law_effects_modelled(a: Action)
    ensures
        match (a, a.model()) {
            (Effect::SavePower, Effect::SavePower) => true,
            (Effect::DriveLed { line, level }, Effect::DriveLed { line: l, level: v }) => line == l
                && level == v,
            (Effect::Sleep(ms), Effect::Sleep(t)) => ms == t,
            (
                Effect::ReadFlash { offset, length },
                Effect::ReadFlash { offset: o, length: n },
            ) => offset == o && length == n,
            (Effect::EraseFlash { from, to }, Effect::EraseFlash { from: f, to: t }) => from == f
                && to == t,
            (
                Effect::WriteFlash { offset, bytes },
                Effect::WriteFlash { offset: o, bytes: b },
            ) => offset == o && bytes@ == b,
            (Effect::ReceiveCommand, Effect::ReceiveCommand) => true,
            (Effect::Report(Ok(text)), Effect::Report(Ok(t))) => text64(text) == t,
            (Effect::Report(Err(message)), Effect::Report(Err(m))) => message@ == m,
            (Effect::SampleTemperature, Effect::SampleTemperature) => true,
            (Effect::EncodeState(state), Effect::EncodeState(s)) => state == s,
            (Effect::TriggerReset, Effect::TriggerReset) => true,
            (
                Effect::JoinWifi { ssid, password },
                Effect::JoinWifi { ssid: s, password: p },
            ) => text64(ssid) == s && text64(password) == p,
            (Effect::QueryConfigUp, Effect::QueryConfigUp) => true,
            (Effect::QueryLinkUp, Effect::QueryLinkUp) => true,
            (Effect::WaitConfigUp, Effect::WaitConfigUp) => true,
            (Effect::Dial { address, port }, Effect::Dial { address: d, port: p }) => address == d
                && port == p,
            (Effect::OpenSession(session), Effect::OpenSession(s)) => session.model() == s,
            (Effect::Subscribe(topic), Effect::Subscribe(t)) => text64(topic) == t,
            (Effect::Send(publication), Effect::Send(p)) => publication.model() == p,
            (Effect::StartWatchdog(ms), Effect::StartWatchdog(t)) => ms == t,
            (Effect::FeedWatchdog, Effect::FeedWatchdog) => true,
            (Effect::ReadClock, Effect::ReadClock) => true,
            _ => false,
        },
{
}

/// What a step comes to by its values is what it comes to: the same effect with the same next
/// stage, the same result, or the same fault.
pub proof fn law_turns_modelled<S, R: Modelled>(turn: Turn<Action, S, R>)
    ensures
        match (turn, turn.model()) {
            (Turn::Perform(action, stage), Turn::Perform(a, s)) => action.model() == a && stage
                == s,
            (Turn::Done(result), Turn::Done(r)) => result.model() == r,
            (Turn::Halt(fault), Turn::Halt(f)) => fault == f,
            _ => false,
        },
{
}

/// Answers stand for their texts and for the messages that refuse.
pub proof fn law_answers_modelled(answer: Answer, outcome: Result<(), &'static str>, tenths: i16)
    ensures
        match (answer, answer.model()) {
            (Ok(text), Ok(t)) => text64(text) == t,
            (Err(message), Err(m)) => message@ == m,
            _ => false,
        },
        match (outcome, outcome.model()) {
            (Ok(()), Ok(())) => true,
            (Err(message), Err(m)) => message@ == m,
            _ => false,
        },
        tenths.model() == tenths,
{
}

/// Only the one reply that says so acknowledges an effect.
pub proof fn law_acknowledgement(reply: Reply)
    ensures
        reply.acknowledged() <==> reply == Reply::Ack(true),
{
}

} // verus!
