//! Joining the wireless network and opening a session with the broker.
use vstd::prelude::*;
use crate::config::{ConfigModel, Configuration};
use crate::device::{DemoDevice, DeviceModel};
use crate::effect::{
    Action, ActionModel, Effect, Fault, Modelled, MqttSession, Publication, Reply, Turn,
};
use crate::history::History;
use crate::mqtt::{
    client_id, client_name, command_topic, device_topic, ipv4_address, is_dotted,
    law_address_found, name_topic, parse_address, status_topic, AT_LEAST_ONCE, BROKER_PORT,
    MAX_PACKET_SIZE, PACKET_SEED, PROTOCOL_VERSION,
};
use crate::text::{as_str64, byte_len, copy64, from64, lemma_ascii_byte_len, text64};

verus! {

/// The time between two looks for a network address, in milliseconds.
pub const ADDRESS_POLL_MS: u64 = 100;

/// The time between two looks for the link, in milliseconds.
pub const LINK_POLL_MS: u64 = 500;

/// Where the joining of the network stands.
#[derive(Debug, PartialEq, Eq, Structural, Clone, Copy)]
pub enum WifiStage {
    Start,
    Joining,
    AwaitingAddress,
    AddressPause,
    AwaitingLink,
    LinkPause,
    AwaitingStack,
}

/// Where the connection to the broker stands.
#[derive(Debug, PartialEq, Eq, Structural, Clone, Copy)]
pub enum MqttStage {
    Start,
    Dialing,
    Dialed,
    Opening,
    Opened,
    Subscribing,
    Announcing,
    Naming,
    Named,
}

/// What a step in joining the network comes to, by its values.
pub type WifiTurn = Turn<ActionModel, WifiStage, ()>;

/// What a step in connecting to the broker comes to, by its values.
pub type MqttTurn = Turn<ActionModel, MqttStage, ()>;

/// An attempt to join the configured network.
pub open spec fn join_turn(dev: DeviceModel) -> WifiTurn {
    match dev.config {
        Some(c) => Turn::Perform(
            Effect::JoinWifi { ssid: c.wifi_ssid, password: c.wifi_password },
            WifiStage::Joining,
        ),
        None => Turn::Halt(Fault::NotConfigured),
    }
}

/// A step in joining the network: attempts are made until one succeeds, then an address, the link
/// and the network stack are waited for, in this order.
pub open spec fn wifi_turn(dev: DeviceModel, at: WifiStage, reply: Reply) -> WifiTurn {
    match at {
        WifiStage::Start => join_turn(dev),
        WifiStage::Joining => if reply.acknowledged() {
            Turn::Perform(Effect::QueryConfigUp, WifiStage::AwaitingAddress)
        } else {
            join_turn(dev)
        },
        WifiStage::AwaitingAddress => if reply.acknowledged() {
            Turn::Perform(Effect::QueryLinkUp, WifiStage::AwaitingLink)
        } else {
            Turn::Perform(Effect::Sleep(ADDRESS_POLL_MS), WifiStage::AddressPause)
        },
        WifiStage::AddressPause => Turn::Perform(
            Effect::QueryConfigUp,
            WifiStage::AwaitingAddress,
        ),
        WifiStage::AwaitingLink => if reply.acknowledged() {
            Turn::Perform(Effect::WaitConfigUp, WifiStage::AwaitingStack)
        } else {
            Turn::Perform(Effect::Sleep(LINK_POLL_MS), WifiStage::LinkPause)
        },
        WifiStage::LinkPause => Turn::Perform(Effect::QueryLinkUp, WifiStage::AwaitingLink),
        WifiStage::AwaitingStack => Turn::Done(()),
    }
}

/// A message that tells how the device is doing.
pub open spec fn status_message(id: Seq<char>, status: Seq<char>) -> Publication<Seq<char>> {
    Publication {
        topic: device_topic(id, "/status"@),
        payload: status,
        qos: AT_LEAST_ONCE,
        retain: true,
    }
}

/// The message that tells the device's name.
pub open spec fn name_message(id: Seq<char>, name: Seq<char>) -> Publication<Seq<char>> {
    Publication {
        topic: device_topic(id, "/name"@),
        payload: name,
        qos: AT_LEAST_ONCE,
        retain: true,
    }
}

/// The session that the device opens.
pub open spec fn session(id: Seq<char>, c: ConfigModel) -> MqttSession<Seq<char>> {
    MqttSession {
        version: PROTOCOL_VERSION,
        packet_seed: PACKET_SEED,
        client_id: client_name(id),
        username: c.mqtt_username,
        password: c.mqtt_password,
        will_topic: device_topic(id, "/status"@),
        will_payload: "DISCONNECTED"@,
        will_retain: true,
        max_subscribe_qos: AT_LEAST_ONCE,
        max_packet_size: MAX_PACKET_SIZE,
    }
}

/// A step in connecting to the broker, and what the device remembers after it: the broker is
/// dialed, a session is opened, commands are subscribed to, and the device's status and name are
/// sent. The device counts as connected once all this is done.
pub open spec fn mqtt_turn(dev: DeviceModel, at: MqttStage, reply: Reply) -> (
    DeviceModel,
    MqttTurn,
) {
    match at {
        MqttStage::Start => (
            dev,
            match dev.config {
                None => Turn::Halt(Fault::NotConfigured),
                Some(c) => match ipv4_address(c.mqtt_server) {
                    None => Turn::Halt(Fault::BadServerAddress),
                    Some(address) => Turn::Perform(
                        Effect::Dial { address, port: BROKER_PORT },
                        MqttStage::Dialing,
                    ),
                },
            },
        ),
        MqttStage::Dialing => (
            dev,
            if reply.acknowledged() {
                Turn::Perform(Effect::FeedWatchdog, MqttStage::Dialed)
            } else {
                Turn::Halt(Fault::BrokerUnreachable)
            },
        ),
        MqttStage::Dialed => (
            dev,
            match dev.config {
                None => Turn::Halt(Fault::NotConfigured),
                Some(c) => Turn::Perform(
                    Effect::OpenSession(session(dev.id, c)),
                    MqttStage::Opening,
                ),
            },
        ),
        MqttStage::Opening => (dev, Turn::Perform(Effect::FeedWatchdog, MqttStage::Opened)),
        MqttStage::Opened => (
            dev,
            Turn::Perform(
                Effect::Subscribe(device_topic(dev.id, "/command"@)),
                MqttStage::Subscribing,
            ),
        ),
        MqttStage::Subscribing => (
            dev,
            if reply.acknowledged() {
                Turn::Perform(
                    Effect::Send(status_message(dev.id, "CONNECTED"@)),
                    MqttStage::Announcing,
                )
            } else {
                Turn::Halt(Fault::SubscribeFailed)
            },
        ),
        MqttStage::Announcing => (
            dev,
            if !reply.acknowledged() {
                Turn::Halt(Fault::SendFailed)
            } else {
                match dev.config {
                    None => Turn::Halt(Fault::NotConfigured),
                    Some(c) => Turn::Perform(
                        Effect::Send(name_message(dev.id, c.name)),
                        MqttStage::Naming,
                    ),
                }
            },
        ),
        MqttStage::Naming => (
            dev,
            if reply.acknowledged() {
                Turn::Perform(Effect::FeedWatchdog, MqttStage::Named)
            } else {
                Turn::Halt(Fault::SendFailed)
            },
        ),
        MqttStage::Named => (DeviceModel { connected: true, ..dev }, Turn::Done(())),
    }
}

/// The lengths of the statuses.
proof fn lemma_statuses()
    ensures
        byte_len("CONNECTED"@) == 9,
        byte_len("DISCONNECTED"@) == 12,
{
    reveal_strlit("CONNECTED");
    reveal_strlit("DISCONNECTED");
    lemma_ascii_byte_len("CONNECTED"@);
    lemma_ascii_byte_len("DISCONNECTED"@);
}

impl<P> DemoDevice<P> {
    fn join(&self) -> (r: Turn<Action, WifiStage, ()>)
        ensures
            r.model() == join_turn(self@),
    {
        match &self.config {
            Some(c) => Turn::Perform(
                Effect::JoinWifi {
                    ssid: copy64(&c.wifi_ssid),
                    password: copy64(&c.wifi_password),
                },
                WifiStage::Joining,
            ),
            None => Turn::Halt(Fault::NotConfigured),
        }
    }

    /// A step in joining the configured network.
    pub fn connect_wifi(&self, at: WifiStage, reply: Reply) -> (r: Turn<Action, WifiStage, ()>)
        ensures
            r.model() == wifi_turn(self@, at, reply),
    {
        match at {
            WifiStage::Start => self.join(),
            WifiStage::Joining => if reply.is_acknowledged() {
                Turn::Perform(Effect::QueryConfigUp, WifiStage::AwaitingAddress)
            } else {
                self.join()
            },
            WifiStage::AwaitingAddress => if reply.is_acknowledged() {
                Turn::Perform(Effect::QueryLinkUp, WifiStage::AwaitingLink)
            } else {
                Turn::Perform(Effect::Sleep(ADDRESS_POLL_MS), WifiStage::AddressPause)
            },
            WifiStage::AddressPause => Turn::Perform(
                Effect::QueryConfigUp,
                WifiStage::AwaitingAddress,
            ),
            WifiStage::AwaitingLink => if reply.is_acknowledged() {
                Turn::Perform(Effect::WaitConfigUp, WifiStage::AwaitingStack)
            } else {
                Turn::Perform(Effect::Sleep(LINK_POLL_MS), WifiStage::LinkPause)
            },
            WifiStage::LinkPause => Turn::Perform(Effect::QueryLinkUp, WifiStage::AwaitingLink),
            WifiStage::AwaitingStack => Turn::Done(()),
        }
    }

    fn session(&self, c: &Configuration) -> (r: MqttSession<heapless::String<64>>)
        ensures
            r.model() == session(self@.id, c@),
    {
        proof {
            lemma_statuses();
        }
        MqttSession {
            version: PROTOCOL_VERSION,
            packet_seed: PACKET_SEED,
            client_id: client_id(self.id_string),
            username: copy64(&c.mqtt_username),
            password: copy64(&c.mqtt_password),
            will_topic: status_topic(self.id_string),
            will_payload: from64("DISCONNECTED"),
            will_retain: true,
            max_subscribe_qos: AT_LEAST_ONCE,
            max_packet_size: MAX_PACKET_SIZE,
        }
    }

    /// A step in connecting to the configured broker.
    pub fn connect_mqtt(&mut self, at: MqttStage, reply: Reply) -> (r: Turn<Action, MqttStage, ()>)
        ensures
            (final(self)@, r.model()) == mqtt_turn(old(self)@, at, reply),
            final(self).peripherals == old(self).peripherals,
    {
        proof {
            lemma_statuses();
        }
        match at {
            MqttStage::Start => match &self.config {
                None => Turn::Halt(Fault::NotConfigured),
                Some(c) => match parse_address(as_str64(&c.mqtt_server)) {
                    None => Turn::Halt(Fault::BadServerAddress),
                    Some(address) => Turn::Perform(
                        Effect::Dial { address, port: BROKER_PORT },
                        MqttStage::Dialing,
                    ),
                },
            },
            MqttStage::Dialing => if reply.is_acknowledged() {
                Turn::Perform(Effect::FeedWatchdog, MqttStage::Dialed)
            } else {
                Turn::Halt(Fault::BrokerUnreachable)
            },
            MqttStage::Dialed => match &self.config {
                None => Turn::Halt(Fault::NotConfigured),
                Some(c) => Turn::Perform(Effect::OpenSession(self.session(c)), MqttStage::Opening),
            },
            MqttStage::Opening => Turn::Perform(Effect::FeedWatchdog, MqttStage::Opened),
            MqttStage::Opened => Turn::Perform(
                Effect::Subscribe(command_topic(self.id_string)),
                MqttStage::Subscribing,
            ),
            MqttStage::Subscribing => if reply.is_acknowledged() {
                Turn::Perform(
                    Effect::Send(
                        Publication {
                            topic: status_topic(self.id_string),
                            payload: from64("CONNECTED"),
                            qos: AT_LEAST_ONCE,
                            retain: true,
                        },
                    ),
                    MqttStage::Announcing,
                )
            } else {
                Turn::Halt(Fault::SubscribeFailed)
            },
            MqttStage::Announcing => {
                if !reply.is_acknowledged() {
                    return Turn::Halt(Fault::SendFailed);
                }
                match &self.config {
                    None => Turn::Halt(Fault::NotConfigured),
                    Some(c) => Turn::Perform(
                        Effect::Send(
                            Publication {
                                topic: name_topic(self.id_string),
                                payload: copy64(&c.name),
                                qos: AT_LEAST_ONCE,
                                retain: true,
                            },
                        ),
                        MqttStage::Naming,
                    ),
                }
            },
            MqttStage::Naming => if reply.is_acknowledged() {
                Turn::Perform(Effect::FeedWatchdog, MqttStage::Named)
            } else {
                Turn::Halt(Fault::SendFailed)
            },
            MqttStage::Named => {
                self.mqtt_connected = true;
                Turn::Done(())
            },
        }
    }
}

/// How far the joining of the network has come.
pub open spec fn wifi_progress(at: WifiStage) -> int {
    match at {
        WifiStage::Start => 0,
        WifiStage::Joining => 1,
        WifiStage::AwaitingAddress | WifiStage::AddressPause => 2,
        WifiStage::AwaitingLink | WifiStage::LinkPause => 3,
        WifiStage::AwaitingStack => 4,
    }
}

/// With a configuration, joining the network never stops the device and never goes back. It gets
/// beyond the attempt, beyond the wait for an address and beyond the wait for the link only when
/// told that the network was joined, that there is an address and that the link is up; and it is
/// done only after all three.
pub proof fn law_wifi_advances_when_told(dev: DeviceModel, at: WifiStage, reply: Reply)
    requires
        dev.config is Some,
    ensures
        match wifi_turn(dev, at, reply) {
            Turn::Perform(effect, next) => {
                &&& wifi_progress(at) <= wifi_progress(next) <= wifi_progress(at) + 1
                &&& 1 <= wifi_progress(at) < wifi_progress(next) ==> reply.acknowledged()
                &&& next == WifiStage::Joining ==> effect is JoinWifi
                &&& next == WifiStage::AwaitingAddress ==> effect is QueryConfigUp
                &&& next == WifiStage::AwaitingLink ==> effect is QueryLinkUp
            },
            Turn::Done(()) => wifi_progress(at) == 4,
            Turn::Halt(_) => false,
        },
{
}

/// The device counts as connected only after the last step, and no other step changes what it
/// remembers.
pub proof fn law_mqtt_connected_when_done(dev: DeviceModel, at: MqttStage, reply: Reply)
    ensures
        match mqtt_turn(dev, at, reply) {
            (after, Turn::Done(())) => at == MqttStage::Named && after == (DeviceModel {
                connected: true,
                ..dev
            }),
            (after, _) => after == dev,
        },
{
}

/// What connecting to the broker performs.
pub open spec fn mqtt_effects(id: Seq<char>, c: ConfigModel, address: (u8, u8, u8, u8)) -> Seq<
    ActionModel,
> {
    seq![
        Effect::Dial { address, port: BROKER_PORT },
        Effect::FeedWatchdog,
        Effect::OpenSession(session(id, c)),
        Effect::FeedWatchdog,
        Effect::Subscribe(device_topic(id, "/command"@)),
        Effect::Send(status_message(id, "CONNECTED"@)),
        Effect::Send(name_message(id, c.name)),
        Effect::FeedWatchdog,
    ]
}

/// Where connecting to the broker stands before its first effect and after each.
pub open spec fn mqtt_stages() -> Seq<MqttStage> {
    seq![
        MqttStage::Start,
        MqttStage::Dialing,
        MqttStage::Dialed,
        MqttStage::Opening,
        MqttStage::Opened,
        MqttStage::Subscribing,
        MqttStage::Announcing,
        MqttStage::Naming,
        MqttStage::Named,
    ]
}

/// The history is one that the steps of connecting to the broker can lead to, whatever is replied.
pub open spec fn mqtt_history(h: History<MqttStage>) -> bool {
    &&& h.shaped()
    &&& h.stages[0] == MqttStage::Start
    &&& forall|i: int|
        #![trigger h.effects[i]]
        0 <= i < h.effects.len() ==> mqtt_turn(h.models[i], h.stages[i], h.replies[i]) == (
            h.models[i + 1],
            MqttTurn::Perform(h.effects[i], h.stages[i + 1]),
        )
}

proof fn lemma_mqtt_history(
    h: History<MqttStage>,
    n: int,
    c: ConfigModel,
    address: (u8, u8, u8, u8),
)
    requires
        mqtt_history(h),
        0 <= n <= h.effects.len(),
        h.models[0].config == Some(c),
        ipv4_address(c.mqtt_server) == Some(address),
    ensures
        n <= 8,
        h.models[n] == h.models[0],
        h.stages[n] == mqtt_stages()[n],
        forall|i: int|
            0 <= i < n ==> h.effects[i] == mqtt_effects(h.models[0].id, c, address)[i],
    decreases n,
{
    if n > 0 {
        lemma_mqtt_history(h, n - 1, c, address);
        let e = h.effects[n - 1];
        assert(mqtt_turn(h.models[n - 1], h.stages[n - 1], h.replies[n - 1]) == (
            h.models[n],
            MqttTurn::Perform(e, h.stages[n]),
        ));
    }
}

/// With a configuration whose broker has an address, connecting dials the broker, puts off the
/// watchdog, opens the session, puts off the watchdog, subscribes to commands, sends the status,
/// sends the name and puts off the watchdog: whatever is replied, what has been performed is the
/// beginning of this. As long as it is acknowledged the next of these is performed, and after the
/// last of them the device is connected.
pub proof fn law_mqtt_order(
    h: History<MqttStage>,
    reply: Reply,
    c: ConfigModel,
    address: (u8, u8, u8, u8),
)
    requires
        mqtt_history(h),
        h.models[0].config == Some(c),
        ipv4_address(c.mqtt_server) == Some(address),
    ensures
        ({
            let dev = h.models[0];
            let all = mqtt_effects(dev.id, c, address);
            let n = h.effects.len() as int;
            &&& n <= all.len()
            &&& h.effects == all.take(n)
            &&& n < all.len() && reply.acknowledged() ==> mqtt_turn(
                h.models.last(),
                h.stages.last(),
                reply,
            ) == (dev, MqttTurn::Perform(all[n], mqtt_stages()[n + 1]))
            &&& n == all.len() ==> mqtt_turn(h.models.last(), h.stages.last(), reply) == (
                DeviceModel { connected: true, ..dev },
                MqttTurn::Done(()),
            )
        }),
{
    lemma_mqtt_history(h, h.effects.len() as int, c, address);
    let all = mqtt_effects(h.models[0].id, c, address);
    assert(h.effects =~= all.take(h.effects.len() as int));
}

/// Dialing the broker, subscribing and sending must succeed for the connection to go on; opening
/// the session need not.
pub proof fn law_mqtt_refusals(dev: DeviceModel, at: MqttStage, reply: Reply)
    requires
        !reply.acknowledged(),
    ensures
        mqtt_turn(dev, at, reply).1 is Halt <==> match at {
            MqttStage::Start => dev.config is None || ipv4_address(
                dev.config->Some_0.mqtt_server,
            ) is None,
            MqttStage::Dialed => dev.config is None,
            MqttStage::Opening | MqttStage::Opened | MqttStage::Named => false,
            _ => true,
        },
{
}

/// When the device is lost, the broker tells so where the device had told that it was connected,
/// and in both cases the broker keeps the message: the last status that is kept is the true one.
pub proof fn law_status_and_will_agree(dev: DeviceModel, c: ConfigModel)
    requires
        dev.config == Some(c),
    ensures
        ({
            let opening = mqtt_turn(dev, MqttStage::Dialed, Reply::Ack(true)).1;
            let announcing = mqtt_turn(dev, MqttStage::Subscribing, Reply::Ack(true)).1;
            &&& opening matches Turn::Perform(Effect::OpenSession(s), _)
            &&& announcing matches Turn::Perform(Effect::Send(p), _)
            &&& s.will_topic == p.topic
            &&& s.will_retain && p.retain
            &&& s.will_payload == "DISCONNECTED"@
            &&& p.payload == "CONNECTED"@
        }),
{
}

/// Joining the network asks for the network of the configuration with its password, again and again
/// until it is joined; then it looks for an address every tenth of a second and for the link every
/// half second, until there is one; and then it waits for the network stack. Nothing but the want
/// of a configuration stops it.
pub proof fn law_wifi_steps(dev: DeviceModel, reply: Reply)
    ensures
        ({
            let joining = match dev.config {
                Some(c) => WifiTurn::Perform(
                    Effect::JoinWifi { ssid: c.wifi_ssid, password: c.wifi_password },
                    WifiStage::Joining,
                ),
                None => WifiTurn::Halt(Fault::NotConfigured),
            };
            let told = reply == Reply::Ack(true);
            &&& wifi_turn(dev, WifiStage::Start, reply) == joining
            &&& !told ==> wifi_turn(dev, WifiStage::Joining, reply) == joining
            &&& told ==> wifi_turn(dev, WifiStage::Joining, reply) == WifiTurn::Perform(
                Effect::QueryConfigUp,
                WifiStage::AwaitingAddress,
            )
            &&& !told ==> wifi_turn(dev, WifiStage::AwaitingAddress, reply) == WifiTurn::Perform(
                Effect::Sleep(100),
                WifiStage::AddressPause,
            )
            &&& wifi_turn(dev, WifiStage::AddressPause, reply) == WifiTurn::Perform(
                Effect::QueryConfigUp,
                WifiStage::AwaitingAddress,
            )
            &&& told ==> wifi_turn(dev, WifiStage::AwaitingAddress, reply) == WifiTurn::Perform(
                Effect::QueryLinkUp,
                WifiStage::AwaitingLink,
            )
            &&& !told ==> wifi_turn(dev, WifiStage::AwaitingLink, reply) == WifiTurn::Perform(
                Effect::Sleep(500),
                WifiStage::LinkPause,
            )
            &&& wifi_turn(dev, WifiStage::LinkPause, reply) == WifiTurn::Perform(
                Effect::QueryLinkUp,
                WifiStage::AwaitingLink,
            )
            &&& told ==> wifi_turn(dev, WifiStage::AwaitingLink, reply) == WifiTurn::Perform(
                Effect::WaitConfigUp,
                WifiStage::AwaitingStack,
            )
            &&& wifi_turn(dev, WifiStage::AwaitingStack, reply) == WifiTurn::Done(())
        }),
{
}

/// The broker is dialed on its standard port at the address that the configuration's server spells,
/// whatever port the configuration names. The device stops if there is no configuration, if the
/// server spells no address, or if the broker does not answer.
pub proof fn law_mqtt_dials(dev: DeviceModel, c: ConfigModel, a: (u8, u8, u8, u8), reply: Reply)
    ensures
        dev.config is None ==> mqtt_turn(dev, MqttStage::Start, reply) == (
            dev,
            MqttTurn::Halt(Fault::NotConfigured),
        ),
        dev.config == Some(c) && is_dotted(c.mqtt_server, a) ==> mqtt_turn(
            dev,
            MqttStage::Start,
            reply,
        ) == (
            dev,
            MqttTurn::Perform(Effect::Dial { address: a, port: 1883 }, MqttStage::Dialing),
        ),
        dev.config == Some(c) && (forall|b: (u8, u8, u8, u8)| !is_dotted(c.mqtt_server, b))
            ==> mqtt_turn(dev, MqttStage::Start, reply) == (
            dev,
            MqttTurn::Halt(Fault::BadServerAddress),
        ),
        mqtt_turn(dev, MqttStage::Dialing, reply) == if reply == Reply::Ack(true) {
            (dev, MqttTurn::Perform(Effect::FeedWatchdog, MqttStage::Dialed))
        } else {
            (dev, MqttTurn::Halt(Fault::BrokerUnreachable))
        },
{
    law_address_found(c.mqtt_server, a);
}

/// The session is opened with the whole user name and password of the configuration, under the
/// device's name, and with a will that tells on the status topic, to be kept, that the device is
/// lost.
pub proof fn law_mqtt_session(dev: DeviceModel, c: ConfigModel, reply: Reply)
    requires
        dev.config == Some(c),
    ensures
        mqtt_turn(dev, MqttStage::Dialed, reply).0 == dev,
        mqtt_turn(dev, MqttStage::Dialed, reply).1 matches Turn::Perform(
            Effect::OpenSession(s),
            MqttStage::Opening,
        ) && {
            &&& s.version == 5
            &&& s.packet_seed == 20000
            &&& s.client_id == "device-"@ + dev.id
            &&& s.username == c.mqtt_username
            &&& s.password == c.mqtt_password
            &&& s.will_topic == "device/"@ + dev.id + "/status"@
            &&& s.will_payload == "DISCONNECTED"@
            &&& s.will_retain
            &&& s.max_subscribe_qos == 1
            &&& s.max_packet_size == 100
        },
{
}

/// Whether or not the session was opened, the device subscribes to its command topic; it then tells
/// on its status topic that it is connected and on its name topic the whole name of its
/// configuration, both at least once and to be kept. It stops where subscribing or sending fails,
/// and is connected when all is done.
pub proof fn law_mqtt_announces(dev: DeviceModel, c: ConfigModel, reply: Reply)
    requires
        dev.config == Some(c),
    ensures
        mqtt_turn(dev, MqttStage::Opening, reply) == (
            dev,
            MqttTurn::Perform(Effect::FeedWatchdog, MqttStage::Opened),
        ),
        mqtt_turn(dev, MqttStage::Opened, reply) == (
            dev,
            MqttTurn::Perform(
                Effect::Subscribe("device/"@ + dev.id + "/command"@),
                MqttStage::Subscribing,
            ),
        ),
        mqtt_turn(dev, MqttStage::Subscribing, reply) == if reply == Reply::Ack(true) {
            (
                dev,
                MqttTurn::Perform(
                    Effect::Send(
                        Publication {
                            topic: "device/"@ + dev.id + "/status"@,
                            payload: "CONNECTED"@,
                            qos: 1,
                            retain: true,
                        },
                    ),
                    MqttStage::Announcing,
                ),
            )
        } else {
            (dev, MqttTurn::Halt(Fault::SubscribeFailed))
        },
        mqtt_turn(dev, MqttStage::Announcing, reply) == if reply == Reply::Ack(true) {
            (
                dev,
                MqttTurn::Perform(
                    Effect::Send(
                        Publication {
                            topic: "device/"@ + dev.id + "/name"@,
                            payload: c.name,
                            qos: 1,
                            retain: true,
                        },
                    ),
                    MqttStage::Naming,
                ),
            )
        } else {
            (dev, MqttTurn::Halt(Fault::SendFailed))
        },
        mqtt_turn(dev, MqttStage::Naming, reply) == if reply == Reply::Ack(true) {
            (dev, MqttTurn::Perform(Effect::FeedWatchdog, MqttStage::Named))
        } else {
            (dev, MqttTurn::Halt(Fault::SendFailed))
        },
        mqtt_turn(dev, MqttStage::Named, reply) == (
            DeviceModel { connected: true, ..dev },
            MqttTurn::Done(()),
        ),
{
}

} // verus!
