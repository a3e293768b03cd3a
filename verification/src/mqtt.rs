//! The names under which the device is known to its broker, and where the broker is found.
use vstd::prelude::*;
use crate::temperature::{decimal, law_decimal_value};
use crate::text::{as_str16, byte_len, join64, lemma_ascii_byte_len, text16, text64};

verus! {

/// The quality of service with which everything is sent: at least once.
pub const AT_LEAST_ONCE: u8 = 1;

/// The port that the broker listens on.
pub const BROKER_PORT: u16 = 1883;

/// The version of the protocol that is spoken.
pub const PROTOCOL_VERSION: u8 = 5;

/// Where the numbering of packets starts.
pub const PACKET_SEED: u64 = 20000;

/// The largest packet that a session allows.
pub const MAX_PACKET_SIZE: u32 = 100;

/// A topic of the device with the given id.
pub open spec fn device_topic(id: Seq<char>, leaf: Seq<char>) -> Seq<char> {
    "device/"@ + id + leaf
}

/// The name by which the device with the given id introduces itself.
pub open spec fn client_name(id: Seq<char>) -> Seq<char> {
    "device-"@ + id
}

/// The fixed parts of the names are ASCII, and short.
proof fn lemma_fixed_parts()
    ensures
        byte_len("device/"@) == 7,
        byte_len("device-"@) == 7,
        byte_len("/status"@) == 7,
        byte_len("/command"@) == 8,
        byte_len("/name"@) == 5,
        byte_len("/state"@) == 6,
        byte_len(""@) == 0,
{
    reveal_strlit("device/");
    reveal_strlit("device-");
    reveal_strlit("/status");
    reveal_strlit("/command");
    reveal_strlit("/name");
    reveal_strlit("/state");
    reveal_strlit("");
    lemma_ascii_byte_len("device/"@);
    lemma_ascii_byte_len("device-"@);
    lemma_ascii_byte_len("/status"@);
    lemma_ascii_byte_len("/command"@);
    lemma_ascii_byte_len("/name"@);
    lemma_ascii_byte_len("/state"@);
    lemma_ascii_byte_len(""@);
}

/// A topic of the device.
fn topic(id: &heapless::String<16>, leaf: &str) -> (r: heapless::String<64>)
    requires
        byte_len(leaf@) <= 41,
    ensures
        text64(r) == device_topic(text16(*id), leaf@),
{
    proof {
        lemma_fixed_parts();
    }
    join64("device/", as_str16(id), leaf)
}

/// Where the device's status is published.
pub fn status_topic(id: &heapless::String<16>) -> (r: heapless::String<64>)
    ensures
        text64(r) == device_topic(text16(*id), "/status"@),
        text64(r) == "device/"@ + text16(*id) + "/status"@,
{
    proof {
        lemma_fixed_parts();
    }
    topic(id, "/status")
}

/// Where commands for the device are published.
pub fn command_topic(id: &heapless::String<16>) -> (r: heapless::String<64>)
    ensures
        text64(r) == device_topic(text16(*id), "/command"@),
        text64(r) == "device/"@ + text16(*id) + "/command"@,
{
    proof {
        lemma_fixed_parts();
    }
    topic(id, "/command")
}

/// Where the device's name is published.
pub fn name_topic(id: &heapless::String<16>) -> (r: heapless::String<64>)
    ensures
        text64(r) == device_topic(text16(*id), "/name"@),
        text64(r) == "device/"@ + text16(*id) + "/name"@,
{
    proof {
        lemma_fixed_parts();
    }
    topic(id, "/name")
}

/// Where the device's state is published.
pub fn state_topic(id: &heapless::String<16>) -> (r: heapless::String<64>)
    ensures
        text64(r) == device_topic(text16(*id), "/state"@),
        text64(r) == "device/"@ + text16(*id) + "/state"@,
{
    proof {
        lemma_fixed_parts();
    }
    topic(id, "/state")
}

/// The name by which the device introduces itself.
pub fn client_id(id: &heapless::String<16>) -> (r: heapless::String<64>)
    ensures
        text64(r) == client_name(text16(*id)),
        text64(r) == "device-"@ + text16(*id),
{
    proof {
        lemma_fixed_parts();
        reveal_strlit("");
    }
    let r = join64("device-", as_str16(id), "");
    assert(text64(r) =~= client_name(text16(*id)));
    r
}

/// The last part of a topic that the device uses.
pub open spec fn is_leaf(leaf: Seq<char>) -> bool {
    leaf == "/status"@ || leaf == "/command"@ || leaf == "/name"@ || leaf == "/state"@
}

/// A topic tells which device it belongs to and what it is for.
pub proof fn law_topics_unambiguous(a: Seq<char>, k: Seq<char>, b: Seq<char>, l: Seq<char>)
    requires
        is_leaf(k),
        is_leaf(l),
        device_topic(a, k) == device_topic(b, l),
    ensures
        a == b,
        k == l,
{
    reveal_strlit("/status");
    reveal_strlit("/command");
    reveal_strlit("/name");
    reveal_strlit("/state");
    let s = device_topic(a, k);
    let n = s.len() as int;
    assert(s[n - 1] == k.last() && s[n - 1] == l.last());
    assert(s[n - 2] == k[k.len() - 2] && s[n - 2] == l[l.len() - 2]);
    let m = "device/"@.len() as int;
    assert(a =~= s.subrange(m, n - k.len()));
    assert(b =~= s.subrange(m, n - l.len()));
}

/// The number that a run of decimal digits stands for.
pub open spec fn digits_value(t: Seq<char>) -> int
    decreases t.len(),
{
    if t.len() == 0 {
        0
    } else {
        10 * digits_value(t.drop_last()) + (t.last() as int - '0' as int)
    }
}

/// `t` is one to three decimal digits that stand for `v`.
pub open spec fn is_octet(t: Seq<char>, v: u8) -> bool {
    &&& 1 <= t.len() <= 3
    &&& forall|i: int| 0 <= i < t.len() ==> '0' <= #[trigger] t[i] <= '9'
    &&& digits_value(t) == v
}

/// `s` is the four parts of an address with dots between them.
pub open spec fn is_dotted(s: Seq<char>, a: (u8, u8, u8, u8)) -> bool {
    exists|w: Seq<char>, x: Seq<char>, y: Seq<char>, z: Seq<char>| #[trigger]
        is_octet(w, a.0) && #[trigger] is_octet(x, a.1) && #[trigger] is_octet(y, a.2)
            && #[trigger] is_octet(z, a.3) && s == w + seq!['.'] + (x + seq!['.'] + (y + seq!['.']
            + z))
}

/// The address that a text spells, if it spells one.
pub open spec fn ipv4_address(s: Seq<char>) -> Option<(u8, u8, u8, u8)> {
    if exists|a: (u8, u8, u8, u8)| is_dotted(s, a) {
        Some(choose|a: (u8, u8, u8, u8)| is_dotted(s, a))
    } else {
        None
    }
}

/// `embassy_net::Ipv4Address::from_str`: accepts four decimal numbers below 256, each of one to
/// three digits, with dots between them, and nothing else.
#[verifier::external_body]
fn ipv4_from_str(s: &str) -> (r: Option<(u8, u8, u8, u8)>)
    ensures
        match r {
            Some(a) => is_dotted(s@, a),
            None => forall|a: (u8, u8, u8, u8)| !is_dotted(s@, a),
        },
{
    match <embassy_net::Ipv4Address as core::str::FromStr>::from_str(s) {
        Ok(a) => Some((a.0[0], a.0[1], a.0[2], a.0[3])),
        Err(()) => None,
    }
}

/// The first of two parts, without a dot in it, ends at the dot.
proof fn lemma_dot_splits(t: Seq<char>, v: u8, r: Seq<char>, u: Seq<char>, w: u8, q: Seq<char>)
    requires
        is_octet(t, v),
        is_octet(u, w),
        t + seq!['.'] + r == u + seq!['.'] + q,
    ensures
        v == w,
        r == q,
{
    let s = t + seq!['.'] + r;
    let z = u + seq!['.'] + q;
    assert(s[t.len() as int] == '.' && z[u.len() as int] == '.');
    assert(t.len() == u.len()) by {
        if t.len() < u.len() {
            assert(z[t.len() as int] == u[t.len() as int]);
        }
        if u.len() < t.len() {
            assert(s[u.len() as int] == t[u.len() as int]);
        }
    }
    assert(t =~= s.take(t.len() as int));
    assert(u =~= z.take(t.len() as int));
    assert(r =~= s.skip(t.len() as int + 1));
    assert(q =~= z.skip(t.len() as int + 1));
}

/// A text spells at most one address.
pub proof fn law_address_unique(s: Seq<char>, a: (u8, u8, u8, u8), b: (u8, u8, u8, u8))
    requires
        is_dotted(s, a),
        is_dotted(s, b),
    ensures
        a == b,
{
    let dot = seq!['.'];
    let (w, x, y, z) = choose|w: Seq<char>, x: Seq<char>, y: Seq<char>, z: Seq<char>| #[trigger]
        is_octet(w, a.0) && #[trigger] is_octet(x, a.1) && #[trigger] is_octet(y, a.2)
            && #[trigger] is_octet(z, a.3) && s == w + seq!['.'] + (x + seq!['.'] + (y + seq!['.']
            + z));
    let (p, q, r, t) = choose|w: Seq<char>, x: Seq<char>, y: Seq<char>, z: Seq<char>| #[trigger]
        is_octet(w, b.0) && #[trigger] is_octet(x, b.1) && #[trigger] is_octet(y, b.2)
            && #[trigger] is_octet(z, b.3) && s == w + seq!['.'] + (x + seq!['.'] + (y + seq!['.']
            + z));
    lemma_dot_splits(w, a.0, x + dot + (y + dot + z), p, b.0, q + dot + (r + dot + t));
    lemma_dot_splits(x, a.1, y + dot + z, q, b.1, r + dot + t);
    lemma_dot_splits(y, a.2, z, r, b.2, t);
}

/// The address that a text spells, if it spells one.
pub fn parse_address(s: &str) -> (r: Option<(u8, u8, u8, u8)>)
    ensures
        r == ipv4_address(s@),
{
    let r = ipv4_from_str(s);
    proof {
        if let Some(a) = r {
            law_address_unique(s@, a, ipv4_address(s@)->Some_0);
        }
    }
    r
}

/// The outcome of reading an address is the one that the text spells, and none only where it spells
/// none.
pub proof fn law_address_found(s: Seq<char>, a: (u8, u8, u8, u8))
    ensures
        ipv4_address(s) == Some(a) <==> is_dotted(s, a),
{
    if is_dotted(s, a) {
        law_address_unique(s, a, ipv4_address(s)->Some_0);
    }
}

/// A part of an address in decimal spells that part.
proof fn lemma_decimal_octet(v: u8)
    ensures
        is_octet(decimal(v as nat), v),
{
    law_decimal_value(v as nat);
    reveal_with_fuel(decimal, 3);
}

/// Every address can be written down: its parts in decimal with dots between them are read as that
/// address.
pub proof fn law_address_written(a: (u8, u8, u8, u8))
    ensures
        ipv4_address(
            decimal(a.0 as nat) + seq!['.'] + (decimal(a.1 as nat) + seq!['.'] + (decimal(
                a.2 as nat,
            ) + seq!['.'] + decimal(a.3 as nat))),
        ) == Some(a),
{
    lemma_decimal_octet(a.0);
    lemma_decimal_octet(a.1);
    lemma_decimal_octet(a.2);
    lemma_decimal_octet(a.3);
    let s = decimal(a.0 as nat) + seq!['.'] + (decimal(a.1 as nat) + seq!['.'] + (decimal(
        a.2 as nat,
    ) + seq!['.'] + decimal(a.3 as nat)));
    assert(is_dotted(s, a));
    law_address_found(s, a);
}

/// The names of a device, spelled out.
pub proof fn law_names(id: Seq<char>)
    ensures
        device_topic(id, "/status"@) == "device/"@ + id + "/status"@,
        device_topic(id, "/command"@) == "device/"@ + id + "/command"@,
        device_topic(id, "/name"@) == "device/"@ + id + "/name"@,
        device_topic(id, "/state"@) == "device/"@ + id + "/state"@,
        client_name(id) == "device-"@ + id,
{
}

} // verus!
