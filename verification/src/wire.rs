//! The byte format in which a list of plain fields is stored.
//!
//! A message is its fields one after another: a byte as it is, a number in groups of seven bits
//! with the lowest group first, and a text as its length in bytes followed by the bytes. Nothing
//! marks the end of a message, so what follows it is ignored.
use vstd::prelude::*;
use vstd::utf8::encode_utf8;
use crate::text::{byte_len, lemma_encode_injective};

verus! {

/// One field of a stored message.
pub enum Field {
    Byte(u8),
    Number(u16),
    Text(Seq<char>),
}

/// A number in groups of seven bits, the lowest first; all groups but the last have the top bit
/// set.
pub open spec fn varint_bytes(n: nat) -> Seq<u8>
    decreases n,
{
    if n < 128 {
        seq![n as u8]
    } else {
        seq![(n % 128 + 128) as u8] + varint_bytes(n / 128)
    }
}

/// The bytes of one field.
pub open spec fn field_bytes(f: Field) -> Seq<u8> {
    match f {
        Field::Byte(b) => seq![b],
        Field::Number(n) => varint_bytes(n as nat),
        Field::Text(s) => varint_bytes(byte_len(s)) + encode_utf8(s),
    }
}

/// The bytes of a message: those of its fields, in order.
pub open spec fn message_bytes(fields: Seq<Field>) -> Seq<u8>
    decreases fields.len(),
{
    if fields.len() == 0 {
        Seq::empty()
    } else {
        field_bytes(fields[0]) + message_bytes(fields.drop_first())
    }
}

/// `b` spells the number `n`, possibly with superfluous zero groups at the end.
pub open spec fn spells(b: Seq<u8>, n: nat) -> bool
    decreases b.len(),
{
    if b.len() == 0 {
        false
    } else if b.len() == 1 {
        b[0] < 128 && b[0] == n
    } else {
        b[0] >= 128 && b[0] - 128 == n % 128 && spells(b.drop_first(), n / 128)
    }
}

/// `b` is a text `s` behind its length, which is spelled in at most `width` bytes.
pub open spec fn text_reads(b: Seq<u8>, s: Seq<char>, width: nat) -> bool {
    exists|k: int|
        #![trigger b.take(k)]
        0 <= k <= width && k <= b.len() && spells(b.take(k), byte_len(s)) && b.skip(k)
            == encode_utf8(s)
}

/// `b` can be read as the field `f`. The length of a text may be spelled in up to `width` bytes.
pub open spec fn field_reads(b: Seq<u8>, f: Field, width: nat) -> bool {
    match f {
        Field::Byte(x) => b == seq![x],
        Field::Number(n) => b.len() <= 3 && spells(b, n as nat),
        Field::Text(s) => text_reads(b, s, width),
    }
}

/// `b` begins with a message that can be read as `fields`.
pub open spec fn message_reads(b: Seq<u8>, fields: Seq<Field>, width: nat) -> bool
    decreases fields.len(),
{
    fields.len() == 0 || exists|k: int|
        #![trigger b.take(k)]
        0 <= k <= b.len() && field_reads(b.take(k), fields[0], width) && message_reads(
            b.skip(k),
            fields.drop_first(),
            width,
        )
}

/// Two fields of the same kind.
pub open spec fn same_kind(f: Field, g: Field) -> bool {
    match f {
        Field::Byte(_) => g is Byte,
        Field::Number(_) => g is Number,
        Field::Text(_) => g is Text,
    }
}

/// Two messages whose fields are of the same kinds.
pub open spec fn same_shape(f: Seq<Field>, g: Seq<Field>) -> bool {
    f.len() == g.len() && forall|i: int| 0 <= i < f.len() ==> same_kind(#[trigger] f[i], g[i])
}

/// No text of the message is longer than `limit` bytes.
pub open spec fn texts_within(fields: Seq<Field>, limit: nat) -> bool {
    forall|i: int|
        0 <= i < fields.len() ==> (#[trigger] fields[i] matches Field::Text(s) ==> byte_len(s)
            <= limit)
}

/// A number written in groups is spelled by them.
proof fn lemma_varint_spells(n: nat)
    ensures
        spells(varint_bytes(n), n),
    decreases n,
{
    if n >= 128 {
        lemma_varint_spells(n / 128);
        let b = varint_bytes(n);
        assert(b.drop_first() =~= varint_bytes(n / 128));
        assert(varint_bytes(n / 128).len() > 0);
    }
}

/// A number of at most sixteen bits takes at most three groups.
proof fn lemma_varint_len(n: nat)
    requires
        n <= 0xffff,
    ensures
        1 <= varint_bytes(n).len() <= 3,
        n < 128 ==> varint_bytes(n).len() == 1,
{
    reveal_with_fuel(varint_bytes, 3);
}

/// Of two spellings at the start of the same bytes, neither goes on after the other ends.
proof fn lemma_spelling_unique(x: Seq<u8>, j: int, k: int, m: nat, n: nat)
    requires
        0 <= j <= x.len(),
        0 <= k <= x.len(),
        spells(x.take(j), m),
        spells(x.take(k), n),
    ensures
        j == k,
        m == n,
    decreases j,
{
    let u = x.take(j);
    let v = x.take(k);
    assert(u[0] == x[0] && v[0] == x[0]);
    if j > 1 && k > 1 {
        assert(u.drop_first() =~= x.drop_first().take(j - 1));
        assert(v.drop_first() =~= x.drop_first().take(k - 1));
        lemma_spelling_unique(x.drop_first(), j - 1, k - 1, m / 128, n / 128);
        assert(m == 128 * (m / 128) + m % 128);
        assert(n == 128 * (n / 128) + n % 128);
    }
}

/// Two readings of one field at the start of the same bytes agree on its extent and its value.
proof fn lemma_field_unique(x: Seq<u8>, j: int, k: int, f: Field, g: Field, width: nat)
    requires
        0 <= j <= x.len(),
        0 <= k <= x.len(),
        same_kind(f, g),
        field_reads(x.take(j), f, width),
        field_reads(x.take(k), g, width),
    ensures
        j == k,
        f == g,
{
    let a = x.take(j);
    let b = x.take(k);
    match f {
        Field::Byte(p) => {
            assert(a.len() == 1 && a[0] == p);
            assert(b.len() == 1);
        },
        Field::Number(p) => {
            lemma_spelling_unique(x, j, k, p as nat, g->Number_0 as nat);
        },
        Field::Text(s) => {
            let t = g->Text_0;
            let l = choose|l: int|
                #![trigger a.take(l)]
                0 <= l <= width && l <= a.len() && spells(a.take(l), byte_len(s)) && a.skip(l)
                    == encode_utf8(s);
            let m = choose|m: int|
                #![trigger b.take(m)]
                0 <= m <= width && m <= b.len() && spells(b.take(m), byte_len(t)) && b.skip(m)
                    == encode_utf8(t);
            assert(a.take(l) =~= x.take(l));
            assert(b.take(m) =~= x.take(m));
            lemma_spelling_unique(x, l, m, byte_len(s), byte_len(t));
            assert(j == l + encode_utf8(s).len());
            assert(k == m + encode_utf8(t).len());
            assert(a =~= b);
            lemma_encode_injective(s, t);
        },
    }
}

/// Bytes can be read as a message of a given shape in one way only.
pub proof fn lemma_reading_unique(b: Seq<u8>, f: Seq<Field>, g: Seq<Field>, width: nat)
    requires
        same_shape(f, g),
        message_reads(b, f, width),
        message_reads(b, g, width),
    ensures
        f == g,
    decreases f.len(),
{
    if f.len() == 0 {
        assert(f =~= g);
    } else {
        let j = choose|j: int|
            #![trigger b.take(j)]
            0 <= j <= b.len() && field_reads(b.take(j), f[0], width) && message_reads(
                b.skip(j),
                f.drop_first(),
                width,
            );
        let k = choose|k: int|
            #![trigger b.take(k)]
            0 <= k <= b.len() && field_reads(b.take(k), g[0], width) && message_reads(
                b.skip(k),
                g.drop_first(),
                width,
            );
        assert(same_kind(f[0], g[0]));
        lemma_field_unique(b, j, k, f[0], g[0], width);
        assert forall|i: int| 0 <= i < f.drop_first().len() implies same_kind(
            #[trigger] f.drop_first()[i],
            g.drop_first()[i],
        ) by {
            assert(same_kind(f[i + 1], g[i + 1]));
        }
        lemma_reading_unique(b.skip(j), f.drop_first(), g.drop_first(), width);
        assert(f =~= seq![f[0]] + f.drop_first());
        assert(g =~= seq![g[0]] + g.drop_first());
    }
}

/// What was written for a field reads as that field.
proof fn lemma_field_bytes_read(f: Field, width: nat)
    requires
        width >= 1,
        f matches Field::Text(s) ==> byte_len(s) < 128,
    ensures
        field_reads(field_bytes(f), f, width),
{
    match f {
        Field::Byte(_) => {},
        Field::Number(n) => {
            lemma_varint_spells(n as nat);
            lemma_varint_len(n as nat);
        },
        Field::Text(s) => {
            let n = byte_len(s);
            let b = field_bytes(f);
            lemma_varint_spells(n);
            lemma_varint_len(n);
            assert(b.take(1) =~= varint_bytes(n));
            assert(b.skip(1) =~= encode_utf8(s));
        },
    }
}

/// A message reads back as the fields it was written from, whatever follows it.
pub proof fn lemma_message_reads_back(b: Seq<u8>, fields: Seq<Field>, width: nat)
    requires
        width >= 1,
        texts_within(fields, 127),
        message_bytes(fields).is_prefix_of(b),
    ensures
        message_reads(b, fields, width),
    decreases fields.len(),
{
    if fields.len() > 0 {
        let head = field_bytes(fields[0]);
        let rest = fields.drop_first();
        let k = head.len() as int;
        lemma_field_bytes_read(fields[0], width);
        let tail = message_bytes(rest);
        let whole = message_bytes(fields);
        assert(whole == head + tail);
        assert forall|i: int| 0 <= i < whole.len() implies whole[i] == b[i] by {
            assert(whole[i] == b.subrange(0, whole.len() as int)[i]);
        }
        assert(b.take(k) =~= head);
        assert forall|i: int| 0 <= i < tail.len() implies tail[i] == b.skip(k)[i] by {
            assert(tail[i] == whole[k + i]);
        }
        assert(tail =~= b.skip(k).subrange(0, tail.len() as int));
        assert(texts_within(rest, 127)) by {
            assert forall|i: int| 0 <= i < rest.len() implies (#[trigger] rest[i] matches
                Field::Text(s) ==> byte_len(s) <= 127) by {
                assert(rest[i] == fields[i + 1]);
            }
        }
        lemma_message_reads_back(b.skip(k), rest, width);
    }
}

} // verus!
