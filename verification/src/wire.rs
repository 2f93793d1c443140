//! The protobuf wire layer: base-128 varints, field keys, length-delimited
//! payloads and the skipping of fields that a message does not declare.
use vstd::prelude::*;

verus! {

/// How many nested messages and groups a decode may enter.
pub const RECURSION_LIMIT: u32 = 100;

/// Wire type of a varint field.
pub const WIRE_VARINT: u8 = 0;

/// Wire type of an eight-byte field.
pub const WIRE_FIXED64: u8 = 1;

/// Wire type of a length-delimited field.
pub const WIRE_LEN: u8 = 2;

/// Wire type that opens a group.
pub const WIRE_START_GROUP: u8 = 3;

/// Wire type that closes a group.
pub const WIRE_END_GROUP: u8 = 4;

/// Wire type of a four-byte field.
pub const WIRE_FIXED32: u8 = 5;

/// Why a byte sequence is not a valid encoding of the message asked for.
#[derive(Clone, Copy, Debug, PartialEq, Eq, Structural)]
pub enum DecodeError {
    /// The bytes break the protobuf wire format or the schema of the message.
    Malformed,
}

/// A message did not fit in the buffer it was to be written to.
#[derive(Clone, Copy, Debug, PartialEq, Eq, Structural)]
pub struct EncodeError {
    /// The number of bytes the message needs.
    pub required: usize,
    /// The number of bytes the buffer could still take.
    pub remaining: usize,
}

/// The base-128 encoding of `v`: seven bits per byte, least significant
/// group first, the high bit set on every byte but the last.
pub open spec fn varint_bytes(v: nat) -> Seq<u8>
    decreases v,
{
    if v < 128 {
        seq![v as u8]
    } else {
        seq![(v % 128 + 128) as u8] + varint_bytes(v / 128)
    }
}

/// The value of the varint at the start of `s` read with at most `k` bytes,
/// and the number of bytes it takes.
pub open spec fn varint_prefix(s: Seq<u8>, k: nat) -> Option<(nat, nat)>
    decreases k,
{
    if k == 0 || s.len() == 0 {
        None
    } else if s[0] < 128 {
        Some((s[0] as nat, 1))
    } else {
        match varint_prefix(s.drop_first(), (k - 1) as nat) {
            Some((v, n)) => Some((((s[0] - 128) + 128 * v) as nat, n + 1)),
            None => None,
        }
    }
}

/// A varint at the start of `s`: at most ten bytes, with a value that fits
/// in 64 bits.
pub open spec fn read_varint(s: Seq<u8>) -> Option<(u64, nat)> {
    match varint_prefix(s, 10) {
        Some((v, n)) => if v <= u64::MAX {
            Some((v as u64, n))
        } else {
            None
        },
        None => None,
    }
}

/// The encoding of the key of field `tag` with wire type `wire`.
pub open spec fn key_bytes(tag: nat, wire: nat) -> Seq<u8> {
    varint_bytes(tag * 8 + wire)
}

/// A field key at the start of `s`: its tag, its wire type and its length.
/// The key must fit in 32 bits, name a wire type from 0 to 5 and a tag
/// other than 0.
pub open spec fn read_key(s: Seq<u8>) -> Option<(u32, u8, nat)> {
    match read_varint(s) {
        Some((k, n)) => if k > u32::MAX || k % 8 > 5 || k / 8 == 0 {
            None
        } else {
            Some(((k / 8) as u32, (k % 8) as u8, n))
        },
        None => None,
    }
}

/// A length-delimited payload at the start of `s`, and the number of bytes
/// that its length and the payload take.
pub open spec fn read_len_delimited(s: Seq<u8>) -> Option<(Seq<u8>, nat)> {
    match read_varint(s) {
        Some((len, n)) => if len <= s.len() - n {
            Some((s.subrange(n as int, n + len), (n + len) as nat))
        } else {
            None
        },
        None => None,
    }
}

/// The number of bytes that the value of an undeclared field takes, after
/// its key, when it is skipped with `ctx` levels of nesting left.
pub open spec fn skip_value(s: Seq<u8>, wire: u8, tag: u32, ctx: nat) -> Option<nat>
    decreases s.len(), 1nat,
{
    if ctx == 0 {
        None
    } else if wire == WIRE_VARINT {
        match read_varint(s) {
            Some((_, n)) => Some(n),
            None => None,
        }
    } else if wire == WIRE_FIXED64 {
        if s.len() >= 8 {
            Some(8)
        } else {
            None
        }
    } else if wire == WIRE_LEN {
        match read_len_delimited(s) {
            Some((_, n)) => Some(n),
            None => None,
        }
    } else if wire == WIRE_START_GROUP {
        skip_group(s, tag, ctx)
    } else if wire == WIRE_FIXED32 {
        if s.len() >= 4 {
            Some(4)
        } else {
            None
        }
    } else {
        None
    }
}

/// The number of bytes that the body of group `tag` takes up to and with
/// its closing key; its fields are skipped one level deeper.
pub open spec fn skip_group(s: Seq<u8>, tag: u32, ctx: nat) -> Option<nat>
    decreases s.len(), 0nat,
{
    match read_key(s) {
        None => None,
        Some((t, w, n)) => {
            if w == WIRE_END_GROUP {
                if t == tag {
                    Some(n)
                } else {
                    None
                }
            } else {
                proof {
                    lemma_read_key_bounds(s);
                }
                match skip_value(s.skip(n as int), w, t, (ctx - 1) as nat) {
                    None => None,
                    // A skipped value never runs past the end of the input
                    // (`lemma_skip_value_bounds`); the test only makes the
                    // recursion visibly well-founded.
                    Some(m) => if m <= s.len() - n {
                        match skip_group(s.skip((n + m) as int), tag, ctx) {
                            None => None,
                            Some(k) => Some(n + m + k),
                        }
                    } else {
                        None
                    },
                }
            }
        },
    }
}

/// The value of a field as read off the wire.
pub enum FieldValue {
    Varint(u64),
    Bytes(Seq<u8>),
    Skipped,
}

/// One field at the start of `s`: its tag, wire type, value and total
/// length. Varints and length-delimited payloads are read; fields of other
/// wire types are skipped as undeclared fields are.
pub open spec fn read_field(s: Seq<u8>, ctx: nat) -> Option<(u32, u8, FieldValue, nat)> {
    match read_key(s) {
        None => None,
        Some((tag, wire, n)) => {
            let rest = s.skip(n as int);
            if wire == WIRE_VARINT {
                match read_varint(rest) {
                    Some((v, m)) => Some((tag, wire, FieldValue::Varint(v), n + m)),
                    None => None,
                }
            } else if wire == WIRE_LEN {
                match read_len_delimited(rest) {
                    Some((p, m)) => Some((tag, wire, FieldValue::Bytes(p), n + m)),
                    None => None,
                }
            } else {
                match skip_value(rest, wire, tag, ctx) {
                    Some(m) => Some((tag, wire, FieldValue::Skipped, n + m)),
                    None => None,
                }
            }
        },
    }
}

pub proof fn lemma_varint_prefix_bounds(s: Seq<u8>, k: nat)
    ensures
        varint_prefix(s, k) matches Some((v, n)) ==> 1 <= n <= s.len() && n <= k,
    decreases k,
{
    if k > 0 && s.len() > 0 && s[0] >= 128 {
        lemma_varint_prefix_bounds(s.drop_first(), (k - 1) as nat);
    }
}

pub proof fn lemma_read_varint_bounds(s: Seq<u8>)
    ensures
        read_varint(s) matches Some((v, n)) ==> 1 <= n <= s.len() && n <= 10,
{
    lemma_varint_prefix_bounds(s, 10);
}

pub proof fn lemma_read_key_bounds(s: Seq<u8>)
    ensures
        read_key(s) matches Some((t, w, n)) ==> 1 <= n <= s.len() && t > 0 && w <= 5,
{
    lemma_read_varint_bounds(s);
}

pub proof fn lemma_read_len_bounds(s: Seq<u8>)
    ensures
        read_len_delimited(s) matches Some((p, n)) ==> 1 <= n <= s.len() && p.len() < n,
{
    lemma_read_varint_bounds(s);
}

pub proof fn lemma_skip_value_bounds(s: Seq<u8>, wire: u8, tag: u32, ctx: nat)
    ensures
        skip_value(s, wire, tag, ctx) matches Some(n) ==> n <= s.len(),
    decreases s.len(), 1nat,
{
    lemma_read_varint_bounds(s);
    lemma_read_len_bounds(s);
    if ctx > 0 && wire == WIRE_START_GROUP {
        lemma_skip_group_bounds(s, tag, ctx);
    }
}

pub proof fn lemma_skip_group_bounds(s: Seq<u8>, tag: u32, ctx: nat)
    ensures
        skip_group(s, tag, ctx) matches Some(n) ==> 1 <= n <= s.len(),
    decreases s.len(), 0nat,
{
    lemma_read_key_bounds(s);
    if let Some((t, w, n)) = read_key(s) {
        if w != WIRE_END_GROUP {
            let rest = s.skip(n as int);
            lemma_skip_value_bounds(rest, w, t, (ctx - 1) as nat);
            if let Some(m) = skip_value(rest, w, t, (ctx - 1) as nat) {
                lemma_skip_group_bounds(s.skip((n + m) as int), tag, ctx);
            }
        }
    }
}

pub proof fn lemma_read_field_bounds(s: Seq<u8>, ctx: nat)
    ensures
        read_field(s, ctx) matches Some((t, w, v, n)) ==> 1 <= n <= s.len() && t > 0 && w <= 5
            && w != WIRE_END_GROUP && (v matches FieldValue::Bytes(p) ==> p.len() < n),
{
    lemma_read_key_bounds(s);
    if let Some((tag, wire, n)) = read_key(s) {
        let rest = s.skip(n as int);
        lemma_read_varint_bounds(rest);
        lemma_read_len_bounds(rest);
        lemma_skip_value_bounds(rest, wire, tag, ctx);
    }
}


/// `128` to the power `k`.
pub open spec fn pow128(k: nat) -> nat
    decreases k,
{
    if k == 0 {
        1
    } else {
        128 * pow128((k - 1) as nat)
    }
}

/// A varint of fewer than `k` base-128 digits is read back whole, whatever
/// follows it.
pub proof fn lemma_varint_round_trip_k(v: nat, k: nat, rest: Seq<u8>)
    requires
        k >= 1,
        v < pow128(k),
    ensures
        varint_bytes(v).len() <= k,
        varint_prefix(varint_bytes(v) + rest, k) == Some((v, varint_bytes(v).len())),
    decreases v,
{
    let b = varint_bytes(v);
    if v < 128 {
        assert((b + rest)[0] == v as u8);
    } else {
        let tail = varint_bytes(v / 128);
        assert(k >= 2) by {
            if k == 1 {
                assert(pow128(0) == 1);
            }
        }
        assert(v / 128 < pow128((k - 1) as nat));
        lemma_varint_round_trip_k(v / 128, (k - 1) as nat, rest);
        assert((b + rest).drop_first() =~= tail + rest);
        assert((b + rest)[0] == (v % 128 + 128) as u8);
    }
}

/// Reading the encoding of a 64-bit value gives that value and the whole
/// encoding, whatever follows it.
pub proof fn lemma_varint_round_trip(v: u64, rest: Seq<u8>)
    ensures
        1 <= varint_bytes(v as nat).len() <= 10,
        read_varint(varint_bytes(v as nat) + rest) == Some((v, varint_bytes(v as nat).len())),
{
    reveal_with_fuel(pow128, 11);
    assert(pow128(10) == 0x4_0000_0000_0000_0000_0int);
    lemma_varint_round_trip_k(v as nat, 10, rest);
    reveal_with_fuel(varint_bytes, 2);
}

/// The key of a field with a tag below `2^29` and a wire type from 0 to 5 is
/// read back as that tag and wire type.
pub proof fn lemma_key_round_trip(tag: u32, wire: u8, rest: Seq<u8>)
    requires
        1 <= tag < 0x2000_0000,
        wire <= 5,
    ensures
        1 <= key_bytes(tag as nat, wire as nat).len() <= 5,
        read_key(key_bytes(tag as nat, wire as nat) + rest) == Some(
            (tag, wire, key_bytes(tag as nat, wire as nat).len()),
        ),
{
    let k = (tag * 8 + wire) as u64;
    lemma_varint_round_trip(k, rest);
    reveal_with_fuel(pow128, 6);
    assert(pow128(5) == 0x8_0000_0000int);
    lemma_varint_round_trip_k(k as nat, 5, rest);
}

/// A length-delimited payload is read back whole, whatever follows it.
pub proof fn lemma_len_delimited_round_trip(p: Seq<u8>, rest: Seq<u8>)
    requires
        p.len() <= u64::MAX,
    ensures
        read_len_delimited(varint_bytes(p.len()) + p + rest) == Some(
            (p, varint_bytes(p.len()).len() + p.len()),
        ),
{
    let h = varint_bytes(p.len());
    lemma_varint_round_trip(p.len() as u64, p + rest);
    assert(h + p + rest =~= h + (p + rest));
    assert((h + p + rest).subrange(h.len() as int, (h.len() + p.len()) as int) =~= p);
}

/// Appends the varint encoding of `v` to `out`.
pub fn encode_varint(v: u64, out: &mut Vec<u8>)
    ensures
        final(out)@ == old(out)@ + varint_bytes(v as nat),
{
    let mut x = v;
    while x >= 128
        invariant
            old(out)@ + varint_bytes(v as nat) == out@ + varint_bytes(x as nat),
        decreases x,
    {
        let ghost before = out@;
        out.push((x % 128 + 128) as u8);
        assert(before + varint_bytes(x as nat) =~= out@ + varint_bytes((x / 128) as nat));
        x = x / 128;
    }
    out.push(x as u8);
    assert(old(out)@ + varint_bytes(v as nat) =~= out@);
}

/// The number of bytes of the varint encoding of `v`.
pub fn encoded_len_varint(v: u64) -> (r: usize)
    ensures
        r == varint_bytes(v as nat).len(),
        1 <= r <= 10,
{
    proof {
        lemma_varint_round_trip(v, Seq::empty());
    }
    let mut x = v;
    let mut n: usize = 1;
    while x >= 128
        invariant
            varint_bytes(v as nat).len() == n - 1 + varint_bytes(x as nat).len(),
            1 <= n <= varint_bytes(v as nat).len(),
            varint_bytes(v as nat).len() <= 10,
        decreases x,
    {
        x = x / 128;
        n = n + 1;
    }
    n
}

/// The varint that starts at `pos`, read with at most `k` bytes, if its value
/// fits in 64 bits; and the position after it.
fn decode_varint_prefix(s: &[u8], pos: usize, k: usize) -> (r: Option<(u64, usize)>)
    requires
        pos <= s@.len(),
        k <= 10,
    ensures
        r == (match varint_prefix(s@.skip(pos as int), k as nat) {
            Some((v, n)) => if v <= u64::MAX {
                Some((v as u64, (pos + n) as usize))
            } else {
                None
            },
            None => None,
        }),
    decreases k,
{
    proof {
        lemma_varint_prefix_bounds(s@.skip(pos as int), k as nat);
    }
    if k == 0 || pos >= s.len() {
        return None;
    }
    let b = s[pos];
    if b < 128 {
        return Some((b as u64, pos + 1));
    }
    assert(s@.skip(pos as int).drop_first() =~= s@.skip(pos + 1));
    match decode_varint_prefix(s, pos + 1, k - 1) {
        None => None,
        Some((v, next)) => {
            let low = (b - 128) as u64;
            if v > (u64::MAX - low) / 128 {
                None
            } else {
                Some((low + 128 * v, next))
            }
        },
    }
}

/// The varint that starts at `pos` and the position after it.
pub fn decode_varint(s: &[u8], pos: usize) -> (r: Option<(u64, usize)>)
    requires
        pos <= s@.len(),
    ensures
        (r is Some) == (read_varint(s@.skip(pos as int)) is Some),
        r matches Some((v, next)) ==> pos < next <= s@.len() && read_varint(s@.skip(pos as int))
            == Some((v, (next - pos) as nat)),
{
    proof {
        lemma_varint_prefix_bounds(s@.skip(pos as int), 10);
    }
    let _ = s.len();
    decode_varint_prefix(s, pos, 10)
}

/// The field key that starts at `pos`: tag, wire type and the position after
/// it.
pub fn decode_key(s: &[u8], pos: usize) -> (r: Option<(u32, u8, usize)>)
    requires
        pos <= s@.len(),
    ensures
        (r is Some) == (read_key(s@.skip(pos as int)) is Some),
        r matches Some((t, w, next)) ==> pos < next <= s@.len() && read_key(s@.skip(pos as int))
            == Some((t, w, (next - pos) as nat)),
{
    match decode_varint(s, pos) {
        None => None,
        Some((k, next)) => {
            if k > 0xffff_ffff || k % 8 > 5 || k / 8 == 0 {
                None
            } else {
                Some(((k / 8) as u32, (k % 8) as u8, next))
            }
        },
    }
}

/// The bounds of the length-delimited payload whose length starts at `pos`.
pub fn decode_len_delimited(s: &[u8], pos: usize) -> (r: Option<(usize, usize)>)
    requires
        pos <= s@.len(),
    ensures
        (r is Some) == (read_len_delimited(s@.skip(pos as int)) is Some),
        r matches Some((a, b)) ==> pos < a <= b <= s@.len() && read_len_delimited(
            s@.skip(pos as int),
        ) == Some((s@.subrange(a as int, b as int), (b - pos) as nat)),
{
    match decode_varint(s, pos) {
        None => None,
        Some((len, start)) => {
            if len > (s.len() - start) as u64 {
                None
            } else {
                let end = start + len as usize;
                assert(s@.skip(pos as int).subrange(start - pos, end - pos) =~= s@.subrange(
                    start as int,
                    end as int,
                ));
                Some((start, end))
            }
        },
    }
}

/// Skips the value of an undeclared field whose key ends at `pos`; returns
/// the position after it.
pub fn skip_field_value(s: &[u8], pos: usize, wire: u8, tag: u32, ctx: u32) -> (r: Option<usize>)
    requires
        pos <= s@.len(),
    ensures
        (r is Some) == (skip_value(s@.skip(pos as int), wire, tag, ctx as nat) is Some),
        r matches Some(next) ==> pos <= next <= s@.len() && skip_value(
            s@.skip(pos as int),
            wire,
            tag,
            ctx as nat,
        ) == Some((next - pos) as nat),
    decreases s@.len() - pos, 1nat,
{
    proof {
        lemma_skip_value_bounds(s@.skip(pos as int), wire, tag, ctx as nat);
        lemma_read_varint_bounds(s@.skip(pos as int));
        lemma_read_len_bounds(s@.skip(pos as int));
    }
    if ctx == 0 {
        None
    } else if wire == WIRE_VARINT {
        match decode_varint(s, pos) {
            Some((_, next)) => Some(next),
            None => None,
        }
    } else if wire == WIRE_FIXED64 {
        if s.len() - pos >= 8 {
            Some(pos + 8)
        } else {
            None
        }
    } else if wire == WIRE_LEN {
        match decode_len_delimited(s, pos) {
            Some((_, end)) => Some(end),
            None => None,
        }
    } else if wire == WIRE_START_GROUP {
        skip_group_body(s, pos, tag, ctx)
    } else if wire == WIRE_FIXED32 {
        if s.len() - pos >= 4 {
            Some(pos + 4)
        } else {
            None
        }
    } else {
        None
    }
}

/// Skips the body of group `tag` that starts at `pos`, up to and with its
/// closing key; returns the position after it.
fn skip_group_body(s: &[u8], pos: usize, tag: u32, ctx: u32) -> (r: Option<usize>)
    requires
        pos <= s@.len(),
        ctx > 0,
    ensures
        (r is Some) == (skip_group(s@.skip(pos as int), tag, ctx as nat) is Some),
        r matches Some(next) ==> pos < next <= s@.len() && skip_group(
            s@.skip(pos as int),
            tag,
            ctx as nat,
        ) == Some((next - pos) as nat),
    decreases s@.len() - pos, 0nat,
{
    proof {
        lemma_read_key_bounds(s@.skip(pos as int));
        lemma_skip_group_bounds(s@.skip(pos as int), tag, ctx as nat);
    }
    match decode_key(s, pos) {
        None => None,
        Some((t, w, next)) => {
            if w == WIRE_END_GROUP {
                if t == tag {
                    Some(next)
                } else {
                    None
                }
            } else {
                assert(s@.skip(pos as int).skip(next - pos) =~= s@.skip(next as int));
                proof {
                    lemma_skip_value_bounds(s@.skip(next as int), w, t, (ctx - 1) as nat);
                }
                match skip_field_value(s, next, w, t, ctx - 1) {
                    None => None,
                    Some(after) => {
                        assert(s@.skip(pos as int).skip(after - pos) =~= s@.skip(after as int));
                        skip_group_body(s, after, tag, ctx)
                    },
                }
            }
        },
    }
}

/// The value of a field as read off the wire, by position in the input.
pub enum FieldRead {
    Varint(u64),
    Bytes(usize, usize),
    Skipped,
}

/// Whether an exec field value stands for a spec field value of input `s`.
pub open spec fn field_read_matches(r: FieldRead, v: FieldValue, s: Seq<u8>) -> bool {
    match (r, v) {
        (FieldRead::Varint(a), FieldValue::Varint(b)) => a == b,
        (FieldRead::Bytes(a, b), FieldValue::Bytes(p)) => a <= b <= s.len() && s.subrange(
            a as int,
            b as int,
        ) == p,
        (FieldRead::Skipped, FieldValue::Skipped) => true,
        _ => false,
    }
}

/// The field that starts at `pos`: tag, wire type, value and the position
/// after it.
pub fn decode_field(s: &[u8], pos: usize, ctx: u32) -> (r: Option<(u32, u8, FieldRead, usize)>)
    requires
        pos <= s@.len(),
    ensures
        (r is Some) == (read_field(s@.skip(pos as int), ctx as nat) is Some),
        r matches Some((t, w, v, next)) ==> {
            let (st, sw, sv, n) = read_field(s@.skip(pos as int), ctx as nat).unwrap();
            &&& t == st
            &&& w == sw
            &&& field_read_matches(v, sv, s@)
            &&& next == pos + n
            &&& pos < next <= s@.len()
        },
{
    proof {
        lemma_read_field_bounds(s@.skip(pos as int), ctx as nat);
        lemma_read_key_bounds(s@.skip(pos as int));
    }
    match decode_key(s, pos) {
        None => None,
        Some((tag, wire, after_key)) => {
            assert(s@.skip(pos as int).skip(after_key - pos) =~= s@.skip(after_key as int));
            if wire == WIRE_VARINT {
                match decode_varint(s, after_key) {
                    Some((v, next)) => Some((tag, wire, FieldRead::Varint(v), next)),
                    None => None,
                }
            } else if wire == WIRE_LEN {
                match decode_len_delimited(s, after_key) {
                    Some((a, b)) => Some((tag, wire, FieldRead::Bytes(a, b), b)),
                    None => None,
                }
            } else {
                match skip_field_value(s, after_key, wire, tag, ctx) {
                    Some(next) => Some((tag, wire, FieldRead::Skipped, next)),
                    None => None,
                }
            }
        },
    }
}

} // verus!
