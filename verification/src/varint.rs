//! The primitives of the meta encoding: base-128 numbers, byte strings with
//! their length in front, and one-byte field tags.
//!
//! A number is written seven bits at a time, least significant group first;
//! every byte but the last has its top bit set. Only the shortest form of a
//! number is accepted.

use vstd::prelude::*;
use vstd::slice::slice_subrange;

verus! {

/// The bytes of `v` in base 128.
pub open spec fn spec_varint(v: nat) -> Seq<u8>
    decreases v,
{
    if v < 128 {
        seq![v as u8]
    } else {
        seq![(v % 128 + 128) as u8] + spec_varint(v / 128)
    }
}

/// The number at the front of `b` and the count of bytes that spell it, if
/// `b` starts with a number in its shortest form.
pub open spec fn spec_parse_varint(b: Seq<u8>) -> Option<(nat, nat)>
    decreases b.len(),
{
    if b.len() == 0 {
        None
    } else if b[0] < 128 {
        Some((b[0] as nat, 1))
    } else {
        match spec_parse_varint(b.drop_first()) {
            Some((high, n)) => if high > 0 {
                Some((((b[0] - 128) + 128 * high) as nat, n + 1))
            } else {
                None
            },
            None => None,
        }
    }
}

/// A number of at most 64 bits at the front of `b`, and what follows it.
pub open spec fn spec_take_varint(b: Seq<u8>) -> Option<(u64, Seq<u8>)> {
    match spec_parse_varint(b) {
        Some((v, n)) => if v <= u64::MAX {
            Some((v as u64, b.skip(n as int)))
        } else {
            None
        },
        None => None,
    }
}

/// A byte string with its length in front.
pub open spec fn spec_len_delimited(data: Seq<u8>) -> Seq<u8> {
    spec_varint(data.len()) + data
}

/// The length-prefixed byte string at the front of `b`, and what follows it.
pub open spec fn spec_take_bytes(b: Seq<u8>) -> Option<(Seq<u8>, Seq<u8>)> {
    match spec_take_varint(b) {
        Some((len, rest)) => if len <= rest.len() {
            Some((rest.take(len as int), rest.skip(len as int)))
        } else {
            None
        },
        None => None,
    }
}

/// Whether `b` starts with the byte `tag`.
pub open spec fn spec_has_tag(b: Seq<u8>, tag: u8) -> bool {
    b.len() > 0 && b[0] == tag
}

/// 128 to the power `k`.
pub open spec fn spec_pow128(k: nat) -> nat
    decreases k,
{
    if k == 0 {
        1
    } else {
        128 * spec_pow128((k - 1) as nat)
    }
}

/// Reading what was written gives the number back, whatever follows it.
pub proof fn lemma_varint_round_trip(v: nat, rest: Seq<u8>)
    ensures
        spec_parse_varint(spec_varint(v) + rest) == Some((v, spec_varint(v).len())),
    decreases v,
{
    let b = spec_varint(v) + rest;
    if v < 128 {
        assert(b[0] == v as u8);
    } else {
        let tail = spec_varint(v / 128);
        assert(b[0] == (v % 128 + 128) as u8);
        assert(b.drop_first() == tail + rest);
        lemma_varint_round_trip(v / 128, rest);
    }
}

/// Reading a number of at most 64 bits that was written gives it back and
/// leaves what followed it.
pub proof fn lemma_take_varint_round_trip(v: u64, rest: Seq<u8>)
    ensures
        spec_take_varint(spec_varint(v as nat) + rest) == Some((v, rest)),
{
    lemma_varint_round_trip(v as nat, rest);
    let b = spec_varint(v as nat) + rest;
    assert(b.skip(spec_varint(v as nat).len() as int) == rest);
}

/// Reading a byte string that was written gives it back and leaves what
/// followed it.
pub proof fn lemma_take_bytes_round_trip(data: Seq<u8>, rest: Seq<u8>)
    requires
        data.len() <= u64::MAX,
    ensures
        spec_take_bytes(spec_len_delimited(data) + rest) == Some((data, rest)),
{
    let len = data.len() as u64;
    assert(spec_len_delimited(data) + rest == spec_varint(len as nat) + (data + rest));
    lemma_take_varint_round_trip(len, data + rest);
    assert((data + rest).take(len as int) == data);
    assert((data + rest).skip(len as int) == rest);
}

/// A number that takes `n` bytes is at least 128 to the power `n - 1`.
proof fn lemma_long_varint_is_large(b: Seq<u8>)
    requires
        spec_parse_varint(b) is Some,
    ensures
        ({
            let (value, count) = spec_parse_varint(b)->0;
            &&& 1 <= count <= b.len()
            &&& count >= 2 ==> value >= spec_pow128((count - 1) as nat)
        }),
    decreases b.len(),
{
    if b[0] >= 128 {
        lemma_long_varint_is_large(b.drop_first());
        let (high, n) = spec_parse_varint(b.drop_first())->0;
        if n >= 2 {
            assert(128 * high >= 128 * spec_pow128((n - 1) as nat)) by (nonlinear_arith)
                requires
                    high >= spec_pow128((n - 1) as nat),
            ;
        } else {
            assert(spec_pow128(1) == 128) by {
                reveal_with_fuel(spec_pow128, 2);
            }
        }
    }
}

proof fn lemma_pow128_ten()
    ensures
        spec_pow128(10) > u64::MAX,
{
    reveal_with_fuel(spec_pow128, 11);
}

/// Appends the bytes of `v` to `out`.
pub fn write_varint(out: &mut Vec<u8>, v: u64)
    ensures
        final(out)@ == old(out)@ + spec_varint(v as nat),
{
    let mut left: u64 = v;
    while left >= 128
        invariant
            out@ + spec_varint(left as nat) == old(out)@ + spec_varint(v as nat),
        decreases left,
    {
        let ghost before = out@;
        out.push((left % 128 + 128) as u8);
        assert(before + spec_varint(left as nat) == out@ + spec_varint((left / 128) as nat));
        left = left / 128;
    }
    let ghost before = out@;
    out.push(left as u8);
    assert(before + spec_varint(left as nat) == out@);
}

/// Appends `data` to `out` with its length in front.
pub fn write_bytes(out: &mut Vec<u8>, data: &[u8])
    ensures
        final(out)@ == old(out)@ + spec_len_delimited(data@),
{
    write_varint(out, data.len() as u64);
    out.extend_from_slice(data);
    assert(out@ == old(out)@ + spec_len_delimited(data@));
}

/// A cursor over encoded bytes.
pub struct Reader<'a> {
    bytes: &'a [u8],
    at: usize,
}

impl<'a> Reader<'a> {
    #[verifier::type_invariant]
    spec fn well_formed(self) -> bool {
        self.at <= self.bytes@.len()
    }

    /// What is left to read.
    pub closed spec fn rest(self) -> Seq<u8> {
        self.bytes@.skip(self.at as int)
    }

    /// A cursor at the start of `bytes`.
    pub fn new(bytes: &'a [u8]) -> (reader: Self)
        ensures
            reader.rest() == bytes@,
    {
        Reader { bytes, at: 0 }
    }

    /// Whether everything was read.
    pub fn is_empty(&self) -> (done: bool)
        ensures
            done == (self.rest().len() == 0),
    {
        proof {
            use_type_invariant(self);
        }
        self.at == self.bytes.len()
    }

    /// Steps over the byte `tag` if it is next.
    pub fn take_tag(&mut self, tag: u8) -> (found: bool)
        ensures
            found == spec_has_tag(old(self).rest(), tag),
            final(self).rest() == if found {
                old(self).rest().skip(1)
            } else {
                old(self).rest()
            },
    {
        proof {
            use_type_invariant(&*self);
        }
        if self.at < self.bytes.len() && self.bytes[self.at] == tag {
            assert(self.bytes@.skip(self.at as int).skip(1) == self.bytes@.skip(self.at + 1));
            self.at = self.at + 1;
            true
        } else {
            false
        }
    }

    /// The number that starts at `at`, if it takes at most `budget` bytes
    /// and fits in 64 bits.
    fn parse_varint(bytes: &[u8], at: usize, budget: usize) -> (r: Option<(u64, usize)>)
        requires
            at <= bytes@.len(),
        ensures
            match r {
                Some((v, n)) => spec_parse_varint(bytes@.skip(at as int)) == Some(
                    (v as nat, n as nat),
                ) && at + n <= bytes@.len(),
                None => match spec_parse_varint(bytes@.skip(at as int)) {
                    None => true,
                    Some((v, n)) => n > budget || v > u64::MAX,
                },
            },
        decreases budget,
    {
        if budget == 0 || at >= bytes.len() {
            proof {
                if spec_parse_varint(bytes@.skip(at as int)) is Some {
                    lemma_long_varint_is_large(bytes@.skip(at as int));
                }
            }
            return None;
        }
        let byte = bytes[at];
        assert(bytes@.skip(at as int)[0] == byte);
        if byte < 128 {
            return Some((byte as u64, 1));
        }
        assert(bytes@.skip(at as int).drop_first() == bytes@.skip(at + 1));
        match Self::parse_varint(bytes, at + 1, budget - 1) {
            None => None,
            Some((high, n)) => {
                let low: u64 = (byte - 128) as u64;
                if high == 0 || high > (u64::MAX - low) / 128 {
                    None
                } else {
                    Some((low + 128 * high, n + 1))
                }
            },
        }
    }

    /// Reads a number of at most 64 bits. Where none is next, nothing is
    /// consumed.
    pub fn take_varint(&mut self) -> (v: Option<u64>)
        ensures
            match spec_take_varint(old(self).rest()) {
                Some((value, rest)) => v == Some(value) && final(self).rest() == rest,
                None => v is None && final(self).rest() == old(self).rest(),
            },
    {
        proof {
            use_type_invariant(&*self);
        }
        let at: usize = self.at;
        let total: usize = self.bytes.len();
        match Self::parse_varint(self.bytes, at, 10) {
            Some((value, n)) => {
                assert(self.bytes@.skip(at as int).skip(n as int) == self.bytes@.skip(at + n));
                self.at = at + n;
                Some(value)
            },
            None => {
                proof {
                    lemma_ten_bytes_suffice(self.bytes@.skip(at as int));
                }
                None
            },
        }
    }

    /// Reads a byte string that has its length in front. Where none is
    /// next, nothing is consumed.
    pub fn take_bytes(&mut self) -> (data: Option<&'a [u8]>)
        ensures
            match spec_take_bytes(old(self).rest()) {
                Some((value, rest)) => data is Some && data->0@ == value && final(self).rest()
                    == rest,
                None => data is None && final(self).rest() == old(self).rest(),
            },
    {
        proof {
            use_type_invariant(&*self);
        }
        let at: usize = self.at;
        let total: usize = self.bytes.len();
        match Self::parse_varint(self.bytes, at, 10) {
            None => {
                proof {
                    lemma_ten_bytes_suffice(self.bytes@.skip(at as int));
                }
                None
            },
            Some((len, n)) => {
                let from: usize = at + n;
                let left: usize = total - from;
                assert(self.bytes@.skip(at as int).skip(n as int) == self.bytes@.skip(from as int));
                if len > left as u64 {
                    None
                } else {
                    let to: usize = from + len as usize;
                    let data = slice_subrange(self.bytes, from, to);
                    assert(data@ == self.bytes@.skip(from as int).take(len as int));
                    assert(self.bytes@.skip(from as int).skip(len as int) == self.bytes@.skip(
                        to as int,
                    ));
                    self.at = to;
                    Some(data)
                }
            },
        }
    }
}

/// A number that fits in 64 bits takes at most ten bytes.
proof fn lemma_ten_bytes_suffice(b: Seq<u8>)
    ensures
        match spec_parse_varint(b) {
            Some((v, n)) => n > 10 ==> v > u64::MAX,
            None => true,
        },
{
    if spec_parse_varint(b) is Some {
        let (v, n) = spec_parse_varint(b)->0;
        if n > 10 {
            lemma_long_varint_is_large(b);
            lemma_pow128_ten();
            lemma_pow128_grows(10, (n - 1) as nat);
        }
    }
}

proof fn lemma_pow128_grows(a: nat, b: nat)
    requires
        a <= b,
    ensures
        spec_pow128(a) <= spec_pow128(b),
    decreases b,
{
    if a < b {
        lemma_pow128_grows(a, (b - 1) as nat);
        assert(spec_pow128((b - 1) as nat) >= 1) by {
            lemma_pow128_grows(0, (b - 1) as nat);
        }
    }
}

} // verus!
