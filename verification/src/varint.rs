//! LEB128 variable-length integers: the length prefix of every frame.
//!
//! A value is cut into groups of seven bits, least significant group first.
//! Each byte carries one group in its low bits; its high bit says that another
//! byte follows.

use vstd::prelude::*;

verus! {

/// The canonical LEB128 encoding of `n`: the shortest one.
pub open spec fn varint_encoding(n: nat) -> Seq<u8>
    decreases n,
{
    if n < 0x80 {
        seq![n as u8]
    } else {
        seq![(n % 0x80 + 0x80) as u8] + varint_encoding(n / 0x80)
    }
}

/// Number of bytes in the canonical encoding of `n`.
pub open spec fn varint_len(n: nat) -> nat
    decreases n,
{
    if n < 0x80 {
        1
    } else {
        1 + varint_len(n / 0x80)
    }
}

/// The number that the seven-bit groups of `bytes` spell, least significant
/// group first. The continuation bits are not looked at.
pub open spec fn varint_value(bytes: Seq<u8>) -> nat
    decreases bytes.len(),
{
    if bytes.len() == 0 {
        0
    } else {
        (bytes[0] % 0x80) as nat + 0x80 * varint_value(bytes.skip(1))
    }
}

/// Index of the first byte of `bytes` whose continuation bit is clear, or the
/// length of `bytes` where every byte has it set.
pub open spec fn varint_terminator(bytes: Seq<u8>) -> nat
    decreases bytes.len(),
{
    if bytes.len() == 0 || bytes[0] < 0x80 {
        0
    } else {
        1 + varint_terminator(bytes.skip(1))
    }
}

/// The encoding of `n` has `varint_len(n)` bytes.
pub proof fn lemma_encoding_len(n: nat)
    ensures
        varint_encoding(n).len() == varint_len(n),
        varint_len(n) >= 1,
    decreases n,
{
    if n >= 0x80 {
        lemma_encoding_len(n / 0x80);
    }
}

/// Every byte of an encoding but the last has its continuation bit set, and
/// the last has it clear.
pub proof fn lemma_encoding_terminator(n: nat)
    ensures
        varint_terminator(varint_encoding(n)) == varint_len(n) - 1,
    decreases n,
{
    let e = varint_encoding(n);
    if n >= 0x80 {
        let rest = varint_encoding(n / 0x80);
        lemma_encoding_terminator(n / 0x80);
        assert(e.skip(1) =~= rest);
        assert(e[0] >= 0x80);
    } else {
        assert(e[0] < 0x80);
    }
}

/// Decoding the groups of an encoding gives the number back.
pub proof fn lemma_encoding_value(n: nat)
    ensures
        varint_value(varint_encoding(n)) == n,
    decreases n,
{
    let e = varint_encoding(n);
    if n >= 0x80 {
        let rest = varint_encoding(n / 0x80);
        lemma_encoding_value(n / 0x80);
        assert(e.skip(1) =~= rest);
        assert(e[0] % 0x80 == n % 0x80);
    } else {
        assert(e.skip(1) =~= Seq::<u8>::empty());
        assert(varint_value(e.skip(1)) == 0);
    }
}

/// A number of at most 64 bits needs at most ten bytes.
pub proof fn lemma_len_bound(n: nat)
    requires
        n <= u64::MAX,
    ensures
        1 <= varint_len(n) <= 10,
        n <= u32::MAX ==> varint_len(n) <= 5,
{
    reveal_with_fuel(varint_len, 11);
}

/// Size of the length prefix of a string or array of `n` items, capped at the
/// five bytes that a 32-bit length can need.
pub open spec fn varint_size_spec(n: nat) -> nat {
    if varint_len(n) < 5 {
        varint_len(n)
    } else {
        5
    }
}

/// Number of bytes needed to encode the length `n`, at most five.
pub fn varint_size(n: usize) -> (size: usize)
    ensures
        size == varint_size_spec(n as nat),
        1 <= size <= 5,
        n < 0x8_0000_0000 ==> size == varint_len(n as nat),
{
    proof {
        reveal_with_fuel(varint_len, 6);
    }
    if n < 0x80 {
        1
    } else if n < 0x4000 {
        2
    } else if n < 0x20_0000 {
        3
    } else if n < 0x1000_0000 {
        4
    } else {
        5
    }
}

/// Size of the LEB128 header that announces a body of `val` bytes.
pub fn header_size(val: usize) -> (count: usize)
    ensures
        count == varint_len(val as nat),
{
    let mut rest: usize = val;
    let mut count: usize = 1;
    proof {
        lemma_len_bound(val as nat);
    }
    while rest >= 0x80
        invariant
            count + varint_len(rest as nat) == 1 + varint_len(val as nat),
            1 <= varint_len(rest as nat),
            varint_len(val as nat) <= 10,
        decreases rest,
    {
        proof {
            lemma_encoding_len((rest / 0x80) as nat);
        }
        rest = rest / 0x80;
        count = count + 1;
    }
    count
}

/// `0x80` to the power `k`: the weight of the group at index `k`.
pub open spec fn pow128(k: nat) -> nat
    decreases k,
{
    if k == 0 {
        1
    } else {
        0x80 * pow128((k - 1) as nat)
    }
}

/// Appends the canonical encoding of `val` to `out`.
pub fn write_varint(out: &mut Vec<u8>, val: usize)
    ensures
        final(out)@ == old(out)@ + varint_encoding(val as nat),
{
    let mut rest: usize = val;
    let ghost start = out@;
    while rest >= 0x80
        invariant
            out@ + varint_encoding(rest as nat) == start + varint_encoding(val as nat),
        decreases rest,
    {
        let low: u8 = (rest % 0x80) as u8;
        proof {
            let tail = varint_encoding((rest / 0x80) as nat);
            assert(out@.push((low + 0x80) as u8) + tail =~= out@ + (seq![(low + 0x80) as u8] + tail));
        }
        out.push(low + 0x80);
        rest = rest / 0x80;
    }
    proof {
        assert(out@.push(rest as u8) =~= out@ + varint_encoding(rest as nat));
    }
    out.push(rest as u8);
}

/// Why a length prefix could not be read.
#[derive(Debug, Copy, Clone, Eq, PartialEq)]
pub enum ReadVarintError<E> {
    /// The value does not fit the platform word.
    Overflow,
    /// The source of bytes failed.
    Other(E),
}

impl<E> From<E> for ReadVarintError<E> {
    fn from(err: E) -> (error: Self) {
        ReadVarintError::Other(err)
    }
}

impl<E> vstd::std_specs::convert::FromSpecImpl<E> for ReadVarintError<E> {
    open spec fn obeys_from_spec() -> bool {
        true
    }

    open spec fn from_spec(err: E) -> Self {
        ReadVarintError::Other(err)
    }
}

/// The input ended before the last byte of a length prefix.
#[derive(Debug, Copy, Clone, Eq, PartialEq)]
pub struct EndOfInput;

/// What reading a length prefix from the front of `bytes` gives: the value and
/// the number of bytes it took, an overflow, or the end of the input.
///
/// A prefix ends at the first byte whose continuation bit is clear. It
/// overflows where its groups spell more than `usize::MAX`, or where it runs
/// on past the longest encoding of a `usize`.
pub open spec fn varint_decode(bytes: Seq<u8>) -> Result<(usize, usize), ReadVarintError<EndOfInput>> {
    let t = varint_terminator(bytes);
    let limit = varint_len(usize::MAX as nat);
    let value = varint_value(bytes.take((t + 1) as int));
    if t < bytes.len() && t < limit && value <= usize::MAX {
        Ok((value as usize, (t + 1) as usize))
    } else if bytes.len() >= limit && t + 1 >= limit {
        Err(ReadVarintError::Overflow)
    } else {
        Err(ReadVarintError::Other(EndOfInput))
    }
}

/// The bytes before the terminator have their continuation bit set, and the
/// terminator, where there is one, has it clear.
pub proof fn lemma_terminator(bytes: Seq<u8>)
    ensures
        varint_terminator(bytes) <= bytes.len(),
        forall|i: int| 0 <= i < varint_terminator(bytes) ==> bytes[i] >= 0x80,
        varint_terminator(bytes) < bytes.len() ==> bytes[varint_terminator(bytes) as int] < 0x80,
    decreases bytes.len(),
{
    if bytes.len() > 0 && bytes[0] >= 0x80 {
        let rest = bytes.skip(1);
        lemma_terminator(rest);
        assert forall|i: int| 0 <= i < varint_terminator(bytes) implies bytes[i] >= 0x80 by {
            if i > 0 {
                assert(bytes[i] == rest[i - 1]);
            }
        }
        assert(varint_terminator(bytes) < bytes.len() ==> bytes[varint_terminator(bytes) as int]
            == rest[varint_terminator(rest) as int]);
    }
}

/// The terminator is the first byte with a clear continuation bit.
pub proof fn lemma_terminator_is(bytes: Seq<u8>, t: nat)
    requires
        t <= bytes.len(),
        forall|i: int| 0 <= i < t ==> bytes[i] >= 0x80,
        t < bytes.len() ==> bytes[t as int] < 0x80,
    ensures
        varint_terminator(bytes) == t,
{
    lemma_terminator(bytes);
    let u = varint_terminator(bytes);
    if u < t {
        assert(bytes[u as int] >= 0x80);
    } else if u > t {
        assert(bytes[t as int] >= 0x80);
    }
}

/// One more byte adds its group at the next weight.
pub proof fn lemma_value_push(bytes: Seq<u8>, byte: u8)
    ensures
        varint_value(bytes.push(byte)) == varint_value(bytes) + (byte % 0x80) as nat * pow128(
            bytes.len(),
        ),
    decreases bytes.len(),
{
    let longer = bytes.push(byte);
    let g = (byte % 0x80) as nat;
    if bytes.len() == 0 {
        assert(longer.skip(1) =~= Seq::<u8>::empty());
        assert(varint_value(longer.skip(1)) == 0);
        assert(bytes =~= Seq::<u8>::empty());
        let one = pow128(0);
        assert(g * one == g) by (nonlinear_arith)
            requires
                one == 1,
        ;
    } else {
        lemma_value_push(bytes.skip(1), byte);
        assert(longer.skip(1) =~= bytes.skip(1).push(byte));
        assert(longer[0] == bytes[0]);
        let p = pow128((bytes.len() - 1) as nat);
        let rest = varint_value(bytes.skip(1));
        assert(pow128(bytes.len()) == 0x80 * p);
        assert(0x80 * (rest + g * p) == 0x80 * rest + g * (0x80 * p)) by (nonlinear_arith);
    }
}

/// The groups of `k` bytes spell a number below `pow128(k)`.
pub proof fn lemma_value_bound(bytes: Seq<u8>)
    ensures
        varint_value(bytes) < pow128(bytes.len()),
    decreases bytes.len(),
{
    if bytes.len() > 0 {
        lemma_value_bound(bytes.skip(1));
    }
}

/// A number needs more than `k` bytes exactly where it reaches `pow128(k)`.
pub proof fn lemma_len_pow(n: nat, k: nat)
    requires
        k >= 1,
    ensures
        varint_len(n) > k <==> n >= pow128(k),
    decreases k,
{
    if k == 1 {
        assert(pow128(1) == 0x80) by {
            reveal_with_fuel(pow128, 2);
        }
        lemma_encoding_len(n / 0x80);
    } else {
        lemma_len_pow(n / 0x80, (k - 1) as nat);
        lemma_pow128_positive((k - 1) as nat);
        let p = pow128((k - 1) as nat);
        assert(n / 0x80 >= p <==> n >= 0x80 * p);
        if n < 0x80 {
            assert(n < 0x80 * p) by (nonlinear_arith)
                requires
                    n < 0x80,
                    p >= 1,
            ;
        }
    }
}

/// Every weight is positive.
pub proof fn lemma_pow128_positive(k: nat)
    ensures
        pow128(k) >= 1,
    decreases k,
{
    if k > 0 {
        lemma_pow128_positive((k - 1) as nat);
    }
}

/// The longest encoding of a `usize` has `varint_len(usize::MAX)` bytes: a
/// weight fits the word exactly where its index is below that.
pub proof fn lemma_weight_fits(k: nat)
    ensures
        pow128(k) <= usize::MAX <==> k < varint_len(usize::MAX as nat),
{
    lemma_encoding_len(usize::MAX as nat);
    if k >= 1 {
        lemma_len_pow(usize::MAX as nat, k);
    }
}

/// A prefix of the input has the terminator of the whole, cut at its length.
pub proof fn lemma_terminator_take(bytes: Seq<u8>, k: nat)
    requires
        k <= bytes.len(),
    ensures
        varint_terminator(bytes.take(k as int)) == if varint_terminator(bytes) < k {
            varint_terminator(bytes)
        } else {
            k
        },
{
    lemma_terminator(bytes);
    let t = varint_terminator(bytes);
    let cut = bytes.take(k as int);
    if t < k {
        lemma_terminator_is(cut, t);
    } else {
        lemma_terminator_is(cut, k);
    }
}

/// Once the front of the input holds a whole prefix, or overflows, bytes that
/// follow change nothing.
pub proof fn lemma_decode_prefix(bytes: Seq<u8>, k: nat)
    requires
        k <= bytes.len(),
        varint_decode(bytes.take(k as int)) != Err::<(usize, usize), _>(
            ReadVarintError::Other(EndOfInput),
        ),
    ensures
        varint_decode(bytes) == varint_decode(bytes.take(k as int)),
{
    let cut = bytes.take(k as int);
    lemma_terminator_take(bytes, k);
    lemma_terminator(bytes);
    let t = varint_terminator(bytes);
    if t < k {
        assert(cut.take((t + 1) as int) =~= bytes.take((t + 1) as int));
    }
}

/// Outcome of handing one byte to a [`VarintReader`].
#[derive(Debug, Copy, Clone, Eq, PartialEq)]
pub enum VarintStep {
    /// The prefix goes on: hand over the next byte.
    More,
    /// The prefix is complete and spells this value.
    Done(usize),
    /// The prefix does not fit the platform word.
    Overflow,
}

impl VarintStep {
    /// The step that leaves the reader once the bytes taken so far decode to
    /// `decoded`.
    pub open spec fn of(decoded: Result<(usize, usize), ReadVarintError<EndOfInput>>) -> VarintStep {
        match decoded {
            Ok((value, _)) => VarintStep::Done(value),
            Err(ReadVarintError::Overflow) => VarintStep::Overflow,
            Err(ReadVarintError::Other(_)) => VarintStep::More,
        }
    }
}

/// Reads a length prefix one byte at a time, as the bytes arrive.
pub struct VarintReader {
    value: usize,
    scale: usize,
    seen: Ghost<Seq<u8>>,
}

impl VarintReader {
    #[verifier::type_invariant]
    spec fn inv(self) -> bool {
        &&& forall|i: int| 0 <= i < self.seen@.len() ==> self.seen@[i] >= 0x80
        &&& self.value == varint_value(self.seen@)
        &&& self.scale == pow128(self.seen@.len())
    }

    /// The bytes taken so far of the prefix that is being read.
    pub closed spec fn pending(self) -> Seq<u8> {
        self.seen@
    }

    /// A reader at the start of a prefix.
    pub fn new() -> (reader: Self)
        ensures
            reader.pending() == Seq::<u8>::empty(),
    {
        VarintReader { value: 0, scale: 1, seen: Ghost(Seq::empty()) }
    }

    /// Takes the next byte. While the prefix goes on the byte joins the
    /// pending ones; once it is complete, or overflows, the reader stands at
    /// the start of the next prefix.
    pub fn push(&mut self, byte: u8) -> (step: VarintStep)
        ensures
            step == VarintStep::of(varint_decode(old(self).pending().push(byte))),
            final(self).pending() == if step == VarintStep::More {
                old(self).pending().push(byte)
            } else {
                Seq::<u8>::empty()
            },
            step == VarintStep::More ==> byte >= 0x80,
    {
        proof {
            use_type_invariant(&*self);
        }
        let ghost before = self.seen@;
        let ghost after = before.push(byte);
        let group: usize = (byte % 0x80) as usize;
        let value: usize = self.value;
        let scale: usize = self.scale;
        proof {
            lemma_value_push(before, byte);
            lemma_value_bound(before);
            lemma_weight_fits(before.len());
            lemma_weight_fits(before.len() + 1);
            lemma_terminator_is(after, if byte < 0x80 { before.len() } else { after.len() });
            assert(after.take(after.len() as int) =~= after);
            assert(pow128(before.len() + 1) == 0x80 * pow128(before.len()));
        }
        let room: usize = (usize::MAX - value) / scale;
        if group > room {
            proof {
                lemma_group_too_large(value as nat, scale as nat, group as nat, usize::MAX as nat);
            }
            *self = VarintReader::new();
            return VarintStep::Overflow;
        }
        proof {
            lemma_group_fits(value as nat, scale as nat, group as nat, usize::MAX as nat);
        }
        let total: usize = value + group * scale;
        if byte < 0x80 {
            *self = VarintReader::new();
            return VarintStep::Done(total);
        }
        if scale > usize::MAX / 0x80 {
            *self = VarintReader::new();
            return VarintStep::Overflow;
        }
        *self = VarintReader { value: total, scale: scale * 0x80, seen: Ghost(after) };
        VarintStep::More
    }
}

/// A group above the room that is left makes the sum pass `max`, and then
/// the next weight passes it too.
proof fn lemma_group_too_large(value: nat, scale: nat, group: nat, max: nat)
    by (nonlinear_arith)
    requires
        value < scale,
        value <= max,
        group < 0x80,
        group > (max - value) / (scale as int),
    ensures
        value + group * scale > max,
        0x80 * scale > max,
{
}

/// A group within the room that is left keeps the sum at or below `max`.
proof fn lemma_group_fits(value: nat, scale: nat, group: nat, max: nat)
    by (nonlinear_arith)
    requires
        scale >= 1,
        value <= max,
        group <= (max - value) / (scale as int),
    ensures
        group * scale <= max,
        value + group * scale <= max,
{
}

/// Reads a length prefix from the front of `input`: the value and the number
/// of bytes that it took.
pub fn read_varint(input: &[u8]) -> (result: Result<(usize, usize), ReadVarintError<EndOfInput>>)
    ensures
        result == varint_decode(input@),
{
    let mut reader = VarintReader::new();
    let mut i: usize = 0;
    while i < input.len()
        invariant
            i <= input.len(),
            reader.pending() == input@.take(i as int),
            forall|j: int| 0 <= j < i ==> input@[j] >= 0x80,
            i > 0 ==> varint_decode(input@.take(i as int)) == Err::<(usize, usize), _>(
                ReadVarintError::Other(EndOfInput),
            ),
        decreases input.len() - i,
    {
        let byte: u8 = input[i];
        proof {
            assert(input@.take(i as int).push(byte) =~= input@.take(i + 1));
            lemma_terminator(input@.take(i + 1));
        }
        match reader.push(byte) {
            VarintStep::More => {},
            VarintStep::Done(value) => {
                proof {
                    lemma_decode_prefix(input@, (i + 1) as nat);
                }
                return Ok((value, i + 1));
            },
            VarintStep::Overflow => {
                proof {
                    lemma_decode_prefix(input@, (i + 1) as nat);
                }
                return Err(ReadVarintError::Overflow);
            },
        }
        i = i + 1;
    }
    proof {
        assert(input@.take(i as int) =~= input@);
        lemma_encoding_len(usize::MAX as nat);
    }
    Err(ReadVarintError::Other(EndOfInput))
}

/// Reading back what [`write_varint`] wrote gives the number, whatever bytes
/// follow it.
pub proof fn lemma_varint_round_trip(n: usize, rest: Seq<u8>)
    ensures
        varint_decode(varint_encoding(n as nat) + rest) == Ok::<_, ReadVarintError<EndOfInput>>(
            (n, varint_len(n as nat) as usize),
        ),
        varint_len(n as nat) <= varint_len(usize::MAX as nat) <= 10,
{
    let code = varint_encoding(n as nat);
    let all = code + rest;
    let len = varint_len(n as nat);
    lemma_encoding_len(n as nat);
    lemma_encoding_terminator(n as nat);
    lemma_encoding_value(n as nat);
    lemma_terminator(code);
    lemma_len_bound(usize::MAX as nat);
    lemma_len_monotonic(n as nat, usize::MAX as nat);
    assert(all.take(len as int) =~= code);
    assert forall|i: int| 0 <= i < len implies all[i] == code[i] by {}
    lemma_terminator_is(all, (len - 1) as nat);
}

/// A larger number needs at least as many bytes.
pub proof fn lemma_len_monotonic(a: nat, b: nat)
    requires
        a <= b,
    ensures
        varint_len(a) <= varint_len(b),
    decreases a,
{
    if a >= 0x80 {
        lemma_len_monotonic(a / 0x80, b / 0x80);
    }
}

} // verus!
