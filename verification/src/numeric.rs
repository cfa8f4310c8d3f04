//! 256-bit words, 20-byte addresses, and the numbers that byte strings stand for.
use vstd::prelude::*;

verus! {

/// `256^n`.
pub open spec fn pow256(n: nat) -> nat
    decreases n,
{
    if n == 0 {
        1
    } else {
        256 * pow256((n - 1) as nat)
    }
}

/// The number that `bytes` stand for, least significant byte first.
pub open spec fn le_value(bytes: Seq<u8>) -> nat
    decreases bytes.len(),
{
    if bytes.len() == 0 {
        0
    } else {
        bytes[0] as nat + 256 * le_value(bytes.drop_first())
    }
}

/// The number that `bytes` stand for, most significant byte first.
pub open spec fn be_value(bytes: Seq<u8>) -> nat
    decreases bytes.len(),
{
    if bytes.len() == 0 {
        0
    } else {
        256 * be_value(bytes.drop_last()) + bytes.last() as nat
    }
}

/// The last `len` digits of `n` in base 256, most significant byte first.
pub open spec fn be_bytes(n: nat, len: nat) -> Seq<u8>
    decreases len,
{
    if len == 0 {
        Seq::empty()
    } else {
        be_bytes(n / 256, (len - 1) as nat).push((n % 256) as u8)
    }
}

/// `n` zero bytes.
pub open spec fn zero_bytes(n: nat) -> Seq<u8> {
    Seq::new(n, |i: int| 0u8)
}

/// `word` with its `n` least significant (first) bytes set to zero.
pub open spec fn clear_low_bytes(word: Seq<u8>, n: nat) -> Seq<u8> {
    Seq::new(word.len(), |i: int| if i < n { 0u8 } else { word[i] })
}

/// A 256-bit unsigned integer as four 64-bit words, least significant first.
#[derive(Clone, Copy, Debug, PartialEq, Eq, Structural)]
pub struct U256 {
    pub w0: u64,
    pub w1: u64,
    pub w2: u64,
    pub w3: u64,
}

impl View for U256 {
    type V = nat;

    open spec fn view(&self) -> nat {
        self.w0 as nat + 0x1_0000_0000_0000_0000nat * (self.w1 as nat
            + 0x1_0000_0000_0000_0000nat * (self.w2 as nat + 0x1_0000_0000_0000_0000nat
            * self.w3 as nat))
    }
}

impl U256 {
    /// The number zero.
    pub fn zero() -> (number: U256)
        ensures
            number == (U256 { w0: 0, w1: 0, w2: 0, w3: 0 }),
            number@ == 0,
    {
        U256 { w0: 0, w1: 0, w2: 0, w3: 0 }
    }

    /// Calls `primitive_types::U256::from_little_endian` and moves its four words
    /// over. Claimed of it: it reads up to 32 bytes as a number whose least
    /// significant byte comes first. Longer slices make it panic.
    #[verifier::external_body]
    pub(crate) fn from_little_endian(slice: &[u8]) -> (number: U256)
        requires
            slice@.len() <= 32,
        ensures
            number@ == le_value(slice@),
    {
        let words = primitive_types::U256::from_little_endian(slice).0;
        U256 { w0: words[0], w1: words[1], w2: words[2], w3: words[3] }
    }

    /// Calls `primitive_types::U256::from_big_endian` and moves its four words
    /// over. Claimed of it: it reads up to 32 bytes as a number whose most
    /// significant byte comes first. Longer slices make it panic.
    #[verifier::external_body]
    pub(crate) fn from_big_endian(slice: &[u8]) -> (number: U256)
        requires
            slice@.len() <= 32,
        ensures
            number@ == be_value(slice@),
    {
        let words = primitive_types::U256::from_big_endian(slice).0;
        U256 { w0: words[0], w1: words[1], w2: words[2], w3: words[3] }
    }
}

/// A 20-byte account address, most significant byte first.
#[derive(Clone, Copy, Debug, PartialEq, Eq)]
pub struct H160 {
    pub bytes: [u8; 20],
}

/// The address whose bytes are all zero.
pub open spec fn zero_address() -> H160 {
    H160 { bytes: vstd::array::spec_array_fill_for_copy_type::<u8, 20>(0u8) }
}

impl H160 {
    /// The address whose bytes are all zero.
    pub fn zero() -> (address: H160)
        ensures
            address == zero_address(),
            address.bytes@ == zero_bytes(20),
    {
        let address = H160 { bytes: [0u8; 20] };
        assert(address.bytes@ =~= zero_bytes(20));
        address
    }
}

/// Words that stand for the same number are the same word.
pub proof fn lemma_value_determines_word(a: U256, b: U256)
    requires
        a@ == b@,
    ensures
        a == b,
{
    let base = 0x1_0000_0000_0000_0000int;
    assert(a@ as int % base == a.w0 && b@ as int % base == b.w0);
    let a1 = (a@ as int - a.w0) / base;
    let b1 = (b@ as int - b.w0) / base;
    assert(a1 % base == a.w1 && b1 % base == b.w1);
    let a2 = (a1 - a.w1) / base;
    let b2 = (b1 - b.w1) / base;
    assert(a2 % base == a.w2 && b2 % base == b.w2);
}

/// Zero bytes stand for the number zero, in either byte order.
pub proof fn lemma_zero_bytes_value(n: nat)
    ensures
        le_value(zero_bytes(n)) == 0,
        be_value(zero_bytes(n)) == 0,
    decreases n,
{
    if n > 0 {
        let shorter = zero_bytes((n - 1) as nat);
        assert(zero_bytes(n).drop_first() =~= shorter);
        assert(zero_bytes(n).drop_last() =~= shorter);
        lemma_zero_bytes_value((n - 1) as nat);
    }
}

/// Writing a number as enough bytes and reading them gives the number back.
pub proof fn lemma_be_bytes_value(n: nat, len: nat)
    requires
        n < pow256(len),
    ensures
        be_bytes(n, len).len() == len,
        be_value(be_bytes(n, len)) == n,
    decreases len,
{
    if len > 0 {
        let shorter = be_bytes(n / 256, (len - 1) as nat);
        lemma_be_bytes_value(n / 256, (len - 1) as nat);
        assert(be_bytes(n, len).drop_last() =~= shorter);
    }
}

/// Zero is written as zero bytes.
pub proof fn lemma_be_bytes_of_zero(len: nat)
    ensures
        be_bytes(0, len) == zero_bytes(len),
    decreases len,
{
    if len > 0 {
        lemma_be_bytes_of_zero((len - 1) as nat);
        assert(be_bytes(0, len) =~= zero_bytes(len));
    }
}

/// `n` bytes stand for a number below `256^n`.
pub proof fn lemma_le_value_bound(bytes: Seq<u8>)
    ensures
        le_value(bytes) < pow256(bytes.len()),
    decreases bytes.len(),
{
    if bytes.len() > 0 {
        lemma_le_value_bound(bytes.drop_first());
    }
}

/// A little-endian number splits at any byte into a low and a high part.
pub proof fn lemma_le_value_split(bytes: Seq<u8>, n: nat)
    requires
        n <= bytes.len(),
    ensures
        le_value(bytes) == le_value(bytes.take(n as int)) + pow256(n) * le_value(
            bytes.skip(n as int),
        ),
    decreases n,
{
    if n == 0 {
        assert(bytes.skip(0) =~= bytes);
        assert(pow256(0) * le_value(bytes) == le_value(bytes)) by (nonlinear_arith)
            requires
                pow256(0) == 1,
        ;
    } else {
        let rest = bytes.drop_first();
        let m = (n - 1) as nat;
        lemma_le_value_split(rest, m);
        assert(bytes.take(n as int).drop_first() =~= rest.take(m as int));
        assert(bytes.skip(n as int) =~= rest.skip(m as int));
        assert(256 * (pow256(m) * le_value(rest.skip(m as int))) == pow256(n) * le_value(
            rest.skip(m as int),
        )) by (nonlinear_arith)
            requires
                pow256(n) == 256 * pow256(m),
        ;
    }
}

/// Clearing the `n` low bytes rounds a little-endian number down to a multiple of
/// `256^n`.
pub proof fn lemma_clear_low_bytes_rounds_down(word: Seq<u8>, n: nat)
    requires
        n <= word.len(),
    ensures
        le_value(clear_low_bytes(word, n)) == (le_value(word) / pow256(n)) * pow256(n),
{
    let cleared = clear_low_bytes(word, n);
    let low = le_value(word.take(n as int));
    let high = le_value(word.skip(n as int));
    lemma_le_value_split(word, n);
    lemma_le_value_split(cleared, n);
    assert(cleared.take(n as int) =~= zero_bytes(n));
    assert(cleared.skip(n as int) =~= word.skip(n as int));
    lemma_zero_bytes_value(n);
    lemma_le_value_bound(word.take(n as int));
    vstd::arithmetic::div_mod::lemma_fundamental_div_mod_converse(
        le_value(word) as int,
        pow256(n) as int,
        high as int,
        low as int,
    );
    assert(high * pow256(n) == pow256(n) * high) by (nonlinear_arith);
}

/// A word is its four parts, each worth `2^64` times the one before.
pub proof fn lemma_word_value(word: U256)
    ensures
        word@ == word.w0 + 0x1_0000_0000_0000_0000 * word.w1
            + 0x1_0000_0000_0000_0000_0000_0000_0000_0000 * word.w2
            + 0x1_0000_0000_0000_0000_0000_0000_0000_0000_0000_0000_0000_0000 * word.w3,
{
}

/// `pow256` is the power with base 256.
pub proof fn lemma_pow256_is_power(n: nat)
    ensures
        pow256(n) == vstd::arithmetic::power::pow(256, n),
    decreases n,
{
    reveal(vstd::arithmetic::power::pow);
    if n > 0 {
        lemma_pow256_is_power((n - 1) as nat);
    }
}

/// The powers of 256 are positive.
pub proof fn lemma_pow256_positive(n: nat)
    ensures
        pow256(n) > 0,
    decreases n,
{
    if n > 0 {
        lemma_pow256_positive((n - 1) as nat);
    }
}

/// Dividing by `256^n` drops `n` bytes, one after the other.
proof fn lemma_div_pow256_step(x: nat, n: nat)
    requires
        n > 0,
    ensures
        x / pow256(n) == (x / 256) / pow256((n - 1) as nat),
{
    lemma_pow256_positive((n - 1) as nat);
    vstd::arithmetic::div_mod::lemma_div_denominator(
        x as int,
        256,
        pow256((n - 1) as nat) as int,
    );
}

/// Byte `i` of a little-endian number is its digit worth `256^i`.
pub proof fn lemma_le_value_digit(bytes: Seq<u8>, i: nat)
    requires
        i < bytes.len(),
    ensures
        (le_value(bytes) / pow256(i)) % 256 == bytes[i as int],
    decreases i,
{
    if i == 0 {
        assert(le_value(bytes) / pow256(0) == le_value(bytes)) by (nonlinear_arith)
            requires
                pow256(0) == 1,
        ;
    } else {
        lemma_div_pow256_step(le_value(bytes), i);
        lemma_le_value_digit(bytes.drop_first(), (i - 1) as nat);
    }
}

/// Byte `i` from the end of a big-endian number is its digit worth `256^i`.
pub proof fn lemma_be_value_digit(bytes: Seq<u8>, i: nat)
    requires
        i < bytes.len(),
    ensures
        (be_value(bytes) / pow256(i)) % 256 == bytes[bytes.len() - 1 - i],
    decreases i,
{
    if i == 0 {
        assert(be_value(bytes) / pow256(0) == be_value(bytes)) by (nonlinear_arith)
            requires
                pow256(0) == 1,
        ;
    } else {
        lemma_div_pow256_step(be_value(bytes), i);
        lemma_be_value_digit(bytes.drop_last(), (i - 1) as nat);
    }
}

/// `n` bytes stand for a number below `256^n`, read from the most significant byte too.
pub proof fn lemma_be_value_bound(bytes: Seq<u8>)
    ensures
        be_value(bytes) < pow256(bytes.len()),
    decreases bytes.len(),
{
    if bytes.len() > 0 {
        lemma_be_value_bound(bytes.drop_last());
    }
}

} // verus!
