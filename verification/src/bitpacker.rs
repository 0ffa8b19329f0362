use vstd::prelude::*;
use vstd::arithmetic::power2::{pow2, lemma_pow2_pos, lemma_pow2_adds, lemma2_to64};
use crate::common::errors::{BitPackerError, BitPackerResult};
use crate::common::utils::{
    ascii_upper, char6, low_byte, ord6, push_char, sixbit_char, sixbit_ord, to_ascii_upper,
};
use vstd::std_specs::bits::{u64_leading_zeros, axiom_u64_leading_zeros};
use vstd::string::*;

verus! {

/// Bit `k` (0 = least significant) of a byte.
pub open spec fn byte_bit(b: u8, k: int) -> bool {
    0 <= k < 8 && (b >> (k as u8)) & 1u8 == 1u8
}

/// Bit `k` (0 = least significant) of a 64-bit word.
pub open spec fn word_bit(v: u64, k: int) -> bool {
    0 <= k < 64 && (v >> (k as u64)) & 1u64 == 1u64
}

/// The unsigned integer whose binary digits, least significant first, are `s`.
pub open spec fn bits_value(s: Seq<bool>) -> nat
    decreases s.len(),
{
    if s.len() == 0 {
        0
    } else {
        bits_value(s.drop_last()) + if s.last() {
            pow2((s.len() - 1) as nat)
        } else {
            0
        }
    }
}

/// The `n` least significant bits of `v`, least significant first.
pub open spec fn word_bits(v: u64, n: nat) -> Seq<bool> {
    Seq::new(n, |i: int| word_bit(v, i))
}

/// The value of the bits `a..=b` of `s`.
pub open spec fn seq_field(s: Seq<bool>, a: int, b: int) -> nat {
    bits_value(s.subrange(a, b + 1))
}

/// A field that holds the `n` low bits of `x`, with `x < 2^n`, reads back as `x`.
pub proof fn lemma_word_field(s: Seq<bool>, a: int, x: u64, n: nat)
    requires
        0 <= a,
        1 <= n <= 64,
        a + n <= s.len(),
        s.subrange(a, a + n) == word_bits(x, n),
        x < pow2(n),
    ensures
        seq_field(s, a, a + n - 1) == x,
{
    lemma_word_bits_value(x, n);
    vstd::arithmetic::div_mod::lemma_small_mod(x as nat, pow2(n));
}

/// Number of bytes needed to hold `n` bits.
pub open spec fn byte_count(n: nat) -> nat {
    (n + 7) / 8
}

/// A packed bit string. Bit `i` lives in byte `bits.len() - 1 - i / 8`, at
/// position `i % 8` of that byte: the bytes are in big-endian order.
#[derive(Debug)]
pub struct BitPacker {
    bits: Vec<u8>,
    bits_len: usize,
}

impl BitPacker {
    /// The stored bytes.
    pub closed spec fn bytes(self) -> Seq<u8> {
        self.bits@
    }

    /// The number of meaningful bits.
    pub closed spec fn nbits(self) -> nat {
        self.bits_len as nat
    }

    /// Bit `i` as stored in the bytes.
    pub open spec fn bit(self, i: int) -> bool {
        byte_bit(self.bytes()[self.bytes().len() - 1 - i / 8], i % 8)
    }

    /// The bytes hold at least `nbits` bits.
    pub open spec fn wf(self) -> bool {
        self.nbits() <= 8 * self.bytes().len()
    }

    /// Exactly as many bytes as the bits need, and every bit past the end is clear.
    pub open spec fn canonical(self) -> bool {
        &&& self.wf()
        &&& self.bytes().len() == byte_count(self.nbits())
        &&& forall|i: int| self.nbits() <= i < 8 * self.bytes().len() ==> !#[trigger] self.bit(i)
    }

    pub proof fn lemma_canonical_wf(self)
        requires
            self.canonical(),
        ensures
            self.wf(),
    {
    }
}

impl Clone for BitPacker {
    fn clone(&self) -> (r: Self)
        ensures
            r.bytes() == self.bytes(),
            r.nbits() == self.nbits(),
            r@ == self@,
            self.wf() ==> r.wf(),
            self.canonical() ==> r.canonical(),
    {
        let r = BitPacker { bits: self.bits.clone(), bits_len: self.bits_len };
        assert forall|i: int| 0 <= i < 8 * r.bytes().len() implies #[trigger] r.bit(i) == self.bit(i) by {
        }
        assert(r@ =~= self@);
        r
    }
}

impl View for BitPacker {
    type V = Seq<bool>;

    open spec fn view(&self) -> Seq<bool> {
        Seq::new(self.nbits(), |i: int| self.bit(i))
    }
}

/// Byte `k` of a bit string counted from the least significant end: its bits
/// `8 * k` to `8 * k + 7`, those past the end clear.
pub open spec fn byte_of_bits(s: Seq<bool>, k: int) -> u8 {
    bits_value(Seq::new(8, |j: int| 8 * k + j < s.len() && s[8 * k + j])) as u8
}

/// The bytes that hold a bit string, most significant first, as a packer of
/// exactly those bits stores them.
pub open spec fn packed_bytes(s: Seq<bool>) -> Seq<u8> {
    Seq::new(byte_count(s.len()), |i: int| byte_of_bits(s, byte_count(s.len()) - 1 - i))
}

/// A byte is the value of its eight bits.
proof fn lemma_byte_value(b: u8)
    ensures
        bits_value(Seq::new(8, |j: int| byte_bit(b, j))) == b,
{
    let w = b as u64;
    assert forall|j: int| 0 <= j < 8 implies byte_bit(b, j) == word_bit(w, j) by {
        let jj = j as u8;
        assert((b >> jj) & 1u8 == 1u8 <==> ((b as u64) >> (jj as u64)) & 1u64 == 1u64)
            by (bit_vector);
    }
    assert(Seq::new(8, |j: int| byte_bit(b, j)) =~= word_bits(w, 8));
    lemma_word_bits_value(w, 8);
    lemma2_to64();
}

impl BitPacker {
    /// A canonical packer stores exactly the bytes of its bits.
    pub proof fn lemma_canonical_bytes(self)
        requires
            self.canonical(),
        ensures
            self.bytes() == packed_bytes(self@),
    {
        let n = self.bytes().len();
        let s = self@;
        assert forall|i: int| 0 <= i < n implies #[trigger] self.bytes()[i] == packed_bytes(s)[i] by {
            let k = n - 1 - i;
            let b = self.bytes()[i];
            assert forall|j: int| 0 <= j < 8 implies (8 * k + j < s.len() && s[8 * k + j])
                == byte_bit(b, j) by {
                let q = 8 * k + j;
                assert(q / 8 == k && q % 8 == j) by {
                    vstd::arithmetic::div_mod::lemma_fundamental_div_mod_converse(q, 8, k, j);
                }
                assert(self.bit(q) == byte_bit(b, j));
            }
            assert(Seq::new(8, |j: int| 8 * k + j < s.len() && s[8 * k + j]) =~= Seq::new(
                8,
                |j: int| byte_bit(b, j),
            ));
            lemma_byte_value(b);
        }
        assert(self.bytes() =~= packed_bytes(s));
    }
}

proof fn lemma_usize_split(idx: usize)
    ensures
        idx >> 3usize == idx / 8,
        idx & 7usize == idx % 8,
{
    assert(idx >> 3usize == idx / 8) by (bit_vector);
    assert(idx & 7usize == idx % 8) by (bit_vector);
}

proof fn lemma_byte_set(b: u8, k: u8, j: u8)
    requires
        k < 8,
        j < 8,
    ensures
        ((b | (1u8 << k)) >> j) & 1u8 == if j == k { 1u8 } else { (b >> j) & 1u8 },
        ((b & !(1u8 << k)) >> j) & 1u8 == if j == k { 0u8 } else { (b >> j) & 1u8 },
{
    assert(((b | (1u8 << k)) >> j) & 1u8 == if j == k { 1u8 } else { (b >> j) & 1u8 })
        by (bit_vector)
        requires
            k < 8,
            j < 8,
    ;
    assert(((b & !(1u8 << k)) >> j) & 1u8 == if j == k { 0u8 } else { (b >> j) & 1u8 })
        by (bit_vector)
        requires
            k < 8,
            j < 8,
    ;
}

proof fn lemma_zero_byte(j: u8)
    requires
        j < 8,
    ensures
        (0u8 >> j) & 1u8 == 0u8,
{
    assert((0u8 >> j) & 1u8 == 0u8) by (bit_vector);
}

proof fn lemma_bit_is_0_or_1(b: u8, k: u8)
    ensures
        (b >> k) & 1u8 == 0u8 || (b >> k) & 1u8 == 1u8,
{
    assert((b >> k) & 1u8 == 0u8 || (b >> k) & 1u8 == 1u8) by (bit_vector);
}

/// A vector of `n` zero bytes.
fn zero_bytes(n: usize) -> (r: Vec<u8>)
    ensures
        r@.len() == n,
        forall|i: int| 0 <= i < n ==> r@[i] == 0u8,
{
    let mut r: Vec<u8> = Vec::new();
    let mut k: usize = 0;
    while k < n
        invariant
            k <= n,
            r@.len() == k,
            forall|i: int| 0 <= i < k ==> r@[i] == 0u8,
        decreases n - k,
    {
        r.push(0u8);
        k = k + 1;
    }
    r
}

/// `ceil(n / 8)`.
fn div_ceil_8(n: usize) -> (r: usize)
    ensures
        r == byte_count(n as nat),
{
    n / 8 + if n % 8 == 0 { 0 } else { 1 }
}

pub proof fn lemma_bits_value_step(s: Seq<bool>, i: int)
    requires
        0 <= i < s.len(),
    ensures
        bits_value(s.take(i + 1)) == bits_value(s.take(i)) + if s[i] {
            pow2(i as nat)
        } else {
            0
        },
{
    assert(s.take(i + 1).drop_last() =~= s.take(i));
}

pub proof fn lemma_bits_value_bound(s: Seq<bool>)
    ensures
        bits_value(s) < pow2(s.len()),
    decreases s.len(),
{
    if s.len() == 0 {
        lemma2_to64();
    } else {
        lemma_bits_value_bound(s.drop_last());
        lemma_pow2_adds((s.len() - 1) as nat, 1);
        lemma2_to64();
    }
}

/// Clear bits past position `w` add nothing to the value.
pub proof fn lemma_bits_value_high_clear(s: Seq<bool>, w: nat)
    requires
        w <= s.len(),
        forall|i: int| w <= i < s.len() ==> !#[trigger] s[i],
    ensures
        bits_value(s) == bits_value(s.take(w as int)),
        bits_value(s) < pow2(w),
    decreases s.len() - w,
{
    if s.len() == w {
        assert(s.take(w as int) =~= s);
    } else {
        let t = s.drop_last();
        assert(t.take(w as int) =~= s.take(w as int));
        lemma_bits_value_high_clear(t, w);
    }
    lemma_bits_value_bound(s.take(w as int));
}

proof fn lemma_or_pow2(v: u64, k: u64)
    requires
        k < 64,
        v < pow2(k as nat),
    ensures
        v | (1u64 << k) == v + pow2(k as nat),
        v + pow2(k as nat) <= u64::MAX,
{
    vstd::bits::lemma_u64_pow2_no_overflow(k as nat);
    vstd::bits::lemma_u64_shl_is_mul(1u64, k);
    assert(v < (1u64 << k) ==> v | (1u64 << k) == v + (1u64 << k)) by (bit_vector)
        requires
            k < 64,
    ;
    lemma_pow2_adds(k as nat, 1);
    lemma2_to64();
    if k < 63 {
        vstd::bits::lemma_u64_pow2_no_overflow((k + 1) as nat);
    } else {
        vstd::arithmetic::power2::lemma2_to64_rest();
    }
}

/// The digit `k` of `v`, read by division.
proof fn lemma_word_bit_div(v: u64, k: nat)
    requires
        k < 64,
    ensures
        word_bit(v, k as int) <==> (v as nat / pow2(k)) % 2 == 1,
{
    vstd::bits::lemma_u64_shr_is_div(v, k as u64);
    let x: u64 = v >> (k as u64);
    assert(x & 1u64 == x % 2) by (bit_vector);
}

/// The `n` low bits of `v` have the value `v mod 2^n`.
pub proof fn lemma_word_bits_value(v: u64, n: nat)
    requires
        n <= 64,
    ensures
        bits_value(word_bits(v, n)) == v as nat % pow2(n),
    decreases n,
{
    lemma2_to64();
    if n == 0 {
        assert(word_bits(v, 0).len() == 0);
    } else {
        let m = (n - 1) as nat;
        lemma_word_bits_value(v, m);
        assert(word_bits(v, n).drop_last() =~= word_bits(v, m));
        lemma_word_bit_div(v, m);
        lemma_pow2_pos(m);
        lemma_pow2_adds(m, 1);
        vstd::arithmetic::div_mod::lemma_breakdown(v as int, pow2(m) as int, 2);
        vstd::arithmetic::div_mod::lemma_mod_pos_bound((v as nat / pow2(m)) as int, 2);
        vstd::arithmetic::mul::lemma_mul_is_commutative(pow2(m) as int, 2);
        if word_bit(v, m as int) {
            assert(pow2(m) * ((v as nat / pow2(m)) % 2) == pow2(m));
        } else {
            assert(pow2(m) * ((v as nat / pow2(m)) % 2) == 0);
        }
    }
}

/// Every bit of `v` from position `n` on is clear when `v < 2^n`.
pub proof fn lemma_word_bits_high_clear(v: u64, n: nat, k: int)
    requires
        n <= k,
        v < pow2(n),
    ensures
        !word_bit(v, k),
{
    if 0 <= k < 64 {
        lemma_word_bit_div(v, k as nat);
        if n < k {
            vstd::arithmetic::power2::lemma_pow2_strictly_increases(n, k as nat);
        }
        lemma_pow2_pos(k as nat);
        vstd::arithmetic::div_mod::lemma_basic_div(v as int, pow2(k as nat) as int);
    }
}

impl BitPacker {
    /// The first index a read starts at.
    pub open spec fn start_of(o: Option<usize>) -> int {
        match o {
            Some(s) => s as int,
            None => 0,
        }
    }

    /// The last index a read ends at.
    pub open spec fn end_of(self, o: Option<usize>) -> int {
        match o {
            Some(e) => e as int,
            None => if self.nbits() == 0 {
                0
            } else {
                self.nbits() - 1
            },
        }
    }

    /// Both ends of `[start, end]` lie inside the bits.
    pub open spec fn in_bounds(self, start: int, end: int) -> bool {
        start < self.nbits() && end < self.nbits()
    }

    /// The bits `start..=end`, least significant first.
    pub open spec fn field(self, start: int, end: int) -> Seq<bool> {
        self@.subrange(start, end + 1)
    }

    /// The unsigned value of the bits `start..=end`.
    pub open spec fn field_value(self, start: int, end: int) -> nat {
        bits_value(self.field(start, end))
    }

    /// A read of `[start, end]` does not go backwards.
    pub open spec fn ordered(self, start: int, end: int) -> bool {
        self.in_bounds(start, end) ==> start <= end
    }

    /// No set bit lies `w` or more places past `start` in `[start, end]`.
    pub open spec fn fits(self, start: int, end: int, w: nat) -> bool {
        forall|i: int| start + w <= i <= end ==> !#[trigger] self@[i]
    }
}

impl BitPacker {
    /// A packer of `n` clear bits.
    fn zeroed(n: usize) -> (r: Self)
        ensures
            r.nbits() == n,
            r.canonical(),
            forall|i: int| 0 <= i < 8 * r.bytes().len() ==> !#[trigger] r.bit(i),
    {
        let bytes_len = div_ceil_8(n);
        let r = BitPacker { bits: zero_bytes(bytes_len), bits_len: n };
        assert forall|i: int| 0 <= i < 8 * r.bytes().len() implies !#[trigger] r.bit(i) by {
            lemma_zero_byte((i % 8) as u8);
        }
        r
    }

    /// The stored bytes.
    pub fn bits(&self) -> (r: &Vec<u8>)
        ensures
            r@ == self.bytes(),
    {
        &self.bits
    }

    /// The number of meaningful bits.
    pub fn bits_len(&self) -> (r: &usize)
        ensures
            *r == self.nbits(),
    {
        &self.bits_len
    }

    /// Reads bit `idx`: 1 when set, 0 when clear.
    fn get_bit_unchecked(&self, idx: usize) -> (r: u8)
        requires
            self.wf(),
            idx < self.nbits(),
        ensures
            r == if self@[idx as int] { 1u8 } else { 0u8 },
    {
        proof {
            lemma_usize_split(idx);
            lemma_bit_is_0_or_1(self.bits@[self.bits@.len() - 1 - idx / 8], (idx % 8) as u8);
        }
        let byte_idx: usize = self.bits.len() - 1 - (idx >> 3);
        (self.bits[byte_idx] >> ((idx & 7) as u8)) & 1
    }

    /// Whether no set bit lies `w` or more places past `start` in
    /// `[start, end]`, that is whether the field there holds a value of `w`
    /// bits; see [`BitPacker::fits`].
    pub fn fits_width(&self, start: usize, end: usize, w: usize) -> (r: bool)
        requires
            self.wf(),
            end < self.nbits(),
            start + w <= usize::MAX,
        ensures
            r == self.fits(start as int, end as int, w as nat),
    {
        let mut i: usize = start + w;
        while i <= end
            invariant
                self.wf(),
                end < self.nbits(),
                start + w <= i,
                forall|k: int| start + w <= k < i ==> !#[trigger] self@[k],
            decreases end + 1 - i,
        {
            if self.get_bit_unchecked(i) == 1 {
                return false;
            }
            i = i + 1;
        }
        true
    }

    /// Sets bit `idx` when `val` is 1 and clears it otherwise; an index past the
    /// end is refused.
    fn write_bit(&mut self, idx: usize, val: u8) -> (r: BitPackerResult<()>)
        requires
            old(self).wf(),
        ensures
            final(self).nbits() == old(self).nbits(),
            final(self).bytes().len() == old(self).bytes().len(),
            idx >= old(self).nbits() ==> r == Err::<(), BitPackerError>(
                BitPackerError::IndexOutOfBounds,
            ) && *final(self) == *old(self),
            idx < old(self).nbits() ==> r is Ok,
            forall|i: int|
                0 <= i < 8 * old(self).bytes().len() ==> #[trigger] final(self).bit(i) == if i
                    == idx && idx < old(self).nbits() {
                    val == 1
                } else {
                    old(self).bit(i)
                },
    {
        if idx >= self.bits_len {
            return Err(BitPackerError::IndexOutOfBounds);
        }
        proof {
            lemma_usize_split(idx);
        }
        let ghost old_self = *self;
        let byte_idx: usize = self.bits.len() - 1 - (idx >> 3);
        let bit_idx: u8 = (idx & 7) as u8;
        let old_byte: u8 = self.bits[byte_idx];
        if val == 1 {
            self.bits.set(byte_idx, old_byte | (1u8 << bit_idx));
        } else {
            self.bits.set(byte_idx, old_byte & !(1u8 << bit_idx));
        }
        proof {
            assert forall|i: int| 0 <= i < 8 * old_self.bytes().len() implies #[trigger] self.bit(
                i,
            ) == if i == idx && idx < old_self.nbits() {
                val == 1
            } else {
                old_self.bit(i)
            } by {
                let bi = self.bytes().len() - 1 - i / 8;
                if bi == byte_idx {
                    lemma_byte_set(old_byte, bit_idx, (i % 8) as u8);
                    lemma_bit_is_0_or_1(old_byte, (i % 8) as u8);
                }
            }
        }
        Ok(())
    }
}

impl BitPacker {
    fn resolve_start(start_idx: Option<usize>) -> (r: usize)
        ensures
            r == Self::start_of(start_idx),
    {
        match start_idx {
            Some(s) => s,
            None => 0,
        }
    }

    fn resolve_end(&self, end_idx: Option<usize>) -> (r: usize)
        ensures
            r == self.end_of(end_idx),
    {
        match end_idx {
            Some(e) => e,
            None => if self.bits_len == 0 {
                0
            } else {
                self.bits_len - 1
            },
        }
    }

    /// Copies the bits `start..=end` (by default the whole packer) into a new packer.
    pub fn slice(&self, start_idx: Option<usize>, end_idx: Option<usize>) -> (r: BitPackerResult<
        Self,
    >)
        requires
            self.wf(),
            self.ordered(Self::start_of(start_idx), self.end_of(end_idx)),
        ensures
            !self.in_bounds(Self::start_of(start_idx), self.end_of(end_idx)) ==> r == Err::<
                Self,
                BitPackerError,
            >(BitPackerError::IndexOutOfBounds),
            self.in_bounds(Self::start_of(start_idx), self.end_of(end_idx)) ==> (r matches Ok(p) && p.canonical()
                && p.nbits() == self.end_of(end_idx) - Self::start_of(start_idx) + 1
                && p@ == self.field(Self::start_of(start_idx), self.end_of(end_idx))),
    {
        let start = Self::resolve_start(start_idx);
        let end = self.resolve_end(end_idx);
        if start >= self.bits_len || end >= self.bits_len {
            return Err(BitPackerError::IndexOutOfBounds);
        }
        let slice_len: usize = end - start + 1;
        let ghost f = self.field(start as int, end as int);
        let mut out = Self::zeroed(slice_len);
        let mut i: usize = 0;
        while i < slice_len
            invariant
                self.wf(),
                start + slice_len <= self.nbits(),
                f == self.field(start as int, end as int),
                slice_len == end - start + 1,
                i <= slice_len,
                out.nbits() == slice_len,
                out.bytes().len() == byte_count(slice_len as nat),
                forall|j: int| 0 <= j < i ==> #[trigger] out.bit(j) == f[j],
                forall|j: int| i <= j < 8 * out.bytes().len() ==> !#[trigger] out.bit(j),
            decreases slice_len - i,
        {
            if self.get_bit_unchecked(start + i) == 1 {
                let _ = out.write_bit(i, 1);
            }
            i = i + 1;
        }
        assert(out@ =~= f);
        Ok(out)
    }

    /// Reads the bits `start..=end` (by default the whole packer) as an unsigned
    /// integer, bit `start` being the least significant.
    pub fn extract_int(&self, start_idx: Option<usize>, end_idx: Option<usize>) -> (r:
        BitPackerResult<u64>)
        requires
            self.wf(),
            self.ordered(Self::start_of(start_idx), self.end_of(end_idx)),
            self.in_bounds(Self::start_of(start_idx), self.end_of(end_idx)) ==> self.fits(
                Self::start_of(start_idx),
                self.end_of(end_idx),
                64,
            ),
        ensures
            !self.in_bounds(Self::start_of(start_idx), self.end_of(end_idx)) ==> r == Err::<
                u64,
                BitPackerError,
            >(BitPackerError::IndexOutOfBounds),
            self.in_bounds(Self::start_of(start_idx), self.end_of(end_idx)) ==> r == Ok::<
                u64,
                BitPackerError,
            >(self.field_value(Self::start_of(start_idx), self.end_of(end_idx)) as u64),
            self.in_bounds(Self::start_of(start_idx), self.end_of(end_idx))
                ==> self.field_value(Self::start_of(start_idx), self.end_of(end_idx)) <= u64::MAX,
    {
        let start = Self::resolve_start(start_idx);
        let end = self.resolve_end(end_idx);
        if start >= self.bits_len || end >= self.bits_len {
            return Err(BitPackerError::IndexOutOfBounds);
        }
        let span: usize = end - start;
        let ghost f = self.field(start as int, end as int);
        let mut val: u64 = 0;
        let mut i: usize = 0;
        while i <= span
            invariant
                self.wf(),
                start <= end < self.nbits(),
                span == end - start,
                f == self.field(start as int, end as int),
                self.fits(start as int, end as int, 64),
                i <= span + 1,
                val as nat == bits_value(f.take(i as int)),
            decreases span + 1 - i,
        {
            proof {
                lemma_bits_value_step(f, i as int);
                lemma_bits_value_bound(f.take(i as int));
            }
            if self.get_bit_unchecked(start + i) == 1 {
                assert(i < 64) by {
                    if i >= 64 {
                        assert(!self@[start + i]);
                    }
                }
                proof {
                    lemma_or_pow2(val, i as u64);
                }
                val = val | (1u64 << (i as u64));
            }
            i = i + 1;
        }
        assert(f.take(span + 1) =~= f);
        proof {
            lemma_u64_field_bound(f);
        }
        Ok(val)
    }
}

proof fn lemma_u64_field_bound(f: Seq<bool>)
    requires
        forall|i: int| 64 <= i < f.len() ==> !#[trigger] f[i],
    ensures
        bits_value(f) <= u64::MAX,
{
    lemma2_to64();
    vstd::arithmetic::power2::lemma2_to64_rest();
    if f.len() <= 64 {
        lemma_bits_value_bound(f);
        if f.len() < 64 {
            vstd::arithmetic::power2::lemma_pow2_strictly_increases(f.len(), 64);
        }
    } else {
        lemma_bits_value_high_clear(f, 64);
    }
}

/// The number of significant bits of `v`.
pub open spec fn bit_length(v: u64) -> nat {
    (64 - u64_leading_zeros(v)) as nat
}

proof fn lemma_bit_length(v: u64)
    ensures
        bit_length(v) <= 64,
        forall|k: int| bit_length(v) <= k ==> !#[trigger] word_bit(v, k),
        v == 0 ==> bit_length(v) == 0,
{
    axiom_u64_leading_zeros(v);
    assert forall|k: int| bit_length(v) <= k implies !#[trigger] word_bit(v, k) by {
        if 0 <= k < 64 {
            let kk = k as u64;
            assert((v >> kk) & 1u64 == 0u64);
        }
    }
}

proof fn lemma_zero_word(k: int)
    ensures
        !word_bit(0u64, k),
{
    if 0 <= k < 64 {
        let kk = k as u64;
        assert((0u64 >> kk) & 1u64 == 0u64) by (bit_vector);
    }
}

proof fn lemma_word_bit_exec(v: u64, k: u64)
    requires
        k < 64,
    ensures
        ((v >> k) & 1u64 == 1u64) == word_bit(v, k as int),
{
}

proof fn lemma_or_pow2_u8(v: u8, k: u8)
    requires
        k < 8,
        v < pow2(k as nat),
    ensures
        v | (1u8 << k) == v + pow2(k as nat),
{
    vstd::bits::lemma_u8_pow2_no_overflow(k as nat);
    vstd::bits::lemma_u8_shl_is_mul(1u8, k);
    assert(v < (1u8 << k) ==> v | (1u8 << k) == v + (1u8 << k)) by (bit_vector)
        requires
            k < 8,
    ;
    lemma_pow2_adds(k as nat, 1);
    lemma2_to64();
}

/// `(6 * i + k) / 6 == i` and `(6 * i + k) % 6 == k` for `k < 6`.
proof fn lemma_div6(i: int, k: int)
    requires
        0 <= i,
        0 <= k < 6,
    ensures
        (6 * i + k) / 6 == i,
        (6 * i + k) % 6 == k,
{
    vstd::arithmetic::div_mod::lemma_fundamental_div_mod_converse(6 * i + k, 6, i, k);
}

/// The six-bit code that a character is packed as: its low byte, after ASCII
/// upper-casing.
pub open spec fn sixbit_code(c: char) -> u8 {
    sixbit_ord(low_byte(ascii_upper(c)))
}

/// Bit `j` of the six-bit packing of `s`: character `i` is written, as a 7-bit
/// number, from bit `6 * i` on; code 64 spills its top bit into bit 0 of the
/// next character.
pub open spec fn sixbit_packed_bit(s: Seq<char>, j: int) -> bool {
    let i = j / 6;
    let k = j % 6;
    ||| (0 <= i < s.len() && word_bit(sixbit_code(s[i]) as u64, k))
    ||| (k == 0 && 1 <= i <= s.len() && word_bit(sixbit_code(s[i - 1]) as u64, 6))
}

/// The characters read back from the first `n` groups of six bits of `f`:
/// a zero group is skipped, any other becomes its character.
pub open spec fn sixbit_text(f: Seq<bool>, n: nat) -> Seq<char>
    decreases n,
{
    if n == 0 {
        Seq::empty()
    } else {
        let v = bits_value(f.subrange(6 * (n - 1), 6 * n as int));
        sixbit_text(f, (n - 1) as nat) + if v == 0 {
            Seq::<char>::empty()
        } else {
            seq![sixbit_char(v as u8)]
        }
    }
}

/// The six-bit packing of `s` into `n` bits.
pub open spec fn packed_str(s: Seq<char>, n: nat) -> Seq<bool> {
    Seq::new(n, |j: int| sixbit_packed_bit(s, j))
}

/// The characters `'1'` and `'0'` of the bits of `s`, most significant first.
pub open spec fn binary_text(s: Seq<bool>) -> Seq<char> {
    Seq::new(s.len(), |k: int| if s[s.len() - 1 - k] { '1' } else { '0' })
}

impl BitPacker {
    /// ORs the significant bits of `val` into the packer from bit `start` on;
    /// refused when a set bit of `val` falls past the end, after every bit
    /// that fits has been written.
    fn write_bits(&mut self, val: u64, start_idx: Option<usize>) -> (r: BitPackerResult<()>)
        requires
            old(self).wf(),
            Self::start_of(start_idx) + 64 <= usize::MAX,
        ensures
            final(self).nbits() == old(self).nbits(),
            final(self).bytes().len() == old(self).bytes().len(),
            r is Err <==> exists|k: int|
                0 <= k < 64 && #[trigger] word_bit(val, k) && Self::start_of(start_idx) + k
                    >= old(self).nbits(),
            r is Err ==> r == Err::<(), BitPackerError>(BitPackerError::IndexOutOfBounds),
            forall|i: int|
                0 <= i < 8 * old(self).bytes().len() ==> #[trigger] final(self).bit(i) == (
                old(self).bit(i) || (Self::start_of(start_idx) <= i < old(self).nbits()
                    && word_bit(val, i - Self::start_of(start_idx)))),
    {
        let ghost start_g = Self::start_of(start_idx);
        if val == 0 {
            proof {
                assert forall|k: int| !#[trigger] word_bit(val, k) by {
                    lemma_zero_word(k);
                }
            }
            return Ok(());
        }
        let start = Self::resolve_start(start_idx);
        proof {
            lemma_bit_length(val);
        }
        let bits_to_write: u32 = 64 - val.leading_zeros();
        let ghost old_self = *self;
        let mut i: u32 = 0;
        while i < bits_to_write
            invariant
                old_self.wf(),
                old_self == *old(self),
                start == start_g,
                start_g == Self::start_of(start_idx),
                start + 64 <= usize::MAX,
                bits_to_write == bit_length(val),
                bits_to_write <= 64,
                i <= bits_to_write,
                self.nbits() == old_self.nbits(),
                self.bytes().len() == old_self.bytes().len(),
                forall|k: int| 0 <= k < i && #[trigger] word_bit(val, k) ==> start + k < old_self.nbits(),
                forall|j: int|
                    0 <= j < 8 * old_self.bytes().len() ==> #[trigger] self.bit(j) == (old_self.bit(j) || (
                    start <= j < old_self.nbits() && j - start < i && word_bit(val, j - start))),
            decreases bits_to_write - i,
        {
            proof {
                lemma_word_bit_exec(val, i as u64);
            }
            if (val >> (i as u64)) & 1u64 == 1u64 {
                let ghost before = *self;
                let res = self.write_bit(start + i as usize, 1);
                if res.is_err() {
                    proof {
                        assert(start + i >= old_self.nbits());
                        assert(*self == before);
                        assert(word_bit(val, i as int));
                        assert forall|j: int|
                            0 <= j < 8 * old_self.bytes().len() implies #[trigger] self.bit(j) == (
                        old_self.bit(j) || (start <= j < old_self.nbits() && word_bit(
                            val,
                            j - start,
                        ))) by {
                            if start <= j < old_self.nbits() && word_bit(val, j - start) {
                                assert(j - start < i);
                            }
                        }
                    }
                    assert(exists|k: int|
                        0 <= k < 64 && #[trigger] word_bit(val, k) && Self::start_of(start_idx) + k
                            >= old(self).nbits());
                    assert(forall|ii: int|
                        0 <= ii < 8 * old(self).bytes().len() ==> #[trigger] self.bit(ii) == (
                        old(self).bit(ii) || (Self::start_of(start_idx) <= ii < old(self).nbits()
                            && word_bit(val, ii - Self::start_of(start_idx)))));
                    return Err(BitPackerError::IndexOutOfBounds);
                }
            }
            i = i + 1;
        }
        proof {
            assert forall|j: int|
                0 <= j < 8 * old_self.bytes().len() implies #[trigger] self.bit(j) == (old_self.bit(j)
                || (start <= j < old_self.nbits() && word_bit(val, j - start))) by {
                if start <= j < old_self.nbits() && word_bit(val, j - start) {
                    assert(j - start < bits_to_write);
                }
            }
            assert forall|k: int|
                0 <= k < 64 && #[trigger] word_bit(val, k) implies start + k < old_self.nbits() by {
                assert(k < bits_to_write);
            }
        }
        Ok(())
    }

    /// The `n` low bits of `val` (by default its significant bits).
    pub fn from_int(val: u64, bits_len: Option<usize>) -> (r: Self)
        ensures
            r.nbits() == match bits_len {
                Some(n) => n as nat,
                None => bit_length(val),
            },
            r.canonical(),
            r@ == word_bits(val, r.nbits()),
    {
        proof {
            lemma_bit_length(val);
        }
        let n: usize = match bits_len {
            Some(n) => n,
            None => (64 - val.leading_zeros()) as usize,
        };
        let mut bitpacker = Self::zeroed(n);
        let _ = bitpacker.write_bits(val, None);
        assert(bitpacker@ =~= word_bits(val, n as nat));
        bitpacker
    }

    /// A packer over a copy of `bits`, holding `bits_len` bits (by default all of them).
    pub fn from_slice(bits: &[u8], bits_len: Option<usize>) -> (r: Self)
        requires
            bits@.len() * 8 <= usize::MAX,
        ensures
            r.bytes() == bits@,
            r.nbits() == match bits_len {
                Some(n) => n as nat,
                None => 8 * bits@.len(),
            },
    {
        let n: usize = match bits_len {
            Some(n) => n,
            None => bits.len() * 8,
        };
        BitPacker { bits: vstd::slice::slice_to_vec(bits), bits_len: n }
    }

    /// `self` placed above `rhs`: the bits of `rhs` first, then those of `self`.
    pub fn add(self, rhs: Self) -> (r: Self)
        requires
            self.wf(),
            rhs.wf(),
            self.nbits() + rhs.nbits() <= usize::MAX,
        ensures
            r.canonical(),
            r.nbits() == self.nbits() + rhs.nbits(),
            r@ == rhs@ + self@,
    {
        let bits_len: usize = self.bits_len + rhs.bits_len;
        let ghost target = rhs@ + self@;
        let mut out = Self::zeroed(bits_len);
        let mut i: usize = 0;
        while i < rhs.bits_len
            invariant
                rhs.wf(),
                bits_len == self.nbits() + rhs.nbits(),
                target == rhs@ + self@,
                i <= rhs.nbits(),
                out.nbits() == bits_len,
                out.bytes().len() == byte_count(bits_len as nat),
                forall|j: int| 0 <= j < i ==> #[trigger] out.bit(j) == target[j],
                forall|j: int| i <= j < 8 * out.bytes().len() ==> !#[trigger] out.bit(j),
            decreases rhs.nbits() - i,
        {
            if rhs.get_bit_unchecked(i) == 1 {
                let _ = out.write_bit(i, 1);
            }
            i = i + 1;
        }
        let mut i: usize = 0;
        while i < self.bits_len
            invariant
                self.wf(),
                bits_len == self.nbits() + rhs.nbits(),
                target == rhs@ + self@,
                i <= self.nbits(),
                out.nbits() == bits_len,
                out.bytes().len() == byte_count(bits_len as nat),
                forall|j: int| 0 <= j < rhs.nbits() + i ==> #[trigger] out.bit(j) == target[j],
                forall|j: int|
                    rhs.nbits() + i <= j < 8 * out.bytes().len() ==> !#[trigger] out.bit(j),
            decreases self.nbits() - i,
        {
            if self.get_bit_unchecked(i) == 1 {
                let _ = out.write_bit(i + rhs.bits_len, 1);
            }
            i = i + 1;
        }
        assert(out@ =~= target);
        out
    }

    /// The bits as `'1'` and `'0'` characters, most significant first.
    pub fn to_bin_str(&self) -> (r: String)
        requires
            self.wf(),
        ensures
            r@ == binary_text(self@),
    {
        let mut bin_str = String::new();
        let mut i: usize = self.bits_len;
        while i > 0
            invariant
                self.wf(),
                i <= self.nbits(),
                bin_str@ == binary_text(self@).take(self.nbits() - i),
            decreases i,
        {
            i = i - 1;
            let c = if self.get_bit_unchecked(i) == 1 {
                '1'
            } else {
                '0'
            };
            push_char(&mut bin_str, c);
            assert(bin_str@ =~= binary_text(self@).take(self.nbits() - i));
        }
        assert(binary_text(self@).take(self.nbits() as int) =~= binary_text(self@));
        bin_str
    }

    /// Reads the groups of six bits in `start..=end` (by default the whole
    /// packer) as characters of the AIS alphabet, skipping zero groups; bits
    /// after the last whole group are ignored.
    pub fn extract_str(&self, start_idx: Option<usize>, end_idx: Option<usize>) -> (r:
        BitPackerResult<String>)
        requires
            self.wf(),
            self.ordered(Self::start_of(start_idx), self.end_of(end_idx)),
        ensures
            !self.in_bounds(Self::start_of(start_idx), self.end_of(end_idx)) ==> r == Err::<
                String,
                BitPackerError,
            >(BitPackerError::IndexOutOfBounds),
            self.in_bounds(Self::start_of(start_idx), self.end_of(end_idx)) ==> (r matches Ok(
                s,
            ) && s@ == sixbit_text(
                self.field(Self::start_of(start_idx), self.end_of(end_idx)),
                (self.end_of(end_idx) - Self::start_of(start_idx) + 1) as nat / 6,
            )),
    {
        let start = Self::resolve_start(start_idx);
        let end = self.resolve_end(end_idx);
        if start >= self.bits_len || end >= self.bits_len {
            return Err(BitPackerError::IndexOutOfBounds);
        }
        let len: usize = end - start + 1;
        let num_chars: usize = len / 6;
        let ghost f = self.field(start as int, end as int);
        let mut extracted_str = String::new();
        let mut char_idx: usize = 0;
        while char_idx < num_chars
            invariant
                self.wf(),
                start <= end < self.nbits(),
                len == end - start + 1,
                num_chars == len / 6,
                f == self.field(start as int, end as int),
                char_idx <= num_chars,
                extracted_str@ == sixbit_text(f, char_idx as nat),
            decreases num_chars - char_idx,
        {
            let ghost g = f.subrange(6 * char_idx, 6 * char_idx + 6);
            let mut chr_ord: u8 = 0;
            let char_start: usize = start + char_idx * 6;
            let mut bit_idx: usize = 0;
            while bit_idx < 6
                invariant
                    self.wf(),
                    start <= end < self.nbits(),
                    len == end - start + 1,
                    num_chars == len / 6,
                    char_idx < num_chars,
                    f == self.field(start as int, end as int),
                    g == f.subrange(6 * char_idx, 6 * char_idx + 6),
                    char_start == start + char_idx * 6,
                    bit_idx <= 6,
                    chr_ord as nat == bits_value(g.take(bit_idx as int)),
                decreases 6 - bit_idx,
            {
                proof {
                    lemma_bits_value_step(g, bit_idx as int);
                    lemma_bits_value_bound(g.take(bit_idx as int));
                    lemma_or_pow2_u8(chr_ord, bit_idx as u8);
                }
                if self.get_bit_unchecked(char_start + bit_idx) == 1 {
                    chr_ord = chr_ord | (1u8 << (bit_idx as u8));
                }
                bit_idx = bit_idx + 1;
            }
            proof {
                assert(g.take(6) =~= g);
                lemma_bits_value_bound(g);
                lemma2_to64();
            }
            if chr_ord != 0 {
                push_char(&mut extracted_str, char6(chr_ord));
            }
            char_idx = char_idx + 1;
            proof {
                assert(extracted_str@ =~= sixbit_text(f, char_idx as nat));
            }
        }
        Ok(extracted_str)
    }

    /// Packs the characters of `val` six bits each, upper-cased, from bit 0 on,
    /// into `bits_len` bits (by default six per byte of `val`); what does not fit
    /// is dropped.
    pub fn from_str(val: &str, bits_len: Option<usize>) -> (r: Self)
        requires
            bits_len matches Some(n) ==> n + 64 <= usize::MAX,
            bits_len is None ==> val.spec_bytes().len() * 6 + 64 <= usize::MAX,
        ensures
            r.nbits() == match bits_len {
                Some(n) => n as nat,
                None => 6 * val.spec_bytes().len(),
            },
            r.canonical(),
            r@ == packed_str(val@, r.nbits()),
    {
        let n: usize = match bits_len {
            Some(n) => n,
            None => 6 * val.len(),
        };
        let mut bitpacker = Self::zeroed(n);
        let count = val.unicode_len();
        // Characters from `limit` on start past the last bit: nothing of them is kept.
        let limit: usize = if n % 6 == 0 {
            n / 6
        } else {
            n / 6 + 1
        };
        let mut i: usize = 0;
        while i < count && i < limit
            invariant
                count == val@.len(),
                n + 64 <= usize::MAX,
                limit as int == if n % 6 == 0 { (n / 6) as int } else { n / 6 + 1 },
                i <= count,
                i <= limit,
                bitpacker.nbits() == n,
                bitpacker.bytes().len() == byte_count(n as nat),
                forall|j: int| n <= j < 8 * bitpacker.bytes().len() ==> !#[trigger] bitpacker.bit(j),
                forall|j: int|
                    0 <= j < n ==> #[trigger] bitpacker.bit(j) == sixbit_packed_bit(
                        val@.take(i as int),
                        j,
                    ),
            decreases count - i,
        {
        let c = val.get_char(i);
            let ord: u8 = ord6(to_ascii_upper(c));
            let ghost before = bitpacker;
            let _ = bitpacker.write_bits(ord as u64, Some(i * 6));
            i = i + 1;
            proof {
                let s0 = val@.take(i - 1);
                let s1 = val@.take(i as int);
                let code = sixbit_code(val@[i - 1]) as u64;
                assert(code == ord as u64);
                lemma2_to64();
                assert forall|k: int| 7 <= k implies !#[trigger] word_bit(code, k) by {
                    lemma_word_bits_high_clear(code, 7, k);
                }
                assert forall|j: int| 0 <= j < n implies #[trigger] bitpacker.bit(j)
                    == sixbit_packed_bit(s1, j) by {
                    let q = j / 6;
                    let k = j % 6;
                    assert(j == 6 * q + k);
                    if q < i - 1 {
                        assert(s1[q] == s0[q]);
                    }
                    if 1 <= q <= i - 1 {
                        assert(s1[q - 1] == s0[q - 1]);
                    }
                    if q == i - 1 {
                        assert(s1[q] == val@[i - 1]);
                    }
                    if q == i && k == 0 {
                        assert(s1[q - 1] == val@[i - 1]);
                    }
                }
            }
        }
        proof {
            let t = val@.take(i as int);
            assert forall|j: int| 0 <= j < n implies #[trigger] sixbit_packed_bit(t, j)
                == sixbit_packed_bit(val@, j) by {
                let q = j / 6;
                if q < i {
                    assert(t[q] == val@[q]);
                }
                if 1 <= q <= i {
                    assert(t[q - 1] == val@[q - 1]);
                }
            }
        }
        assert(bitpacker@ =~= packed_str(val@, n as nat));
        bitpacker
    }
}

impl BitPacker {
    /// A field of `w` or fewer bits, or one whose bits from `w` places on are
    /// clear, has a value below `2^w`.
    pub proof fn lemma_field_value_bound(self, start: int, end: int, w: nat)
        requires
            0 <= start <= end < self.nbits(),
            end - start + 1 <= w || self.fits(start, end, w),
        ensures
            self.field_value(start, end) < pow2(w),
            self.field(start, end).len() == end - start + 1,
    {
        let f = self.field(start, end);
        if end - start + 1 <= w {
            lemma_bits_value_bound(f);
            if f.len() < w {
                vstd::arithmetic::power2::lemma_pow2_strictly_increases(f.len(), w);
            }
        } else {
            assert forall|i: int| w <= i < f.len() implies !#[trigger] f[i] by {
                assert(f[i] == self@[start + i]);
            }
            lemma_bits_value_high_clear(f, w);
        }
    }
}

/// The characters that a string reads back as after six-bit packing: each
/// becomes the alphabet character of its code.
pub open spec fn sixbit_normalize(s: Seq<char>) -> Seq<char> {
    s.map_values(|c: char| sixbit_char(sixbit_code(c)))
}

/// No character of `s` has code 64 (`?`), the one code that needs a seventh bit.
pub open spec fn sixbit_fits(s: Seq<char>) -> bool {
    forall|i: int| 0 <= i < s.len() ==> #[trigger] sixbit_code(s[i]) != 64
}

proof fn lemma_code_small(c: char)
    requires
        sixbit_code(c) != 64,
    ensures
        1 <= sixbit_code(c) < 64,
        !word_bit(sixbit_code(c) as u64, 6),
        bits_value(word_bits(sixbit_code(c) as u64, 6)) == sixbit_code(c),
{
    lemma2_to64();
    lemma_word_bits_high_clear(sixbit_code(c) as u64, 6, 6);
    lemma_word_bits_value(sixbit_code(c) as u64, 6);
    vstd::arithmetic::div_mod::lemma_small_mod(sixbit_code(c) as nat, 64);
}

proof fn lemma_sixbit_group(s: Seq<char>, m: nat, g: int)
    requires
        sixbit_fits(s),
        0 <= g,
        6 * g + 6 <= m,
    ensures
        g < s.len() ==> bits_value(Seq::new(m, |j: int| sixbit_packed_bit(s, j)).subrange(
            6 * g,
            6 * g + 6,
        )) == sixbit_code(s[g]),
        g >= s.len() ==> bits_value(Seq::new(m, |j: int| sixbit_packed_bit(s, j)).subrange(
            6 * g,
            6 * g + 6,
        )) == 0,
{
    let p = Seq::new(m, |j: int| sixbit_packed_bit(s, j));
    let grp = p.subrange(6 * g, 6 * g + 6);
    if 1 <= g <= s.len() {
        lemma_code_small(s[g - 1]);
    }
    if g < s.len() {
        let c = s[g];
        lemma_code_small(c);
        assert forall|k: int| 0 <= k < 6 implies grp[k] == word_bits(sixbit_code(c) as u64, 6)[k] by {
            lemma_div6(g, k);
        }
        assert(grp =~= word_bits(sixbit_code(c) as u64, 6));
    } else {
        assert forall|k: int| 0 <= k < 6 implies !grp[k] by {
            lemma_div6(g, k);
        }
        assert(grp =~= Seq::new(6, |k: int| false));
        lemma_word_bits_value(0u64, 6);
        assert forall|k: int| 0 <= k < 6 implies !word_bit(0u64, k) by {
            lemma_zero_word(k);
        }
        assert(grp =~= word_bits(0u64, 6));
        lemma2_to64();
    }
}

/// Reading the first `n` groups of the packing of a string on `m >= 6 * n`
/// bits gives its first `n` characters (all of them when it is shorter) in
/// the AIS alphabet.
pub proof fn lemma_sixbit_prefix(s: Seq<char>, m: nat, n: nat)
    requires
        sixbit_fits(s),
        6 * n <= m,
    ensures
        sixbit_text(Seq::new(m, |j: int| sixbit_packed_bit(s, j)), n) == sixbit_normalize(
            s.take(if n < s.len() { n as int } else { s.len() as int }),
        ),
    decreases n,
{
    let p = Seq::new(m, |j: int| sixbit_packed_bit(s, j));
    if n == 0 {
        assert(sixbit_normalize(s.take(0)) =~= Seq::<char>::empty());
    } else {
        let g = (n - 1) as int;
        lemma_sixbit_prefix(s, m, (n - 1) as nat);
        lemma_sixbit_group(s, m, g);
        if g < s.len() {
            lemma_code_small(s[g]);
            assert(sixbit_normalize(s.take(g + 1)) =~= sixbit_normalize(s.take(g)).push(
                sixbit_char(sixbit_code(s[g])),
            ));
        }
    }
}

/// Packing a string six bits a character, on at least six bits per
/// character, and reading every whole group back gives the string in the AIS
/// alphabet: each character becomes the character of its code.
pub proof fn lemma_sixbit_roundtrip(s: Seq<char>, m: nat)
    requires
        sixbit_fits(s),
        6 * s.len() <= m,
    ensures
        sixbit_text(Seq::new(m, |j: int| sixbit_packed_bit(s, j)), m / 6) == sixbit_normalize(s),
{
    lemma_sixbit_prefix(s, m, m / 6);
    assert(s.take(s.len() as int) =~= s);
}

/// A character that the AIS alphabet writes as its ASCII upper case: a
/// letter of either case, a digit, a space, or a sign of the alphabet other
/// than `?`.
pub open spec fn sixbit_writable(c: char) -> bool {
    let u = ascii_upper(c) as u32;
    (32 <= u <= 62) || (64 <= u <= 95)
}

proof fn lemma_writable_code(c: char)
    requires
        sixbit_writable(c),
    ensures
        sixbit_code(c) != 64,
        sixbit_char(sixbit_code(c)) == ascii_upper(c),
{
    let u = ascii_upper(c);
    assert(low_byte(u) == u as u32);
}

/// Text of writable characters packed into a packer of at least six bits a
/// character reads back, over the whole packer, as the text upper-cased:
/// lower-case letters come back in upper case, every other character as it
/// was.
pub proof fn lemma_sixbit_upper_roundtrip(p: BitPacker, s: Seq<char>)
    requires
        p@ == packed_str(s, p.nbits()),
        1 <= p.nbits(),
        6 * s.len() <= p.nbits(),
        forall|i: int| 0 <= i < s.len() ==> #[trigger] sixbit_writable(s[i]),
    ensures
        p.in_bounds(BitPacker::start_of(None), p.end_of(None)),
        sixbit_text(
            p.field(BitPacker::start_of(None), p.end_of(None)),
            (p.end_of(None) - BitPacker::start_of(None) + 1) as nat / 6,
        ) == s.map_values(|c: char| ascii_upper(c)),
{
    assert forall|i: int| 0 <= i < s.len() implies #[trigger] sixbit_code(s[i]) != 64 by {
        lemma_writable_code(s[i]);
    }
    lemma_sixbit_roundtrip(s, p.nbits());
    assert(p.field(0, p.nbits() - 1) =~= p@);
    assert forall|i: int| 0 <= i < s.len() implies sixbit_normalize(s)[i] == s.map_values(
        |c: char| ascii_upper(c),
    )[i] by {
        lemma_writable_code(s[i]);
    }
    assert(sixbit_normalize(s) =~= s.map_values(|c: char| ascii_upper(c)));
}

} // verus!
