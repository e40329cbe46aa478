//! The checksum engine: a byte stream with a fixed little-endian layout,
//! hashed with 64-bit FNV-1a and folded down to one byte.

use vstd::prelude::*;

verus! {

/// Offset basis of 64-bit FNV-1a.
pub const FNV_OFFSET: u64 = 0xcbf29ce484222325;

/// Prime of 64-bit FNV-1a.
pub const FNV_PRIME: u64 = 0x100000001b3;

/// 64-bit FNV-1a over a byte sequence.
pub open spec fn fnv1a(bytes: Seq<u8>) -> u64
    decreases bytes.len(),
{
    if bytes.len() == 0 {
        FNV_OFFSET
    } else {
        let h = fnv1a(bytes.drop_last());
        ((h ^ (bytes.last() as u64)) * FNV_PRIME) as u64
    }
}

/// One step of FNV-1a: fold byte `b` into state `h`.
pub open spec fn fnv_step(h: u64, b: u8) -> u64 {
    ((h ^ (b as u64)) * FNV_PRIME) as u64
}

/// Multiplication by the FNV prime modulo 2^64 is undone by its inverse.
proof fn lemma_prime_invertible(a: u64)
    ensures
        (((a * FNV_PRIME) as u64) * 0xce965057aff6957bu64) as u64 == a,
{
    assert((((a * 0x100000001b3u64) as u64) * 0xce965057aff6957bu64) as u64 == a) by (bit_vector);
}

/// An FNV-1a step is one-to-one in the byte for a fixed state, and in the
/// state for a fixed byte.
proof fn lemma_fnv_step_injective(h1: u64, h2: u64, b1: u8, b2: u8)
    requires
        (h1 == h2 && b1 != b2) || (h1 != h2 && b1 == b2),
    ensures
        fnv_step(h1, b1) != fnv_step(h2, b2),
{
    let x1 = h1 ^ (b1 as u64);
    let x2 = h2 ^ (b2 as u64);
    if h1 == h2 {
        assert(x1 != x2) by (bit_vector)
            requires
                x1 == h1 ^ (b1 as u64),
                x2 == h1 ^ (b2 as u64),
                b1 != b2,
        ;
    } else {
        assert(x1 != x2) by (bit_vector)
            requires
                x1 == h1 ^ (b1 as u64),
                x2 == h2 ^ (b1 as u64),
                h1 != h2,
                b1 == b2,
        ;
    }
    lemma_prime_invertible(x1);
    lemma_prime_invertible(x2);
}

/// Changing any one byte of a stream changes its 64-bit FNV-1a digest.
pub proof fn lemma_digest_detects_one_byte_change(bytes: Seq<u8>, k: int, v: u8)
    requires
        0 <= k < bytes.len(),
        v != bytes[k],
    ensures
        fnv1a(bytes.update(k, v)) != fnv1a(bytes),
    decreases bytes.len(),
{
    let changed = bytes.update(k, v);
    if k == bytes.len() - 1 {
        assert(changed.drop_last() == bytes.drop_last());
        lemma_fnv_step_injective(fnv1a(bytes.drop_last()), fnv1a(bytes.drop_last()), v, bytes.last());
    } else {
        assert(changed.drop_last() == bytes.drop_last().update(k, v));
        lemma_digest_detects_one_byte_change(bytes.drop_last(), k, v);
        lemma_fnv_step_injective(
            fnv1a(changed.drop_last()),
            fnv1a(bytes.drop_last()),
            bytes.last(),
            bytes.last(),
        );
    }
}

/// XOR of the eight little-endian bytes of `x`.
pub open spec fn xor_fold_spec(x: u64) -> u8 {
    (x as u8) ^ ((x >> 8u64) as u8) ^ ((x >> 16u64) as u8) ^ ((x >> 24u64) as u8) ^ ((x
        >> 32u64) as u8) ^ ((x >> 40u64) as u8) ^ ((x >> 48u64) as u8) ^ ((x >> 56u64) as u8)
}

/// The one-byte checksum of a byte stream.
pub open spec fn checksum_of(bytes: Seq<u8>) -> u8 {
    xor_fold_spec(fnv1a(bytes))
}

/// The first `n` little-endian bytes of `x`.
pub open spec fn le_bytes(x: u128, n: nat) -> Seq<u8> {
    Seq::new(n, |k: int| (x >> ((8 * k) as u128)) as u8)
}

/// Relies on fnv::FnvHasher: a fresh hasher fed `bytes` in one `write`
/// finishes with the 64-bit FNV-1a digest of those bytes.
#[verifier::external_body]
fn fnv_digest(bytes: &[u8]) -> (r: u64)
    ensures
        r == fnv1a(bytes@),
{
    let mut hasher = <fnv::FnvHasher as core::default::Default>::default();
    core::hash::Hasher::write(&mut hasher, bytes);
    core::hash::Hasher::finish(&hasher)
}

/// Folds a 64-bit digest to one byte by XOR of its little-endian bytes.
pub fn xor_fold(x: u64) -> (r: u8)
    ensures
        r == xor_fold_spec(x),
{
    (x as u8) ^ ((x >> 8u64) as u8) ^ ((x >> 16u64) as u8) ^ ((x >> 24u64) as u8) ^ ((x
        >> 32u64) as u8) ^ ((x >> 40u64) as u8) ^ ((x >> 48u64) as u8) ^ ((x >> 56u64) as u8)
}

/// Collects the bytes of hashed values in a layout that does not depend on
/// the target's byte order; `finish` digests them.
pub struct StableHasher {
    bytes: Vec<u8>,
}

impl View for StableHasher {
    type V = Seq<u8>;

    closed spec fn view(&self) -> Seq<u8> {
        self.bytes@
    }
}

impl StableHasher {
    /// A hasher that has been fed nothing.
    pub fn new() -> (r: Self)
        ensures
            r@ == Seq::<u8>::empty(),
    {
        StableHasher { bytes: Vec::new() }
    }

    /// Feeds `bytes` in order.
    pub fn write(&mut self, bytes: &[u8])
        ensures
            final(self)@ == old(self)@ + bytes@,
    {
        let mut i: usize = 0;
        while i < bytes.len()
            invariant
                i <= bytes@.len(),
                self@ == old(self)@ + bytes@.subrange(0, i as int),
            decreases bytes@.len() - i,
        {
            self.bytes.push(bytes[i]);
            i = i + 1;
            assert(bytes@.subrange(0, i as int) == bytes@.subrange(0, i - 1 as int).push(
                bytes@[i - 1],
            ));
        }
        assert(bytes@.subrange(0, i as int) == bytes@);
    }

    /// Feeds the first `n` little-endian bytes of `x`.
    fn write_le(&mut self, x: u128, n: usize)
        requires
            n <= 16,
        ensures
            final(self)@ == old(self)@ + le_bytes(x, n as nat),
    {
        let mut k: usize = 0;
        while k < n
            invariant
                k <= n <= 16,
                self@ == old(self)@ + le_bytes(x, k as nat),
            decreases n - k,
        {
            let b = (x >> (8 * k) as u128) as u8;
            self.bytes.push(b);
            k = k + 1;
            assert(le_bytes(x, k as nat) == le_bytes(x, (k - 1) as nat).push(b));
        }
    }

    pub fn write_u8(&mut self, i: u8)
        ensures
            final(self)@ == old(self)@.push(i),
    {
        self.bytes.push(i);
    }

    pub fn write_u16(&mut self, i: u16)
        ensures
            final(self)@ == old(self)@ + le_bytes(i as u128, 2),
    {
        self.write_le(i as u128, 2);
    }

    pub fn write_u32(&mut self, i: u32)
        ensures
            final(self)@ == old(self)@ + le_bytes(i as u128, 4),
    {
        self.write_le(i as u128, 4);
    }

    pub fn write_u64(&mut self, i: u64)
        ensures
            final(self)@ == old(self)@ + le_bytes(i as u128, 8),
    {
        self.write_le(i as u128, 8);
    }

    pub fn write_u128(&mut self, i: u128)
        ensures
            final(self)@ == old(self)@ + le_bytes(i, 16),
    {
        self.write_le(i, 16);
    }

    /// A `usize` is fed as the XOR of its little-endian bytes, so that its
    /// width on the target does not change the stream.
    pub fn write_usize(&mut self, i: usize)
        ensures
            final(self)@ == old(self)@.push(xor_fold_spec(i as u64)),
    {
        self.bytes.push(xor_fold(i as u64));
    }

    pub fn write_i8(&mut self, i: i8)
        ensures
            final(self)@ == old(self)@.push(i as u8),
    {
        self.write_u8(i as u8);
    }

    pub fn write_i16(&mut self, i: i16)
        ensures
            final(self)@ == old(self)@ + le_bytes(i as u16 as u128, 2),
    {
        self.write_u16(i as u16);
    }

    pub fn write_i32(&mut self, i: i32)
        ensures
            final(self)@ == old(self)@ + le_bytes(i as u32 as u128, 4),
    {
        self.write_u32(i as u32);
    }

    pub fn write_i64(&mut self, i: i64)
        ensures
            final(self)@ == old(self)@ + le_bytes(i as u64 as u128, 8),
    {
        self.write_u64(i as u64);
    }

    pub fn write_i128(&mut self, i: i128)
        ensures
            final(self)@ == old(self)@ + le_bytes(i as u128, 16),
    {
        self.write_u128(i as u128);
    }

    pub fn write_isize(&mut self, i: isize)
        ensures
            final(self)@ == old(self)@.push(xor_fold_spec(i as usize as u64)),
    {
        self.write_usize(i as usize);
    }

    /// The FNV-1a digest of everything fed so far.
    pub fn finish(&self) -> (r: u64)
        ensures
            r == fnv1a(self@),
    {
        fnv_digest(self.bytes.as_slice())
    }
}

/// A value with a fixed byte encoding for checksumming.
pub trait StableHash {
    /// The bytes this value feeds to a hasher.
    spec fn stable_bytes(&self) -> Seq<u8>;

    fn stable_hash(&self, state: &mut StableHasher)
        ensures
            final(state)@ == old(state)@ + self.stable_bytes(),
    ;
}

impl StableHash for u8 {
    open spec fn stable_bytes(&self) -> Seq<u8> {
        seq![*self]
    }

    fn stable_hash(&self, state: &mut StableHasher) {
        state.write_u8(*self);
    }
}

impl StableHash for u16 {
    open spec fn stable_bytes(&self) -> Seq<u8> {
        le_bytes(*self as u128, 2)
    }

    fn stable_hash(&self, state: &mut StableHasher) {
        state.write_u16(*self);
    }
}

impl StableHash for u32 {
    open spec fn stable_bytes(&self) -> Seq<u8> {
        le_bytes(*self as u128, 4)
    }

    fn stable_hash(&self, state: &mut StableHasher) {
        state.write_u32(*self);
    }
}

impl StableHash for u64 {
    open spec fn stable_bytes(&self) -> Seq<u8> {
        le_bytes(*self as u128, 8)
    }

    fn stable_hash(&self, state: &mut StableHasher) {
        state.write_u64(*self);
    }
}

impl StableHash for u128 {
    open spec fn stable_bytes(&self) -> Seq<u8> {
        le_bytes(*self, 16)
    }

    fn stable_hash(&self, state: &mut StableHasher) {
        state.write_u128(*self);
    }
}

impl StableHash for usize {
    open spec fn stable_bytes(&self) -> Seq<u8> {
        seq![xor_fold_spec(*self as u64)]
    }

    fn stable_hash(&self, state: &mut StableHasher) {
        state.write_usize(*self);
    }
}

impl StableHash for i8 {
    open spec fn stable_bytes(&self) -> Seq<u8> {
        seq![*self as u8]
    }

    fn stable_hash(&self, state: &mut StableHasher) {
        state.write_i8(*self);
    }
}

impl StableHash for i16 {
    open spec fn stable_bytes(&self) -> Seq<u8> {
        le_bytes(*self as u16 as u128, 2)
    }

    fn stable_hash(&self, state: &mut StableHasher) {
        state.write_i16(*self);
    }
}

impl StableHash for i32 {
    open spec fn stable_bytes(&self) -> Seq<u8> {
        le_bytes(*self as u32 as u128, 4)
    }

    fn stable_hash(&self, state: &mut StableHasher) {
        state.write_i32(*self);
    }
}

impl StableHash for i64 {
    open spec fn stable_bytes(&self) -> Seq<u8> {
        le_bytes(*self as u64 as u128, 8)
    }

    fn stable_hash(&self, state: &mut StableHasher) {
        state.write_i64(*self);
    }
}

impl StableHash for i128 {
    open spec fn stable_bytes(&self) -> Seq<u8> {
        le_bytes(*self as u128, 16)
    }

    fn stable_hash(&self, state: &mut StableHasher) {
        state.write_i128(*self);
    }
}

impl StableHash for isize {
    open spec fn stable_bytes(&self) -> Seq<u8> {
        seq![xor_fold_spec(*self as usize as u64)]
    }

    fn stable_hash(&self, state: &mut StableHasher) {
        state.write_isize(*self);
    }
}

/// A pair feeds its fields in order.
impl<A: StableHash, B: StableHash> StableHash for (A, B) {
    open spec fn stable_bytes(&self) -> Seq<u8> {
        self.0.stable_bytes() + self.1.stable_bytes()
    }

    fn stable_hash(&self, state: &mut StableHasher) {
        self.0.stable_hash(state);
        self.1.stable_hash(state);
        assert(state@ == old(state)@ + self.stable_bytes());
    }
}

/// A triple feeds its fields in order.
impl<A: StableHash, B: StableHash, C: StableHash> StableHash for (A, B, C) {
    open spec fn stable_bytes(&self) -> Seq<u8> {
        self.0.stable_bytes() + self.1.stable_bytes() + self.2.stable_bytes()
    }

    fn stable_hash(&self, state: &mut StableHasher) {
        self.0.stable_hash(state);
        self.1.stable_hash(state);
        self.2.stable_hash(state);
        assert(state@ == old(state)@ + self.stable_bytes());
    }
}

impl StableHash for bool {
    open spec fn stable_bytes(&self) -> Seq<u8> {
        seq![if *self { 1u8 } else { 0u8 }]
    }

    fn stable_hash(&self, state: &mut StableHasher) {
        state.write_u8(if *self { 1u8 } else { 0u8 });
    }
}

/// The checksum of a value: its stable bytes, digested and folded to a byte.
pub fn calc_csum<T: StableHash>(v: &T) -> (r: u8)
    ensures
        r == checksum_of(v.stable_bytes()),
{
    let mut hasher = StableHasher::new();
    v.stable_hash(&mut hasher);
    xor_fold(hasher.finish())
}

} // verus!
