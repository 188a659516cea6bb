//! Scalar element types: byte width, zero and one values, and the canonical
//! little-endian byte encoding used for accelerator uploads and downloads.

use vstd::arithmetic::div_mod::{lemma_mod_add_multiples_vanish, lemma_mod_sub_multiples_vanish, lemma_small_mod, lemma_sub_mod_noop};
use vstd::prelude::*;
use vstd::slice::{slice_index_get, slice_subrange};

verus! {

/// A numeric element type a tensor may hold. Every other component consumes
/// this descriptor for its byte arithmetic: `spec_size` is the byte width of
/// one element, and `spec_to_bytes` / `spec_from_bytes` fix the canonical
/// little-endian encoding of an element.
pub trait Scalar: Copy + Sized {
    /// Byte width of one element.
    spec fn spec_size() -> usize;

    /// The zero element.
    spec fn spec_zero() -> Self;

    /// The one element.
    spec fn spec_one() -> Self;

    /// Canonical little-endian encoding of one element.
    spec fn spec_to_bytes(self) -> Seq<u8>;

    /// Decoding of one element from its canonical encoding.
    spec fn spec_from_bytes(bytes: Seq<u8>) -> Self;

    /// An element occupies at least one and at most eight bytes.
    proof fn lemma_size_bounds()
        ensures
            0 < Self::spec_size() <= 8,
    ;

    /// Encoding an element yields exactly `spec_size` bytes, and decoding
    /// them yields the element back.
    proof fn lemma_round_trip(x: Self)
        ensures
            x.spec_to_bytes().len() == Self::spec_size(),
            Self::spec_from_bytes(x.spec_to_bytes()) == x,
    ;

    /// The zero element encodes to all-zero bytes.
    proof fn lemma_zero_bytes()
        ensures
            Self::spec_zero().spec_to_bytes() == Seq::new(
                Self::spec_size() as nat,
                |i: int| 0u8,
            ),
    ;

    fn size() -> (r: usize)
        ensures
            r == Self::spec_size(),
    ;

    fn zero() -> (r: Self)
        ensures
            r == Self::spec_zero(),
    ;

    fn one() -> (r: Self)
        ensures
            r == Self::spec_one(),
    ;

    /// Appends the canonical encoding of `self` to `out`.
    fn append_bytes(self, out: &mut Vec<u8>)
        ensures
            final(out)@ == old(out)@ + self.spec_to_bytes(),
    ;

    /// Reads one element back from its canonical encoding.
    fn from_bytes(bytes: &[u8]) -> (r: Self)
        requires
            bytes@.len() == Self::spec_size(),
        ensures
            r == Self::spec_from_bytes(bytes@),
    ;
}

impl Scalar for u8 {
    open spec fn spec_size() -> usize {
        1
    }

    open spec fn spec_zero() -> Self {
        0u8
    }

    open spec fn spec_one() -> Self {
        1u8
    }

    open spec fn spec_to_bytes(self) -> Seq<u8> {
        seq![self]
    }

    open spec fn spec_from_bytes(bytes: Seq<u8>) -> Self {
        bytes[0]
    }

    proof fn lemma_size_bounds() {
    }

    proof fn lemma_round_trip(x: Self) {
    }

    proof fn lemma_zero_bytes() {
        assert(Self::spec_zero().spec_to_bytes() =~= Seq::new(1nat, |i: int| 0u8));
    }

    fn size() -> (r: usize) {
        1
    }

    fn zero() -> (r: Self) {
        0
    }

    fn one() -> (r: Self) {
        1
    }

    fn append_bytes(self, out: &mut Vec<u8>) {
        out.push(self);
        proof {
            assert(out@ =~= old(out)@ + self.spec_to_bytes());
        }
    }

    fn from_bytes(bytes: &[u8]) -> (r: Self) {
        bytes[0]
    }
}

impl Scalar for u16 {
    open spec fn spec_size() -> usize {
        2
    }

    open spec fn spec_zero() -> Self {
        0u16
    }

    open spec fn spec_one() -> Self {
        1u16
    }

    open spec fn spec_to_bytes(self) -> Seq<u8> {
        seq![(self % 256) as u8, (self / 256) as u8]
    }

    open spec fn spec_from_bytes(bytes: Seq<u8>) -> Self {
        (bytes[0] + bytes[1] * 256) as u16
    }

    proof fn lemma_size_bounds() {
    }

    proof fn lemma_round_trip(x: Self) {
        assert(x == x % 256 + x / 256 * 256) by (bit_vector);
    }

    proof fn lemma_zero_bytes() {
        assert(Self::spec_zero().spec_to_bytes() =~= Seq::new(2nat, |i: int| 0u8));
    }

    fn size() -> (r: usize) {
        2
    }

    fn zero() -> (r: Self) {
        0
    }

    fn one() -> (r: Self) {
        1
    }

    fn append_bytes(self, out: &mut Vec<u8>) {
        out.push((self % 256) as u8);
        out.push((self / 256) as u8);
        proof {
            assert(out@ =~= old(out)@ + self.spec_to_bytes());
        }
    }

    fn from_bytes(bytes: &[u8]) -> (r: Self) {
        let b0 = bytes[0] as u16;
        let b1 = bytes[1] as u16;
        b0 + b1 * 256
    }
}

impl Scalar for u32 {
    open spec fn spec_size() -> usize {
        4
    }

    open spec fn spec_zero() -> Self {
        0u32
    }

    open spec fn spec_one() -> Self {
        1u32
    }

    open spec fn spec_to_bytes(self) -> Seq<u8> {
        seq![
            (self % 256) as u8,
            ((self / 256) % 256) as u8,
            ((self / 65536) % 256) as u8,
            ((self / 16777216) % 256) as u8,
        ]
    }

    open spec fn spec_from_bytes(bytes: Seq<u8>) -> Self {
        (bytes[0] + bytes[1] * 256 + bytes[2] * 65536 + bytes[3] * 16777216) as u32
    }

    proof fn lemma_size_bounds() {
    }

    proof fn lemma_round_trip(x: Self) {
        assert(x == x % 256 + (x / 256) % 256 * 256 + (x / 65536) % 256 * 65536 + (x
            / 16777216) % 256 * 16777216) by (bit_vector);
    }

    proof fn lemma_zero_bytes() {
        assert(Self::spec_zero().spec_to_bytes() =~= Seq::new(4nat, |i: int| 0u8));
    }

    fn size() -> (r: usize) {
        4
    }

    fn zero() -> (r: Self) {
        0
    }

    fn one() -> (r: Self) {
        1
    }

    fn append_bytes(self, out: &mut Vec<u8>) {
        out.push((self % 256) as u8);
        out.push(((self / 256) % 256) as u8);
        out.push(((self / 65536) % 256) as u8);
        out.push(((self / 16777216) % 256) as u8);
        proof {
            assert(out@ =~= old(out)@ + self.spec_to_bytes());
        }
    }

    fn from_bytes(bytes: &[u8]) -> (r: Self) {
        let b0 = bytes[0] as u32;
        let b1 = bytes[1] as u32;
        let b2 = bytes[2] as u32;
        let b3 = bytes[3] as u32;
        b0 + b1 * 256 + b2 * 65536 + b3 * 16777216
    }
}

/// The canonical encoding of a whole element sequence: each element's
/// little-endian bytes, in element order.
pub open spec fn spec_encode<T: Scalar>(data: Seq<T>) -> Seq<u8>
    decreases data.len(),
{
    if data.len() == 0 {
        Seq::empty()
    } else {
        data.first().spec_to_bytes() + spec_encode(data.drop_first())
    }
}

/// The decoding of a byte sequence into elements, one element per
/// `T::spec_size()` bytes; a trailing fragment shorter than one element is
/// dropped.
pub open spec fn spec_decode<T: Scalar>(bytes: Seq<u8>) -> Seq<T>
    decreases bytes.len(),
{
    if T::spec_size() == 0 || bytes.len() < T::spec_size() {
        Seq::empty()
    } else {
        seq![T::spec_from_bytes(bytes.take(T::spec_size() as int))] + spec_decode::<T>(
            bytes.skip(T::spec_size() as int),
        )
    }
}

/// Encoding `n` elements yields exactly `n * T::spec_size()` bytes.
pub proof fn lemma_encode_len<T: Scalar>(data: Seq<T>)
    ensures
        spec_encode(data).len() == data.len() * T::spec_size(),
    decreases data.len(),
{
    if data.len() == 0 {
        assert(data.len() * T::spec_size() == 0) by (nonlinear_arith)
            requires
                data.len() == 0,
        ;
    } else {
        T::lemma_round_trip(data.first());
        lemma_encode_len::<T>(data.drop_first());
        assert(T::spec_size() + (data.len() - 1) * T::spec_size() == data.len()
            * T::spec_size()) by (nonlinear_arith);
    }
}

/// Appending one element to a sequence appends its bytes to the encoding.
pub proof fn lemma_encode_push<T: Scalar>(data: Seq<T>, x: T)
    ensures
        spec_encode(data.push(x)) == spec_encode(data) + x.spec_to_bytes(),
    decreases data.len(),
{
    if data.len() == 0 {
        assert(data.push(x).first() == x);
        assert(data.push(x).drop_first() =~= Seq::<T>::empty());
        assert(spec_encode(data.push(x)) == x.spec_to_bytes() + spec_encode(Seq::<T>::empty()));
        assert(spec_encode(Seq::<T>::empty()) == Seq::<u8>::empty());
        assert(spec_encode(data) == Seq::<u8>::empty());
        assert(spec_encode(data.push(x)) =~= spec_encode(data) + x.spec_to_bytes());
    } else {
        assert(data.push(x).first() == data.first());
        assert(data.push(x).drop_first() =~= data.drop_first().push(x));
        lemma_encode_push::<T>(data.drop_first(), x);
        assert(spec_encode(data.push(x)) == data.first().spec_to_bytes() + spec_encode(
            data.drop_first().push(x),
        ));
        assert(spec_encode(data.push(x)) =~= spec_encode(data) + x.spec_to_bytes());
    }
}

/// Decoding distributes over concatenation at an element boundary.
pub proof fn lemma_decode_concat<T: Scalar>(a: Seq<u8>, b: Seq<u8>)
    requires
        a.len() as int % (T::spec_size() as int) == 0,
    ensures
        spec_decode::<T>(a + b) == spec_decode::<T>(a) + spec_decode::<T>(b),
    decreases a.len(),
{
    T::lemma_size_bounds();
    let sz = T::spec_size() as int;
    if a.len() == 0 {
        assert(a + b =~= b);
        assert(spec_decode::<T>(a + b) =~= spec_decode::<T>(a) + spec_decode::<T>(b));
    } else {
        if a.len() < sz {
            lemma_small_mod(a.len(), T::spec_size() as nat);
            assert(false);
        }
        assert((a + b).len() >= sz);
        assert((a + b).take(sz) =~= a.take(sz));
        assert((a + b).skip(sz) =~= a.skip(sz) + b);
        lemma_mod_sub_multiples_vanish(a.len() as int, sz);
        assert(a.skip(sz).len() as int % sz == 0);
        lemma_decode_concat::<T>(a.skip(sz), b);
        assert(spec_decode::<T>(a + b) =~= spec_decode::<T>(a) + spec_decode::<T>(b));
    }
}

/// Decoding inverts encoding: reading back the exact bytes an element
/// sequence was encoded to yields that sequence again.
pub proof fn lemma_decode_encode<T: Scalar>(data: Seq<T>)
    ensures
        spec_decode::<T>(spec_encode(data)) == data,
    decreases data.len(),
{
    T::lemma_size_bounds();
    let sz = T::spec_size() as int;
    if data.len() == 0 {
        assert(spec_decode::<T>(spec_encode(data)) =~= data);
    } else {
        let x = data.first();
        T::lemma_round_trip(x);
        lemma_encode_len::<T>(data.drop_first());
        assert(spec_encode(data.drop_first()).len() == (data.len() - 1) * T::spec_size());
        assert((data.len() - 1) * T::spec_size() >= 0) by (nonlinear_arith)
            requires
                data.len() >= 1,
        ;
        assert(spec_encode(data).take(sz) =~= x.spec_to_bytes());
        assert(spec_encode(data).skip(sz) =~= spec_encode(data.drop_first()));
        lemma_decode_encode::<T>(data.drop_first());
        assert(spec_decode::<T>(spec_encode(data)) =~= data);
    }
}

/// A run of `n * T::spec_size()` zero bytes decodes to `n` zero elements.
pub proof fn lemma_decode_zero_bytes<T: Scalar>(n: nat)
    ensures
        spec_decode::<T>(Seq::new((n * T::spec_size()) as nat, |i: int| 0u8)) == Seq::new(
            n,
            |i: int| T::spec_zero(),
        ),
    decreases n,
{
    T::lemma_size_bounds();
    let sz = T::spec_size() as int;
    let zeros = Seq::new((n * T::spec_size()) as nat, |i: int| 0u8);
    if n == 0 {
        assert(zeros.len() == 0) by (nonlinear_arith)
            requires
                zeros.len() == n * T::spec_size() && n == 0,
        ;
        assert(spec_decode::<T>(zeros) =~= Seq::new(n, |i: int| T::spec_zero()));
    } else {
        assert(n * T::spec_size() >= 1 * T::spec_size()) by (nonlinear_arith)
            requires
                n >= 1,
        ;
        T::lemma_zero_bytes();
        T::lemma_round_trip(T::spec_zero());
        assert(zeros.take(sz) =~= T::spec_zero().spec_to_bytes());
        assert(T::spec_from_bytes(zeros.take(sz)) == T::spec_zero());
        assert((n - 1) * T::spec_size() == n * T::spec_size() - T::spec_size()) by (nonlinear_arith);
        assert(zeros.skip(sz) =~= Seq::new((((n - 1) as nat) * T::spec_size()) as nat, |i: int| 0u8));
        lemma_decode_zero_bytes::<T>((n - 1) as nat);
        assert(spec_decode::<T>(zeros) =~= Seq::new(n, |i: int| T::spec_zero()));
    }
}

/// A run of `n * T::spec_size()` bytes decodes to exactly `n` elements.
pub proof fn lemma_decode_len<T: Scalar>(bytes: Seq<u8>, n: nat)
    requires
        bytes.len() == n * T::spec_size(),
    ensures
        spec_decode::<T>(bytes).len() == n,
    decreases n,
{
    T::lemma_size_bounds();
    let sz = T::spec_size() as int;
    if n == 0 {
        assert(n * T::spec_size() == 0) by (nonlinear_arith)
            requires
                n == 0,
        ;
    } else {
        assert(n * T::spec_size() >= 1 * T::spec_size()) by (nonlinear_arith)
            requires
                n >= 1,
        ;
        assert(n * T::spec_size() - T::spec_size() == (n - 1) * T::spec_size()) by (nonlinear_arith);
        lemma_decode_len::<T>(bytes.skip(sz), (n - 1) as nat);
    }
}

/// Encodes an element sequence into its canonical little-endian byte run.
pub fn encode<T: Scalar>(data: &[T]) -> (r: Vec<u8>)
    ensures
        r@ == spec_encode(data@),
{
    let mut out: Vec<u8> = Vec::new();
    let n = data.len();
    let mut i: usize = 0;
    while i < n
        invariant
            i <= n,
            n == data@.len(),
            out@ == spec_encode(data@.take(i as int)),
        decreases n - i,
    {
        let x = *slice_index_get(data, i);
        proof {
            lemma_encode_push::<T>(data@.take(i as int), data@[i as int]);
            assert(data@.take(i + 1) =~= data@.take(i as int).push(data@[i as int]));
        }
        x.append_bytes(&mut out);
        i = i + 1;
    }
    proof {
        assert(data@.take(n as int) =~= data@);
    }
    out
}

/// Decodes a canonical byte run back into its element sequence.
pub fn decode<T: Scalar>(bytes: &[u8]) -> (r: Vec<T>)
    requires
        bytes@.len() as int % (T::spec_size() as int) == 0,
    ensures
        r@ == spec_decode::<T>(bytes@),
{
    proof {
        T::lemma_size_bounds();
    }
    let sz = T::size();
    let n = bytes.len();
    let mut out: Vec<T> = Vec::new();
    let mut off: usize = 0;
    while off < n
        invariant
            off <= n,
            n == bytes@.len(),
            off as int % (T::spec_size() as int) == 0,
            n as int % (T::spec_size() as int) == 0,
            sz == T::spec_size(),
            0 < sz <= 8,
            out@ == spec_decode::<T>(bytes@.take(off as int)),
        decreases n - off,
    {
        proof {
            lemma_sub_mod_noop(n as int, off as int, sz as int);
            lemma_small_mod(0nat, sz as nat);
            assert((n - off) as int % sz as int == 0);
            if n - off < sz {
                lemma_small_mod((n - off) as nat, sz as nat);
                assert(false);
            }
        }
        let chunk = slice_subrange(bytes, off, off + sz);
        let x = T::from_bytes(chunk);
        proof {
            let szi = sz as int;
            let taken = bytes@.take(off as int);
            let piece = bytes@.subrange(off as int, off + szi);
            assert(bytes@.take(off + szi) =~= taken + piece);
            lemma_decode_concat::<T>(taken, piece);
            assert(piece.len() == szi);
            assert(piece.take(szi) =~= piece);
            assert(piece.skip(szi) =~= Seq::<u8>::empty());
            assert(spec_decode::<T>(Seq::<u8>::empty()) == Seq::<T>::empty());
            assert(spec_decode::<T>(piece) == seq![T::spec_from_bytes(piece.take(szi))]
                + spec_decode::<T>(piece.skip(szi)));
            assert(spec_decode::<T>(piece) =~= seq![x]);
            lemma_mod_add_multiples_vanish(off as int, szi);
        }
        out.push(x);
        off = off + sz;
    }
    proof {
        assert(bytes@.take(n as int) =~= bytes@);
    }
    out
}

} // verus!
