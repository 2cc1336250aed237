//! Plain-old-data values that can be viewed as byte sequences and rebuilt
//! from them.
//!
//! Every castable value has a fixed size, its byte image has exactly that
//! size, reading the image back yields the value, and every byte pattern of
//! the right size is the image of some value.
use vstd::bytes::*;
use vstd::prelude::*;
use vstd::slice::slice_subrange;

verus! {

/// Error returned when a byte slice does not have the size of the value
/// to be read from it.
#[derive(Debug, Clone, Copy, PartialEq, Eq, Structural)]
pub struct SizeMismatch {
    /// Length of the slice that was given
    pub got: usize,
    /// Size of the value
    pub expected: usize,
}

/// A value with a fixed-size byte image, in which every byte pattern of that
/// size is the image of a value.
pub trait Castable: Sized {
    /// Size of the byte image.
    spec fn spec_size() -> nat;

    /// The byte image of the value.
    spec fn spec_bytes(&self) -> Seq<u8>;

    /// The value whose byte image is `b` (for `b` of the right size).
    spec fn spec_parse(b: Seq<u8>) -> Self;

    /// The image has the declared size, and reading it back gives the value.
    proof fn lemma_round_trip(&self)
        ensures
            self.spec_bytes().len() == Self::spec_size(),
            Self::spec_parse(self.spec_bytes()) == *self,
    ;

    /// Every byte pattern of the right size is the image of a value.
    proof fn lemma_every_pattern(b: Seq<u8>)
        requires
            b.len() == Self::spec_size(),
        ensures
            Self::spec_parse(b).spec_bytes() == b,
    ;

    /// Size of the byte image, in bytes.
    fn size() -> (r: usize)
        ensures
            r == Self::spec_size(),
    ;

    /// The byte image of the value.
    fn as_bytes(&self) -> (r: Vec<u8>)
        ensures
            r@ == self.spec_bytes(),
    ;

    /// Reads a value from a slice that has exactly the right size.
    fn from_exact(buf: &[u8]) -> (r: Self)
        requires
            buf@.len() == Self::spec_size(),
        ensures
            r == Self::spec_parse(buf@),
    ;
}

/// The value whose image is all zero bytes.
pub fn zeroed<T: Castable>() -> (r: T)
    ensures
        r.spec_bytes() == Seq::new(T::spec_size(), |_i: int| 0u8),
{
    let zeros: Vec<u8> = vec![0u8; T::size()];
    proof {
        assert(zeros@ =~= Seq::new(T::spec_size(), |_i: int| 0u8));
        T::lemma_every_pattern(zeros@);
    }
    T::from_exact(zeros.as_slice())
}

/// Reads a value from `buf`, which must have exactly the value's size.
pub fn from_bytes<T: Castable>(buf: &[u8]) -> (r: Result<T, SizeMismatch>)
    ensures
        match r {
            Ok(v) => buf@.len() == T::spec_size() && v == T::spec_parse(buf@),
            Err(e) => buf@.len() != T::spec_size() && e.got == buf@.len() && e.expected
                == T::spec_size(),
        },
{
    let expected = T::size();
    if buf.len() != expected {
        Err(SizeMismatch { got: buf.len(), expected })
    } else {
        Ok(T::from_exact(buf))
    }
}

/// Reads a value from `buf` at `*cursor`.  If enough bytes remain, the
/// cursor moves past the value; otherwise it stays and `None` comes back.
pub fn read_from_buf<T: Castable>(buf: &[u8], cursor: &mut usize) -> (r: Option<T>)
    requires
        *old(cursor) <= buf@.len(),
    ensures
        *old(cursor) + T::spec_size() <= buf@.len() ==> r == Some(
            T::spec_parse(buf@.subrange(*old(cursor) as int, *old(cursor) + T::spec_size())),
        ) && *final(cursor) == *old(cursor) + T::spec_size(),
        *old(cursor) + T::spec_size() > buf@.len() ==> r is None && *final(cursor)
            == *old(cursor),
{
    let size = T::size();
    let start = *cursor;
    if buf.len() - start < size {
        None
    } else {
        let v = T::from_exact(slice_subrange(buf, start, start + size));
        *cursor = start + size;
        Some(v)
    }
}

/// Reading back the byte image of a value gives the value, and values
/// with the same image are equal.
pub proof fn lemma_from_bytes_as_bytes<T: Castable>(x: T, y: T)
    ensures
        x.spec_bytes().len() == T::spec_size(),
        T::spec_parse(x.spec_bytes()) == x,
        x.spec_bytes() == y.spec_bytes() ==> x == y,
{
    x.lemma_round_trip();
    y.lemma_round_trip();
}

/// The byte images of the values of `s`, one after another.
pub open spec fn images<T: Castable>(s: Seq<T>) -> Seq<u8>
    decreases s.len(),
{
    if s.len() == 0 {
        Seq::empty()
    } else {
        images(s.drop_last()) + s.last().spec_bytes()
    }
}

/// The byte images of the values of a slice, one after another.
pub fn as_bytes<T: Castable>(obj: &[T]) -> (r: Vec<u8>)
    ensures
        r@ == images(obj@),
{
    let mut out: Vec<u8> = Vec::new();
    let mut i: usize = 0;
    while i < obj.len()
        invariant
            i <= obj@.len(),
            out@ == images(obj@.take(i as int)),
        decreases obj@.len() - i,
    {
        let mut b = obj[i].as_bytes();
        out.append(&mut b);
        proof {
            let t = obj@.take(i + 1);
            assert(t.drop_last() =~= obj@.take(i as int));
            assert(t.last() == obj@[i as int]);
        }
        i = i + 1;
    }
    assert(obj@.take(obj@.len() as int) =~= obj@);
    out
}

/// Returns its argument; restricted to castable values.
pub fn id<T: Castable>(arg: T) -> (r: T)
    ensures
        r == arg,
{
    arg
}

impl Castable for () {
    open spec fn spec_size() -> nat {
        0
    }

    open spec fn spec_bytes(&self) -> Seq<u8> {
        Seq::empty()
    }

    open spec fn spec_parse(b: Seq<u8>) -> Self {
        ()
    }

    proof fn lemma_round_trip(&self) {
    }

    proof fn lemma_every_pattern(b: Seq<u8>) {
        assert(b =~= Seq::empty());
    }

    fn size() -> (r: usize) {
        0
    }

    fn as_bytes(&self) -> (r: Vec<u8>) {
        Vec::new()
    }

    fn from_exact(buf: &[u8]) -> (r: Self) {
        ()
    }

}

impl Castable for u8 {
    open spec fn spec_size() -> nat {
        1
    }

    open spec fn spec_bytes(&self) -> Seq<u8> {
        seq![*self]
    }

    open spec fn spec_parse(b: Seq<u8>) -> Self {
        b[0]
    }

    proof fn lemma_round_trip(&self) {
    }

    proof fn lemma_every_pattern(b: Seq<u8>) {
        assert(b =~= seq![b[0]]);
    }

    fn size() -> (r: usize) {
        1
    }

    fn as_bytes(&self) -> (r: Vec<u8>) {
        let mut v = Vec::new();
        v.push(*self);
        assert(v@ =~= seq![*self]);
        v
    }

    fn from_exact(buf: &[u8]) -> (r: Self) {
        buf[0]
    }

}

impl Castable for u16 {
    open spec fn spec_size() -> nat {
        2
    }

    open spec fn spec_bytes(&self) -> Seq<u8> {
        spec_u16_to_le_bytes(*self)
    }

    open spec fn spec_parse(b: Seq<u8>) -> Self {
        spec_u16_from_le_bytes(b)
    }

    proof fn lemma_round_trip(&self) {
        lemma_auto_spec_u16_to_from_le_bytes();
        assert(spec_u16_to_le_bytes(*self).len() == 2);
    }

    proof fn lemma_every_pattern(b: Seq<u8>) {
        lemma_auto_spec_u16_to_from_le_bytes();
    }

    fn size() -> (r: usize) {
        2
    }

    fn as_bytes(&self) -> (r: Vec<u8>) {
        u16_to_le_bytes(*self)
    }

    fn from_exact(buf: &[u8]) -> (r: Self) {
        u16_from_le_bytes(buf)
    }

}

impl Castable for u32 {
    open spec fn spec_size() -> nat {
        4
    }

    open spec fn spec_bytes(&self) -> Seq<u8> {
        spec_u32_to_le_bytes(*self)
    }

    open spec fn spec_parse(b: Seq<u8>) -> Self {
        spec_u32_from_le_bytes(b)
    }

    proof fn lemma_round_trip(&self) {
        lemma_auto_spec_u32_to_from_le_bytes();
        assert(spec_u32_to_le_bytes(*self).len() == 4);
    }

    proof fn lemma_every_pattern(b: Seq<u8>) {
        lemma_auto_spec_u32_to_from_le_bytes();
    }

    fn size() -> (r: usize) {
        4
    }

    fn as_bytes(&self) -> (r: Vec<u8>) {
        u32_to_le_bytes(*self)
    }

    fn from_exact(buf: &[u8]) -> (r: Self) {
        u32_from_le_bytes(buf)
    }

}

impl Castable for u64 {
    open spec fn spec_size() -> nat {
        8
    }

    open spec fn spec_bytes(&self) -> Seq<u8> {
        spec_u64_to_le_bytes(*self)
    }

    open spec fn spec_parse(b: Seq<u8>) -> Self {
        spec_u64_from_le_bytes(b)
    }

    proof fn lemma_round_trip(&self) {
        lemma_auto_spec_u64_to_from_le_bytes();
        assert(spec_u64_to_le_bytes(*self).len() == 8);
    }

    proof fn lemma_every_pattern(b: Seq<u8>) {
        lemma_auto_spec_u64_to_from_le_bytes();
    }

    fn size() -> (r: usize) {
        8
    }

    fn as_bytes(&self) -> (r: Vec<u8>) {
        u64_to_le_bytes(*self)
    }

    fn from_exact(buf: &[u8]) -> (r: Self) {
        u64_from_le_bytes(buf)
    }

}

impl Castable for i8 {
    open spec fn spec_size() -> nat {
        1
    }

    open spec fn spec_bytes(&self) -> Seq<u8> {
        seq![*self as u8]
    }

    open spec fn spec_parse(b: Seq<u8>) -> Self {
        b[0] as i8
    }

    proof fn lemma_round_trip(&self) {
        let x = *self;
        assert((x as u8) as i8 == x) by (bit_vector);
    }

    proof fn lemma_every_pattern(b: Seq<u8>) {
        let x = b[0];
        assert((x as i8) as u8 == x) by (bit_vector);
        assert(b =~= seq![b[0]]);
    }

    fn size() -> (r: usize) {
        1
    }

    fn as_bytes(&self) -> (r: Vec<u8>) {
        let mut v = Vec::new();
        v.push(*self as u8);
        assert(v@ =~= seq![*self as u8]);
        v
    }

    fn from_exact(buf: &[u8]) -> (r: Self) {
        buf[0] as i8
    }
}

impl Castable for i16 {
    open spec fn spec_size() -> nat {
        2
    }

    open spec fn spec_bytes(&self) -> Seq<u8> {
        spec_u16_to_le_bytes(*self as u16)
    }

    open spec fn spec_parse(b: Seq<u8>) -> Self {
        spec_u16_from_le_bytes(b) as i16
    }

    proof fn lemma_round_trip(&self) {
        lemma_auto_spec_u16_to_from_le_bytes();
        let x = *self;
        assert(spec_u16_to_le_bytes(x as u16).len() == 2);
        assert((x as u16) as i16 == x) by (bit_vector);
    }

    proof fn lemma_every_pattern(b: Seq<u8>) {
        lemma_auto_spec_u16_to_from_le_bytes();
        let x = spec_u16_from_le_bytes(b);
        assert((x as i16) as u16 == x) by (bit_vector);
    }

    fn size() -> (r: usize) {
        2
    }

    fn as_bytes(&self) -> (r: Vec<u8>) {
        u16_to_le_bytes(*self as u16)
    }

    fn from_exact(buf: &[u8]) -> (r: Self) {
        u16_from_le_bytes(buf) as i16
    }
}

impl Castable for i32 {
    open spec fn spec_size() -> nat {
        4
    }

    open spec fn spec_bytes(&self) -> Seq<u8> {
        spec_u32_to_le_bytes(*self as u32)
    }

    open spec fn spec_parse(b: Seq<u8>) -> Self {
        spec_u32_from_le_bytes(b) as i32
    }

    proof fn lemma_round_trip(&self) {
        lemma_auto_spec_u32_to_from_le_bytes();
        let x = *self;
        assert(spec_u32_to_le_bytes(x as u32).len() == 4);
        assert((x as u32) as i32 == x) by (bit_vector);
    }

    proof fn lemma_every_pattern(b: Seq<u8>) {
        lemma_auto_spec_u32_to_from_le_bytes();
        let x = spec_u32_from_le_bytes(b);
        assert((x as i32) as u32 == x) by (bit_vector);
    }

    fn size() -> (r: usize) {
        4
    }

    fn as_bytes(&self) -> (r: Vec<u8>) {
        u32_to_le_bytes(*self as u32)
    }

    fn from_exact(buf: &[u8]) -> (r: Self) {
        u32_from_le_bytes(buf) as i32
    }
}

impl Castable for i64 {
    open spec fn spec_size() -> nat {
        8
    }

    open spec fn spec_bytes(&self) -> Seq<u8> {
        spec_u64_to_le_bytes(*self as u64)
    }

    open spec fn spec_parse(b: Seq<u8>) -> Self {
        spec_u64_from_le_bytes(b) as i64
    }

    proof fn lemma_round_trip(&self) {
        lemma_auto_spec_u64_to_from_le_bytes();
        let x = *self;
        assert(spec_u64_to_le_bytes(x as u64).len() == 8);
        assert((x as u64) as i64 == x) by (bit_vector);
    }

    proof fn lemma_every_pattern(b: Seq<u8>) {
        lemma_auto_spec_u64_to_from_le_bytes();
        let x = spec_u64_from_le_bytes(b);
        assert((x as i64) as u64 == x) by (bit_vector);
    }

    fn size() -> (r: usize) {
        8
    }

    fn as_bytes(&self) -> (r: Vec<u8>) {
        u64_to_le_bytes(*self as u64)
    }

    fn from_exact(buf: &[u8]) -> (r: Self) {
        u64_from_le_bytes(buf) as i64
    }
}

/// Little-endian image of a sequence of 32-bit words.
pub open spec fn words_bytes(ws: Seq<u32>) -> Seq<u8>
    decreases ws.len(),
{
    if ws.len() == 0 {
        Seq::empty()
    } else {
        words_bytes(ws.drop_last()) + spec_u32_to_le_bytes(ws.last())
    }
}

/// The 32-bit words whose little-endian image is `b` (a trailing partial
/// word is ignored).
pub open spec fn words_of(b: Seq<u8>) -> Seq<u32> {
    Seq::new(b.len() / 4, |i: int| spec_u32_from_le_bytes(b.subrange(4 * i, 4 * i + 4)))
}

/// Each word occupies four bytes of the image, in order.
pub proof fn lemma_words_bytes(ws: Seq<u32>)
    ensures
        words_bytes(ws).len() == 4 * ws.len(),
        forall|i: int|
            0 <= i < ws.len() ==> #[trigger] words_bytes(ws).subrange(4 * i, 4 * i + 4)
                == spec_u32_to_le_bytes(ws[i]),
    decreases ws.len(),
{
    lemma_auto_spec_u32_to_from_le_bytes();
    if ws.len() > 0 {
        let init = ws.drop_last();
        lemma_words_bytes(init);
        let a = words_bytes(init);
        let b = spec_u32_to_le_bytes(ws.last());
        assert(b.len() == 4);
        assert forall|i: int| 0 <= i < ws.len() implies #[trigger] words_bytes(ws).subrange(
            4 * i,
            4 * i + 4,
        ) == spec_u32_to_le_bytes(ws[i]) by {
            if i < ws.len() - 1 {
                assert((a + b).subrange(4 * i, 4 * i + 4) =~= a.subrange(4 * i, 4 * i + 4));
                assert(init[i] == ws[i]);
            } else {
                assert((a + b).subrange(4 * i, 4 * i + 4) =~= b);
            }
        }
    }
}

/// Reading the words back from their image gives the words.
pub proof fn lemma_words_round_trip(ws: Seq<u32>)
    ensures
        words_bytes(ws).len() == 4 * ws.len(),
        words_of(words_bytes(ws)) == ws,
{
    lemma_words_bytes(ws);
    lemma_auto_spec_u32_to_from_le_bytes();
    let r = words_of(words_bytes(ws));
    assert forall|i: int| 0 <= i < ws.len() implies r[i] == ws[i] by {
        assert(words_bytes(ws).subrange(4 * i, 4 * i + 4) == spec_u32_to_le_bytes(ws[i]));
    }
    assert(r =~= ws);
}

/// Every byte sequence whose length is a multiple of four is the image of
/// its words.
pub proof fn lemma_words_every_pattern(b: Seq<u8>)
    requires
        b.len() % 4 == 0,
    ensures
        words_bytes(words_of(b)) == b,
        words_of(b).len() == b.len() / 4,
    decreases b.len(),
{
    lemma_auto_spec_u32_to_from_le_bytes();
    if b.len() > 0 {
        let n = b.len() - 4;
        let init = b.subrange(0, n);
        let tail = b.subrange(n, n + 4);
        lemma_words_every_pattern(init);
        assert(words_of(b).drop_last() =~= words_of(init)) by {
            assert forall|i: int| 0 <= i < init.len() / 4 implies words_of(b).drop_last()[i]
                == words_of(init)[i] by {
                assert(b.subrange(4 * i, 4 * i + 4) =~= init.subrange(4 * i, 4 * i + 4));
            }
        }
        assert(words_of(b).last() == spec_u32_from_le_bytes(tail));
        assert(spec_u32_to_le_bytes(spec_u32_from_le_bytes(tail)) == tail);
        assert(b =~= init + tail);
    } else {
        assert(b =~= Seq::empty());
    }
}

/// The little-endian image of `ws`.
pub fn encode_words(ws: &[u32]) -> (r: Vec<u8>)
    ensures
        r@ == words_bytes(ws@),
{
    let mut out: Vec<u8> = Vec::new();
    let mut i: usize = 0;
    while i < ws.len()
        invariant
            i <= ws@.len(),
            out@ == words_bytes(ws@.take(i as int)),
        decreases ws@.len() - i,
    {
        let mut b = u32_to_le_bytes(ws[i]);
        out.append(&mut b);
        proof {
            let t = ws@.take(i + 1);
            assert(t.drop_last() =~= ws@.take(i as int));
            assert(t.last() == ws@[i as int]);
        }
        i = i + 1;
    }
    assert(ws@.take(ws@.len() as int) =~= ws@);
    out
}

/// The 32-bit words of `buf`, whose length is a multiple of four.
pub fn decode_words(buf: &[u8]) -> (r: Vec<u32>)
    requires
        buf@.len() % 4 == 0,
    ensures
        r@ == words_of(buf@),
        r@.len() == buf@.len() / 4,
{
    let len = buf.len();
    let n = len / 4;
    let mut out: Vec<u32> = Vec::new();
    let mut i: usize = 0;
    while i < n
        invariant
            len == buf@.len(),
            n == len / 4,
            4 * n == len,
            i <= n,
            out@ == words_of(buf@).take(i as int),
        decreases n - i,
    {
        let w = u32_from_le_bytes(slice_subrange(buf, 4 * i, 4 * i + 4));
        out.push(w);
        assert(out@ =~= words_of(buf@).take(i + 1));
        i = i + 1;
    }
    assert(words_of(buf@).take(n as int) =~= words_of(buf@));
    out
}

/// The byte array whose contents are `b` (for `b` of length `N`).
pub open spec fn array_of<const N: usize>(b: Seq<u8>) -> [u8; N] {
    choose|a: [u8; N]| a@ == b
}

/// An array whose first `k` bytes are those of `b`.
proof fn array_with_prefix<const N: usize>(b: Seq<u8>, k: nat) -> (a: [u8; N])
    requires
        k <= N,
        b.len() == N,
    ensures
        a@.take(k as int) == b.take(k as int),
    decreases k,
{
    broadcast use vstd::array::axiom_spec_array_update;

    if k == 0 {
        let a: [u8; N] = arbitrary();
        assert(a@.take(0) =~= b.take(0));
        a
    } else {
        let a0 = array_with_prefix::<N>(b, (k - 1) as nat);
        let a = vstd::array::spec_array_update(a0, k - 1, b[k - 1]);
        assert forall|i: int| 0 <= i < k - 1 implies a0@[i] == b[i] by {
            assert(a0@.take(k - 1)[i] == b.take(k - 1)[i]);
        }
        assert(a@.take(k as int) =~= b.take(k as int));
        a
    }
}

/// Every byte sequence of length `N` is the contents of an array.
pub proof fn lemma_array_of<const N: usize>(b: Seq<u8>)
    requires
        b.len() == N,
    ensures
        array_of::<N>(b)@ == b,
{
    let w = array_with_prefix::<N>(b, N as nat);
    assert(w@ =~= b) by {
        assert(w@.take(N as int) =~= w@);
        assert(b.take(N as int) =~= b);
    }
}

/// An array is determined by its contents.
pub proof fn lemma_array_of_view<const N: usize>(a: [u8; N])
    ensures
        array_of::<N>(a@) == a,
{
    broadcast use vstd::array::axiom_array_ext_equal, vstd::array::lemma_array_index;

    let c = array_of::<N>(a@);
    assert(c@ == a@);
    assert(c =~= a) by {
        assert forall|i: int| 0 <= i < N implies c[i] == a[i] by {
            assert(c@[i] == a@[i]);
        }
    }
}

/// Copies a slice of length `N` into an array.
pub fn array_from_slice<const N: usize>(buf: &[u8]) -> (r: [u8; N])
    requires
        buf@.len() == N,
    ensures
        r@ == buf@,
        r == array_of::<N>(buf@),
{
    let mut a = [0u8; N];
    let mut i: usize = 0;
    while i < N
        invariant
            i <= N,
            buf@.len() == N,
            a@.len() == N,
            a@.take(i as int) == buf@.take(i as int),
        decreases N - i,
    {
        a[i] = buf[i];
        assert(a@.take(i + 1) =~= buf@.take(i + 1));
        i = i + 1;
    }
    assert(a@ =~= buf@) by {
        assert(a@.take(N as int) =~= a@);
        assert(buf@.take(N as int) =~= buf@);
    }
    proof {
        lemma_array_of_view::<N>(a);
    }
    a
}

/// Appends the contents of an array to `out`.
pub fn push_array<const N: usize>(out: &mut Vec<u8>, a: &[u8; N])
    ensures
        final(out)@ == old(out)@ + a@,
{
    let mut i: usize = 0;
    while i < N
        invariant
            i <= N,
            a@.len() == N,
            out@ == old(out)@ + a@.take(i as int),
        decreases N - i,
    {
        out.push(a[i]);
        assert(a@.take(i + 1) =~= a@.take(i as int).push(a@[i as int]));
        i = i + 1;
    }
    assert(a@.take(N as int) =~= a@);
}

} // verus!
