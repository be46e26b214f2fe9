//! Text buffers for widget editing.
//!
//! [`ConstStr`] is a UTF-8 string with a fixed byte-capacity bound: a push
//! that would overflow it truncates at the last character boundary that
//! fits, never splitting a multi-byte character and never failing. The
//! [`TextBuf`] trait abstracts over it and over a plain unbounded
//! [`String`] so widgets can edit either.

use vstd::prelude::*;
use vstd::string::StrSliceExecFns;
use vstd::string::StringExecFns;
use vstd::string::StringSliceAdditionalSpecFns;
use vstd::utf8::decode_utf8;
use vstd::utf8::encode_utf8;
use vstd::utf8::is_char_boundary;
use vstd::utf8::is_continuation_byte;
use vstd::utf8::valid_utf8;

verus! {

broadcast use vstd::utf8::encode_utf8_valid_utf8;

/// The byte length of a string slice.
fn str_byte_len(s: &str) -> (n: usize)
    ensures
        n == s.spec_bytes().len(),
{
    s.as_bytes().len()
}

/// The error returned when a whole-string write does not fit the buffer.
#[derive(Clone, Copy, PartialEq, Eq, Structural, Debug)]
pub struct CapacityError;

/// The UTF-8 encoding of `a + b` is the concatenation of the two
/// encodings.
pub proof fn lemma_encode_utf8_concat(a: Seq<char>, b: Seq<char>)
    ensures
        encode_utf8(a + b) == encode_utf8(a) + encode_utf8(b),
    decreases a.len(),
{
    if a.len() == 0 {
        assert(a + b =~= b);
        assert(encode_utf8(a) + encode_utf8(b) =~= encode_utf8(b));
    } else {
        lemma_encode_utf8_concat(a.drop_first(), b);
        assert((a + b).drop_first() =~= a.drop_first() + b);
        assert((a + b)[0] == a[0]);
        assert(encode_utf8(a + b) =~= encode_utf8(a) + encode_utf8(b));
    }
}

/// The largest character boundary of `bytes` at or below `k`.
pub open spec fn boundary_before(bytes: Seq<u8>, k: int) -> int
    recommends
        valid_utf8(bytes),
        0 <= k,
    decreases k,
{
    if k <= 0 {
        0
    } else if is_char_boundary(bytes, k) {
        k
    } else {
        boundary_before(bytes, k - 1)
    }
}

/// Skipping over non-boundaries does not change the preceding boundary.
proof fn lemma_boundary_before_skip(bytes: Seq<u8>, k: int, m: int)
    requires
        0 <= k <= m,
        forall|j: int| k < j <= m ==> !is_char_boundary(bytes, j),
    ensures
        boundary_before(bytes, m) == boundary_before(bytes, k),
    decreases m - k,
{
    if m > k {
        lemma_boundary_before_skip(bytes, k, m - 1);
    }
}

/// The preceding boundary never exceeds its bound, and is itself a
/// boundary or zero.
pub proof fn lemma_boundary_before_le(bytes: Seq<u8>, k: int)
    requires
        0 <= k,
    ensures
        0 <= boundary_before(bytes, k) <= k,
        is_char_boundary(bytes, boundary_before(bytes, k)) || boundary_before(bytes, k) == 0,
    decreases k,
{
    if k > 0 && !is_char_boundary(bytes, k) {
        lemma_boundary_before_le(bytes, k - 1);
    }
}

/// How many bytes a push of `text_bytes` stores into a buffer that holds
/// `used` of `cap` bytes: everything if it fits, otherwise the longest
/// prefix ending on a character boundary that fits the free space.
pub open spec fn push_count(text_bytes: Seq<u8>, used: int, cap: int) -> int {
    let free = cap - used;
    if text_bytes.len() <= free {
        text_bytes.len() as int
    } else {
        boundary_before(text_bytes, free)
    }
}

/// A valid, non-empty UTF-8 sequence whose bytes beyond the first are all
/// continuation bytes encodes exactly one character.
proof fn lemma_single_scalar(sfx: Seq<u8>)
    requires
        valid_utf8(sfx),
        sfx.len() > 0,
        forall|j: int| 1 <= j < sfx.len() ==> is_continuation_byte(sfx[j]),
    ensures
        decode_utf8(sfx).len() == 1,
{
    let rest = vstd::utf8::pop_first_scalar(sfx);
    let l = vstd::utf8::length_of_first_scalar(sfx);
    assert(1 <= l <= sfx.len());
    if rest.len() > 0 {
        assert(is_char_boundary(rest, 0));
        vstd::utf8::is_char_boundary_iff_not_is_continuation_byte(rest, 0);
        assert(!is_continuation_byte(rest[0]));
        assert(rest[0] == sfx[l]);
        assert(false);
    }
    assert(decode_utf8(rest) =~= Seq::<char>::empty());
}

/// A text buffer of UTF-8 characters.
///
/// Pushing appends whole characters only, truncating at the capacity if
/// the buffer has one; the stored text stays valid UTF-8 by construction.
pub trait TextBuf {
    /// The characters currently stored.
    spec fn text(&self) -> Seq<char>;

    /// The capacity bound in bytes, or `None` for an unbounded buffer.
    spec fn byte_capacity(&self) -> Option<int>;

    /// The buffer's internal well-formedness.
    spec fn inv(&self) -> bool;

    /// The stored text as a string slice.
    fn as_str(&self) -> (r: &str)
        ensures
            r@ == self.text(),
    ;

    /// Appends as much of `text` as fits, whole characters only, and
    /// returns the number of bytes stored.
    fn push_str(&mut self, text: &str) -> (count: usize)
        requires
            old(self).inv(),
        ensures
            ({
                let tb = text.spec_bytes();
                let stored = match old(self).byte_capacity() {
                    Some(cap) => push_count(tb, encode_utf8(old(self).text()).len() as int, cap),
                    None => tb.len() as int,
                };
                &&& count == stored
                &&& encode_utf8(final(self).text()) == encode_utf8(old(self).text()) + tb.take(
                    count as int,
                )
                &&& final(self).byte_capacity() == old(self).byte_capacity()
                &&& final(self).inv()
            }),
    ;

    /// Removes the last character, if any.
    fn pop_char(&mut self)
        requires
            old(self).inv(),
        ensures
            old(self).text().len() == 0 ==> final(self).text() == old(self).text(),
            old(self).text().len() > 0 ==> final(self).text() == old(self).text().drop_last(),
            final(self).byte_capacity() == old(self).byte_capacity(),
            final(self).inv(),
    ;
}

/// A UTF-8 text buffer that never stores more than `N` bytes.
pub struct ConstStr<const N: usize> {
    s: String,
}

impl<const N: usize> View for ConstStr<N> {
    type V = Seq<char>;

    closed spec fn view(&self) -> Seq<char> {
        self.s@
    }
}

impl<const N: usize> ConstStr<N> {
    /// The stored bytes: the UTF-8 encoding of the stored text.
    pub open spec fn bytes(&self) -> Seq<u8> {
        encode_utf8(self@)
    }

    /// The byte bound always holds.
    pub open spec fn wf(&self) -> bool {
        self.bytes().len() <= N
    }

    /// An empty buffer.
    pub fn new() -> (r: ConstStr<N>)
        ensures
            r@ == Seq::<char>::empty(),
            r.wf(),
    {
        ConstStr { s: String::new() }
    }

    /// The number of bytes stored.
    pub fn len(&self) -> (r: usize)
        ensures
            r == self.bytes().len(),
    {
        str_byte_len(self.s.as_str())
    }

    /// The byte capacity `N`.
    pub fn capacity(&self) -> (r: usize)
        ensures
            r == N,
    {
        N
    }

    /// How many more bytes fit.
    pub fn free_space(&self) -> (r: usize)
        requires
            self.wf(),
        ensures
            r == N - self.bytes().len(),
    {
        N - str_byte_len(self.s.as_str())
    }

    /// Empties the buffer.
    pub fn clear(&mut self)
        ensures
            final(self)@ == Seq::<char>::empty(),
            final(self).wf(),
    {
        self.s = String::new();
    }

    /// Appends the whole of `text`, or returns an error (and stores
    /// nothing) when it does not fit the free space.
    pub fn write_str(&mut self, text: &str) -> (r: Result<(), CapacityError>)
        requires
            old(self).wf(),
        ensures
            r is Ok <==> text.spec_bytes().len() <= N - old(self).bytes().len(),
            r is Ok ==> final(self).bytes() == old(self).bytes() + text.spec_bytes(),
            r is Err ==> final(self)@ == old(self)@,
            final(self).wf(),
    {
        if str_byte_len(text) > self.free_space() {
            return Err(CapacityError);
        }
        let n = TextBuf::push_str(self, text);
        proof {
            assert(text.spec_bytes().take(text.spec_bytes().len() as int) =~= text.spec_bytes());
        }
        Ok(())
    }
}

impl<const N: usize> TextBuf for ConstStr<N> {
    open spec fn text(&self) -> Seq<char> {
        self@
    }

    open spec fn byte_capacity(&self) -> Option<int> {
        Some(N as int)
    }

    open spec fn inv(&self) -> bool {
        self.wf()
    }

    fn as_str(&self) -> (r: &str) {
        self.s.as_str()
    }

    /// Appends every whole character of `text` that fits the free space
    /// and returns the number of bytes stored: all of `text` when it
    /// fits, otherwise the longest prefix that ends on a character
    /// boundary within the free space. A push never splits a multi-byte
    /// character.
    fn push_str(&mut self, text: &str) -> (count: usize) {
        let free = self.free_space();
        let text_len = str_byte_len(text);

        if text_len <= free {
            self.s.append(text);
            proof {
                lemma_encode_utf8_concat(old(self).s@, text@);
                assert(text.spec_bytes().take(text_len as int) =~= text.spec_bytes());
            }
            return text_len;
        }

        let mut k = free;
        while k > 0 && !text.is_char_boundary(k)
            invariant
                0 <= k <= free,
                free < text.spec_bytes().len(),
                forall|j: int| k < j <= free ==> !is_char_boundary(text.spec_bytes(), j),
            decreases k,
        {
            k = k - 1;
        }
        proof {
            let tb = text.spec_bytes();
            lemma_boundary_before_skip(tb, k as int, free as int);
            lemma_boundary_before_le(tb, k as int);
            if k == 0 {
                assert(is_char_boundary(tb, 0));
            }
            assert(boundary_before(tb, k as int) == k as int);
        }
        let (prefix, _rest) = text.split_at(k);
        self.s.append(prefix);
        proof {
            lemma_encode_utf8_concat(old(self).s@, prefix@);
            assert(prefix.spec_bytes() =~= text.spec_bytes().take(k as int));
        }
        k
    }

    /// Removes the last character, if any: the stored bytes shrink by
    /// exactly that character's encoding.
    fn pop_char(&mut self) {
        let shorter = pop_last_char(&self.s);
        proof {
            if old(self)@.len() > 0 {
                lemma_encode_utf8_concat(old(self)@.drop_last(), seq![old(self)@.last()]);
                assert(old(self)@.drop_last() + seq![old(self)@.last()] =~= old(self)@);
            }
        }
        self.s = shorter;
    }
}

impl TextBuf for String {
    open spec fn text(&self) -> Seq<char> {
        self@
    }

    open spec fn byte_capacity(&self) -> Option<int> {
        None
    }

    open spec fn inv(&self) -> bool {
        true
    }

    fn as_str(&self) -> (r: &str) {
        self.as_str()
    }

    /// Appends the whole of `text` and returns its length in bytes: an
    /// unbounded buffer never truncates.
    fn push_str(&mut self, text: &str) -> (count: usize) {
        let n = str_byte_len(text);
        self.append(text);
        proof {
            lemma_encode_utf8_concat(old(self)@, text@);
            assert(text.spec_bytes().take(text.spec_bytes().len() as int) =~= text.spec_bytes());
        }
        n
    }

    /// Removes the last character, if any.
    fn pop_char(&mut self) {
        let shorter = pop_last_char(self);
        *self = shorter;
    }
}

/// A copy of `s` with its last character removed (empty stays empty).
fn pop_last_char(s: &String) -> (r: String)
    ensures
        s@.len() == 0 ==> r@ == s@,
        s@.len() > 0 ==> r@ == s@.drop_last(),
{
    let n = str_byte_len(s.as_str());
    if n == 0 {
        proof {
            if s@.len() > 0 {
                vstd::utf8::encode_utf8_first_scalar(s@);
            }
            assert(s@ =~= Seq::<char>::empty());
        }
        return String::new();
    }
    let mut k = n - 1;
    while k > 0 && !s.as_str().is_char_boundary(k)
        invariant
            0 <= k < encode_utf8(s@).len(),
            n == encode_utf8(s@).len(),
            forall|j: int| k < j < n ==> !is_char_boundary(encode_utf8(s@), j),
        decreases k,
    {
        k = k - 1;
    }
    proof {
        let whole = encode_utf8(s@);
        assert(is_char_boundary(whole, k as int));
        assert forall|j: int| k < j < whole.len() implies is_continuation_byte(whole[j]) by {
            vstd::utf8::is_char_boundary_iff_not_is_continuation_byte(whole, j);
        }
        vstd::utf8::decode_utf8_split(whole, k as int);
        vstd::utf8::encode_utf8_decode_utf8(s@);
        vstd::utf8::valid_utf8_split(whole, k as int);
        let pre = whole.subrange(0, k as int);
        let sfx = whole.subrange(k as int, whole.len() as int);
        lemma_single_scalar(sfx);
        assert(s@ == decode_utf8(pre) + decode_utf8(sfx));
        assert(s@.len() == decode_utf8(pre).len() + 1);
        assert(decode_utf8(pre) =~= s@.drop_last());
    }
    let (prefix, _rest) = s.as_str().split_at(k);
    proof {
        vstd::utf8::encode_utf8_decode_utf8(prefix@);
        assert(prefix.spec_bytes() =~= encode_utf8(s@).subrange(0, k as int));
    }
    prefix.to_owned()
}

} // verus!
