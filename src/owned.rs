use std::cmp::Ordering;
use vstd::prelude::*;
use vstd::utf8::{decode_utf8, valid_utf8};
use crate::decode_error::FromUtf8Error;
use crate::range::{CharRange, SliceError};
use crate::std_calls::vec_capacity;
use crate::str_slice::{lex_cmp, unicode_str};
use crate::str_slice_mut::unicode_str_mut;

verus! {

broadcast use vstd::string::axiom_spec_iter;

/// An owned, growable sequence of Unicode scalar values.
#[derive(Debug, Eq, Ord)]
pub struct UnicodeString {
    vec: Vec<char>,
}

impl View for UnicodeString {
    type V = Seq<char>;

    closed spec fn view(&self) -> Seq<char> {
        self.vec@
    }
}

impl UnicodeString {
    pub(crate) fn from_vec(vec: Vec<char>) -> (r: UnicodeString)
        ensures
            r@ == vec@,
    {
        UnicodeString { vec }
    }

    /// An empty buffer; nothing is allocated.
    pub fn new() -> (r: UnicodeString)
        ensures
            r@ == Seq::<char>::empty(),
    {
        UnicodeString { vec: Vec::new() }
    }

    /// An empty buffer with room for at least `capacity` scalar values.
    pub fn with_capacity(capacity: usize) -> (r: UnicodeString)
        ensures
            r@ == Seq::<char>::empty(),
    {
        UnicodeString { vec: Vec::with_capacity(capacity) }
    }

    /// A buffer holding the scalar values of `s`.
    pub fn from_string(s: &str) -> (r: UnicodeString)
        ensures
            r@ == s@,
    {
        let mut vec: Vec<char> = Vec::new();
        for c in it: s.chars()
            invariant
                vec@ == it.seq().subrange(0, it.index()),
        {
            assert(it.seq().subrange(0, it.index() + 1) =~= vec@.push(c));
            vec.push(c);
        }
        UnicodeString { vec }
    }

    /// Decodes `vec` as UTF-8. On failure the error holds `vec` unchanged.
    pub fn from_utf8(vec: Vec<u8>) -> (r: Result<UnicodeString, FromUtf8Error>)
        ensures
            r is Ok <==> valid_utf8(vec@),
            r matches Ok(s) ==> s@ == decode_utf8(vec@),
            r matches Err(e) ==> e@ == vec@,
    {
        match core::str::from_utf8(vec.as_slice()) {
            Ok(s) => Ok(UnicodeString::from_string(s)),
            Err(e) => Err(FromUtf8Error::new(vec, e)),
        }
    }

    /// The number of scalar values the buffer can hold without reallocating.
    pub fn capacity(&self) -> (r: usize)
        ensures
            r >= self@.len(),
    {
        vec_capacity(&self.vec)
    }

    /// The number of scalar values (not bytes) in the buffer.
    pub fn len(&self) -> (r: usize)
        ensures
            r == self@.len(),
    {
        self.vec.len()
    }

    /// Appends `ch`. The elements already there keep their positions.
    pub fn push(&mut self, ch: char)
        ensures
            final(self)@ == old(self)@.push(ch),
            final(self)@.len() == old(self)@.len() + 1,
            final(self)@.subrange(0, old(self)@.len() as int) == old(self)@,
            final(self)@[old(self)@.len() as int] == ch,
    {
        self.vec.push(ch);
        assert(self.vec@.subrange(0, old(self)@.len() as int) =~= old(self)@);
    }

    /// A read-only view of the whole buffer.
    pub fn as_view(&self) -> (r: unicode_str<'_>)
        ensures
            r@ == self@,
    {
        unicode_str::from_chars(self.vec.as_slice())
    }

    /// A mutable view of the whole buffer; writes through it land in the buffer.
    pub fn as_view_mut(&mut self) -> (r: unicode_str_mut<'_>)
        ensures
            r@ == old(self)@,
            final(self)@ == final(r.chars)@,
    {
        unicode_str::from_chars_mut(self.vec.as_mut_slice())
    }

    /// The view of the run that `range` selects, or why it selects none.
    pub fn get(&self, range: CharRange) -> (r: Result<unicode_str<'_>, SliceError>)
        ensures
            match r {
                Ok(v) => range.fits(self@.len()) && v@ == self@.subrange(
                    range.bounds(self@.len()).0,
                    range.bounds(self@.len()).1,
                ),
                Err(e) => !range.fits(self@.len()) && range.resolved(self@.len()) == Err::<
                    (int, int),
                    SliceError,
                >(e),
            },
    {
        self.as_view().get(range)
    }

    /// The view of the run that `range` selects; the range must fit the buffer.
    pub fn index(&self, range: CharRange) -> (r: unicode_str<'_>)
        requires
            range.fits(self@.len()),
        ensures
            r@ == self@.subrange(range.bounds(self@.len()).0, range.bounds(self@.len()).1),
    {
        self.as_view().index(range)
    }

    /// A mutable view of the run that `range` selects, or why it selects none.
    /// Writes through it land in that run of the buffer.
    pub fn get_mut(&mut self, range: CharRange) -> (r: Result<unicode_str_mut<'_>, SliceError>)
        ensures
            match r {
                Ok(v) => {
                    let (begin, end) = range.bounds(old(self)@.len());
                    &&& range.fits(old(self)@.len())
                    &&& v@ == old(self)@.subrange(begin, end)
                    &&& final(self)@ == old(self)@.subrange(0, begin) + final(v.chars)@
                        + old(self)@.subrange(end, old(self)@.len() as int)
                },
                Err(e) => {
                    &&& !range.fits(old(self)@.len())
                    &&& range.resolved(old(self)@.len()) == Err::<(int, int), SliceError>(e)
                    &&& final(self)@ == old(self)@
                },
            },
    {
        self.as_view_mut().get_mut(range)
    }

    /// A mutable view of the run that `range` selects; the range must fit the
    /// buffer. Writes through it land in that run of the buffer.
    pub fn index_mut(&mut self, range: CharRange) -> (r: unicode_str_mut<'_>)
        requires
            range.fits(old(self)@.len()),
        ensures
            r@ == old(self)@.subrange(
                range.bounds(old(self)@.len()).0,
                range.bounds(old(self)@.len()).1,
            ),
            final(self)@ == old(self)@.subrange(0, range.bounds(old(self)@.len()).0)
                + final(r.chars)@ + old(self)@.subrange(
                range.bounds(old(self)@.len()).1,
                old(self)@.len() as int,
            ),
    {
        self.as_view_mut().index_mut(range)
    }
}

impl PartialEq for UnicodeString {
    fn eq(&self, other: &UnicodeString) -> (r: bool) {
        self.as_view().eq(&other.as_view())
    }
}

impl vstd::std_specs::cmp::PartialEqSpecImpl for UnicodeString {
    open spec fn obeys_eq_spec() -> bool {
        true
    }

    open spec fn eq_spec(&self, other: &UnicodeString) -> bool {
        self@ == other@
    }
}

impl<'a> PartialEq<unicode_str<'a>> for UnicodeString {
    fn eq(&self, other: &unicode_str<'a>) -> (r: bool) {
        self.as_view().eq(other)
    }
}

impl<'a> vstd::std_specs::cmp::PartialEqSpecImpl<unicode_str<'a>> for UnicodeString {
    open spec fn obeys_eq_spec() -> bool {
        true
    }

    open spec fn eq_spec(&self, other: &unicode_str<'a>) -> bool {
        self@ == other@
    }
}

impl<'a> PartialEq<UnicodeString> for unicode_str<'a> {
    fn eq(&self, other: &UnicodeString) -> (r: bool) {
        self.eq(&other.as_view())
    }
}

impl<'a> vstd::std_specs::cmp::PartialEqSpecImpl<UnicodeString> for unicode_str<'a> {
    open spec fn obeys_eq_spec() -> bool {
        true
    }

    open spec fn eq_spec(&self, other: &UnicodeString) -> bool {
        self@ == other@
    }
}

impl PartialOrd for UnicodeString {
    fn partial_cmp(&self, other: &UnicodeString) -> (r: Option<Ordering>) {
        Some(self.as_view().compare(&other.as_view()))
    }
}

impl vstd::std_specs::cmp::PartialOrdSpecImpl for UnicodeString {
    open spec fn obeys_partial_cmp_spec() -> bool {
        true
    }

    open spec fn partial_cmp_spec(&self, other: &UnicodeString) -> Option<Ordering> {
        Some(lex_cmp(self@, other@))
    }
}

impl Clone for UnicodeString {
    fn clone(&self) -> (r: UnicodeString)
        ensures
            r@ == self@,
    {
        let vec = self.vec.clone();
        assert(vec@ =~= self.vec@);
        UnicodeString { vec }
    }
}

} // verus!
