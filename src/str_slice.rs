use std::cmp::Ordering;
use vstd::prelude::*;
use vstd::slice::slice_to_vec;
use crate::range::{CharRange, SliceError};
use crate::owned::UnicodeString;
use crate::str_slice_mut::unicode_str_mut;

verus! {

/// Lexicographic order of two runs of scalar values, comparing scalar values
/// by code point; a proper prefix comes first.
pub open spec fn lex_cmp(a: Seq<char>, b: Seq<char>) -> Ordering
    decreases a.len(),
{
    if a.len() == 0 {
        if b.len() == 0 {
            Ordering::Equal
        } else {
            Ordering::Less
        }
    } else if b.len() == 0 {
        Ordering::Greater
    } else if a[0] < b[0] {
        Ordering::Less
    } else if a[0] > b[0] {
        Ordering::Greater
    } else {
        lex_cmp(a.drop_first(), b.drop_first())
    }
}

/// A borrowed, read-only view of a contiguous run of scalar values.
#[derive(Clone, Copy, Debug, Eq, Ord)]
pub struct unicode_str<'a> {
    chars: &'a [char],
}

impl<'a> View for unicode_str<'a> {
    type V = Seq<char>;

    closed spec fn view(&self) -> Seq<char> {
        self.chars@
    }
}

impl<'a> unicode_str<'a> {
    /// A view of the given scalar values.
    pub fn from_chars(v: &'a [char]) -> (r: unicode_str<'a>)
        ensures
            r@ == v@,
    {
        unicode_str { chars: v }
    }

    /// A mutable view of the given scalar values; writes through it land in `v`.
    pub fn from_chars_mut(v: &'a mut [char]) -> (r: unicode_str_mut<'a>)
        ensures
            r@ == old(v)@,
            final(r.chars)@ == final(v)@,
    {
        unicode_str_mut { chars: v }
    }

    /// The scalar values of this view.
    pub fn chars(&self) -> (r: &'a [char])
        ensures
            r@ == self@,
    {
        self.chars
    }

    /// The number of scalar values (not bytes) in this view.
    pub fn len(&self) -> (r: usize)
        ensures
            r == self@.len(),
    {
        self.chars.len()
    }

    /// The sub-view that `range` selects, or why it selects none.
    pub fn get(&self, range: CharRange) -> (r: Result<unicode_str<'a>, SliceError>)
        ensures
            match r {
                Ok(v) => range.fits(self@.len()) && v@ == self@.subrange(
                    range.bounds(self@.len()).0,
                    range.bounds(self@.len()).1,
                ),
                Err(e) => !range.fits(self@.len()) && range.resolved(self@.len()) == Err::<
                    (int, int),
                    SliceError,
                >(e),
            },
    {
        match range.into_slice_range(self.chars.len()) {
            Ok((begin, end)) => Ok(unicode_str { chars: &self.chars[begin..end] }),
            Err(e) => Err(e),
        }
    }

    /// The sub-view that `range` selects; the range must fit this view.
    pub fn index(&self, range: CharRange) -> (r: unicode_str<'a>)
        requires
            range.fits(self@.len()),
        ensures
            r@ == self@.subrange(range.bounds(self@.len()).0, range.bounds(self@.len()).1),
    {
        match self.get(range) {
            Ok(v) => v,
            Err(_) => {
                proof {
                    assert(false);
                }
                *self
            },
        }
    }

    /// A new buffer holding a copy of this view's scalar values.
    pub fn to_owned(&self) -> (r: UnicodeString)
        ensures
            r@ == self@,
    {
        UnicodeString::from_vec(slice_to_vec(self.chars))
    }

    /// Replaces the content of `target` with a copy of this view's scalar values.
    pub fn clone_into(&self, target: &mut UnicodeString)
        ensures
            final(target)@ == self@,
    {
        *target = self.to_owned();
    }

    /// The scalar values of this view as UTF-8 text.
    pub fn to_string(&self) -> (r: String)
        ensures
            r@ == self@,
    {
        let mut text = String::new();
        let n = self.chars.len();
        let mut i: usize = 0;
        while i < n
            invariant
                i <= n,
                n == self@.len(),
                text@ == self@.subrange(0, i as int),
            decreases n - i,
        {
            text.push(self.chars[i]);
            assert(text@ =~= self@.subrange(0, i + 1));
            i = i + 1;
        }
        assert(self@ =~= self@.subrange(0, n as int));
        text
    }

    /// Compares two views lexicographically by code point.
    pub fn compare(&self, other: &unicode_str) -> (r: Ordering)
        ensures
            r == lex_cmp(self@, other@),
    {
        let n = self.chars.len();
        let m = other.chars.len();
        let mut i: usize = 0;
        assert(self@.skip(0) =~= self@);
        assert(other@.skip(0) =~= other@);
        while i < n && i < m
            invariant
                i <= n,
                i <= m,
                n == self@.len(),
                m == other@.len(),
                lex_cmp(self@, other@) == lex_cmp(self@.skip(i as int), other@.skip(i as int)),
            decreases n - i,
        {
            let a = self.chars[i];
            let b = other.chars[i];
            if a < b {
                return Ordering::Less;
            } else if a > b {
                return Ordering::Greater;
            }
            assert(self@.skip(i as int).drop_first() =~= self@.skip(i + 1));
            assert(other@.skip(i as int).drop_first() =~= other@.skip(i + 1));
            i = i + 1;
        }
        if i < n {
            Ordering::Greater
        } else if i < m {
            Ordering::Less
        } else {
            Ordering::Equal
        }
    }
}

impl<'a> Default for unicode_str<'a> {
    /// The empty view.
    fn default() -> (r: unicode_str<'a>)
        ensures
            r@ == Seq::<char>::empty(),
    {
        unicode_str { chars: &[] }
    }
}

impl<'a> PartialEq for unicode_str<'a> {
    fn eq(&self, other: &unicode_str<'a>) -> (r: bool) {
        let n = self.chars.len();
        if n != other.chars.len() {
            return false;
        }
        let mut i: usize = 0;
        while i < n
            invariant
                i <= n,
                n == self@.len(),
                n == other@.len(),
                self@.subrange(0, i as int) == other@.subrange(0, i as int),
            decreases n - i,
        {
            if self.chars[i] != other.chars[i] {
                assert(self@[i as int] != other@[i as int]);
                return false;
            }
            assert(self@.subrange(0, i + 1) =~= self@.subrange(0, i as int).push(self@[i as int]));
            assert(other@.subrange(0, i + 1) =~= other@.subrange(0, i as int).push(
                other@[i as int],
            ));
            i = i + 1;
        }
        assert(self@ =~= self@.subrange(0, n as int));
        assert(other@ =~= other@.subrange(0, n as int));
        true
    }
}

impl<'a> vstd::std_specs::cmp::PartialEqSpecImpl for unicode_str<'a> {
    open spec fn obeys_eq_spec() -> bool {
        true
    }

    open spec fn eq_spec(&self, other: &unicode_str<'a>) -> bool {
        self@ == other@
    }
}

impl<'a> PartialOrd for unicode_str<'a> {
    fn partial_cmp(&self, other: &unicode_str<'a>) -> (r: Option<Ordering>) {
        Some(self.compare(other))
    }
}

impl<'a> vstd::std_specs::cmp::PartialOrdSpecImpl for unicode_str<'a> {
    open spec fn obeys_partial_cmp_spec() -> bool {
        true
    }

    open spec fn partial_cmp_spec(&self, other: &unicode_str<'a>) -> Option<Ordering> {
        Some(lex_cmp(self@, other@))
    }
}

} // verus!
