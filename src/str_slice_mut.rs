use vstd::prelude::*;
use crate::range::{CharRange, SliceError};
use crate::str_slice::unicode_str;

verus! {

/// A borrowed view of a contiguous run of scalar values through which they
/// can be overwritten in place; its span cannot grow or shrink.
#[derive(Debug)]
pub struct unicode_str_mut<'a> {
    /// The viewed scalar values. Writing them writes the storage the view
    /// borrows from.
    pub chars: &'a mut [char],
}

impl<'a> View for unicode_str_mut<'a> {
    type V = Seq<char>;

    /// The viewed scalar values as they stand now.
    open spec fn view(&self) -> Seq<char> {
        self.chars@
    }
}

impl<'a> unicode_str_mut<'a> {
    /// The number of scalar values in this view.
    pub fn len(&self) -> (r: usize)
        ensures
            r == self@.len(),
    {
        self.chars.len()
    }

    /// The scalar values of this view.
    pub fn chars(&self) -> (r: &[char])
        ensures
            r@ == self@,
    {
        &*self.chars
    }

    /// A read-only view of the same run.
    pub fn as_view(&self) -> (r: unicode_str<'_>)
        ensures
            r@ == self@,
    {
        unicode_str::from_chars(&*self.chars)
    }

    /// Overwrites the scalar value at position `i`.
    pub fn set(&mut self, i: usize, c: char)
        requires
            i < old(self)@.len(),
        ensures
            final(self)@ == old(self)@.update(i as int, c),
            final(final(self).chars)@ == final(old(self).chars)@,
    {
        self.chars[i] = c;
    }

    /// The mutable sub-view that `range` selects, or why it selects none.
    /// Writes through the sub-view land in the matching part of this view;
    /// the rest is left as it is.
    pub fn get_mut(self, range: CharRange) -> (r: Result<unicode_str_mut<'a>, SliceError>)
        ensures
            match r {
                Ok(v) => {
                    let (begin, end) = range.bounds(self@.len());
                    &&& range.fits(self@.len())
                    &&& v@ == self@.subrange(begin, end)
                    &&& final(self.chars)@ == self@.subrange(0, begin) + final(v.chars)@
                        + self@.subrange(end, self@.len() as int)
                },
                Err(e) => {
                    &&& !range.fits(self@.len())
                    &&& range.resolved(self@.len()) == Err::<(int, int), SliceError>(e)
                    &&& final(self.chars)@ == self@
                },
            },
    {
        match range.into_slice_range(self.chars.len()) {
            Ok((begin, end)) => {
                let (left, _) = self.chars.split_at_mut(end);
                let (_, mid) = left.split_at_mut(begin);
                Ok(unicode_str_mut { chars: mid })
            },
            Err(e) => Err(e),
        }
    }

    /// The mutable sub-view that `range` selects; the range must fit this view.
    pub fn index_mut(self, range: CharRange) -> (r: unicode_str_mut<'a>)
        requires
            range.fits(self.chars@.len()),
        ensures
            r@ == self@.subrange(
                range.bounds(self@.len()).0,
                range.bounds(self@.len()).1,
            ),
            final(self.chars)@ == self@.subrange(0, range.bounds(self@.len()).0)
                + final(r.chars)@ + self@.subrange(
                range.bounds(self@.len()).1,
                self@.len() as int,
            ),
    {
        match self.get_mut(range) {
            Ok(v) => v,
            Err(_) => {
                proof {
                    assert(false);
                }
                unicode_str_mut { chars: &mut [] }
            },
        }
    }
}

} // verus!
