use vstd::prelude::*;

verus! {

/// A range of character positions, in each of the forms a view can be sliced by.
#[derive(Clone, Copy, Debug, PartialEq, Eq, Structural)]
pub enum CharRange {
    /// `..`: the whole view.
    Full,
    /// `begin..end`: half-open.
    Range(usize, usize),
    /// `begin..`: from `begin` to the end of the view.
    From(usize),
    /// `..end`: from the start of the view up to `end`, exclusive.
    To(usize),
    /// `begin..=end`: closed.
    Inclusive(usize, usize),
    /// `..=end`: from the start of the view up to `end`, inclusive.
    ToInclusive(usize),
}

/// Why a range cannot select a run of a view.
#[derive(Clone, Copy, Debug, PartialEq, Eq, Structural)]
pub enum SliceError {
    /// The range is inverted (`begin > end`) or ends past the view.
    InvalidRange,
    /// A closed range ends at `usize::MAX`, so its exclusive end cannot be formed.
    IndexOverflow,
}

impl CharRange {
    /// A closed range whose last position is `usize::MAX`.
    pub open spec fn overflows(self) -> bool {
        match self {
            CharRange::Inclusive(_, end) => end == usize::MAX,
            CharRange::ToInclusive(end) => end == usize::MAX,
            _ => false,
        }
    }

    /// The half-open bounds `[begin, end)` this range stands for on a view of
    /// `len` characters (meaningful when the range does not overflow).
    pub open spec fn bounds(self, len: nat) -> (int, int) {
        match self {
            CharRange::Full => (0, len as int),
            CharRange::Range(begin, end) => (begin as int, end as int),
            CharRange::From(begin) => (begin as int, len as int),
            CharRange::To(end) => (0, end as int),
            CharRange::Inclusive(begin, end) => (begin as int, end + 1),
            CharRange::ToInclusive(end) => (0, end + 1),
        }
    }

    /// The range selects a run of a view of `len` characters.
    pub open spec fn fits(self, len: nat) -> bool {
        &&& !self.overflows()
        &&& 0 <= self.bounds(len).0 <= self.bounds(len).1 <= len
    }

    /// What slicing a view of `len` characters by this range gives: the
    /// half-open bounds, or the reason it fails. Overflow is reported first.
    pub open spec fn resolved(self, len: nat) -> Result<(int, int), SliceError> {
        if self.overflows() {
            Err(SliceError::IndexOverflow)
        } else if self.fits(len) {
            Ok(self.bounds(len))
        } else {
            Err(SliceError::InvalidRange)
        }
    }

    /// Rewrites the range as half-open bounds on a view of `len` characters,
    /// checking them.
    pub fn into_slice_range(self, len: usize) -> (r: Result<(usize, usize), SliceError>)
        ensures
            match r {
                Ok((begin, end)) => self.resolved(len as nat) == Ok::<(int, int), SliceError>(
                    (begin as int, end as int),
                ),
                Err(e) => self.resolved(len as nat) == Err::<(int, int), SliceError>(e),
            },
    {
        let (begin, end) = match self {
            CharRange::Full => (0, len),
            CharRange::Range(begin, end) => (begin, end),
            CharRange::From(begin) => (begin, len),
            CharRange::To(end) => (0, end),
            CharRange::Inclusive(begin, end) => {
                if end == usize::MAX {
                    return Err(SliceError::IndexOverflow);
                }
                (begin, end + 1)
            },
            CharRange::ToInclusive(end) => {
                if end == usize::MAX {
                    return Err(SliceError::IndexOverflow);
                }
                (0, end + 1)
            },
        };
        if begin <= end && end <= len {
            Ok((begin, end))
        } else {
            Err(SliceError::InvalidRange)
        }
    }
}

} // verus!
