//! Properties that relate several operations, proved over the models that
//! their contracts use.
use std::cmp::Ordering;
use vstd::prelude::*;
use crate::owned::UnicodeString;
use crate::range::{CharRange, SliceError};
use crate::str_slice::{lex_cmp, unicode_str};
use vstd::std_specs::cmp::{PartialEqSpec, PartialOrdSpec};

verus! {

/// Slicing a run of `len` characters by `begin..end` with
/// `begin <= end <= len` succeeds, selects positions `begin` up to `end`,
/// and the sub-view holds `end - begin` characters.
pub proof fn lemma_half_open_in_bounds(s: Seq<char>, begin: usize, end: usize)
    requires
        begin <= end <= s.len(),
    ensures
        CharRange::Range(begin, end).fits(s.len()),
        CharRange::Range(begin, end).resolved(s.len()) == Ok::<(int, int), SliceError>(
            (begin as int, end as int),
        ),
        CharRange::Range(begin, end).bounds(s.len()) == (begin as int, end as int),
        s.subrange(begin as int, end as int).len() == end - begin,
{
}

/// Slicing by `begin..end` with `begin > end` or `end` past the run fails
/// as an invalid range.
pub proof fn lemma_half_open_out_of_bounds(s: Seq<char>, begin: usize, end: usize)
    requires
        begin > end || end > s.len(),
    ensures
        !CharRange::Range(begin, end).fits(s.len()),
        CharRange::Range(begin, end).resolved(s.len()) == Err::<(int, int), SliceError>(
            SliceError::InvalidRange,
        ),
{
}

/// Slicing by `..` never fails, on an empty run too, and selects the whole run.
pub proof fn lemma_full_range(s: Seq<char>)
    ensures
        CharRange::Full.fits(s.len()),
        CharRange::Full.resolved(s.len()) == Ok::<(int, int), SliceError>((0, s.len() as int)),
        s.subrange(CharRange::Full.bounds(s.len()).0, CharRange::Full.bounds(s.len()).1) == s,
{
    assert(s.subrange(0, s.len() as int) =~= s);
}

/// A closed range ending at `usize::MAX` fails as an overflow, whatever it
/// starts at and however long the run is, not as an invalid range.
pub proof fn lemma_closed_range_at_max(s: Seq<char>, begin: usize)
    ensures
        CharRange::Inclusive(begin, usize::MAX).resolved(s.len()) == Err::<(int, int), SliceError>(
            SliceError::IndexOverflow,
        ),
        CharRange::ToInclusive(usize::MAX).resolved(s.len()) == Err::<(int, int), SliceError>(
            SliceError::IndexOverflow,
        ),
{
}

/// Copying out the full view of a buffer built from `t` gives a buffer equal
/// to it.
pub proof fn lemma_round_trip(t: &str, built: UnicodeString, view: unicode_str, owned: UnicodeString)
    requires
        built@ == t@,
        view@ == built@,
        owned@ == view@,
    ensures
        owned.eq_spec(&built),
{
}

/// Two runs are equal exactly when they compare as `Equal`.
pub proof fn lemma_lex_cmp_equal(a: Seq<char>, b: Seq<char>)
    ensures
        (a == b) <==> lex_cmp(a, b) == Ordering::Equal,
    decreases a.len(),
{
    if a.len() > 0 && b.len() > 0 {
        lemma_lex_cmp_equal(a.drop_first(), b.drop_first());
        if a[0] == b[0] && a.drop_first() == b.drop_first() {
            assert(a =~= seq![a[0]] + a.drop_first());
            assert(b =~= seq![b[0]] + b.drop_first());
        }
        if a == b {
            assert(a.drop_first() == b.drop_first());
        }
    } else if a.len() == 0 && b.len() == 0 {
        assert(a =~= b);
    }
}

/// Equality of views is reflexive, symmetric and transitive, and agrees with
/// their order.
pub proof fn lemma_view_eq(a: unicode_str, b: unicode_str, c: unicode_str)
    ensures
        a.eq_spec(&a),
        a.eq_spec(&b) == b.eq_spec(&a),
        a.eq_spec(&b) && b.eq_spec(&c) ==> a.eq_spec(&c),
        a.eq_spec(&b) <==> a.partial_cmp_spec(&b) == Some(Ordering::Equal),
{
    lemma_lex_cmp_equal(a@, b@);
}

/// Equality of buffers is reflexive, symmetric and transitive, and agrees
/// with their order.
pub proof fn lemma_buffer_eq(a: UnicodeString, b: UnicodeString, c: UnicodeString)
    ensures
        a.eq_spec(&a),
        a.eq_spec(&b) == b.eq_spec(&a),
        a.eq_spec(&b) && b.eq_spec(&c) ==> a.eq_spec(&c),
        a.eq_spec(&b) <==> a.partial_cmp_spec(&b) == Some(Ordering::Equal),
{
    lemma_lex_cmp_equal(a@, b@);
}

/// Swapping the operands turns `Less` into `Greater` and back.
pub proof fn lemma_lex_cmp_antisymmetric(a: Seq<char>, b: Seq<char>)
    ensures
        lex_cmp(a, b) == Ordering::Less <==> lex_cmp(b, a) == Ordering::Greater,
        lex_cmp(a, b) == Ordering::Equal <==> lex_cmp(b, a) == Ordering::Equal,
    decreases a.len(),
{
    if a.len() > 0 && b.len() > 0 {
        lemma_lex_cmp_antisymmetric(a.drop_first(), b.drop_first());
    }
}

/// The order is transitive.
pub proof fn lemma_lex_cmp_transitive(a: Seq<char>, b: Seq<char>, c: Seq<char>)
    requires
        lex_cmp(a, b) == Ordering::Less,
        lex_cmp(b, c) == Ordering::Less,
    ensures
        lex_cmp(a, c) == Ordering::Less,
    decreases a.len(),
{
    if a.len() > 0 && b.len() > 0 && c.len() > 0 && a[0] == b[0] && b[0] == c[0] {
        lemma_lex_cmp_transitive(a.drop_first(), b.drop_first(), c.drop_first());
    }
}

/// A proper prefix comes before the run it starts.
pub proof fn lemma_lex_cmp_prefix(a: Seq<char>, b: Seq<char>)
    requires
        a.len() < b.len(),
        a == b.subrange(0, a.len() as int),
    ensures
        lex_cmp(a, b) == Ordering::Less,
    decreases a.len(),
{
    if a.len() > 0 {
        assert(a.drop_first() =~= b.drop_first().subrange(0, a.len() - 1));
        assert(a[0] == b[0]);
        lemma_lex_cmp_prefix(a.drop_first(), b.drop_first());
    }
}

} // verus!
