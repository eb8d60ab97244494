//! Source locations: half-open ranges over a source, and the `Spanned`
//! wrapper that attaches one to a payload.

use vstd::prelude::*;
use vstd::std_specs::cmp::PartialEqSpec;

verus! {

/// A half-open range `[start, end)` of positions within the source
/// identified by `src`. A well-formed span is non-empty.
#[derive(Debug, Clone, Copy, PartialEq, Eq, PartialOrd, Ord, Hash, Structural)]
pub struct Span {
    pub src: u32,
    pub start: usize,
    pub end: usize,
}

impl Span {
    /// A span is well formed when it is non-empty.
    pub open spec fn wf(self) -> bool {
        self.start < self.end
    }

    /// `self` covers `inner`: both lie in one source and the range of
    /// `self` contains the range of `inner`.
    pub open spec fn covers(self, inner: Span) -> bool {
        &&& self.src == inner.src
        &&& self.start <= inner.start
        &&& inner.end <= self.end
    }

    /// The smallest span containing both `self` and `other`, in the
    /// source of `self`.
    pub open spec fn spec_merge(self, other: Span) -> Span {
        Span {
            src: self.src,
            start: if self.start <= other.start {
                self.start
            } else {
                other.start
            },
            end: if other.end <= self.end {
                self.end
            } else {
                other.end
            },
        }
    }

    /// The smallest span covering both inputs. Merging spans drawn from
    /// different sources is a caller error and is ruled out here.
    pub fn merge(self, other: Span) -> (r: Span)
        requires
            self.src == other.src,
        ensures
            r == self.spec_merge(other),
    {
        Span {
            src: self.src,
            start: if self.start <= other.start {
                self.start
            } else {
                other.start
            },
            end: if other.end <= self.end {
                self.end
            } else {
                other.end
            },
        }
    }
}

/// Merging a span with itself gives the span back.
pub proof fn lemma_merge_idempotent(s: Span)
    ensures
        s.spec_merge(s) == s,
{
}

/// On spans of one source, merge does not depend on argument order.
pub proof fn lemma_merge_commutative(a: Span, b: Span)
    requires
        a.src == b.src,
    ensures
        a.spec_merge(b) == b.spec_merge(a),
{
}

/// On spans of one source, merge associates.
pub proof fn lemma_merge_associative(a: Span, b: Span, c: Span)
    requires
        a.src == b.src,
        b.src == c.src,
    ensures
        a.spec_merge(b).spec_merge(c) == a.spec_merge(b.spec_merge(c)),
{
}

/// A merged span covers both inputs and is the smallest span that does:
/// whatever covers both inputs covers the merge too. It is well formed as
/// soon as one input is.
pub proof fn lemma_merge_covers(a: Span, b: Span)
    requires
        a.src == b.src,
    ensures
        a.spec_merge(b).covers(a),
        a.spec_merge(b).covers(b),
        forall|t: Span| #![auto] t.covers(a) && t.covers(b) ==> t.covers(a.spec_merge(b)),
        a.wf() || b.wf() ==> a.spec_merge(b).wf(),
{
}

/// A payload of type `T` together with the span where it was written.
/// The span is metadata: equality of `Spanned` values compares the
/// payloads alone.
#[derive(Debug, Clone)]
pub struct Spanned<T> {
    pub span: Span,
    pub value: T,
}

impl<T: PartialEq> PartialEq for Spanned<T> {
    fn eq(&self, other: &Self) -> (r: bool) {
        self.value == other.value
    }
}

impl<T: PartialEq> vstd::std_specs::cmp::PartialEqSpecImpl for Spanned<T> {
    open spec fn obeys_eq_spec() -> bool {
        <T as PartialEqSpec>::obeys_eq_spec()
    }

    open spec fn eq_spec(&self, other: &Spanned<T>) -> bool {
        self.value.eq_spec(&other.value)
    }
}

/// What `==` means on `Spanned` values is independent of the spans: two
/// wrappers compare exactly as their payloads do, whatever spans they
/// carry.
pub proof fn lemma_spanned_eq_ignores_span<T: PartialEq>(sp1: Span, sp2: Span, a: T, b: T)
    ensures
        (Spanned { span: sp1, value: a }).eq_spec(&(Spanned { span: sp2, value: b }))
            == a.eq_spec(&b),
{
}

} // verus!
