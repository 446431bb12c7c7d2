//! Source regions and the control-flow tag carried by parse failures.

use vstd::prelude::*;

verus! {

/// How a failure affects the alternatives that follow it.
#[derive(Clone, Copy, Debug, PartialEq, Eq, Structural)]
pub enum ControlFlow {
    /// The input committed to a shape and then violated it: no sibling
    /// alternative may be tried.
    Fatal,
    /// The alternative did not match: the next one may be tried at the same
    /// position.
    Recoverable,
}

/// A region of the source, in absolute byte offsets.
#[derive(Clone, Copy, Debug, PartialEq, Eq, Structural)]
pub enum Span {
    /// No region: the span of an absent node.
    Unknown,
    /// The half-open range `start..end`.
    Range(usize, usize),
    /// Everything from an offset on.
    RangeFrom(usize),
    /// Everything before an offset.
    RangeTo(usize),
    /// The whole source.
    RangeFull,
}

impl Span {
    /// The lower bound, where the region has one.
    pub open spec fn lower(self) -> Option<int> {
        match self {
            Span::Range(start, _) => Some(start as int),
            Span::RangeFrom(start) => Some(start as int),
            _ => None,
        }
    }

    /// The upper bound, where the region has one.
    pub open spec fn upper(self) -> Option<int> {
        match self {
            Span::Range(_, end) => Some(end as int),
            Span::RangeTo(end) => Some(end as int),
            _ => None,
        }
    }

    /// The smallest region that covers both `self` and `other`; `Unknown`
    /// covers nothing, so it is the unit.
    #[verifier::opaque]
    pub open spec fn union_spec(self, other: Span) -> Span {
        if self is Unknown {
            other
        } else if other is Unknown {
            self
        } else {
            match (self.lower(), other.lower(), self.upper(), other.upper()) {
                (Some(a), Some(c), Some(b), Some(d)) => Span::Range(
                    vstd::math::min(a, c) as usize,
                    vstd::math::max(b, d) as usize,
                ),
                (Some(a), Some(c), _, _) => Span::RangeFrom(vstd::math::min(a, c) as usize),
                (_, _, Some(b), Some(d)) => Span::RangeTo(vstd::math::max(b, d) as usize),
                _ => Span::RangeFull,
            }
        }
    }

    /// Merges two regions into the smallest region covering both.
    pub fn union(&self, other: &Span) -> (r: Span)
        ensures
            r == self.union_spec(*other),
    {
        proof {
            reveal(Span::union_spec);
        }
        match (*self, *other) {
            (Span::Unknown, o) => o,
            (s, Span::Unknown) => s,
            (Span::Range(a, b), Span::Range(c, d)) => Span::Range(lesser(a, c), greater(b, d)),
            (Span::Range(a, _), Span::RangeFrom(c)) => Span::RangeFrom(lesser(a, c)),
            (Span::RangeFrom(a), Span::Range(c, _)) => Span::RangeFrom(lesser(a, c)),
            (Span::RangeFrom(a), Span::RangeFrom(c)) => Span::RangeFrom(lesser(a, c)),
            (Span::Range(_, b), Span::RangeTo(d)) => Span::RangeTo(greater(b, d)),
            (Span::RangeTo(b), Span::Range(_, d)) => Span::RangeTo(greater(b, d)),
            (Span::RangeTo(b), Span::RangeTo(d)) => Span::RangeTo(greater(b, d)),
            _ => Span::RangeFull,
        }
    }

    /// Union is associative.
    pub proof fn lemma_union_associative(a: Span, b: Span, c: Span)
        ensures
            a.union_spec(b).union_spec(c) == a.union_spec(b.union_spec(c)),
    {
        reveal(Span::union_spec);
    }

    /// Union is commutative.
    pub proof fn lemma_union_commutative(a: Span, b: Span)
        ensures
            a.union_spec(b) == b.union_spec(a),
    {
        reveal(Span::union_spec);
    }

    /// The region that covers nothing is the unit of union.
    pub proof fn lemma_union_unknown(a: Span)
        ensures
            a.union_spec(Span::Unknown) == a,
            Span::Unknown.union_spec(a) == a,
    {
        reveal(Span::union_spec);
    }

    /// The union of two ranges goes from the lesser start to the greater
    /// end.
    pub proof fn lemma_union_ranges(a: usize, b: usize, c: usize, d: usize)
        ensures
            Span::Range(a, b).union_spec(Span::Range(c, d)) == Span::Range(
                vstd::math::min(a as int, c as int) as usize,
                vstd::math::max(b as int, d as int) as usize,
            ),
    {
        reveal(Span::union_spec);
    }

    /// The union of a range and the range that starts where it ends goes
    /// from the start of the one to the end of the other.
    pub proof fn lemma_union_adjacent(a: usize, b: usize, c: usize)
        requires
            a <= b <= c,
        ensures
            Span::Range(a, b).union_spec(Span::Range(b, c)) == Span::Range(a, c),
    {
        reveal(Span::union_spec);
    }
}

fn lesser(a: usize, b: usize) -> (r: usize)
    ensures
        r == vstd::math::min(a as int, b as int),
{
    if a <= b {
        a
    } else {
        b
    }
}

fn greater(a: usize, b: usize) -> (r: usize)
    ensures
        r == vstd::math::max(a as int, b as int),
{
    if a >= b {
        a
    } else {
        b
    }
}

} // verus!
