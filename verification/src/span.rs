//! Positions in a template source.
use vstd::prelude::*;
use crate::text::{contains, decimal, decimal_string, lemma_contains_between};

verus! {

/// A range of byte offsets that locates a syntax failure in a source
/// document. The start never lies behind the end.
#[derive(Clone, Copy, Debug, PartialEq, Eq)]
pub struct Span {
    start: usize,
    end: usize,
}

impl Span {
    #[verifier::type_invariant]
    spec fn ordered(self) -> bool {
        self.start <= self.end
    }

    /// The offset at which the range begins, in contracts.
    pub closed spec fn spec_start(self) -> usize {
        self.start
    }

    /// The offset at which the range ends, in contracts.
    pub closed spec fn spec_end(self) -> usize {
        self.end
    }

    /// The text of the range, `<start>:<end>`, both in decimal notation.
    pub open spec fn position(self) -> Seq<char> {
        decimal(self.start() as nat) + seq![':'] + decimal(self.end() as nat)
    }

    /// Makes the range from `start` to `end`; there is none when `start`
    /// lies behind `end`.
    pub fn new(start: usize, end: usize) -> (r: Option<Span>)
        ensures
            r.is_some() <==> start <= end,
            r matches Some(span) ==> span.start() == start && span.end() == end,
    {
        if start <= end {
            Some(Span { start, end })
        } else {
            None
        }
    }

    /// The offset at which the range begins.
    #[verifier::when_used_as_spec(spec_start)]
    pub fn start(self) -> (r: usize)
        ensures
            r == self.start(),
            r <= self.end(),
    {
        proof {
            use_type_invariant(self);
        }
        self.start
    }

    /// The offset at which the range ends.
    #[verifier::when_used_as_spec(spec_end)]
    pub fn end(self) -> (r: usize)
        ensures
            r == self.end(),
            self.start() <= r,
    {
        proof {
            use_type_invariant(self);
        }
        self.end
    }

    /// Renders the range as `<start>:<end>`.
    pub fn position_string(self) -> (r: String)
        ensures
            r@ == self.position(),
    {
        proof {
            reveal_strlit(":");
        }
        let mut r = decimal_string(self.start);
        r.append(":");
        r.append(decimal_string(self.end).as_str());
        assert(":"@ =~= seq![':']);
        r
    }
}

/// The diagnostic text of a failure at a position in the source:
/// `<description> at position <start>:<end>`.
pub open spec fn positioned(description: Seq<char>, span: Span) -> Seq<char> {
    description + " at position "@ + span.position()
}

/// The text of a failure at a position ends with the position itself, so
/// the position occurs in it.
pub proof fn lemma_positioned_contains_position(description: Seq<char>, span: Span)
    ensures
        contains(positioned(description, span), span.position()),
        positioned(description, span).len() >= span.position().len(),
        positioned(description, span).subrange(
            positioned(description, span).len() - span.position().len(),
            positioned(description, span).len() as int,
        ) == span.position(),
{
    let whole = positioned(description, span);
    lemma_contains_between(description + " at position "@, span.position(), Seq::empty());
    assert(description + " at position "@ + span.position() + Seq::<char>::empty() =~= whole);
    assert(whole.subrange(whole.len() - span.position().len(), whole.len() as int)
        =~= span.position());
}

/// Writes the diagnostic text of a failure at a position:
/// `<description> at position <start>:<end>`.
pub fn position_detail(description: &str, span: Span) -> (r: String)
    ensures
        r@ == positioned(description@, span),
{
    let mut r = String::from_str(description);
    r.append(" at position ");
    r.append(span.position_string().as_str());
    r
}

} // verus!
