use vstd::prelude::*;

verus! {

/// A half-open range `[start, end)` of character positions.
#[derive(Clone, Copy, Debug, PartialEq, Eq, Structural)]
pub struct Span {
    pub start: usize,
    pub end: usize,
}

impl Span {
    pub fn new(start: usize, end: usize) -> (r: Span)
        ensures
            r.start == start,
            r.end == end,
    {
        Span { start, end }
    }

    pub open spec fn spec_len(self) -> int {
        self.end - self.start
    }

    /// Two spans overlap when some character position lies in both.
    pub open spec fn spec_overlaps(self, other: Span) -> bool {
        self.start < self.end && other.start < other.end && self.start < other.end
            && other.start < self.end
    }

    pub fn len(&self) -> (r: usize)
        ensures
            r == if self.start <= self.end { self.end - self.start } else { 0 },
    {
        if self.start <= self.end {
            self.end - self.start
        } else {
            0
        }
    }

    pub fn overlaps_with(&self, other: &Span) -> (r: bool)
        ensures
            r == self.spec_overlaps(*other),
    {
        self.start < self.end && other.start < other.end && self.start < other.end
            && other.start < self.end
    }

    /// The characters of `source` that the span covers.
    pub fn get_content(&self, source: &[char]) -> (r: Vec<char>)
        requires
            self.start <= self.end <= source@.len(),
        ensures
            r@ == source@.subrange(self.start as int, self.end as int),
    {
        let mut out: Vec<char> = Vec::new();
        let mut i: usize = self.start;
        while i < self.end
            invariant
                self.start <= i <= self.end <= source@.len(),
                out@ == source@.subrange(self.start as int, i as int),
            decreases self.end - i,
        {
            out.push(source[i]);
            i += 1;
        }
        out
    }
}

} // verus!
