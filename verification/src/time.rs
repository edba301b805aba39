use vstd::prelude::*;

verus! {

/// Nanoseconds in one second.
pub const NANOS_PER_SEC: u32 = 1_000_000_000;

/// A length of time: whole seconds and the nanoseconds of the second under way,
/// as `std::time::Duration` holds it.
#[derive(Clone, Copy, Debug, PartialEq, Eq, Structural)]
pub struct Span {
    pub secs: u64,
    pub nanos: u32,
}

/// The largest span, in nanoseconds (that of `Duration::MAX`).
pub open spec fn max_total() -> nat {
    u64::MAX as nat * 1_000_000_000 + 999_999_999
}

/// `a + b`, held at the largest span where it would pass it.
pub open spec fn capped_sum(a: nat, b: nat) -> nat {
    if a + b > max_total() {
        max_total()
    } else {
        a + b
    }
}

/// The well-formed span of `total` nanoseconds.
pub open spec fn span_of(total: nat) -> Span {
    Span { secs: (total / 1_000_000_000) as u64, nanos: (total % 1_000_000_000) as u32 }
}

/// A well-formed span is the span of its length.
pub proof fn lemma_span_of_total(s: Span)
    requires
        s.wf(),
    ensures
        span_of(s.total()) == s,
{
    vstd::arithmetic::div_mod::lemma_fundamental_div_mod_converse(
        s.total() as int,
        1_000_000_000,
        s.secs as int,
        s.nanos as int,
    );
}

impl Span {
    /// The nanoseconds stay below one second.
    pub open spec fn wf(&self) -> bool {
        self.nanos < NANOS_PER_SEC
    }

    /// The span in nanoseconds.
    pub open spec fn total(&self) -> nat {
        self.secs as nat * 1_000_000_000 + self.nanos as nat
    }

    /// The empty span.
    pub fn zero() -> (s: Span)
        ensures
            s.wf(),
            s.total() == 0,
            s == (Span { secs: 0, nanos: 0 }),
    {
        Span { secs: 0, nanos: 0 }
    }

    /// The largest span.
    pub fn max() -> (s: Span)
        ensures
            s.wf(),
            s.total() == max_total(),
    {
        Span { secs: u64::MAX, nanos: NANOS_PER_SEC - 1 }
    }

    /// A span of `secs` seconds and `nanos` nanoseconds.
    pub fn from_parts(secs: u64, nanos: u32) -> (s: Span)
        requires
            nanos < NANOS_PER_SEC,
        ensures
            s.wf(),
            s.secs == secs,
            s.nanos == nanos,
    {
        Span { secs, nanos }
    }

    /// A span of `ms` milliseconds.
    pub fn from_millis(ms: u64) -> (s: Span)
        ensures
            s.wf(),
            s.total() == ms as nat * 1_000_000,
    {
        let secs: u64 = ms / 1000;
        let rest: u64 = ms % 1000;
        let nanos: u32 = (rest as u32) * 1_000_000;
        Span { secs, nanos }
    }

    /// Whether the span is empty.
    pub fn is_zero(&self) -> (b: bool)
        requires
            self.wf(),
        ensures
            b == (self.total() == 0),
    {
        self.secs == 0 && self.nanos == 0
    }

    /// Whether this span is at most `other`.
    pub fn le(&self, other: &Span) -> (b: bool)
        requires
            self.wf(),
            other.wf(),
        ensures
            b == (self.total() <= other.total()),
    {
        self.secs < other.secs || (self.secs == other.secs && self.nanos <= other.nanos)
    }

    /// The whole seconds of the span.
    pub fn as_secs(&self) -> (s: u64)
        requires
            self.wf(),
        ensures
            s == self.total() / 1_000_000_000,
    {
        self.secs
    }

    /// The sum of two spans, held at the largest span where it would pass it.
    pub fn saturating_add(&self, other: &Span) -> (s: Span)
        requires
            self.wf(),
            other.wf(),
        ensures
            s.wf(),
            s.total() == capped_sum(self.total(), other.total()),
            s == span_of(capped_sum(self.total(), other.total())),
    {
        let s = self.sum_held(other);
        proof {
            lemma_span_of_total(s);
        }
        s
    }

    fn sum_held(&self, other: &Span) -> (s: Span)
        requires
            self.wf(),
            other.wf(),
        ensures
            s.wf(),
            s.total() == capped_sum(self.total(), other.total()),
    {
        let mut nanos: u32 = self.nanos + other.nanos;
        let mut carry: u64 = 0;
        if nanos >= NANOS_PER_SEC {
            nanos = nanos - NANOS_PER_SEC;
            carry = 1;
        }
        match self.secs.checked_add(other.secs) {
            Some(s) => match s.checked_add(carry) {
                Some(secs) => Span { secs, nanos },
                None => Span::max(),
            },
            None => Span::max(),
        }
    }
}

/// Two well-formed spans of the same length are the same span.
pub proof fn lemma_total_determines_span(a: Span, b: Span)
    requires
        a.wf(),
        b.wf(),
        a.total() == b.total(),
    ensures
        a == b,
{
    if a.secs < b.secs {
        assert(a.total() < b.total());
    } else if b.secs < a.secs {
        assert(b.total() < a.total());
    }
}

} // verus!
