//! Lengths of time, and points in time counted from a fixed start.

use vstd::prelude::*;

verus! {

/// The nanoseconds in a second.
pub const NANOS_PER_SEC: u32 = 1_000_000_000;

/// A length of time in whole seconds and nanoseconds.
#[derive(Clone, Copy, Debug, PartialEq, Eq, Structural)]
pub struct Span {
    pub secs: u64,
    pub nanos: u32,
}

impl Span {
    /// Whether the nanoseconds stay under one second.
    pub open spec fn wf(self) -> bool {
        self.nanos < NANOS_PER_SEC
    }

    /// The length in nanoseconds.
    pub open spec fn total(self) -> nat {
        (self.secs * NANOS_PER_SEC + self.nanos) as nat
    }

    /// The span that is `total` nanoseconds long.
    pub open spec fn from_total(total: nat) -> Span {
        Span {
            secs: (total / (NANOS_PER_SEC as nat)) as u64,
            nanos: (total % (NANOS_PER_SEC as nat)) as u32,
        }
    }

    /// The longest span that can be counted.
    pub open spec fn longest() -> Span {
        Span { secs: u64::MAX, nanos: (NANOS_PER_SEC - 1) as u32 }
    }

    /// A span is the span of its length, and no other.
    pub proof fn lemma_from_total(self)
        requires
            self.wf(),
        ensures
            Span::from_total(self.total()) == self,
    {
        vstd::arithmetic::div_mod::lemma_fundamental_div_mod_converse(
            self.total() as int,
            NANOS_PER_SEC as int,
            self.secs as int,
            self.nanos as int,
        );
    }

    /// The span of a length that can be counted has that length.
    pub proof fn lemma_total_of(total: nat)
        requires
            total < (u64::MAX + 1) * NANOS_PER_SEC,
        ensures
            Span::from_total(total).wf(),
            Span::from_total(total).total() == total,
    {
        let per = NANOS_PER_SEC as int;
        vstd::arithmetic::div_mod::lemma_fundamental_div_mod(total as int, per);
        vstd::arithmetic::div_mod::lemma_mod_bound(total as int, per);
        vstd::arithmetic::div_mod::lemma_div_pos_is_pos(total as int, per);
        assert(total as int / per <= u64::MAX) by {
            if total as int / per > u64::MAX {
                assert(per * (total as int / per) >= per * (u64::MAX + 1)) by (nonlinear_arith)
                    requires
                        total as int / per >= u64::MAX + 1,
                        per > 0,
                ;
            }
        }
    }

    /// A span of whole seconds.
    pub fn from_secs(secs: u64) -> (out: Span)
        ensures
            out == (Span { secs, nanos: 0 }),
            out.wf(),
            out.total() == secs * NANOS_PER_SEC,
    {
        Span { secs, nanos: 0 }
    }

    /// A span of milliseconds.
    pub fn from_millis(millis: u64) -> (out: Span)
        ensures
            out.wf(),
            out.total() == millis * 1_000_000,
    {
        let secs: u64 = millis / 1000;
        let rest: u64 = millis % 1000;
        let nanos: u32 = (rest as u32) * 1_000_000;
        assert(secs * 1_000_000_000 + rest * 1_000_000 == millis * 1_000_000) by {
            assert(millis == secs * 1000 + rest);
        }
        Span { secs, nanos }
    }

    /// Whether this span is at least as long as `other`.
    pub fn at_least(&self, other: &Span) -> (out: bool)
        requires
            self.wf(),
            other.wf(),
        ensures
            out == (self.total() >= other.total()),
    {
        assert(self.secs > other.secs ==> self.secs * NANOS_PER_SEC >= (other.secs + 1)
            * NANOS_PER_SEC) by (nonlinear_arith);
        assert(self.secs < other.secs ==> (self.secs + 1) * NANOS_PER_SEC <= other.secs
            * NANOS_PER_SEC) by (nonlinear_arith);
        self.secs > other.secs || (self.secs == other.secs && self.nanos >= other.nanos)
    }

    /// This span and `other` together; `None` where the seconds no longer fit.
    pub fn checked_add(&self, other: &Span) -> (out: Option<Span>)
        requires
            self.wf(),
            other.wf(),
        ensures
            out is Some <==> self.total() + other.total() < (u64::MAX + 1) * NANOS_PER_SEC,
            out is Some ==> out.unwrap().wf() && out.unwrap().total() == self.total()
                + other.total(),
            out is Some ==> out.unwrap() == Span::from_total(self.total() + other.total()),
    {
        let mut nanos: u32 = self.nanos + other.nanos;
        let mut carry: u64 = 0;
        if nanos >= NANOS_PER_SEC {
            nanos = nanos - NANOS_PER_SEC;
            carry = 1;
        }
        let total: u128 = self.secs as u128 + other.secs as u128 + carry as u128;
        assert((self.secs + other.secs + carry) * NANOS_PER_SEC + nanos == self.total()
            + other.total()) by (nonlinear_arith)
            requires
                self.nanos + other.nanos == carry * NANOS_PER_SEC + nanos,
        ;
        if total > u64::MAX as u128 {
            assert(total * NANOS_PER_SEC >= (u64::MAX + 1) * NANOS_PER_SEC) by (nonlinear_arith)
                requires
                    total >= u64::MAX + 1,
            ;
            None
        } else {
            assert(total * NANOS_PER_SEC + nanos < (u64::MAX + 1) * NANOS_PER_SEC)
                by (nonlinear_arith)
                requires
                    total <= u64::MAX,
                    nanos < NANOS_PER_SEC,
            ;
            let sum = Span { secs: total as u64, nanos };
            proof {
                sum.lemma_from_total();
            }
            Some(sum)
        }
    }

    /// What is left of this span after `other`; nothing where `other` is longer.
    pub fn saturating_sub(&self, other: &Span) -> (out: Span)
        requires
            self.wf(),
            other.wf(),
        ensures
            out.wf(),
            self.total() >= other.total() ==> out.total() == self.total() - other.total(),
            self.total() < other.total() ==> out.total() == 0,
            out == Span::from_total(
                if self.total() >= other.total() {
                    (self.total() - other.total()) as nat
                } else {
                    0
                },
            ),
    {
        if !self.at_least(other) {
            let none = Span { secs: 0, nanos: 0 };
            proof {
                none.lemma_from_total();
            }
            return none;
        }
        let left = if self.nanos >= other.nanos {
            assert((self.secs - other.secs) * NANOS_PER_SEC == self.secs * NANOS_PER_SEC
                - other.secs * NANOS_PER_SEC) by (nonlinear_arith);
            Span { secs: self.secs - other.secs, nanos: self.nanos - other.nanos }
        } else {
            assert((self.secs - other.secs - 1) * NANOS_PER_SEC == self.secs * NANOS_PER_SEC
                - other.secs * NANOS_PER_SEC - NANOS_PER_SEC) by (nonlinear_arith);
            Span {
                secs: (self.secs - other.secs - 1) as u64,
                nanos: (self.nanos + NANOS_PER_SEC - other.nanos) as u32,
            }
        };
        proof {
            left.lemma_from_total();
        }
        left
    }
}

} // verus!
