//! Levels of verbosity and who has one.

use vstd::prelude::*;

verus! {

/// How much diagnostic output is wanted, from least to most.
#[derive(Debug, Clone, Copy, PartialEq, Eq, Structural, PartialOrd, Ord, Hash)]
pub enum Verbosity {
    Low,
    Medium,
    High,
}

impl Verbosity {
    /// The place of a level in the order, counted from the least output.
    pub open spec fn rank(self) -> nat {
        match self {
            Verbosity::Low => 0,
            Verbosity::Medium => 1,
            Verbosity::High => 2,
        }
    }

    /// Whether output that asks for at least `min` shows at this level.
    pub open spec fn spec_admits(self, min: Verbosity) -> bool {
        min.rank() <= self.rank()
    }

    /// The place of this level in the order, counted from the least output.
    pub fn level(self) -> (r: u8)
        ensures
            r == self.rank(),
    {
        match self {
            Verbosity::Low => 0,
            Verbosity::Medium => 1,
            Verbosity::High => 2,
        }
    }

    /// Whether output that asks for at least `min` shows at this level.
    #[verifier::when_used_as_spec(spec_admits)]
    pub fn admits(self, min: Verbosity) -> (r: bool)
        ensures
            r == self.spec_admits(min),
    {
        min.level() <= self.level()
    }
}

/// Declares how verbose something is at runtime.
pub trait Verbose {
    /// How verbose this is.
    fn verbosity(&self) -> Verbosity;
}

/// Declares the least verbosity at which something should be shown.
pub trait MinVerbosity {
    /// The least verbosity at which this shows.
    fn min_verbosity(&self) -> Verbosity;
}

/// A level is its own minimum.
impl MinVerbosity for Verbosity {
    fn min_verbosity(&self) -> (v: Verbosity)
        ensures
            v == *self,
    {
        *self
    }
}

/// Every level admits itself.
pub proof fn lemma_admits_reflexive(level: Verbosity)
    ensures
        level.admits(level),
{
}

/// Raising the verbosity hides nothing: what shows at `lower` shows at every
/// level that admits `lower`.
pub proof fn lemma_admits_transitive(higher: Verbosity, lower: Verbosity, min: Verbosity)
    requires
        higher.admits(lower),
        lower.admits(min),
    ensures
        higher.admits(min),
{
}

/// Of two levels, one admits the other; two that admit each other are the
/// same level.
pub proof fn lemma_admits_total(a: Verbosity, b: Verbosity)
    ensures
        a.admits(b) || b.admits(a),
        a.admits(b) && b.admits(a) ==> a == b,
{
}

} // verus!
