use vstd::prelude::*;
use vstd::string::StringExecFns;

verus! {

/// One of the two alternating activity phases.
#[derive(Clone, Copy, Debug, PartialEq, Eq, Structural)]
pub enum Phase {
    Sit,
    Stand,
}

/// The label shown for a phase.
pub open spec fn phase_label(p: Phase) -> Seq<char> {
    match p {
        Phase::Sit => seq!['S', 'i', 't'],
        Phase::Stand => seq!['S', 't', 'a', 'n', 'd'],
    }
}

/// The phase that follows `p`.
pub open spec fn next_phase(p: Phase) -> Phase {
    match p {
        Phase::Sit => Phase::Stand,
        Phase::Stand => Phase::Sit,
    }
}

impl Phase {
    /// The label of this phase: "Sit" or "Stand".
    pub fn label(&self) -> (r: String)
        ensures
            r@ == phase_label(*self),
    {
        match self {
            Phase::Sit => {
                proof {
                    reveal_strlit("Sit");
                }
                String::from_str("Sit")
            },
            Phase::Stand => {
                proof {
                    reveal_strlit("Stand");
                }
                String::from_str("Stand")
            },
        }
    }

    /// The other phase.
    pub fn next(&self) -> (r: Phase)
        ensures
            r == next_phase(*self),
    {
        match self {
            Phase::Sit => Phase::Stand,
            Phase::Stand => Phase::Sit,
        }
    }
}

} // verus!
