use vstd::prelude::*;
use crate::signal::SimError;

verus! {

/// The edge protocol: commit every storage cell that the value owns.
///
/// An implementation describes, through `edge_ready` and `edge_step`, when an
/// edge succeeds and what state it leaves behind. A failed edge reports
/// `UnsetRead` and changes nothing.
pub trait Clocked: Sized {
    /// Every storage cell reached by the edge has a staged value to commit.
    spec fn edge_ready(&self) -> bool;

    /// `post` is the state right after a successful edge from `self`.
    spec fn edge_step(&self, post: Self) -> bool;

    /// Whether an edge now would succeed; lets a module check every clocked
    /// field before it commits any of them.
    fn can_clock_edge(&self) -> (r: bool)
        ensures
            r == self.edge_ready(),
    ;

    fn sim_clock_edge(&mut self) -> (r: Result<(), SimError>)
        ensures
            r is Ok <==> old(self).edge_ready(),
            r is Ok ==> old(self).edge_step(*final(self)),
            r is Err ==> r == Err::<(), SimError>(SimError::UnsetRead) && *final(self) == *old(self),
    ;
}

/// The settle protocol: read the inputs, compute, drive outputs and staged
/// storage-cell inputs.
///
/// `settle_allowed` holds what the computation itself needs (an addition that
/// fits, say); `settle_ready` says when every wire that the settle reads is
/// driven. A settle that reads an undriven wire reports `UnsetRead` and
/// changes nothing.
pub trait Combinational: Sized {
    spec fn settle_allowed(&self) -> bool;

    spec fn settle_ready(&self) -> bool;

    /// `post` is the state right after a successful settle from `self`.
    spec fn settle_step(&self, post: Self) -> bool;

    fn sim_comb(&mut self) -> (r: Result<(), SimError>)
        requires
            old(self).settle_allowed(),
        ensures
            r is Ok <==> old(self).settle_ready(),
            r is Ok ==> old(self).settle_step(*final(self)),
            r is Err ==> r == Err::<(), SimError>(SimError::UnsetRead) && *final(self) == *old(self),
    ;
}

} // verus!
