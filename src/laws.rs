use vstd::prelude::*;
use crate::adders::{MyAdder, MyAdderReg};
use crate::protocol::Clocked;
use crate::register::Register;
use crate::signal::{Signal, SimError};

verus! {

/// Sampling a wire returns the value last driven into it.
pub proof fn law_sample_after_drive<T: Copy>(driven: Signal<T>, v: T)
    requires
        driven@ == Some(v),
    ensures
        driven.sampled() == Ok::<T, SimError>(v),
{
}

/// Sampling a wire that was never driven fails with `UnsetRead`.
pub proof fn law_fresh_wire_unset<T: Copy>(fresh: Signal<T>)
    requires
        fresh@ is None,
    ensures
        fresh.sampled() == Err::<T, SimError>(SimError::UnsetRead),
{
}

/// Staging values into a storage cell, any number of times, never changes
/// what it samples: a cell initialised with `v0` samples `v0` until an edge.
pub proof fn law_drives_keep_committed<T: Copy>(cells: Seq<Register<T>>, values: Seq<T>, v0: T)
    requires
        cells.len() == values.len() + 1,
        cells[0].committed() == v0,
        forall|k: int| 0 <= k < values.len() ==> #[trigger] cells[k].drive_step(cells[k + 1], values[k]),
    ensures
        forall|k: int| 0 <= k < cells.len() ==> #[trigger] cells[k].committed() == v0,
    decreases values.len(),
{
    if values.len() > 0 {
        let n = values.len() - 1;
        law_drives_keep_committed(cells.drop_last(), values.drop_last(), v0);
        assert(cells[n].drive_step(cells[n + 1], values[n]));
        assert forall|k: int| 0 <= k < cells.len() implies #[trigger] cells[k].committed() == v0 by {
            if k < cells.len() - 1 {
                assert(cells.drop_last()[k] == cells[k]);
            } else {
                assert(cells.drop_last()[n] == cells[n]);
            }
        }
    }
}

/// After staging `v1` and a clock edge the cell samples `v1`; a second edge
/// with nothing staged in between succeeds and keeps `v1`.
pub proof fn law_edge_commits_last_staged<T: Copy>(
    c0: Register<T>,
    c1: Register<T>,
    c2: Register<T>,
    c3: Register<T>,
    v1: T,
)
    requires
        c0.drive_step(c1, v1),
        c1.edge_step(c2),
        c2.edge_step(c3),
    ensures
        c1.edge_ready(),
        c2.committed() == v1,
        c2.edge_ready(),
        c3.committed() == v1,
{
}

/// Before any settle, sampling a fresh combinational adder's output fails
/// with `UnsetRead`.
pub proof fn law_fresh_adder_output_unset(m: MyAdder)
    requires
        m.output@ is None,
    ensures
        m.output.sampled() == Err::<usize, SimError>(SimError::UnsetRead),
{
}

/// Before any settle, sampling a fresh registered adder's output fails with
/// `UnsetRead`, and so does a clock edge, which has nothing staged to commit.
pub proof fn law_fresh_adder_reg_output_unset(m: MyAdderReg)
    requires
        m.output@ is None,
        m.s.staged() is None,
    ensures
        m.output.sampled() == Err::<usize, SimError>(SimError::UnsetRead),
        !m.edge_ready(),
{
}

} // verus!
