use vstd::prelude::*;
use crate::protocol::{Clocked, Combinational};
use crate::signal::{Signal, SimError};

verus! {

/// A clocked storage cell: a staged input wire and a committed value.
///
/// Driving only stages a value; the committed value changes on a clock edge
/// and nowhere else.
#[derive(Debug)]
pub struct Register<T: Sized + Copy> {
    input: Signal<T>,
    data: T,
}

impl<T: Sized + Copy> Register<T> {
    /// The value waiting in the staged input, if one was ever driven.
    pub closed spec fn staged(&self) -> Option<T> {
        self.input@
    }

    /// The committed value that every read sees.
    pub closed spec fn committed(&self) -> T {
        self.data
    }

    /// `post` is this cell after staging `value`: the committed value stays.
    pub open spec fn drive_step(&self, post: Self, value: T) -> bool {
        &&& post.staged() == Some(value)
        &&& post.committed() == self.committed()
    }

    pub fn sample(&self) -> (r: T)
        ensures
            r == self.committed(),
    {
        self.data
    }

    pub fn drive(&mut self, value: T)
        ensures
            old(self).drive_step(*final(self), value),
    {
        self.input.drive(value);
    }

    pub fn init(data: T) -> (r: Self)
        ensures
            r.committed() == data,
            r.staged() is None,
    {
        Register { input: Signal::default(), data: data }
    }

    /// Commit the staged value; fails, changing nothing, if none was ever staged.
    pub fn clock_tick(&mut self) -> (r: Result<(), SimError>)
        ensures
            r is Ok <==> old(self).staged() is Some,
            r is Ok ==> old(self).edge_step(*final(self)),
            r is Err ==> r == Err::<(), SimError>(SimError::UnsetRead) && *final(self) == *old(self),
    {
        match self.input.sample() {
            Ok(v) => {
                self.data = v;
                Ok(())
            },
            Err(e) => Err(e),
        }
    }
}

impl<T: Sized + Copy> Combinational for Register<T> {
    open spec fn settle_allowed(&self) -> bool {
        true
    }

    open spec fn settle_ready(&self) -> bool {
        true
    }

    open spec fn settle_step(&self, post: Self) -> bool {
        post == *self
    }

    /// A storage cell has no combinational part.
    fn sim_comb(&mut self) -> (r: Result<(), SimError>) {
        Ok(())
    }
}

impl<T: Sized + Copy> Clocked for Register<T> {
    open spec fn edge_ready(&self) -> bool {
        self.staged() is Some
    }

    open spec fn edge_step(&self, post: Self) -> bool {
        &&& post.committed() == self.staged().unwrap()
        &&& post.staged() == self.staged()
    }

    fn can_clock_edge(&self) -> (r: bool) {
        self.input.has_value()
    }

    fn sim_clock_edge(&mut self) -> (r: Result<(), SimError>) {
        self.clock_tick()
    }
}

} // verus!
