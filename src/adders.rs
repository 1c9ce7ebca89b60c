use vstd::prelude::*;
use crate::protocol::{Clocked, Combinational};
use crate::register::Register;
use crate::signal::{Signal, SimError};

verus! {

/// Values that a parametrised adder can sum.
pub trait Addable: Sized + Copy {
    /// The sum is representable.
    spec fn sum_fits(a: Self, b: Self) -> bool;

    spec fn sum(a: Self, b: Self) -> Self;

    fn plus(self, other: Self) -> (r: Self)
        requires
            Self::sum_fits(self, other),
        ensures
            r == Self::sum(self, other),
    ;
}

impl Addable for usize {
    open spec fn sum_fits(a: usize, b: usize) -> bool {
        a + b <= usize::MAX
    }

    open spec fn sum(a: usize, b: usize) -> usize {
        (a + b) as usize
    }

    fn plus(self, other: usize) -> (r: usize) {
        self + other
    }
}

/// A combinational adder: `output = x + y`.
#[derive(Debug)]
pub struct MyAdder {
    pub x: Signal<usize>,
    pub y: Signal<usize>,
    pub output: Signal<usize>,
}

impl MyAdder {
    pub fn new() -> (r: Self)
        ensures
            r.x@ is None,
            r.y@ is None,
            r.output@ is None,
    {
        MyAdder { x: Signal::new(), y: Signal::new(), output: Signal::new() }
    }

    pub fn drive_x(&mut self, value: usize)
        ensures
            final(self).x@ == Some(value),
            final(self).y == old(self).y,
            final(self).output == old(self).output,
    {
        self.x.drive(value);
    }

    pub fn drive_y(&mut self, value: usize)
        ensures
            final(self).y@ == Some(value),
            final(self).x == old(self).x,
            final(self).output == old(self).output,
    {
        self.y.drive(value);
    }

    pub fn sample_output(&self) -> (r: Result<usize, SimError>)
        ensures
            r == self.output.sampled(),
    {
        self.output.sample()
    }
}

impl Combinational for MyAdder {
    open spec fn settle_allowed(&self) -> bool {
        (self.x@ is Some && self.y@ is Some) ==> self.x@.unwrap() + self.y@.unwrap() <= usize::MAX
    }

    open spec fn settle_ready(&self) -> bool {
        self.x@ is Some && self.y@ is Some
    }

    open spec fn settle_step(&self, post: Self) -> bool {
        &&& post.x == self.x
        &&& post.y == self.y
        &&& post.output@ == Some((self.x@.unwrap() + self.y@.unwrap()) as usize)
    }

    fn sim_comb(&mut self) -> (r: Result<(), SimError>) {
        let x = match self.x.sample() {
            Ok(v) => v,
            Err(e) => return Err(e),
        };
        let y = match self.y.sample() {
            Ok(v) => v,
            Err(e) => return Err(e),
        };
        let z = x + y;
        self.output.drive(z);
        Ok(())
    }
}

impl Clocked for MyAdder {
    open spec fn edge_ready(&self) -> bool {
        true
    }

    open spec fn edge_step(&self, post: Self) -> bool {
        post == *self
    }

    fn can_clock_edge(&self) -> (r: bool) {
        true
    }

    /// No field is clocked: the edge has nothing to commit.
    fn sim_clock_edge(&mut self) -> (r: Result<(), SimError>) {
        Ok(())
    }
}

/// A registered adder: settling stages `x + y` into `s`, and `output` shows
/// what `s` holds, so a sum appears on it at the clock edge after its inputs.
#[derive(Debug)]
pub struct MyAdderReg {
    pub x: Signal<usize>,
    pub y: Signal<usize>,
    pub s: Register<usize>,
    pub output: Signal<usize>,
}

impl MyAdderReg {
    /// A fresh module whose storage cell starts at `init`.
    pub fn new(init: usize) -> (r: Self)
        ensures
            r.x@ is None,
            r.y@ is None,
            r.s.committed() == init,
            r.s.staged() is None,
            r.output@ is None,
    {
        MyAdderReg { x: Signal::new(), y: Signal::new(), s: Register::init(init), output: Signal::new() }
    }

    pub fn drive_x(&mut self, value: usize)
        ensures
            final(self).x@ == Some(value),
            final(self).y == old(self).y,
            final(self).s == old(self).s,
            final(self).output == old(self).output,
    {
        self.x.drive(value);
    }

    pub fn drive_y(&mut self, value: usize)
        ensures
            final(self).y@ == Some(value),
            final(self).x == old(self).x,
            final(self).s == old(self).s,
            final(self).output == old(self).output,
    {
        self.y.drive(value);
    }

    pub fn sample_output(&self) -> (r: Result<usize, SimError>)
        ensures
            r == self.output.sampled(),
    {
        self.output.sample()
    }
}

impl Combinational for MyAdderReg {
    open spec fn settle_allowed(&self) -> bool {
        (self.x@ is Some && self.y@ is Some) ==> self.x@.unwrap() + self.y@.unwrap() <= usize::MAX
    }

    open spec fn settle_ready(&self) -> bool {
        self.x@ is Some && self.y@ is Some
    }

    open spec fn settle_step(&self, post: Self) -> bool {
        &&& post.x == self.x
        &&& post.y == self.y
        &&& post.s.staged() == Some((self.x@.unwrap() + self.y@.unwrap()) as usize)
        &&& post.s.committed() == self.s.committed()
        &&& post.output@ == Some(self.s.committed())
    }

    fn sim_comb(&mut self) -> (r: Result<(), SimError>) {
        let x = match self.x.sample() {
            Ok(v) => v,
            Err(e) => return Err(e),
        };
        let y = match self.y.sample() {
            Ok(v) => v,
            Err(e) => return Err(e),
        };
        let z = x + y;
        self.s.drive(z);
        let out = self.s.sample();
        self.output.drive(out);
        Ok(())
    }
}

impl Clocked for MyAdderReg {
    open spec fn edge_ready(&self) -> bool {
        self.s.edge_ready()
    }

    /// `output` follows `s`: it shows the newly committed value.
    open spec fn edge_step(&self, post: Self) -> bool {
        &&& self.s.edge_step(post.s)
        &&& post.x == self.x
        &&& post.y == self.y
        &&& post.output@ == Some(post.s.committed())
    }

    fn can_clock_edge(&self) -> (r: bool) {
        self.s.can_clock_edge()
    }

    fn sim_clock_edge(&mut self) -> (r: Result<(), SimError>) {
        match self.s.sim_clock_edge() {
            Ok(()) => {
                let out = self.s.sample();
                self.output.drive(out);
                Ok(())
            },
            Err(e) => Err(e),
        }
    }
}

/// The combinational adder over any `Addable` value type.
#[derive(Debug)]
pub struct MyParametrizedAdder<T: Addable> {
    pub x: Signal<T>,
    pub y: Signal<T>,
    pub output: Signal<T>,
}

impl<T: Addable> MyParametrizedAdder<T> {
    pub fn new() -> (r: Self)
        ensures
            r.x@ is None,
            r.y@ is None,
            r.output@ is None,
    {
        MyParametrizedAdder { x: Signal::new(), y: Signal::new(), output: Signal::new() }
    }

    pub fn drive_x(&mut self, value: T)
        ensures
            final(self).x@ == Some(value),
            final(self).y == old(self).y,
            final(self).output == old(self).output,
    {
        self.x.drive(value);
    }

    pub fn drive_y(&mut self, value: T)
        ensures
            final(self).y@ == Some(value),
            final(self).x == old(self).x,
            final(self).output == old(self).output,
    {
        self.y.drive(value);
    }

    pub fn sample_output(&self) -> (r: Result<T, SimError>)
        ensures
            r == self.output.sampled(),
    {
        self.output.sample()
    }

    /// Settle: drive `output` with `x + y`; fails, changing nothing, while
    /// an input is undriven.
    pub fn run(&mut self) -> (r: Result<(), SimError>)
        requires
            (old(self).x@ is Some && old(self).y@ is Some) ==> T::sum_fits(old(self).x@.unwrap(), old(self).y@.unwrap()),
        ensures
            r is Ok <==> (old(self).x@ is Some && old(self).y@ is Some),
            r is Ok ==> final(self).output@ == Some(T::sum(old(self).x@.unwrap(), old(self).y@.unwrap())),
            final(self).x == old(self).x,
            final(self).y == old(self).y,
            r is Err ==> r == Err::<(), SimError>(SimError::UnsetRead) && *final(self) == *old(self),
    {
        let x = match self.x.sample() {
            Ok(v) => v,
            Err(e) => return Err(e),
        };
        let y = match self.y.sample() {
            Ok(v) => v,
            Err(e) => return Err(e),
        };
        let z = x.plus(y);
        self.output.drive(z);
        Ok(())
    }
}

impl<T: Addable> Clocked for MyParametrizedAdder<T> {
    open spec fn edge_ready(&self) -> bool {
        true
    }

    open spec fn edge_step(&self, post: Self) -> bool {
        post == *self
    }

    fn can_clock_edge(&self) -> (r: bool) {
        true
    }

    /// No field is clocked: the edge has nothing to commit.
    fn sim_clock_edge(&mut self) -> (r: Result<(), SimError>) {
        Ok(())
    }
}

} // verus!
