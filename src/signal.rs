use vstd::prelude::*;

verus! {

/// Failures that the kernel hands back to the driver instead of a default value.
#[derive(Clone, Copy, Debug, PartialEq, Eq, Structural)]
pub enum SimError {
    /// A wire was sampled, or a storage cell committed, while no value had
    /// ever been driven into it.
    UnsetRead,
}

/// A typed net: either undriven, or holding the last value driven into it.
#[derive(Clone, Copy, Debug)]
pub struct Signal<T: Sized + Copy>(Option<T>);

impl<T: Sized + Copy> View for Signal<T> {
    type V = Option<T>;

    closed spec fn view(&self) -> Option<T> {
        self.0
    }
}

impl<T: Sized + Copy> Signal<T> {
    /// What sampling this wire yields: its value, or `UnsetRead` while undriven.
    pub open spec fn sampled(self) -> Result<T, SimError> {
        match self@ {
            Some(v) => Ok(v),
            None => Err(SimError::UnsetRead),
        }
    }

    pub fn new() -> (r: Self)
        ensures
            r@ is None,
    {
        Signal(None)
    }

    pub fn has_value(&self) -> (r: bool)
        ensures
            r == self@ is Some,
    {
        self.0.is_some()
    }

    pub fn sample(&self) -> (r: Result<T, SimError>)
        ensures
            r == self.sampled(),
    {
        match self.0 {
            Some(v) => Ok(v),
            None => Err(SimError::UnsetRead),
        }
    }

    pub fn drive(&mut self, value: T)
        ensures
            final(self)@ == Some(value),
    {
        self.0 = Some(value);
    }
}

impl<T: Sized + Copy> Default for Signal<T> {
    fn default() -> (r: Self)
        ensures
            r@ is None,
    {
        Signal(None)
    }
}

} // verus!
