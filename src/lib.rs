//! A small cycle-based simulation kernel for hardware-style modules: typed
//! wires, clocked storage cells, the settle / clock-edge protocol, and the
//! schema compiler that derives a module's drive / sample / edge surface from
//! its declared field roles.
pub mod adders;
pub mod laws;
pub mod protocol;
pub mod register;
pub mod schema;
pub mod signal;

pub use adders::{Addable, MyAdder, MyAdderReg, MyParametrizedAdder};
pub use protocol::{Clocked, Combinational};
pub use register::Register;
pub use signal::{Signal, SimError};
