//! The battle presentation: what an encounter is made of, and the machines
//! that take it from the first wipe of the screen to the return to the map.

pub mod glue;
pub mod transitions;
pub mod manager;
pub mod laws;
