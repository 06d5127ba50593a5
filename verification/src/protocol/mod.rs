//! Native representations of everything this transaction family keeps in
//! state or accepts as a payload.


pub mod payload;
pub mod state;
