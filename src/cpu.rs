pub mod alu;
pub mod arith;
pub mod bits;
pub mod bus;
pub mod dispatch;
pub mod flow;
pub mod laws;
pub mod load_store;
pub mod logic;
pub mod rmw;
pub mod stack;
pub mod status;
