use vstd::prelude::*;

pub mod text;
pub mod types;
pub mod print_command;
pub mod queue_status;
pub mod connection;
pub mod session;

verus! {

} // verus!
