use vstd::prelude::*;

pub mod periodic;
pub mod replication;
pub mod startup;

verus! {

} // verus!
