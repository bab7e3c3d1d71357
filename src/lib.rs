use vstd::prelude::*;

pub mod admission;
pub mod config;
pub mod handlers;
pub mod headers;
pub mod outcome;
pub mod proxy;
pub mod routing;
pub mod session;
pub mod text;

verus! {

} // verus!
