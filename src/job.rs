//! Jobs: a request bound to the handler chosen to answer it.
use vstd::prelude::*;

use crate::request::Request;

verus! {

/// A request on connection `C` bound to the handler `H` chosen for it; the unit
/// of work that a slot of the pool runs.
#[derive(Debug)]
pub struct Job<C, H> {
    pub request: Request<C>,
    pub listener: H,
}

} // verus!
