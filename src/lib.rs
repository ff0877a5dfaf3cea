//! The integer side of a small path tracer: the plain-text image encoding,
//! the depth-bounded control of a light path, and the order in which the
//! camera visits pixels. The floating-point work (vectors, intersection,
//! scattering) is done by the program around this library.

use vstd::prelude::*;

pub mod path;
pub mod ppm;
pub mod scan;

verus! {

} // verus!
