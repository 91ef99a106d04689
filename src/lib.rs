// Draws an image on a traffic visualiser by sending one ICMPv6 echo request per pixel,
// to an address that encodes the pixel's canvas position and colour.
use vstd::prelude::*;

pub mod address;
pub mod batch;
pub mod echo;
pub mod hex;
pub mod scheduler;

verus! {

} // verus!
