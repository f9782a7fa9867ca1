//! A loader framework that discovers, loads and invokes pluggable boot and
//! file system drivers, together with the disk abstraction drivers read with.
use vstd::prelude::*;

pub mod channel;
pub mod discovery;
pub mod disk;
pub mod driver;
pub mod status;

verus! {

} // verus!
