//! Manual creation of a device texture through the native driver, and its
//! import into the portable graphics abstraction.
//!
//! The library holds the decision logic of that flow on plain values: which
//! memory type backs a resource, what the single allocation looks like, how
//! the native image and the portable descriptors are configured, and that
//! the two resource models stay consistent with each other. The unverified
//! shell around it performs the actual driver calls and converts between
//! these types and the driver's own.

pub mod adopt;
pub mod flow;
pub mod image;
pub mod memory;
