//! USBTMC (USB Test and Measurement Class) wire-protocol engine.
//!
//! This crate implements the application-layer protocol used to exchange
//! SCPI-style commands and responses with bench instruments over USB bulk
//! and control endpoints: the 12-byte bulk-header codec, the bTag sequence
//! generator, the bulk write segmentation engine, the bulk read reassembly
//! engine, and the control-request state machines (capability discovery,
//! buffer clearing, aborts, status-byte read).
//!
//! The crate is transport-agnostic: every function here either computes the
//! exact bytes a host must place on the wire or decides what a device
//! response means.  Executing the transfers against a real USB host stack is
//! left to the embedding application.

pub mod bulk;
pub mod constants;
pub mod control;
pub mod error;
pub mod init;
pub mod types;

use crate::types::DeviceInfo;
use vstd::prelude::*;

verus! {

/// Selects which USBTMC device to open when several are attached.
///
/// A filter is a predicate over the identifying data of a device; concrete
/// filters match by vendor/product id, by bus/address, by both, or accept
/// any device.
pub trait DeviceFilter {
    /// What the filter accepts, as a mathematical predicate.
    spec fn spec_matches(&self, info: DeviceInfo) -> bool;

    /// Returns whether `info` identifies a device this filter accepts.
    fn apply_filter(&self, info: &DeviceInfo) -> (r: bool)
        ensures
            r == self.spec_matches(*info),
    ;
}

} // verus!
