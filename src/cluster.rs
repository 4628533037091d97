//! Accessors that sessions offer to the parts of the driver that send frames.

use vstd::prelude::*;
use crate::compression::Compression;

verus! {

/// Gives access to the transport that a session sends through.
pub trait GetTransport<'a, T: 'a> {
    fn get_transport(&mut self) -> Option<&mut T>;
}

/// Gives the compression that a session negotiated.
pub trait GetCompressor<'a> {
    fn get_compressor(&'a self) -> Compression;
}

} // verus!
