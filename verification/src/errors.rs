//! Error kinds shared by the viewer core.
//!
//! Every failure detected by a core operation is a local, recoverable
//! condition returned to the caller; none terminates the process.

use vstd::prelude::*;

verus! {

/// The failure kinds of the viewer core.
#[derive(Clone, Copy, Debug, PartialEq, Eq, Structural)]
pub enum ViewError {
    /// A buffer length does not match the record stride or the declared
    /// shape of its contents.
    FormatError,
    /// An axis or slice index lies outside the bounds of its dimension, or
    /// a lookup named a dimension the shape does not have.
    IndexError,
    /// A shape has a zero-sized dimension, too many dimensions, or a total
    /// element count that the machine cannot address.
    DimensionError,
    /// A bound was requested over zero data points.
    EmptyDataError,
    /// A file could not be opened or read; raised by the external I/O
    /// collaborator, never by the core itself.
    IoError,
    /// An exact rational computation left the representable range.
    Overflow,
}

} // verus!
