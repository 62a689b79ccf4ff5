use vstd::prelude::*;

verus! {

/// The control line on which a drive or read fault occurred.
#[derive(Clone, Copy, Debug, PartialEq, Eq)]
pub enum Line {
    /// The data/command select output.
    Select,
    /// The reset output.
    Reset,
    /// The busy input.
    Busy,
}

/// Why a driver operation failed.
#[derive(Clone, Copy, Debug, PartialEq, Eq)]
pub enum ErrorKind {
    /// A serial-bus transaction failed.
    BusFault,
    /// A control line could not be driven or read.
    LineFault(Line),
    /// The requested capability does not exist on this controller revision.
    UnsupportedOperation,
    /// A caller-supplied frame buffer has the wrong length.
    InvalidBuffer,
}

} // verus!
