//! The handlers of the appraisal file formats: each is known by the name of
//! its format.

use vstd::prelude::*;

verus! {

#[derive(Clone, Copy, Debug, PartialEq, Eq, Structural)]
pub struct MISMOHandler;

#[derive(Clone, Copy, Debug, PartialEq, Eq, Structural)]
pub struct FNCHandler;

#[derive(Clone, Copy, Debug, PartialEq, Eq, Structural)]
pub struct TOTALHandler;

impl MISMOHandler {
    pub fn new() -> (handler: MISMOHandler)
        ensures
            handler == MISMOHandler,
    {
        MISMOHandler
    }

    /// The name of the format that this handler reads and writes.
    pub fn format_name(&self) -> (name: &'static str)
        ensures
            name@ == "MISMO"@,
    {
        "MISMO"
    }
}

impl FNCHandler {
    pub fn new() -> (handler: FNCHandler)
        ensures
            handler == FNCHandler,
    {
        FNCHandler
    }

    /// The name of the format that this handler reads and writes.
    pub fn format_name(&self) -> (name: &'static str)
        ensures
            name@ == "FNC"@,
    {
        "FNC"
    }
}

impl TOTALHandler {
    pub fn new() -> (handler: TOTALHandler)
        ensures
            handler == TOTALHandler,
    {
        TOTALHandler
    }

    /// The name of the format that this handler reads and writes.
    pub fn format_name(&self) -> (name: &'static str)
        ensures
            name@ == "TOTAL"@,
    {
        "TOTAL"
    }
}

} // verus!
