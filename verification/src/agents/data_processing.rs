//! The data processors: each stands for one kind of raw data and is known by
//! the name of that kind.

use vstd::prelude::*;

verus! {

#[derive(Clone, Copy, Debug, PartialEq, Eq, Structural)]
pub struct PropertyDataProcessor;

#[derive(Clone, Copy, Debug, PartialEq, Eq, Structural)]
pub struct ComparableSalesProcessor;

#[derive(Clone, Copy, Debug, PartialEq, Eq, Structural)]
pub struct MarketDataProcessor;

#[derive(Clone, Copy, Debug, PartialEq, Eq, Structural)]
pub struct MLSDataProcessor;

impl PropertyDataProcessor {
    pub fn new() -> (processor: PropertyDataProcessor)
        ensures
            processor == PropertyDataProcessor,
    {
        PropertyDataProcessor
    }

    /// The kind of data under which this processor is registered.
    pub fn processor_type(&self) -> (kind: &'static str)
        ensures
            kind@ == "property_data"@,
    {
        "property_data"
    }
}

impl ComparableSalesProcessor {
    pub fn new() -> (processor: ComparableSalesProcessor)
        ensures
            processor == ComparableSalesProcessor,
    {
        ComparableSalesProcessor
    }

    /// The kind of data under which this processor is registered.
    pub fn processor_type(&self) -> (kind: &'static str)
        ensures
            kind@ == "comparable_sales"@,
    {
        "comparable_sales"
    }
}

impl MarketDataProcessor {
    pub fn new() -> (processor: MarketDataProcessor)
        ensures
            processor == MarketDataProcessor,
    {
        MarketDataProcessor
    }

    /// The kind of data under which this processor is registered.
    pub fn processor_type(&self) -> (kind: &'static str)
        ensures
            kind@ == "market_data"@,
    {
        "market_data"
    }
}

impl MLSDataProcessor {
    pub fn new() -> (processor: MLSDataProcessor)
        ensures
            processor == MLSDataProcessor,
    {
        MLSDataProcessor
    }

    /// The kind of data under which this processor is registered.
    pub fn processor_type(&self) -> (kind: &'static str)
        ensures
            kind@ == "mls_data"@,
    {
        "mls_data"
    }
}

} // verus!
