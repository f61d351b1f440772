//! Plain data carried between the command line and the resolver, and the
//! small closed enums that select what a query target fetches.

use vstd::prelude::*;

verus! {

/// Raw command-line input: the date string and the boolean flags, before
/// any resolution. A front end fills this in and hands it over unchanged.
#[derive(Debug, Clone)]
pub struct Cli {
    /// Raw date string, expected as YYYYMMDD, YYYYMMDDHH or YYYYMMDDHHMM.
    pub date: String,
    /// Fetch the hourly data (the default when neither interval is set).
    pub h1: bool,
    /// Fetch the five-minute data; set alone, it turns the hourly data off.
    pub m5: bool,
    /// Fetch only the permanently installed counters.
    pub permanent: bool,
    /// Fetch only the CCTV counters.
    pub cctv: bool,
    /// Fetch only the motorway data.
    pub highway: bool,
    /// Fetch only the ordinary national-road data.
    pub normal: bool,
    /// Stop after the first target.
    pub one: bool,
    /// Print the targets instead of fetching them.
    pub dry: bool,
}

/// Interval of the data series to fetch.
#[derive(Debug, Clone, Copy, PartialEq, Eq, Structural)]
pub enum Interval {
    /// One record per hour.
    H1,
    /// One record per five minutes.
    M5,
}

/// Kind of traffic counter whose records a target fetches.
#[derive(Debug, Clone, Copy, PartialEq, Eq, Structural)]
pub enum CounterType {
    /// Permanently installed counter.
    Permanent,
    /// CCTV-based counter.
    Cctv,
}

/// Three-way road-type selector derived from the resolved road flags.
#[derive(Debug, Clone, Copy, PartialEq, Eq, Structural)]
pub enum RoadType {
    /// Motorway only.
    Highway,
    /// Ordinary national road only.
    Normal,
    /// Motorway and ordinary national road together, in one query.
    Both,
}

} // verus!
