//! Resolution of raw command-line flags into a self-consistent execution
//! configuration.
//!
//! Each axis comes as a pair of raw flags. Setting exactly one flag of a
//! pair narrows the fetch to that side; every other combination (neither
//! set, or both set) keeps the full pair. The interval axis is the one
//! deviation: its five-minute side passes through the raw flag unchanged,
//! so the default with nothing set is hourly data alone.

use vstd::prelude::*;

use crate::datetime;
use crate::datetime::DT;
use crate::types::{Cli, RoadType};

verus! {

/// Resolved value of the first flag of a pair: suppressed exactly when
/// only the second raw flag is set.
pub open spec fn resolve_first(a: bool, b: bool) -> bool {
    !(!a && b)
}

/// Resolved value of the second flag of a pair: suppressed exactly when
/// only the first raw flag is set.
pub open spec fn resolve_second(a: bool, b: bool) -> bool {
    !(a && !b)
}

/// Road-type selector derived from the two resolved road flags.
pub open spec fn road_type_of(highway: bool, normal: bool) -> RoadType {
    if highway && !normal {
        RoadType::Highway
    } else if !highway && normal {
        RoadType::Normal
    } else {
        RoadType::Both
    }
}

/// The only error the resolver produces: the raw date string failed to
/// parse. Holds the offending input unchanged.
#[derive(Debug)]
pub enum ResolveError {
    InvalidDate(String),
}

/// Fully resolved execution configuration, immutable once built.
/// After resolution at least one flag of every pair is true.
#[derive(Debug)]
pub struct ExecutionOption {
    /// The parsed date/time value.
    pub datetime: DT,
    /// Fetch the hourly data.
    pub interval_h1: bool,
    /// Fetch the five-minute data.
    pub interval_m5: bool,
    /// Fetch records of permanently installed counters.
    pub type_permanent: bool,
    /// Fetch records of CCTV counters.
    pub type_cctv: bool,
    /// Fetch motorway records.
    pub road_highway: bool,
    /// Fetch ordinary national-road records.
    pub road_normal: bool,
    /// Stop after the first target.
    pub one: bool,
    /// Print the targets instead of fetching them.
    pub dry: bool,
}

impl ExecutionOption {
    /// Builds the resolved configuration from the raw command-line input.
    /// Fails exactly when the date string does not parse; every flag axis
    /// is resolved by the pair rule, with the five-minute flag passed
    /// through unchanged, and `one` and `dry` passed through unchanged.
    pub fn from_args(args: &Cli) -> (r: Result<ExecutionOption, ResolveError>)
        ensures
            r is Ok <==> datetime::parse_ok(args.date@),
            r matches Ok(o) ==> {
                &&& datetime::dt_matches(o.datetime, args.date@)
                &&& o.interval_h1 == resolve_first(args.h1, args.m5)
                &&& o.interval_m5 == args.m5
                &&& o.type_permanent == resolve_first(args.permanent, args.cctv)
                &&& o.type_cctv == resolve_second(args.permanent, args.cctv)
                &&& o.road_highway == resolve_first(args.highway, args.normal)
                &&& o.road_normal == resolve_second(args.highway, args.normal)
                &&& o.one == args.one
                &&& o.dry == args.dry
                &&& (o.interval_h1 || o.interval_m5)
                &&& (o.type_permanent || o.type_cctv)
                &&& (o.road_highway || o.road_normal)
            },
            r matches Err(e) ==> (e matches ResolveError::InvalidDate(s) && s@ == args.date@),
    {
        let dt = match datetime::parse(args.date.as_str()) {
            Some(dt) => dt,
            None => {
                return Err(ResolveError::InvalidDate(args.date.clone()));
            },
        };

        let h1 = if !args.h1 && args.m5 {
            false
        } else {
            true
        };
        let m5 = if args.m5 {
            true
        } else {
            false
        };

        let type_permanent = if !args.permanent && args.cctv {
            false
        } else {
            true
        };
        let type_cctv = if args.permanent && !args.cctv {
            false
        } else {
            true
        };

        let road_highway = if !args.highway && args.normal {
            false
        } else {
            true
        };
        let road_normal = if args.highway && !args.normal {
            false
        } else {
            true
        };

        Ok(
            ExecutionOption {
                datetime: dt,
                interval_h1: h1,
                interval_m5: m5,
                type_permanent,
                type_cctv,
                road_highway,
                road_normal,
                one: args.one,
                dry: args.dry,
            },
        )
    }

    /// Three-way road-type selector: exactly one resolved road flag set
    /// picks that road type; any other combination selects both.
    pub fn road_type(&self) -> (r: RoadType)
        ensures
            r == road_type_of(self.road_highway, self.road_normal),
    {
        if self.road_highway && !self.road_normal {
            RoadType::Highway
        } else if !self.road_highway && self.road_normal {
            RoadType::Normal
        } else {
            RoadType::Both
        }
    }
}

/// Pair-resolution law, for the sensor-type and road-type axes. Setting
/// only the second raw flag keeps only the second resolved flag; setting
/// neither or both keeps both. Setting only the first raw flag is left
/// out here: that combination keeps only the first resolved flag.
pub proof fn lemma_pair_resolution(a: bool, b: bool)
    requires
        !(a && !b),
    ensures
        (!a && b) ==> (resolve_first(a, b) == false && resolve_second(a, b) == true),
        (!a && !b) ==> (resolve_first(a, b) == true && resolve_second(a, b) == true),
        (a && b) ==> (resolve_first(a, b) == true && resolve_second(a, b) == true),
{
}

/// Resolution never yields an all-false pair: whatever the raw flags,
/// at least one resolved flag of the pair is true.
pub proof fn lemma_pair_never_both_false(a: bool, b: bool)
    ensures
        resolve_first(a, b) || resolve_second(a, b),
{
}

/// Pair-resolution law for the interval axis, whose second side passes
/// the raw flag through. With the five-minute flag set, the axis follows
/// the pair rule: set alone it keeps only the five-minute side, set with
/// the hourly flag it keeps both. With the five-minute flag unset, the
/// resolved pair is hourly alone, whatever the raw hourly flag.
pub proof fn lemma_interval_resolution(h1: bool, m5: bool)
    ensures
        m5 ==> ((!h1 && m5) ==> (resolve_first(h1, m5) == false && m5 == true)),
        m5 ==> ((h1 && m5) ==> (resolve_first(h1, m5) == true && m5 == true)),
        !m5 ==> (resolve_first(h1, m5) == true),
{
}

} // verus!
