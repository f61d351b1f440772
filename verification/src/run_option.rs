//! A thin run description: the raw date string, the chosen interval and
//! the parsed date/time value, bundled together.

use vstd::prelude::*;

use crate::datetime;
use crate::datetime::DT;
use crate::types::{Cli, Interval};

verus! {

/// A run description built straight from the command-line input, before
/// any pair resolution.
#[derive(Debug)]
pub struct RunOption {
    /// The raw date string as given.
    pub date: String,
    /// The chosen fetch interval.
    pub interval: Interval,
    /// The parsed date/time value of `date`.
    pub datetime: DT,
}

impl RunOption {
    /// Bundles the three parts unchanged.
    pub fn new(date: String, interval: Interval, datetime: DT) -> (r: Self)
        ensures
            r.date == date,
            r.interval == interval,
            r.datetime == datetime,
    {
        RunOption { date, interval, datetime }
    }

    /// Builds the run description from the command-line input: the
    /// five-minute flag picks the interval, and the date string must
    /// parse. A caller gives an unparseable date at its own peril; the
    /// precondition rules it out here.
    pub fn from_cli(cli: &Cli) -> (r: Self)
        requires
            datetime::parse_ok(cli.date@),
        ensures
            r.date@ == cli.date@,
            r.interval == (if cli.m5 {
                Interval::M5
            } else {
                Interval::H1
            }),
            datetime::dt_matches(r.datetime, cli.date@),
    {
        let interval = if cli.m5 {
            Interval::M5
        } else {
            Interval::H1
        };

        let dt = match datetime::parse(cli.date.as_str()) {
            Some(dt) => dt,
            None => unreached(),
        };

        RunOption::new(cli.date.clone(), interval, dt)
    }
}

} // verus!
