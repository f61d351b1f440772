//! Expansion of a resolved configuration into the ordered list of
//! (file name, query URL) targets.
//!
//! Hour slots come first: a day-precision value expands into 24 slots,
//! a day-and-hour value into one, and a minute-precision value into
//! none (the hourly path is defined only for the two coarser
//! precisions). Each slot yields one target per requested counter
//! type, permanent before CCTV; the road types are folded into one
//! combined query filter, never into separate targets.

use vstd::prelude::*;

use crate::datetime::DT;
use crate::execution_option::{road_type_of, ExecutionOption};
use crate::types::{CounterType, Interval, RoadType};

verus! {

/// The digit character of `d`.
pub open spec fn digit_char(d: int) -> char {
    if d == 0 {
        '0'
    } else if d == 1 {
        '1'
    } else if d == 2 {
        '2'
    } else if d == 3 {
        '3'
    } else if d == 4 {
        '4'
    } else if d == 5 {
        '5'
    } else if d == 6 {
        '6'
    } else if d == 7 {
        '7'
    } else if d == 8 {
        '8'
    } else {
        '9'
    }
}

/// Two-digit, zero-padded rendering of `h`.
pub open spec fn two_digit(h: int) -> Seq<char> {
    seq![digit_char(h / 10), digit_char(h % 10)]
}

/// The hour slot of a day-precision date string and an hour: the date,
/// the zero-padded hour, and a fixed "00" minute part.
pub open spec fn slot_of(date: Seq<char>, h: int) -> Seq<char> {
    date + two_digit(h) + seq!['0', '0']
}

/// The ordered hour slots of a date/time value, for the hourly series:
/// all 24 hours of a day-precision value in ascending order, the one
/// hour of a day-and-hour value, none for a minute-precision value.
pub open spec fn slots_1h(dt: DT) -> Seq<Seq<char>> {
    match dt {
        DT::YMD { string, .. } => Seq::new(24, |h: int| slot_of(string@, h)),
        DT::YMDH { string, .. } => seq![string@ + seq!['0', '0']],
        DT::YMDHM { .. } => Seq::empty(),
    }
}

/// Two-digit, zero-padded rendering of an hour below 24.
fn two_digit_str(h: u32) -> (r: &'static str)
    requires
        h < 24,
    ensures
        r@ == two_digit(h as int),
{
    let r: &'static str = match h {
        0 => "00",
        1 => "01",
        2 => "02",
        3 => "03",
        4 => "04",
        5 => "05",
        6 => "06",
        7 => "07",
        8 => "08",
        9 => "09",
        10 => "10",
        11 => "11",
        12 => "12",
        13 => "13",
        14 => "14",
        15 => "15",
        16 => "16",
        17 => "17",
        18 => "18",
        19 => "19",
        20 => "20",
        21 => "21",
        22 => "22",
        _ => "23",
    };
    proof {
        reveal_strlit("00");
        reveal_strlit("01");
        reveal_strlit("02");
        reveal_strlit("03");
        reveal_strlit("04");
        reveal_strlit("05");
        reveal_strlit("06");
        reveal_strlit("07");
        reveal_strlit("08");
        reveal_strlit("09");
        reveal_strlit("10");
        reveal_strlit("11");
        reveal_strlit("12");
        reveal_strlit("13");
        reveal_strlit("14");
        reveal_strlit("15");
        reveal_strlit("16");
        reveal_strlit("17");
        reveal_strlit("18");
        reveal_strlit("19");
        reveal_strlit("20");
        reveal_strlit("21");
        reveal_strlit("22");
        reveal_strlit("23");
        assert(r@ =~= two_digit(h as int));
    }
    r
}

/// Builds the ordered list of hour-slot strings for the hourly series:
/// one per hour of the day for a day-precision value, exactly one for a
/// day-and-hour value, and none for a minute-precision value.
pub fn get_datetime_list_1h(dt: &DT) -> (r: Vec<String>)
    ensures
        r@.len() == slots_1h(*dt).len(),
        forall|i: int| 0 <= i < r@.len() ==> r@[i]@ == slots_1h(*dt)[i],
        dt is YMD ==> r@.len() == 24,
        dt is YMDH ==> r@.len() == 1,
        dt is YMDHM ==> r@.len() == 0,
{
    match dt {
        DT::YMD { string, .. } => {
            let mut output: Vec<String> = Vec::new();
            let mut hour: u32 = 0;
            while hour < 24
                invariant
                    hour <= 24,
                    output@.len() == hour,
                    forall|i: int| 0 <= i < hour ==> output@[i]@ == slot_of(string@, i),
                decreases 24 - hour,
            {
                let hour_str = two_digit_str(hour);
                let mut slot = string.clone();
                slot.append(hour_str);
                slot.append("00");
                proof {
                    reveal_strlit("00");
                    assert(slot@ =~= slot_of(string@, hour as int));
                }
                output.push(slot);
                hour = hour + 1;
            }
            output
        },
        DT::YMDH { string, .. } => {
            let mut slot = string.clone();
            slot.append("00");
            proof {
                reveal_strlit("00");
                assert(slot@ =~= string@ + seq!['0', '0']);
            }
            let mut output: Vec<String> = Vec::new();
            output.push(slot);
            output
        },
        DT::YMDHM { .. } => Vec::new(),
    }
}

/// Fixed endpoint and query prefix, up to the feature-type name.
pub open spec fn url_head() -> Seq<char> {
    "https://api.jartic-open-traffic.org/geoserver?service=WFS&version=2.0.0&request=GetFeature&typeNames="@
}

/// Fixed query part between the feature-type name and the filter.
pub open spec fn url_mid() -> Seq<char> {
    "&srsName=EPSG:4326&outputFormat=application/json&exceptions=application/json&cql_filter="@
}

/// Feature-type name selected by counter type and interval.
pub open spec fn feature_type_of(counter: CounterType, interval: Interval) -> Seq<char> {
    match (counter, interval) {
        (CounterType::Permanent, Interval::H1) => "t_travospublic_measure_1h"@,
        (CounterType::Permanent, Interval::M5) => "t_travospublic_measure_5m"@,
        (CounterType::Cctv, Interval::H1) => "t_travospublic_measure_1h_img"@,
        (CounterType::Cctv, Interval::M5) => "t_travospublic_measure_5m_img"@,
    }
}

/// Road-type predicate of the filter: one equality per single road
/// type, an OR of the two equalities when both are requested.
pub open spec fn road_clause_of(road: RoadType) -> Seq<char> {
    match road {
        RoadType::Highway => "道路種別='1'"@,
        RoadType::Normal => "道路種別='3'"@,
        RoadType::Both => "道路種別='1' OR 道路種別='3'"@,
    }
}

/// The full query URL of one (slot, counter type) target: the fixed
/// endpoint, the feature type, and a filter that joins the
/// parenthesized road predicate with the slot's time-code equality.
pub open spec fn url_of(
    time: Seq<char>,
    interval: Interval,
    road: RoadType,
    counter: CounterType,
) -> Seq<char> {
    url_head() + feature_type_of(counter, interval) + url_mid() + "("@ + road_clause_of(road)
        + ") AND 時間コード="@ + time
}

/// The file name (without extension) of one target: the interval code,
/// the slot, and the counter-type code. The road type is left out: all
/// requested road types come back in one combined query.
pub open spec fn filename_of(time: Seq<char>, interval: Interval, counter: CounterType) -> Seq<
    char,
> {
    interval_code(interval) + time + counter_code(counter)
}

/// One-letter file-name code of the interval.
pub open spec fn interval_code(interval: Interval) -> Seq<char> {
    match interval {
        Interval::H1 => "H"@,
        Interval::M5 => "M"@,
    }
}

/// One-letter file-name code of the counter type.
pub open spec fn counter_code(counter: CounterType) -> Seq<char> {
    match counter {
        CounterType::Permanent => "P"@,
        CounterType::Cctv => "C"@,
    }
}

/// Builds the file name (without extension) of one target.
pub fn create_filename(
    time: &str,
    interval: &Interval,
    _road_type: &RoadType,
    counter_type: &CounterType,
) -> (r: String)
    ensures
        r@ == filename_of(time@, *interval, *counter_type),
{
    let itv = match interval {
        Interval::H1 => "H",
        Interval::M5 => "M",
    };

    let cnt = match counter_type {
        CounterType::Permanent => "P",
        CounterType::Cctv => "C",
    };

    let mut name = String::from_str(itv);
    name.append(time);
    name.append(cnt);
    proof {
        assert(name@ =~= filename_of(time@, *interval, *counter_type));
    }
    name
}

/// Builds the query URL of one target.
pub fn create_url(
    time: &str,
    interval: &Interval,
    road_type: &RoadType,
    counter_type: &CounterType,
) -> (r: String)
    ensures
        r@ == url_of(time@, *interval, *road_type, *counter_type),
{
    let target = match counter_type {
        CounterType::Permanent => match interval {
            Interval::H1 => "t_travospublic_measure_1h",
            Interval::M5 => "t_travospublic_measure_5m",
        },
        CounterType::Cctv => match interval {
            Interval::H1 => "t_travospublic_measure_1h_img",
            Interval::M5 => "t_travospublic_measure_5m_img",
        },
    };

    let road = match road_type {
        RoadType::Highway => "道路種別='1'",
        RoadType::Normal => "道路種別='3'",
        RoadType::Both => "道路種別='1' OR 道路種別='3'",
    };

    let mut url = String::from_str(
        "https://api.jartic-open-traffic.org/geoserver?service=WFS&version=2.0.0&request=GetFeature&typeNames=",
    );
    url.append(target);
    url.append(
        "&srsName=EPSG:4326&outputFormat=application/json&exceptions=application/json&cql_filter=",
    );
    url.append("(");
    url.append(road);
    url.append(") AND 時間コード=");
    url.append(time);
    proof {
        assert(url@ =~= url_of(time@, *interval, *road_type, *counter_type));
    }
    url
}

/// Builds the (file name, URL) pair of one target.
pub fn get_target(
    time: &str,
    interval: &Interval,
    road_type: &RoadType,
    counter_type: &CounterType,
) -> (r: (String, String))
    ensures
        r.0@ == filename_of(time@, *interval, *counter_type),
        r.1@ == url_of(time@, *interval, *road_type, *counter_type),
{
    let name = create_filename(time, interval, road_type, counter_type);
    let url = create_url(time, interval, road_type, counter_type);

    (name, url)
}

/// The (name, URL) pair of one (slot, counter type) combination, on the
/// hourly series.
pub open spec fn target_pair(slot: Seq<char>, road: RoadType, counter: CounterType) -> (
    Seq<char>,
    Seq<char>,
) {
    (filename_of(slot, Interval::H1, counter), url_of(slot, Interval::H1, road, counter))
}

/// The targets of one hour slot, in permanent-before-CCTV order; each
/// requested counter type contributes one target.
pub open spec fn slot_targets(slot: Seq<char>, road: RoadType, permanent: bool, cctv: bool) -> Seq<
    (Seq<char>, Seq<char>),
> {
    (if permanent {
        seq![target_pair(slot, road, CounterType::Permanent)]
    } else {
        Seq::empty()
    }) + (if cctv {
        seq![target_pair(slot, road, CounterType::Cctv)]
    } else {
        Seq::empty()
    })
}

/// The targets of the first `n` slots, in slot order.
pub open spec fn targets_upto(
    slots: Seq<Seq<char>>,
    road: RoadType,
    permanent: bool,
    cctv: bool,
    n: int,
) -> Seq<(Seq<char>, Seq<char>)>
    decreases n,
{
    if n <= 0 {
        Seq::empty()
    } else {
        targets_upto(slots, road, permanent, cctv, n - 1) + slot_targets(
            slots[n - 1],
            road,
            permanent,
            cctv,
        )
    }
}

/// The full ordered target list of a date/time value under a resolved
/// configuration: all slots of the hourly series when the hourly fetch
/// is on, nothing otherwise. The five-minute series contributes no
/// targets yet.
pub open spec fn targets_of(dt: DT, opt: ExecutionOption) -> Seq<(Seq<char>, Seq<char>)> {
    if opt.interval_h1 {
        targets_upto(
            slots_1h(dt),
            road_type_of(opt.road_highway, opt.road_normal),
            opt.type_permanent,
            opt.type_cctv,
            slots_1h(dt).len() as int,
        )
    } else {
        Seq::empty()
    }
}

/// How many targets one slot yields.
pub open spec fn sensor_count(permanent: bool, cctv: bool) -> int {
    (if permanent {
        1int
    } else {
        0int
    }) + (if cctv {
        1int
    } else {
        0int
    })
}

/// The first `n` slots yield `n` times the per-slot target count.
pub proof fn lemma_targets_upto_len(
    slots: Seq<Seq<char>>,
    road: RoadType,
    permanent: bool,
    cctv: bool,
    n: int,
)
    requires
        0 <= n,
    ensures
        targets_upto(slots, road, permanent, cctv, n).len() == n * sensor_count(permanent, cctv),
    decreases n,
{
    let sc = sensor_count(permanent, cctv);
    if n <= 0 {
        assert(n * sc == 0) by (nonlinear_arith)
            requires
                n == 0,
        ;
    } else {
        lemma_targets_upto_len(slots, road, permanent, cctv, n - 1);
        assert(slot_targets(slots[n - 1], road, permanent, cctv).len() == sc);
        assert(targets_upto(slots, road, permanent, cctv, n).len() == (n - 1) * sc + sc);
        assert(n * sc == (n - 1) * sc + sc) by (nonlinear_arith);
    }
}

/// The length of the full target list: with the hourly fetch on, the
/// slot count (24 for day precision, 1 for day-and-hour precision, 0
/// for minute precision) times the per-slot target count; with the
/// hourly fetch off, or against a minute-precision value, zero.
pub proof fn lemma_targets_of_len(dt: DT, opt: ExecutionOption)
    ensures
        opt.interval_h1 ==> targets_of(dt, opt).len() == slots_1h(dt).len() * sensor_count(
            opt.type_permanent,
            opt.type_cctv,
        ),
        !opt.interval_h1 ==> targets_of(dt, opt).len() == 0,
        dt is YMDHM ==> targets_of(dt, opt).len() == 0,
{
    if opt.interval_h1 {
        lemma_targets_upto_len(
            slots_1h(dt),
            road_type_of(opt.road_highway, opt.road_normal),
            opt.type_permanent,
            opt.type_cctv,
            slots_1h(dt).len() as int,
        );
    }
}

/// Builds the ordered (file name, query URL) list of every target that
/// the configuration asks for: each hour slot of `datetime` in
/// ascending order, one target per requested counter type within each
/// slot, permanent before CCTV, all road types folded into each URL's
/// single filter. Nothing is produced when the hourly fetch is off or
/// the precision gives no hour slots.
pub fn create_names_and_urls(datetime: DT, option: &ExecutionOption) -> (r: Vec<(String, String)>)
    ensures
        r@.len() == targets_of(datetime, *option).len(),
        forall|i: int|
            0 <= i < r@.len() ==> (#[trigger] r@[i]).0@ == targets_of(datetime, *option)[i].0
                && r@[i].1@ == targets_of(datetime, *option)[i].1,
{
    let mut output: Vec<(String, String)> = Vec::new();

    if option.interval_h1 {
        let list = get_datetime_list_1h(&datetime);
        let road = option.road_type();
        let ghost slots = slots_1h(datetime);

        let mut i: usize = 0;
        while i < list.len()
            invariant
                i <= list.len(),
                list@.len() == slots.len(),
                forall|j: int| 0 <= j < list@.len() ==> list@[j]@ == slots[j],
                road == road_type_of(option.road_highway, option.road_normal),
                slots == slots_1h(datetime),
                output@.len() == targets_upto(
                    slots,
                    road,
                    option.type_permanent,
                    option.type_cctv,
                    i as int,
                ).len(),
                forall|j: int|
                    0 <= j < output@.len() ==> {
                        let t = targets_upto(
                            slots,
                            road,
                            option.type_permanent,
                            option.type_cctv,
                            i as int,
                        )[j];
                        (#[trigger] output@[j]).0@ == t.0 && output@[j].1@ == t.1
                    },
            decreases list.len() - i,
        {
            let ghost prev = targets_upto(
                slots,
                road,
                option.type_permanent,
                option.type_cctv,
                i as int,
            );
            let slot = &list[i];
            if option.type_permanent {
                output.push(
                    get_target(slot.as_str(), &Interval::H1, &road, &CounterType::Permanent),
                );
            }
            if option.type_cctv {
                output.push(get_target(slot.as_str(), &Interval::H1, &road, &CounterType::Cctv));
            }
            i = i + 1;
            proof {
                let cur = targets_upto(
                    slots,
                    road,
                    option.type_permanent,
                    option.type_cctv,
                    i as int,
                );
                assert(cur == prev + slot_targets(
                    slots[i - 1],
                    road,
                    option.type_permanent,
                    option.type_cctv,
                ));
            }
        }
        output
    } else {
        output
    }
}

} // verus!
