use jartic_fetch::datetime::DT;
use jartic_fetch::execution_option::ExecutionOption;
use jartic_fetch::types::{CounterType, Interval, RoadType};
use jartic_fetch::url::{create_filename, create_url, get_datetime_list_1h, get_target};

#[test]
fn test_get_datetime_list_1h_for_ymd() {
    let dt = DT::YMD {
        string: "20250102".to_string(),
        year: 2025,
        month: 1,
        day: 2,
    };

    let result = get_datetime_list_1h(&dt);

    assert_eq!(result.len(), 24);

    for (i, datetime) in result.iter().enumerate() {
        let expected_hour = format!("{:02}", i);
        assert_eq!(datetime, &format!("20250102{}00", expected_hour));
    }
}

#[test]
fn test_get_datetime_list_1h_for_ymdh() {
    let dt = DT::YMDH {
        string: "2025010203".to_string(),
        year: 2025,
        month: 1,
        day: 2,
        hour: 3,
    };

    let result = get_datetime_list_1h(&dt);

    assert_eq!(result.len(), 1);

    assert_eq!(result[0], "202501020300");
}

#[test]
fn minute_precision_yields_no_slots() {
    let dt = DT::YMDHM {
        string: "202501020304".to_string(),
        year: 2025,
        month: 1,
        day: 2,
        hour: 3,
        minute: 4,
    };

    let result = get_datetime_list_1h(&dt);
    assert!(result.is_empty());
}

fn config(dt: DT) -> ExecutionOption {
    ExecutionOption {
        datetime: dt,
        interval_h1: true,
        interval_m5: false,
        type_permanent: true,
        type_cctv: true,
        road_highway: true,
        road_normal: true,
        one: false,
        dry: false,
    }
}

fn day_config() -> ExecutionOption {
    config(DT::YMD {
        string: "20250102".to_string(),
        year: 2025,
        month: 1,
        day: 2,
    })
}

#[test]
fn road_type_selector() {
    let mut option = day_config();
    option.road_highway = true;
    option.road_normal = false;
    assert!(matches!(option.road_type(), RoadType::Highway));

    option.road_highway = false;
    option.road_normal = true;
    assert!(matches!(option.road_type(), RoadType::Normal));

    option.road_highway = true;
    option.road_normal = true;
    assert!(matches!(option.road_type(), RoadType::Both));

    option.road_highway = false;
    option.road_normal = false;
    assert!(matches!(option.road_type(), RoadType::Both));
}

#[test]
fn filename_shapes() {
    assert_eq!(
        create_filename("202501020300", &Interval::H1, &RoadType::Both, &CounterType::Permanent),
        "H202501020300P"
    );
    assert_eq!(
        create_filename("202501020300", &Interval::H1, &RoadType::Highway, &CounterType::Cctv),
        "H202501020300C"
    );
    assert_eq!(
        create_filename("202501020300", &Interval::M5, &RoadType::Normal, &CounterType::Permanent),
        "M202501020300P"
    );
    assert_eq!(
        create_filename("202501020300", &Interval::M5, &RoadType::Both, &CounterType::Cctv),
        "M202501020300C"
    );
}

#[test]
fn url_shapes() {
    let url = create_url("202501020300", &Interval::H1, &RoadType::Highway, &CounterType::Permanent);
    assert_eq!(
        url,
        "https://api.jartic-open-traffic.org/geoserver?service=WFS&version=2.0.0&request=GetFeature&typeNames=t_travospublic_measure_1h&srsName=EPSG:4326&outputFormat=application/json&exceptions=application/json&cql_filter=(道路種別='1') AND 時間コード=202501020300"
    );

    let url = create_url("202501020300", &Interval::H1, &RoadType::Normal, &CounterType::Cctv);
    assert!(url.contains("typeNames=t_travospublic_measure_1h_img&"));
    assert!(url.contains("cql_filter=(道路種別='3') AND 時間コード=202501020300"));

    let url = create_url("202501020300", &Interval::M5, &RoadType::Both, &CounterType::Permanent);
    assert!(url.contains("typeNames=t_travospublic_measure_5m&"));
    assert!(url.contains("cql_filter=(道路種別='1' OR 道路種別='3') AND 時間コード=202501020300"));

    let url = create_url("202501020300", &Interval::M5, &RoadType::Both, &CounterType::Cctv);
    assert!(url.contains("typeNames=t_travospublic_measure_5m_img&"));
}

#[test]
fn target_pairs_name_and_url() {
    let (name, url) = get_target("202501020300", &Interval::H1, &RoadType::Both, &CounterType::Permanent);
    assert_eq!(name, "H202501020300P");
    assert!(url.contains("(道路種別='1' OR 道路種別='3') AND 時間コード=202501020300"));
}
