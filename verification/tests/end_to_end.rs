use jartic_fetch::execution_option::ExecutionOption;
use jartic_fetch::run_option::RunOption;
use jartic_fetch::types::{Cli, Interval};
use jartic_fetch::url::create_names_and_urls;

fn args(date: &str) -> Cli {
    Cli {
        date: date.to_string(),
        h1: false,
        m5: false,
        permanent: false,
        cctv: false,
        highway: false,
        normal: false,
        one: false,
        dry: false,
    }
}

#[test]
fn day_default_expands_to_48_targets() {
    let option = ExecutionOption::from_args(&args("20250102")).unwrap();
    let targets = create_names_and_urls(option.datetime.clone(), &option);

    assert_eq!(targets.len(), 48);

    for (i, (name, url)) in targets.iter().enumerate() {
        let hour = i / 2;
        let slot = format!("20250102{:02}00", hour);
        let sensor = if i % 2 == 0 { "P" } else { "C" };
        assert_eq!(name, &format!("H{}{}", slot, sensor));
        assert!(url.contains("(道路種別='1' OR 道路種別='3')"));
        assert!(url.contains(&format!("時間コード={}", slot)));
    }
}

#[test]
fn day_hour_permanent_highway_expands_to_one_target() {
    let mut cli = args("2025010203");
    cli.permanent = true;
    cli.highway = true;
    let option = ExecutionOption::from_args(&cli).unwrap();
    let targets = create_names_and_urls(option.datetime.clone(), &option);

    assert_eq!(targets.len(), 1);
    let (name, url) = &targets[0];
    assert_eq!(name, "H202501020300P");
    assert!(url.contains("(道路種別='1') AND 時間コード=202501020300"));
    assert!(!url.contains(" OR "));
}

#[test]
fn minute_precision_expands_to_no_targets() {
    let option = ExecutionOption::from_args(&args("202501020304")).unwrap();
    let targets = create_names_and_urls(option.datetime.clone(), &option);
    assert!(targets.is_empty());
}

#[test]
fn five_minute_only_expands_to_no_targets() {
    let mut cli = args("20250102");
    cli.m5 = true;
    let option = ExecutionOption::from_args(&cli).unwrap();
    assert!(!option.interval_h1);
    assert!(option.interval_m5);
    let targets = create_names_and_urls(option.datetime.clone(), &option);
    assert!(targets.is_empty());
}

#[test]
fn cctv_only_expands_to_cctv_targets() {
    let mut cli = args("2025010203");
    cli.cctv = true;
    let option = ExecutionOption::from_args(&cli).unwrap();
    let targets = create_names_and_urls(option.datetime.clone(), &option);

    assert_eq!(targets.len(), 1);
    let (name, url) = &targets[0];
    assert_eq!(name, "H202501020300C");
    assert!(url.contains("typeNames=t_travospublic_measure_1h_img&"));
}

#[test]
fn run_option_from_cli() {
    let cli = args("20250102");
    let run = RunOption::from_cli(&cli);
    assert_eq!(run.date, "20250102");
    assert!(matches!(run.interval, Interval::H1));

    let mut cli = args("20250102");
    cli.m5 = true;
    let run = RunOption::from_cli(&cli);
    assert!(matches!(run.interval, Interval::M5));
}

#[test]
fn run_option_new_keeps_parts() {
    let cli = args("2025010203");
    let run = RunOption::from_cli(&cli);
    let rebuilt = RunOption::new(run.date.clone(), Interval::M5, run.datetime);
    assert_eq!(rebuilt.date, "2025010203");
    assert!(matches!(rebuilt.interval, Interval::M5));
}
