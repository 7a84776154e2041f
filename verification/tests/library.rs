use aqi_query::datetime::get_metric_datetime;
use aqi_query::datetime::get_metric_timestamp;
use aqi_query::datetime::trim_char;
use aqi_query::metrics::apply_observation;
use aqi_query::metrics::log_o3_metric;
use aqi_query::metrics::log_pm10_metric;
use aqi_query::metrics::log_pm25_metric;
use aqi_query::metrics::register_metrics;
use aqi_query::metrics::Registry;
use aqi_query::observation::AqiData;
use aqi_query::report::render_report;
use aqi_query::schedule::bind_address;
use aqi_query::schedule::build_request_url;
use aqi_query::schedule::default_bind_ip;
use aqi_query::schedule::process_batch;
use aqi_query::schedule::run_mode;
use aqi_query::schedule::Config;
use aqi_query::schedule::RunMode;
use aqi_query::text::dec_i64;
use aqi_query::text::dec_u64;
use aqi_query::text::pad_left;
use aqi_query::text::str_eq;

fn record(date: &str, hour: u32, parameter: &str, aqi: u32) -> AqiData {
    AqiData {
        date_observed: date.to_string(),
        hour_observed: hour,
        local_time_zone: "PST".to_string(),
        state_code: "MA".to_string(),
        reporting_area: "Boston".to_string(),
        parameter_name: parameter.to_string(),
        aqi,
    }
}

fn registered() -> Registry {
    let mut registry = Registry::new();
    assert!(register_metrics(&mut registry).is_ok());
    registry
}

fn gauge_value(registry: &Registry, name: &str) -> i64 {
    for g in &registry.gauges {
        if g.name == name {
            return g.value;
        }
    }
    panic!("no gauge named {}", name);
}

#[test]
fn dec_renders_decimal() {
    assert_eq!(dec_u64(0), "0");
    assert_eq!(dec_u64(7), "7");
    assert_eq!(dec_u64(12345), "12345");
    assert_eq!(dec_u64(u64::MAX), "18446744073709551615");
}

#[test]
fn dec_renders_signed_decimal() {
    assert_eq!(dec_i64(0), "0");
    assert_eq!(dec_i64(-42), "-42");
    assert_eq!(dec_i64(i64::MIN), "-9223372036854775808");
}

#[test]
fn pad_left_right_aligns() {
    assert_eq!(pad_left("O3", 12), "          O3");
    assert_eq!(pad_left("AQI", 10), "       AQI");
    assert_eq!(pad_left("wider-than-the-field", 4), "wider-than-the-field");
    assert_eq!(pad_left("", 3), "   ");
}

#[test]
fn str_eq_compares_by_characters() {
    assert!(str_eq("O3", "O3"));
    assert!(!str_eq("O3", "PM10"));
    assert!(!str_eq("O3", "O3 "));
}

#[test]
fn empty_batch_reports_empty_response() {
    let report = render_report(&Vec::new());
    assert_eq!(report, "Empty response\n");
}

#[test]
fn single_ozone_row_report() {
    let batch = vec![record("2021-06-01", 14, "O3", 42)];
    let report = render_report(&batch);
    assert_eq!(
        report,
        "      Date      Hour   Parameter       AQI\n\
         2021-06-01        14          O3        42\n"
    );
}

#[test]
fn report_has_header_and_one_line_per_record() {
    let batch = vec![
        record("2021-06-01", 14, "O3", 42),
        record("2021-06-01", 14, "PM10", 17),
        record("2021-06-01", 15, "CO", 3),
    ];
    let report = render_report(&batch);
    let lines: Vec<&str> = report.lines().collect();
    assert_eq!(lines.len(), 1 + batch.len());
    assert_eq!(lines[0], "      Date      Hour   Parameter       AQI");
    assert_eq!(lines[2], "2021-06-01        14        PM10        17");
}

#[test]
fn register_metrics_registers_three_gauges() {
    let registry = registered();
    assert_eq!(registry.gauges.len(), 3);
    assert_eq!(registry.gauges[0].name, "airnow_o3_aqi_values");
    assert_eq!(registry.gauges[1].name, "airnow_pm10_aqi_values");
    assert_eq!(registry.gauges[2].name, "airnow_pm25_aqi_values");
    for g in &registry.gauges {
        assert_eq!(g.value, 0);
    }
}

#[test]
fn duplicate_registration_is_refused() {
    let mut registry = registered();
    let before: usize = registry.gauges.len();
    match register_metrics(&mut registry) {
        Ok(()) => panic!("re-registration must fail"),
        Err(e) => assert_eq!(e.message(), "duplicate metrics collector registration attempted"),
    }
    assert_eq!(registry.gauges.len(), before);
}

#[test]
fn update_sets_exact_value_regardless_of_prior() {
    let mut registry = registered();
    assert!(log_o3_metric(&mut registry, 7).is_ok());
    assert!(log_o3_metric(&mut registry, 42).is_ok());
    assert_eq!(gauge_value(&registry, "airnow_o3_aqi_values"), 42);
    assert!(log_pm10_metric(&mut registry, 17).is_ok());
    assert_eq!(gauge_value(&registry, "airnow_pm10_aqi_values"), 17);
    assert!(log_pm25_metric(&mut registry, 9).is_ok());
    assert_eq!(gauge_value(&registry, "airnow_pm25_aqi_values"), 9);
}

#[test]
fn unrecognized_pollutant_changes_nothing() {
    let mut registry = registered();
    assert!(log_o3_metric(&mut registry, 11).is_ok());
    let before = registry.encode_metrics();
    apply_observation(&mut registry, &record("2021-06-01", 14, "CO", 99));
    assert_eq!(registry.encode_metrics(), before);
    assert_eq!(gauge_value(&registry, "airnow_o3_aqi_values"), 11);
}

#[test]
fn ozone_observation_sets_ozone_gauge() {
    let mut registry = registered();
    apply_observation(&mut registry, &record("2021-06-01", 14, "O3", 42));
    assert_eq!(gauge_value(&registry, "airnow_o3_aqi_values"), 42);
    assert_eq!(gauge_value(&registry, "airnow_pm10_aqi_values"), 0);
    assert_eq!(gauge_value(&registry, "airnow_pm25_aqi_values"), 0);
}

#[test]
fn pm25_observations_are_not_routed() {
    let mut registry = registered();
    apply_observation(&mut registry, &record("2021-06-01", 14, "PM2.5", 33));
    assert_eq!(gauge_value(&registry, "airnow_pm25_aqi_values"), 0);
}

#[test]
fn scrape_lists_every_gauge_with_its_value() {
    let mut registry = registered();
    assert!(log_o3_metric(&mut registry, 42).is_ok());
    assert!(log_pm10_metric(&mut registry, 7).is_ok());
    let text = registry.encode_metrics();
    assert!(text.contains("airnow_o3_aqi_values 42\n"));
    assert!(text.contains("airnow_pm10_aqi_values 7\n"));
    assert!(text.contains("airnow_pm25_aqi_values 0\n"));
    assert!(text.contains("# TYPE airnow_o3_aqi_values gauge\n"));
    assert!(text.contains("# HELP airnow_o3_aqi_values Airnow O3 AQI\n"));
}

#[test]
fn absent_or_false_flag_runs_one_shot() {
    assert_eq!(run_mode(&None), RunMode::OneShot);
    assert_eq!(run_mode(&Some(Some(false))), RunMode::OneShot);
}

#[test]
fn present_or_true_flag_runs_continuous() {
    assert_eq!(run_mode(&Some(None)), RunMode::Continuous);
    assert_eq!(run_mode(&Some(Some(true))), RunMode::Continuous);
}

#[test]
fn disabled_metrics_cycle_touches_no_gauge() {
    let mut registry = registered();
    let batch = vec![record("2021-06-01", 14, "O3", 42)];
    let report = process_batch(&mut registry, &batch, false);
    assert!(report.starts_with("      Date"));
    assert_eq!(gauge_value(&registry, "airnow_o3_aqi_values"), 0);
}

#[test]
fn enabled_metrics_cycle_updates_gauges() {
    let mut registry = registered();
    let batch = vec![
        record("2021-06-01", 14, "O3", 42),
        record("2021-06-01", 14, "CO", 99),
        record("2021-06-01", 14, "PM10", 17),
    ];
    let report = process_batch(&mut registry, &batch, true);
    assert_eq!(report.lines().count(), 4);
    assert_eq!(gauge_value(&registry, "airnow_o3_aqi_values"), 42);
    assert_eq!(gauge_value(&registry, "airnow_pm10_aqi_values"), 17);
    assert_eq!(gauge_value(&registry, "airnow_pm25_aqi_values"), 0);
}

#[test]
fn later_reading_overwrites_earlier_one() {
    let mut registry = registered();
    let batch = vec![
        record("2021-06-01", 13, "O3", 1),
        record("2021-06-01", 14, "O3", 5),
    ];
    process_batch(&mut registry, &batch, true);
    assert_eq!(gauge_value(&registry, "airnow_o3_aqi_values"), 5);
}

#[test]
fn request_url_embeds_configuration() {
    let config = Config {
        air_now_api_key: "SECRET-REDACTED".to_string(),
        zip_code: "02134".to_string(),
        prom_enabled: None,
    };
    assert_eq!(
        build_request_url(&config),
        "http://www.airnowapi.org/aq/observation/zipCode/current/\
         ?format=application/json&zipCode=02134&distance=20&API_KEY=SECRET-REDACTED"
    );
}

#[test]
fn bind_address_fills_in_defaults() {
    assert_eq!(bind_address(None, None), ((0, 0, 0, 0), 3030));
    assert_eq!(bind_address(Some((127, 0, 0, 1)), Some(9090)), ((127, 0, 0, 1), 9090));
    assert_eq!(default_bind_ip(), (0, 0, 0, 0));
}

#[test]
fn trim_strips_the_edge_character() {
    assert_eq!(trim_char("  2021-06-01  ", ' '), "2021-06-01");
    assert_eq!(trim_char("\0\0x\0", '\0'), "x");
    assert_eq!(trim_char("\0\0\0", '\0'), "");
    assert_eq!(trim_char("a b", ' '), "a b");
}

#[test]
fn date_strings_parse_after_cleaning() {
    match get_metric_datetime(" 2021-06-01\0\0", 14) {
        Ok(stamp) => {
            assert_eq!(stamp.year, 2021);
            assert_eq!(stamp.month, 6);
            assert_eq!(stamp.day, 1);
            assert_eq!(stamp.hour, 14);
        }
        Err(_) => panic!("a clean date must parse"),
    }
}

#[test]
fn garbage_dates_are_rejected() {
    match get_metric_datetime("not-a-date", 0) {
        Ok(_) => panic!("garbage must not parse"),
        Err(e) => assert!(!e.message().is_empty()),
    }
}

#[test]
fn metric_timestamp_exists_for_todays_noon() {
    assert!(get_metric_timestamp(12).is_some());
}
