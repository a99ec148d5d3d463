use barfeed::bar::Bar;
use barfeed::config::Config;
use barfeed::segment::{
    battery_segment, cpu_temp_segment, format_observation, volume_segment, weather_segment,
};
use barfeed::text::{i64_to_dec, u64_to_dec};
use barfeed::weather::conditions_of_text;

fn weather_payload() -> String {
    let head = "{\"sort_order\": 0, \"name\": \"Beerburrum\", \"history_product\": \"IDQ60801\", \"local_date_time\": \"11/01:30pm\", \"local_date_time_full\": \"20180811133000\", \"aifstime_utc\": \"20180811033000\", \"lat\": -26.9, \"lon\": 152.9, \"apparent_t\": 22.4, \"delta_t\": 5.3, \"gust_kmh\": 13, \"gust_kt\": 7, \"air_temp\": 24.3, \"dewpt\": 8.1, \"press\": null, \"press_qnh\": null, \"press_msl\": null, ";
    let tail = "\"press_tend\": \"-\", \"rain_trace\": \"0.0\", \"rel_hum\": 41, \"wind_dir\": \"SSE\", \"wind_spd_kmh\": 11, \"wind_spd_kt\": 6}";
    format!("{{\"observations\": {{\"data\": [{}{}]}}}}", head, tail)
}

#[test]
fn decimal_rendering() {
    assert_eq!(u64_to_dec(0), "0");
    assert_eq!(u64_to_dec(7), "7");
    assert_eq!(u64_to_dec(1234567890), "1234567890");
    assert_eq!(i64_to_dec(-42), "-42");
    assert_eq!(i64_to_dec(0), "0");
    assert_eq!(i64_to_dec(i64::MIN + 1), "-9223372036854775807");
    assert_eq!(i64_to_dec(i64::MIN), "-9223372036854775808");
}

#[test]
fn volume_zero_is_silent_icon() {
    let seg = volume_segment(false, 0);
    assert_eq!(seg.text, "\u{1f508} 0");
    assert!(seg.fg.is_none());
}

#[test]
fn volume_low_range_is_low_icon() {
    assert_eq!(volume_segment(false, 1).text, "\u{1f509} 1");
    assert_eq!(volume_segment(false, 49).text, "\u{1f509} 49");
}

#[test]
fn volume_high_range_is_high_icon() {
    assert_eq!(volume_segment(false, 50).text, "\u{1f50a} 50");
    assert_eq!(volume_segment(false, 100).text, "\u{1f50a} 100");
}

#[test]
fn volume_muted_is_muted_icon_alone() {
    assert_eq!(volume_segment(true, 0).text, "\u{1f507}");
    assert_eq!(volume_segment(true, 73).text, "\u{1f507}");
}

#[test]
fn battery_renders_plug_on_ac() {
    let seg = battery_segment(Ok(true), Some(73));
    assert_eq!(seg.text, "\u{1f50c} 73%");
    assert!(seg.fg.is_none());
    assert_eq!(seg.pad, 1);
}

#[test]
fn battery_renders_battery_icon_off_ac() {
    let seg = battery_segment(Ok(false), Some(73));
    assert_eq!(seg.text, "\u{1f50b} 73%");
}

#[test]
fn battery_icon_alone_when_charge_read_fails() {
    let seg = battery_segment(Ok(true), None);
    assert_eq!(seg.text, "\u{1f50c}");
    assert!(seg.fg.is_none());
}

#[test]
fn battery_power_read_failure_is_red_flagged() {
    let seg = battery_segment(Err(String::from("power read error")), Some(73));
    assert_eq!(seg.text, "power read error");
    assert_eq!(seg.fg.as_deref(), Some("#bb1155"));
}

#[test]
fn cpu_temp_renders_degrees() {
    let seg = cpu_temp_segment(Some(42));
    assert_eq!(seg.text, "42\u{b0}C");
    assert!(seg.fg.is_none());
    let seg = cpu_temp_segment(Some(-3));
    assert_eq!(seg.text, "-3\u{b0}C");
}

#[test]
fn cpu_temp_failure_is_red_flagged_placeholder() {
    let seg = cpu_temp_segment(None);
    assert_eq!(seg.text, "cpu temp error");
    assert_eq!(seg.fg.as_deref(), Some("#bb1155"));
}

#[test]
fn observation_line_omits_pressure() {
    let obs = conditions_of_text(&weather_payload()).unwrap();
    let line = format_observation(&Some(obs));
    assert_eq!(
        line,
        "\u{1f321}24\u{b0}c (22\u{b0}c)  \u{1f327}\u{2009}\u{fe0f}0.0mm  \u{1f32b}\u{2009}\u{fe0f}41%  \u{1f6e9}\u{2009}\u{fe0f}11km/h"
    );
    assert!(!line.contains("1018"));
}

#[test]
fn observation_placeholder_when_absent() {
    assert_eq!(format_observation(&None), "\u{1f321} --");
    let seg = weather_segment(&None);
    assert_eq!(seg.text, "\u{1f321} --");
    assert_eq!(seg.pad, 1);
}

#[test]
fn config_reads_known_flags_and_ignores_others() {
    let args = vec![
        String::from("-a"),
        String::from("junk"),
        String::from("-c"),
        String::from("--other"),
    ];
    let config = Config::from_args(&args);
    assert!(config.audio);
    assert!(config.cpu_temp);
    assert!(!config.battery);
    assert!(!config.weather);
}

#[test]
fn config_defaults_to_everything_off() {
    let config = Config::from_args(&Vec::new());
    assert!(!config.audio && !config.battery && !config.weather && !config.cpu_temp);
}

#[test]
fn empty_bar_composes_to_nothing() {
    let bar = Bar::new();
    assert_eq!(bar.compose(), "");
}

#[test]
fn bar_composes_slots_in_order_with_padding() {
    let mut bar = Bar::new();
    bar.add(volume_segment(false, 50));
    bar.add(cpu_temp_segment(Some(42)));
    assert_eq!(bar.compose(), "\u{1f50a} 50 42\u{b0}C ");
}

#[test]
fn bar_set_rewrites_only_one_slot() {
    let mut bar = Bar::new();
    bar.add(volume_segment(false, 50));
    bar.add(cpu_temp_segment(Some(42)));
    bar.set(0, volume_segment(true, 0));
    assert_eq!(bar.compose(), "\u{1f507} 42\u{b0}C ");
}
