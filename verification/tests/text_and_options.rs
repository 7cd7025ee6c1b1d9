//! Text helpers, command-line overrides and rasterizer settings.

use scene_pipeline::camera::Mode;
use scene_pipeline::options::{Background, CommandLineOverrides, Options, SvgPath, UIVisibility};
use scene_pipeline::raster::RasterizerOptions;
use scene_pipeline::text::{eq_ignore_ascii_case, parse_usize, str_eq};

#[test]
fn decimal_parsing_matches_the_standard_library() {
    for s in [
        "0", "1", "42", "007", "+7", "18446744073709551615", "18446744073709551616",
        "", "+", "-1", "1x", " 1", "99999999999999999999999",
    ] {
        assert_eq!(parse_usize(s), s.parse::<usize>().ok(), "input {:?}", s);
    }
    assert_eq!(parse_usize("123"), Some(123));
    assert_eq!(parse_usize("18446744073709551615"), Some(usize::MAX));
    assert_eq!(parse_usize("18446744073709551616"), None);
}

#[test]
fn string_equality_is_exact() {
    assert!(str_eq("stats", "stats"));
    assert!(!str_eq("stats", "state"));
    assert!(!str_eq("stats", "stat"));
    assert!(!str_eq("Stats", "stats"));
}

#[test]
fn case_insensitive_comparison_folds_ascii_letters_only() {
    assert!(eq_ignore_ascii_case("ON", "on"));
    assert!(eq_ignore_ascii_case("YeS", "yes"));
    assert!(!eq_ignore_ascii_case("on", "off"));
    assert!(eq_ignore_ascii_case("A1b", "a1B"));
    assert!(!eq_ignore_ascii_case("a", "b"));
}

#[test]
fn defaults_match_the_stock_configuration() {
    let o = Options::default();
    assert_eq!(o.jobs, None);
    assert_eq!(o.mode, Mode::TwoD);
    assert_eq!(o.input_path, SvgPath::Default);
    assert_eq!(o.ui, UIVisibility::All);
    assert_eq!(o.background, Background::Light);
    assert!(o.pipeline);
}

fn overrides() -> CommandLineOverrides {
    CommandLineOverrides {
        jobs: None,
        three_d: false,
        vr: false,
        ui: None,
        background: None,
        pipeline: false,
        no_pipeline: false,
        input: None,
    }
}

#[test]
fn command_line_values_override_the_defaults() {
    let mut o = Options::default();
    let mut ov = overrides();
    ov.jobs = Some(String::from("3"));
    ov.vr = true;
    ov.ui = Some(String::from("none"));
    ov.background = Some(String::from("dark"));
    ov.no_pipeline = true;
    ov.input = Some(String::from("tiger.svg"));
    o.command_line_overrides(&ov);
    assert_eq!(o.jobs, Some(3));
    assert_eq!(o.mode, Mode::VR);
    assert_eq!(o.ui, UIVisibility::Hidden);
    assert_eq!(o.background, Background::Dark);
    assert!(!o.pipeline);
    assert_eq!(o.input_path, SvgPath::Path(String::from("tiger.svg")));
}

#[test]
fn an_unparsable_jobs_value_clears_the_job_count() {
    let mut o = Options::default();
    o.jobs = Some(4);
    let mut ov = overrides();
    ov.jobs = Some(String::from("many"));
    o.command_line_overrides(&ov);
    assert_eq!(o.jobs, None);
}

#[test]
fn three_d_wins_over_vr_and_unknown_values_map_to_catch_alls() {
    let mut o = Options::default();
    let mut ov = overrides();
    ov.three_d = true;
    ov.ui = Some(String::from("everything"));
    ov.background = Some(String::from("purple"));
    o.command_line_overrides(&ov);
    assert_eq!(o.mode, Mode::ThreeD);
    assert_eq!(o.ui, UIVisibility::All);
    assert_eq!(o.background, Background::Blank);
}

#[test]
fn stored_background_codes_map_to_schemes() {
    assert_eq!(Background::from(1), Background::Dark);
    assert_eq!(Background::from(2), Background::Light);
    assert_eq!(Background::from(0), Background::Blank);
    assert_eq!(Background::from(77), Background::Blank);
}

#[test]
fn rasterizer_setting_values() {
    assert_eq!(
        RasterizerOptions::from_setting(None),
        Ok(RasterizerOptions { force_geometry_shader: false })
    );
    for on in ["on", "ON", "yes", "Yes", "1"] {
        assert_eq!(
            RasterizerOptions::from_setting(Some(on)),
            Ok(RasterizerOptions { force_geometry_shader: true }),
            "value {:?}",
            on
        );
    }
    for off in ["off", "OFF", "no", "nO", "0"] {
        assert_eq!(
            RasterizerOptions::from_setting(Some(off)),
            Ok(RasterizerOptions { force_geometry_shader: false }),
            "value {:?}",
            off
        );
    }
    assert_eq!(RasterizerOptions::from_setting(Some("maybe")), Err(()));
    let d = RasterizerOptions::default();
    assert!(!d.force_geometry_shader);
}
