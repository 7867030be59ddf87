use slicer::options::MODEL_PATH;
use slicer::text::join;
use slicer::{Fills, Percent, SlicerOptions};

fn percent(fraction: f32) -> Percent {
    Percent::new(format!("{}", fraction * 100.0)).expect("a rendered number")
}

fn sample() -> SlicerOptions {
    SlicerOptions {
        svg: "<svg xmlns=\"http://www.w3.org/2000/svg\"/>".to_string(),
        fill_density: percent(0.2),
        fill_pattern: Fills::Grid,
        fill_connected: true,
        fill_overlap: percent(0.15),
        fill_angle: 45,
        fill_speed: 80,
        perimeters: 2,
        perimeter_speed: 60,
    }
}

#[test]
fn arg_list_has_ten_options_and_the_model_path() {
    let tokens = sample().arg_list();
    assert_eq!(
        tokens,
        vec![
            "-g",
            "--load slicer-config.ini",
            "--fill-density 20%",
            "--fill-pattern grid",
            "--infill-connection connected",
            "--infill-overlap 15.000001%",
            "--fill-angle 45",
            "--infill-speed 80",
            "--perimeters 2",
            "--perimeter-speed 60",
            "superslicer/model.3mf",
        ]
    );
    assert_eq!(tokens.len(), 11);
    assert_eq!(tokens[10], MODEL_PATH);
}

#[test]
fn args_is_the_list_joined_by_spaces() {
    assert_eq!(
        sample().args(),
        "-g --load slicer-config.ini --fill-density 20% --fill-pattern grid \
         --infill-connection connected --infill-overlap 15.000001% --fill-angle 45 \
         --infill-speed 80 --perimeters 2 --perimeter-speed 60 superslicer/model.3mf"
    );
    assert_eq!(sample().args(), join(&sample().arg_list()));
}

#[test]
fn options_come_in_the_same_order_for_other_settings() {
    let options = SlicerOptions {
        svg: String::new(),
        fill_density: percent(1.0),
        fill_pattern: Fills::Scatteredrectilinear,
        fill_connected: false,
        fill_overlap: percent(0.0),
        fill_angle: -90,
        fill_speed: 0,
        perimeters: i32::MAX,
        perimeter_speed: i32::MIN,
    };
    let flags = [
        "-g",
        "--load",
        "--fill-density",
        "--fill-pattern",
        "--infill-connection",
        "--infill-overlap",
        "--fill-angle",
        "--infill-speed",
        "--perimeters",
        "--perimeter-speed",
    ];
    let tokens = options.arg_list();
    assert_eq!(tokens.len(), flags.len() + 1);
    for (token, flag) in tokens.iter().zip(flags) {
        assert!(token.starts_with(flag), "{} / {}", token, flag);
    }
    assert_eq!(
        options.args(),
        "-g --load slicer-config.ini --fill-density 100% --fill-pattern scatteredrectilinear \
         --infill-connection notconnected --infill-overlap 0% --fill-angle -90 \
         --infill-speed 0 --perimeters 2147483647 --perimeter-speed -2147483648 \
         superslicer/model.3mf"
    );
}

#[test]
fn connected_infill_is_named_connected() {
    let mut options = sample();
    options.fill_connected = true;
    assert_eq!(options.arg_list()[4], "--infill-connection connected");
}

#[test]
fn unconnected_infill_is_named_notconnected() {
    let mut options = sample();
    options.fill_connected = false;
    assert_eq!(options.arg_list()[4], "--infill-connection notconnected");
}

#[test]
fn density_of_a_quarter_is_25_percent() {
    let mut options = sample();
    options.fill_density = percent(0.25);
    assert_eq!(options.arg_list()[2], "--fill-density 25%");
    assert!(options.args().contains(" --fill-density 25% "));
}

#[test]
fn overlap_of_a_tenth_is_10_percent() {
    let mut options = sample();
    options.fill_overlap = percent(0.1);
    assert_eq!(options.arg_list()[5], "--infill-overlap 10%");
    assert!(options.args().contains(" --infill-overlap 10% "));
}

#[test]
fn percent_sign_follows_the_number_without_a_space() {
    for fraction in [0.0f32, 0.15, 0.5, 2.5, -0.25, f32::NAN, f32::INFINITY] {
        let mut options = sample();
        options.fill_density = percent(fraction);
        options.fill_overlap = percent(fraction);
        let tokens = options.arg_list();
        for token in [&tokens[2], &tokens[5]] {
            assert!(token.ends_with('%'), "{}", token);
            let before = token.chars().rev().nth(1).expect("a number");
            assert!(!before.is_whitespace(), "{}", token);
            assert_eq!(token.matches(' ').count(), 1, "{}", token);
        }
    }
}

#[test]
fn out_of_range_values_pass_through() {
    let mut options = sample();
    options.fill_density = percent(1.5);
    options.fill_overlap = percent(-0.5);
    options.fill_speed = -80;
    let tokens = options.arg_list();
    assert_eq!(tokens[2], "--fill-density 150%");
    assert_eq!(tokens[5], "--infill-overlap -50%");
    assert_eq!(tokens[7], "--infill-speed -80");
}

#[test]
fn each_pattern_appears_under_its_name() {
    let mut options = sample();
    options.fill_pattern = Fills::Hilbertcurve;
    assert_eq!(options.arg_list()[3], "--fill-pattern hilbertcurve");
    options.fill_pattern = Fills::Archimedeanchords;
    assert_eq!(options.arg_list()[3], "--fill-pattern archimedeanchords");
}
