use deebot_client::geometry::{
    calc_point, calc_point_in_viewbox, to_plot_point, DeviceCoord, Point, TracePoint, Viewbox,
};
use deebot_client::path::points_to_svg_path;
use deebot_client::shapes::{
    count_unrendered_positions, get_svg_positions, get_svg_subset, get_trace_path, MapSubset,
    Position,
};

fn point(x: i64, y: i64, connected: bool) -> Point {
    Point { x, y, connected }
}

fn trace_point(x: i16, y: i16, connected: bool) -> TracePoint {
    TracePoint { x, y, connected }
}

fn whole(v: i32) -> DeviceCoord {
    DeviceCoord::integer(v)
}

fn viewbox(min_x: i64, min_y: i64, width: i64, height: i64) -> Viewbox {
    Viewbox { min_x: min_x * 1000, min_y: min_y * 1000, width: width * 1000, height: height * 1000 }
}

fn position(kind: &str, x: i32, y: i32) -> Position {
    Position { position_type: kind.to_string(), x, y }
}

fn subset(kind: &str, coordinates: &str) -> MapSubset {
    MapSubset { set_type: kind.to_string(), coordinates: coordinates.to_string() }
}

fn sample_points() -> Vec<Point> {
    vec![
        point(-215_000, -70_000, false),
        point(-215_000, -70_000, true),
        point(-212_000, -73_000, true),
        point(-213_000, -73_000, true),
        point(-227_000, -72_000, true),
        point(-227_000, -70_000, true),
        point(-227_000, -70_000, true),
        point(-256_000, -69_000, false),
        point(-260_000, -80_000, true),
    ]
}

fn sample_trace() -> Vec<TracePoint> {
    vec![
        trace_point(-215, -70, false),
        trace_point(-215, -70, true),
        trace_point(-212, -73, true),
        trace_point(-213, -73, true),
        trace_point(-227, -72, true),
        trace_point(-227, -70, true),
        trace_point(-227, -70, true),
        trace_point(-256, -69, false),
        trace_point(-260, -80, true),
    ]
}

#[test]
fn test_calc_point_on_x_axis() {
    assert_eq!(calc_point(whole(5000), whole(0)), point(100_000, 0, true));
}

#[test]
fn test_calc_point_negative_y() {
    assert_eq!(calc_point(whole(20010), whole(-29900)), point(400_200, 598_000, true));
}

#[test]
fn test_calc_point_positive_y() {
    assert_eq!(calc_point(whole(0), whole(29900)), point(0, -598_000, true));
}

#[test]
fn test_calc_point_in_viewbox_inside() {
    let r = calc_point_in_viewbox(100, 100, viewbox(-100, -100, 200, 150));
    assert_eq!(r, point(2_000, -2_000, false));
}

#[test]
fn test_calc_point_in_viewbox_low_extreme() {
    let r = calc_point_in_viewbox(-64000, -64000, viewbox(0, 0, 1000, 1000));
    assert_eq!(r, point(0, 1_000_000, false));
}

#[test]
fn test_calc_point_in_viewbox_high_extreme() {
    let r = calc_point_in_viewbox(64000, 64000, viewbox(0, 0, 1000, 1000));
    assert_eq!(r, point(1_000_000, 0, false));
}

#[test]
fn test_calc_point_in_viewbox_centered() {
    let r = calc_point_in_viewbox(0, 1000, viewbox(-500, -500, 1000, 1000));
    assert_eq!(r, point(0, -20_000, false));
}

#[test]
fn test_get_trace_points_path() {
    assert!(get_trace_path(&[]).is_none());
}

#[test]
fn test_get_trace_path_single_point() {
    let trace = get_trace_path(&[trace_point(16, 256, true)]);
    assert_eq!(
        trace.unwrap().to_string(),
        "<path d=\"M16 256\" fill=\"none\" stroke=\"#fff\" stroke-linejoin=\"round\" stroke-width=\"1.5\" transform=\"scale(0.2-0.2)\" vector-effect=\"non-scaling-stroke\"/>"
    );
}

#[test]
fn test_get_trace_path_mixed_segments() {
    let trace = get_trace_path(&sample_trace());
    assert_eq!(
        trace.unwrap().to_string(),
        "<path d=\"M-215-70l3-3h-1l-14 1v2m-29 1l-4-11\" fill=\"none\" stroke=\"#fff\" stroke-linejoin=\"round\" stroke-width=\"1.5\" transform=\"scale(0.2-0.2)\" vector-effect=\"non-scaling-stroke\"/>"
    );
}

#[test]
fn test_points_to_svg_path_single_point() {
    assert_eq!(points_to_svg_path(&[point(16_000, 256_000, true)]), "M16 256");
}

#[test]
fn test_points_to_svg_path_mixed_segments() {
    assert_eq!(points_to_svg_path(&sample_points()), "M-215-70l3-3h-1l-14 1v2m-29 1l-4-11");
}

#[test]
fn test_points_to_svg_path_fractions() {
    let points = [point(45_580, 176_120, true), point(18_780, 175_940, true)];
    assert_eq!(points_to_svg_path(&points), "M45.58 176.12l-26.8-0.18");
}

fn positions_markup(positions: Vec<Position>) -> String {
    get_svg_positions(&positions, viewbox(-500, -500, 1000, 1000))
        .iter()
        .map(|u| u.to_string())
        .collect::<Vec<String>>()
        .join("")
}

#[test]
fn test_get_svg_positions_robot_clamped() {
    let r = positions_markup(vec![position("deebotPos", 5000, -55000)]);
    assert_eq!(r, "<use href=\"#d\" x=\"100\" y=\"500\"/>");
}

#[test]
fn test_get_svg_positions_robot_inside() {
    let r = positions_markup(vec![position("deebotPos", 15000, 15000)]);
    assert_eq!(r, "<use href=\"#d\" x=\"300\" y=\"-300\"/>");
}

#[test]
fn test_get_svg_positions_robot_before_charger() {
    let r = positions_markup(vec![
        position("chargePos", 25000, 55000),
        position("deebotPos", -5000, -50000),
    ]);
    assert_eq!(r, "<use href=\"#d\" x=\"-100\" y=\"500\"/><use href=\"#c\" x=\"500\" y=\"-500\"/>");
}

#[test]
fn test_get_svg_positions_in_order() {
    let r = positions_markup(vec![
        position("deebotPos", -10000, 10000),
        position("chargePos", 50000, 5000),
    ]);
    assert_eq!(r, "<use href=\"#d\" x=\"-200\" y=\"-200\"/><use href=\"#c\" x=\"500\" y=\"-100\"/>");
}

#[test]
fn test_get_svg_subset_virtual_wall() {
    let r = get_svg_subset(&subset("vw", "[-3900,668,-2133,668]")).to_string();
    assert_eq!(
        r,
        "<path d=\"M-78-13.36h35.34\" stroke=\"#f00000\" stroke-dasharray=\"4\" stroke-width=\"1.5\" vector-effect=\"non-scaling-stroke\"/>"
    );
}

#[test]
fn test_get_svg_subset_no_mop_zone() {
    let r = get_svg_subset(&subset("mw", "[-442,2910,-442,982,1214,982,1214,2910]")).to_string();
    assert_eq!(
        r,
        "<polygon fill=\"#ffa50030\" points=\"-8.84 -58.2 -8.84 -19.64 24.28 -19.64 24.28 -58.2\" stroke=\"#ffa500\" stroke-dasharray=\"4\" stroke-width=\"1.5\" vector-effect=\"non-scaling-stroke\"/>"
    );
}

#[test]
fn test_get_svg_subset_quoted_coordinates() {
    let r = get_svg_subset(&subset("vw", "['12023', '1979', '12135', '-6720']")).to_string();
    assert_eq!(
        r,
        "<path d=\"M240.46-39.58l2.24 173.98\" stroke=\"#f00000\" stroke-dasharray=\"4\" stroke-width=\"1.5\" vector-effect=\"non-scaling-stroke\"/>"
    );
}

#[test]
fn plot_points_of_pairs_negate_y() {
    let values: Vec<i32> = vec![5000, 100, -250, -7, 0, 1, 31, 0];
    for pair in values.chunks(2) {
        let p = to_plot_point(pair[0], pair[1]);
        assert_eq!(p.x, pair[0] as i64 * 20);
        assert_eq!(p.y, -(pair[1] as i64) * 20);
        assert_eq!(pair[1] > 0, p.y < 0);
        assert_eq!(pair[1] < 0, p.y > 0);
        assert!(p.connected);
    }
    assert_eq!(to_plot_point(-7, -7), point(-140, 140, true));
}

#[test]
fn viewbox_clamp_holds_extremes() {
    let vb = viewbox(-10, 20, 30, 40);
    for (x, y) in [(64000, 64000), (-64000, -64000), (i32::MAX, i32::MIN), (0, 0), (-600, -1500)] {
        let p = calc_point_in_viewbox(x, y, vb);
        assert!(vb.min_x <= p.x && p.x <= vb.min_x + vb.width);
        assert!(vb.min_y <= p.y && p.y <= vb.min_y + vb.height);
        assert!(!p.connected);
    }
    assert_eq!(calc_point_in_viewbox(-600, -1500, vb), point(-10_000, 30_000, false));
}

#[test]
fn single_point_path_has_no_segments() {
    assert_eq!(points_to_svg_path(&[point(16_000, 256_000, true)]), "M16 256");
    assert_eq!(points_to_svg_path(&[point(-1_500, -2_250, false)]), "M-1.5-2.25");
    assert_eq!(points_to_svg_path(&[point(3_000, 0, true)]), "M30");
    assert_eq!(points_to_svg_path(&[]), "");
}

#[test]
fn repeated_commands_are_elided() {
    let points = [
        point(0, 0, true),
        point(1_000, 0, true),
        point(-1_000, 0, true),
        point(-1_000, 2_000, true),
        point(-1_000, -3_000, true),
        point(0, -2_000, true),
        point(2_000, -5_000, true),
        point(2_000, -5_000, true),
        point(5_000, 5_000, false),
        point(6_000, 6_000, false),
    ];
    assert_eq!(points_to_svg_path(&points), "M00h1-2v2-5l1 1 2-3m3 10m1 1");
}

#[test]
fn fractional_and_unparsable_coordinates() {
    let r = get_svg_subset(&subset("x", "[1e5, -.5, abc, 12.5, \"7\", --3]")).to_string();
    assert_eq!(
        r,
        "<polygon fill=\"#00000030\" points=\"2000 0.01 0 -0.25 0.14 0\" stroke=\"#000000\" stroke-dasharray=\"4\" stroke-width=\"1.5\" vector-effect=\"non-scaling-stroke\"/>"
    );
}

#[test]
fn odd_and_empty_coordinates() {
    let r = get_svg_subset(&subset("vw", "")).to_string();
    assert!(r.starts_with("<polygon fill=\"#f00000"));
    assert!(r.contains("points=\"\""));
    let r = get_svg_subset(&subset("mw", "[50, 100, 150]")).to_string();
    assert!(r.contains("points=\"1 -2\""));
}

#[test]
fn unrecognized_positions_are_counted() {
    let positions = vec![
        position("deebotPos", 0, 0),
        position("other", 5, 5),
        position("chargePos", 1, 1),
        position("", 0, 0),
    ];
    assert_eq!(count_unrendered_positions(&positions), 2);
    let r = get_svg_positions(&positions, viewbox(-500, -500, 1000, 1000));
    assert_eq!(r.len(), 2);
}

#[test]
fn relative_move_spaces_non_negative_second_number() {
    let points = [point(1_000, 1_000, true), point(4_000, 1_000, false)];
    assert_eq!(points_to_svg_path(&points), "M1 1m3 0");
    let points = [point(0, 1_000, true), point(2_000, 3_000, false), point(1_000, 1_000, false)];
    assert_eq!(points_to_svg_path(&points), "M0 1m2 2m-1-2");
}

#[test]
fn horizontal_run_drops_repeated_letter() {
    let points = [
        point(0, 1_000, true),
        point(1_000, 1_000, true),
        point(3_000, 1_000, true),
        point(2_000, 1_000, true),
    ];
    assert_eq!(points_to_svg_path(&points), "M0 1h1 2-1");
}

#[test]
fn numerals_with_exponents_and_many_digits() {
    let cases = [
        ("[000000000000000000001, 0]", "0.02 0"),
        ("[123456789012345678, 0]", "0 0"),
        ("[0.12345678901234567891, 0]", "0.002 0"),
        ("[1.5E-3, 25e-1]", "0 -0.05"),
        ("[1e+2, 1.e1]", "2 -0.2"),
        ("[1e, -2e-]", "0.02 0"),
        ("[99999999999999999, -1e16]", "1999999999999999.98 200000000000000"),
    ];
    for (coordinates, listed) in cases {
        let r = get_svg_subset(&subset("", coordinates)).to_string();
        let expected = format!("points=\"{}\"", listed);
        assert!(r.contains(&expected), "{} gave {}", coordinates, r);
    }
}
