use graphis::angle::{Proportion, Turn};
use graphis::error::DegenerateInputError;
use graphis::path::{
    ChartDocument, Command, Ellipse, EllipsePoint, PathSpec, Radii, SectorBoundary,
};
use graphis::pie_chart::PieChart;
use graphis::pie_chart_config::PieChartConfig;
use graphis::pie_chart_data::{compute_proportions, total_value, PieChartData, Slice};

fn point(data: u64, color: &str) -> PieChartData {
    PieChartData { data, color: color.to_string() }
}

fn config(center: (i32, i32), width: u32, height: u32, radial_width: u32) -> PieChartConfig {
    PieChartConfig {
        center,
        width,
        height,
        rotation: 0,
        radial_width,
        chart_width: 100,
        chart_height: 100,
    }
}

/// The coordinates of a point, by the formula that its type documents.
fn coordinates(p: &EllipsePoint) -> (f64, f64) {
    let t = -2.0 * std::f64::consts::PI * (p.at.num as f64) / (p.at.den as f64);
    let r = (p.on.rotation as f64 / 1000.0).to_radians();
    let (rx, ry) = (p.on.radii.rx as f64, p.on.radii.ry as f64);
    let (cx, cy) = (p.on.center.0 as f64, p.on.center.1 as f64);
    (
        cx + rx * t.cos() * r.cos() - ry * t.sin() * r.sin(),
        cy + rx * t.cos() * r.sin() + ry * t.sin() * r.cos(),
    )
}

fn start_of(path: &PathSpec) -> SectorBoundary {
    match (path.commands[0], path.commands[1]) {
        (Command::MoveTo(inner), Command::LineTo(outer)) => SectorBoundary { inner, outer },
        _ => panic!("not a sector path"),
    }
}

fn end_of(path: &PathSpec) -> SectorBoundary {
    match (path.commands[3], path.commands[2]) {
        (Command::LineTo(inner), Command::ArcTo { to, .. }) => SectorBoundary { inner, outer: to },
        _ => panic!("not a sector path"),
    }
}

fn large_arc_flags(path: &PathSpec) -> (bool, bool) {
    match (path.commands[2], path.commands[4]) {
        (Command::ArcTo { large_arc: a, .. }, Command::ArcTo { large_arc: b, .. }) => (a, b),
        _ => panic!("not a sector path"),
    }
}

#[test]
fn zero_sum_is_rejected_and_emits_no_paths() {
    let data = vec![point(0, "red"), point(0, "blue")];
    let chart = PieChart::new(config((50, 50), 40, 40, 0), &data);
    assert_eq!(chart.get(), Err(DegenerateInputError {}));
    let mut base = chart.get_image();
    assert_eq!(chart.draw_sectors(&mut base), Err(DegenerateInputError {}));
    assert!(base.paths.is_empty());
    assert_eq!(chart.get_data(), Err(DegenerateInputError {}));
}

#[test]
fn no_data_is_rejected() {
    let data: Vec<PieChartData> = Vec::new();
    let chart = PieChart::new(config((0, 0), 1, 1, 1), &data);
    assert_eq!(chart.get(), Err(DegenerateInputError {}));
    assert_eq!(compute_proportions(&data), Err(DegenerateInputError {}));
}

#[test]
fn single_zero_value_is_rejected() {
    let data = vec![point(0, "green")];
    let chart = PieChart::new(config((0, 0), 5, 5, 2), &data);
    assert_eq!(chart.get(), Err(DegenerateInputError {}));
}

#[test]
fn a_failed_draw_leaves_the_canvas_as_it_was() {
    let good = vec![point(2, "a"), point(3, "b")];
    let bad = vec![point(0, "c"), point(0, "d")];
    let cfg = config((50, 50), 40, 40, 10);
    let mut base = ChartDocument::new(100, 100);
    assert_eq!(PieChart::new(cfg, &good).draw_sectors(&mut base), Ok(()));
    let before = base.clone();
    assert_eq!(PieChart::new(cfg, &bad).draw_sectors(&mut base), Err(DegenerateInputError {}));
    assert_eq!(base, before);
}

#[test]
fn error_message_names_the_cause() {
    assert_eq!(DegenerateInputError {}.message(), "sum of values is zero");
}

#[test]
fn large_arc_flag_is_clear_at_exactly_one_half() {
    let data = vec![point(1, "a"), point(1, "b")];
    let doc = PieChart::new(config((50, 50), 40, 40, 0), &data).get().unwrap();
    assert_eq!(large_arc_flags(&doc.paths[0]), (false, false));
    assert_eq!(large_arc_flags(&doc.paths[1]), (false, false));
}

#[test]
fn large_arc_flag_is_set_just_above_one_half() {
    let data = vec![point(5_000_001, "a"), point(4_999_999, "b")];
    let doc = PieChart::new(config((50, 50), 40, 40, 0), &data).get().unwrap();
    assert_eq!(large_arc_flags(&doc.paths[0]), (true, true));
    assert_eq!(large_arc_flags(&doc.paths[1]), (false, false));
}

#[test]
fn exceeds_half_is_strict() {
    assert!(!Proportion { part: 1, whole: 2 }.exceeds_half());
    assert!(Proportion { part: 2, whole: 3 }.exceeds_half());
    assert!(!Proportion { part: 0, whole: 1 }.exceeds_half());
    assert!(Proportion { part: 1, whole: 1 }.exceeds_half());
    assert!(!Proportion { part: u64::MAX, whole: 2 * (u64::MAX as u128) }.exceeds_half());
    assert!(Proportion { part: u64::MAX, whole: 2 * (u64::MAX as u128) - 1 }.exceeds_half());
}

#[test]
fn single_sector_is_a_ring() {
    let data = vec![point(10, "green")];
    let doc = PieChart::new(config((50, 50), 5, 5, 2), &data).get().unwrap();
    assert_eq!(doc.paths.len(), 1);
    let inner = Ellipse { center: (50, 50), radii: Radii { rx: 5, ry: 5 }, rotation: 0 };
    let outer = Ellipse { center: (50, 50), radii: Radii { rx: 7, ry: 7 }, rotation: 0 };
    let start = Turn { num: 0, den: 2 };
    let half = Turn { num: 1, den: 2 };
    let arc = |on: Ellipse, sweep: bool, at: Turn| Command::ArcTo {
        radii: on.radii,
        rotation: 0,
        large_arc: false,
        sweep,
        to: EllipsePoint { on, at },
    };
    let expected = PathSpec {
        commands: vec![
            Command::MoveTo(EllipsePoint { on: outer, at: start }),
            arc(outer, true, half),
            arc(outer, true, start),
            Command::LineTo(EllipsePoint { on: inner, at: start }),
            arc(inner, false, half),
            arc(inner, false, start),
            Command::Close,
        ],
        fill: "green".to_string(),
    };
    assert_eq!(doc.paths[0], expected);
}

#[test]
fn single_sector_ring_ignores_the_value() {
    let cfg = config((50, 50), 5, 5, 2);
    let ten = vec![point(10, "green")];
    let one = vec![point(1, "green")];
    let most = vec![point(u64::MAX, "green")];
    let reference = PieChart::new(cfg, &ten).get().unwrap();
    assert_eq!(PieChart::new(cfg, &one).get().unwrap(), reference);
    assert_eq!(PieChart::new(cfg, &most).get().unwrap(), reference);
}

#[test]
fn single_sector_ring_has_the_radii_of_the_annulus() {
    let data = vec![point(10, "green")];
    let chart = PieChart::new(config((0, 0), 5, 5, 2), &data);
    let ring = chart.ring(&"green".to_string());
    let mut outer_radii = Vec::new();
    let mut inner_radii = Vec::new();
    for command in &ring.commands {
        if let Command::ArcTo { radii, sweep, .. } = command {
            if *sweep {
                outer_radii.push(*radii);
            } else {
                inner_radii.push(*radii);
            }
        }
    }
    assert_eq!(outer_radii, vec![Radii { rx: 7, ry: 7 }; 2]);
    assert_eq!(inner_radii, vec![Radii { rx: 5, ry: 5 }; 2]);
    for command in &ring.commands {
        let p = match command {
            Command::MoveTo(p) | Command::LineTo(p) => *p,
            Command::ArcTo { to, .. } => *to,
            Command::Close => continue,
        };
        let (x, y) = coordinates(&p);
        let distance = (x * x + y * y).sqrt();
        assert!((distance - p.on.radii.rx as f64).abs() < 1e-9);
    }
}

#[test]
fn two_equal_sectors_are_two_half_circles() {
    let data = vec![point(1, "a"), point(1, "b")];
    let doc = PieChart::new(config((50, 50), 40, 40, 0), &data).get().unwrap();
    assert_eq!(doc.paths.len(), 2);
    let circle = Ellipse { center: (50, 50), radii: Radii { rx: 40, ry: 40 }, rotation: 0 };
    let at = |num: u128| EllipsePoint { on: circle, at: Turn { num, den: 2 } };
    let arc = |sweep: bool, to: EllipsePoint| Command::ArcTo {
        radii: circle.radii,
        rotation: 0,
        large_arc: false,
        sweep,
        to,
    };
    let first = PathSpec {
        commands: vec![
            Command::MoveTo(at(0)),
            Command::LineTo(at(0)),
            arc(false, at(1)),
            Command::LineTo(at(1)),
            arc(true, at(0)),
            Command::Close,
        ],
        fill: "a".to_string(),
    };
    let second = PathSpec {
        commands: vec![
            Command::MoveTo(at(1)),
            Command::LineTo(at(1)),
            arc(false, at(2)),
            Command::LineTo(at(2)),
            arc(true, at(1)),
            Command::Close,
        ],
        fill: "b".to_string(),
    };
    assert_eq!(doc.paths, vec![first, second]);
    for path in &doc.paths {
        let (from, to) = (start_of(path).outer.at, end_of(path).outer.at);
        assert_eq!(from.den, 2);
        assert_eq!(to.num - from.num, 1);
    }
    assert_eq!(start_of(&doc.paths[1]), end_of(&doc.paths[0]));
    let (ex, ey) = coordinates(&end_of(&doc.paths[0]).outer);
    let (sx, sy) = coordinates(&start_of(&doc.paths[1]).outer);
    assert!((ex - sx).abs() < 1e-9 && (ey - sy).abs() < 1e-9);
    assert!((sx - 10.0).abs() < 1e-9 && (sy - 50.0).abs() < 1e-9);
    let (x0, y0) = coordinates(&start_of(&doc.paths[0]).outer);
    assert!((x0 - 90.0).abs() < 1e-9 && (y0 - 50.0).abs() < 1e-9);
}

#[test]
fn sector_spans_add_up_to_one_revolution() {
    let data =
        vec![point(3, "a"), point(1, "b"), point(4, "c"), point(1, "d"), point(5, "e"), point(0, "f")];
    let doc = PieChart::new(config((0, 0), 10, 20, 5), &data).get().unwrap();
    assert_eq!(doc.paths.len(), 6);
    let mut sum: u128 = 0;
    for (path, point) in doc.paths.iter().zip(&data) {
        let (from, to) = (start_of(path).outer.at, end_of(path).outer.at);
        assert_eq!(from.den, 14);
        assert_eq!(to.den, 14);
        assert_eq!(to.num - from.num, point.data as u128);
        sum += to.num - from.num;
    }
    assert_eq!(sum, 14);
}

#[test]
fn sectors_follow_one_another_in_input_order() {
    let data = vec![point(3, "a"), point(1, "b"), point(4, "c")];
    let doc = PieChart::new(config((7, -3), 10, 20, 5), &data).get().unwrap();
    assert_eq!(start_of(&doc.paths[0]).outer.at, Turn { num: 0, den: 8 });
    assert_eq!(start_of(&doc.paths[0]).inner.at, Turn { num: 0, den: 8 });
    assert_eq!(end_of(&doc.paths[0]).outer.at, Turn { num: 3, den: 8 });
    assert_eq!(end_of(&doc.paths[1]).outer.at, Turn { num: 4, den: 8 });
    assert_eq!(end_of(&doc.paths[2]).outer.at, Turn { num: 8, den: 8 });
    for i in 1..doc.paths.len() {
        assert_eq!(start_of(&doc.paths[i]), end_of(&doc.paths[i - 1]));
    }
    let fills: Vec<&str> = doc.paths.iter().map(|p| p.fill.as_str()).collect();
    assert_eq!(fills, vec!["a", "b", "c"]);
}

#[test]
fn sector_path_has_the_documented_shape() {
    let data = vec![point(3, "a"), point(1, "b")];
    let doc = PieChart::new(
        PieChartConfig {
            center: (7, -3),
            width: 10,
            height: 20,
            rotation: 45_000,
            radial_width: 5,
            chart_width: 64,
            chart_height: 48,
        },
        &data,
    )
    .get()
    .unwrap();
    let inner = Ellipse { center: (7, -3), radii: Radii { rx: 10, ry: 20 }, rotation: 45_000 };
    let outer = Ellipse { center: (7, -3), radii: Radii { rx: 15, ry: 25 }, rotation: 45_000 };
    let on = |on: Ellipse, num: u128| EllipsePoint { on, at: Turn { num, den: 4 } };
    let expected = PathSpec {
        commands: vec![
            Command::MoveTo(on(inner, 0)),
            Command::LineTo(on(outer, 0)),
            Command::ArcTo {
                radii: Radii { rx: 15, ry: 25 },
                rotation: 45_000,
                large_arc: true,
                sweep: false,
                to: on(outer, 3),
            },
            Command::LineTo(on(inner, 3)),
            Command::ArcTo {
                radii: Radii { rx: 10, ry: 20 },
                rotation: 45_000,
                large_arc: true,
                sweep: true,
                to: on(inner, 0),
            },
            Command::Close,
        ],
        fill: "a".to_string(),
    };
    assert_eq!(doc.paths[0], expected);
    assert_eq!((doc.width, doc.height), (64, 48));
    assert_eq!(doc.view_box(), (0, 0, 64, 48));
}

#[test]
fn proportions_are_exact_shares_of_the_sum() {
    let data = vec![point(3, "a"), point(0, "b"), point(5, "c")];
    let slices = compute_proportions(&data).unwrap();
    assert_eq!(
        slices,
        vec![
            Slice { weight: Proportion { part: 3, whole: 8 }, color: "a".to_string() },
            Slice { weight: Proportion { part: 0, whole: 8 }, color: "b".to_string() },
            Slice { weight: Proportion { part: 5, whole: 8 }, color: "c".to_string() },
        ]
    );
    assert_eq!(total_value(&data), 8);
}

#[test]
fn normalisation_does_not_change_the_data() {
    let data = vec![point(3, "a"), point(5, "c")];
    let before = data.clone();
    let chart = PieChart::new(config((0, 0), 1, 1, 1), &data);
    let first = chart.get_data().unwrap();
    let second = chart.get_data().unwrap();
    assert_eq!(first, second);
    assert_eq!(chart.get().unwrap(), chart.get().unwrap());
    assert_eq!(data, before);
}

#[test]
fn the_largest_weights_do_not_overflow() {
    let data = vec![point(u64::MAX, "a"), point(u64::MAX, "b"), point(u64::MAX, "c")];
    assert_eq!(total_value(&data), 3 * (u64::MAX as u128));
    let doc = PieChart::new(config((0, 0), u32::MAX, u32::MAX, u32::MAX), &data).get().unwrap();
    let last = end_of(&doc.paths[2]).outer;
    assert_eq!(last.at, Turn { num: 3 * (u64::MAX as u128), den: 3 * (u64::MAX as u128) });
    assert_eq!(last.on.radii, Radii { rx: 2 * (u32::MAX as u64), ry: 2 * (u32::MAX as u64) });
    assert_eq!(large_arc_flags(&doc.paths[0]), (false, false));
}

#[test]
fn one_weight_that_is_the_whole_sum_spans_the_revolution() {
    let data = vec![point(10, "a"), point(0, "b")];
    let doc = PieChart::new(config((0, 0), 4, 4, 1), &data).get().unwrap();
    assert_eq!(doc.paths.len(), 2);
    assert_eq!(start_of(&doc.paths[0]).outer.at, Turn { num: 0, den: 10 });
    assert_eq!(end_of(&doc.paths[0]).outer.at, Turn { num: 10, den: 10 });
    assert_eq!(large_arc_flags(&doc.paths[0]), (true, true));
    assert_eq!(start_of(&doc.paths[1]), end_of(&doc.paths[1]));
    assert_eq!(large_arc_flags(&doc.paths[1]), (false, false));
}

#[test]
fn boundary_is_a_function_of_its_arguments() {
    let data = vec![point(1, "a"), point(2, "b")];
    let cfg = config((5, 6), 10, 20, 3);
    let chart = PieChart::new(cfg, &data);
    let sv = Turn { num: 1, den: 3 };
    let weight = Proportion { part: 2, whole: 3 };
    let first = chart.boundary(sv, &weight);
    let second = chart.boundary(sv, &weight);
    assert_eq!(first, second);
    assert_eq!(PieChart::new(cfg, &data).boundary(sv, &weight), first);
    let at = Turn { num: 3, den: 3 };
    assert_eq!(
        first,
        SectorBoundary {
            inner: EllipsePoint { on: cfg.inner(), at },
            outer: EllipsePoint { on: cfg.outer(), at },
        }
    );
    assert_eq!(chart.boundary_at_turn(at), first);
}

#[test]
fn turn_advances_by_the_weight() {
    let start = Turn::start(7);
    assert_eq!(start, Turn { num: 0, den: 7 });
    let next = start.advance(&Proportion { part: 3, whole: 7 });
    assert_eq!(next, Turn { num: 3, den: 7 });
    assert_eq!(next.advance(&Proportion { part: 4, whole: 7 }), Turn { num: 7, den: 7 });
}

#[test]
fn configuration_fixes_the_two_boundaries() {
    let cfg = PieChartConfig {
        center: (-4, 9),
        width: 30,
        height: 12,
        rotation: -90_000,
        radial_width: 8,
        chart_width: 200,
        chart_height: 100,
    };
    assert!(cfg.is_well_formed());
    assert_eq!(
        cfg.inner(),
        Ellipse { center: (-4, 9), radii: Radii { rx: 30, ry: 12 }, rotation: -90_000 }
    );
    assert_eq!(
        cfg.outer(),
        Ellipse { center: (-4, 9), radii: Radii { rx: 38, ry: 20 }, rotation: -90_000 }
    );
}

#[test]
fn empty_canvas_is_not_well_formed() {
    let mut cfg = config((0, 0), 1, 1, 1);
    assert!(cfg.is_well_formed());
    cfg.chart_width = 0;
    assert!(!cfg.is_well_formed());
    cfg.chart_width = 1;
    cfg.chart_height = 0;
    assert!(!cfg.is_well_formed());
}

#[test]
fn zero_radii_are_accepted() {
    let data = vec![point(1, "a"), point(3, "b")];
    let doc = PieChart::new(config((0, 0), 0, 0, 0), &data).get().unwrap();
    assert_eq!(doc.paths.len(), 2);
    assert_eq!(start_of(&doc.paths[0]).inner, start_of(&doc.paths[0]).outer);
    assert_eq!(end_of(&doc.paths[1]).outer.on.radii, Radii { rx: 0, ry: 0 });
}

#[test]
fn donut_configuration_from_two_radii() {
    let cfg = PieChartConfig::from_radii((50, 50), 20, 45, 100, 100);
    assert_eq!(
        cfg,
        PieChartConfig {
            center: (50, 50),
            width: 20,
            height: 20,
            rotation: 0,
            radial_width: 25,
            chart_width: 100,
            chart_height: 100,
        }
    );
    assert_eq!(cfg.inner().radii, Radii { rx: 20, ry: 20 });
    assert_eq!(cfg.outer().radii, Radii { rx: 45, ry: 45 });
}

#[test]
fn document_keeps_paths_in_drawing_order() {
    let mut doc = ChartDocument::new(30, 20);
    assert_eq!(doc, ChartDocument { width: 30, height: 20, paths: vec![] });
    let first = PathSpec { commands: vec![Command::Close], fill: "x".to_string() };
    let second = PathSpec { commands: vec![], fill: "y".to_string() };
    doc.append(first.clone());
    doc.append(second.clone());
    assert_eq!(doc.paths, vec![first, second]);
    assert_eq!(doc.view_box(), (0, 0, 30, 20));
}

#[test]
fn drawing_appends_to_what_the_canvas_holds() {
    let cfg = config((50, 50), 40, 40, 10);
    let one = vec![point(2, "a"), point(3, "b")];
    let two = vec![point(9, "c")];
    let mut base = ChartDocument::new(100, 100);
    assert_eq!(PieChart::new(cfg, &one).draw_sectors(&mut base), Ok(()));
    assert_eq!(PieChart::new(cfg, &two).draw_sectors(&mut base), Ok(()));
    let mut expected = PieChart::new(cfg, &one).get().unwrap().paths;
    expected.extend(PieChart::new(cfg, &two).get().unwrap().paths);
    assert_eq!(base.paths, expected);
    assert_eq!(base.paths.len(), 3);
}

#[test]
fn drawing_slices_agrees_with_drawing_the_chart() {
    let data = vec![point(2, "a"), point(3, "b"), point(5, "c")];
    let chart = PieChart::new(config((50, 50), 40, 30, 10), &data);
    let slices = chart.get_data().unwrap();
    let mut base = chart.get_image();
    chart.draw_slices(&slices, &mut base);
    assert_eq!(base, chart.get().unwrap());
}
