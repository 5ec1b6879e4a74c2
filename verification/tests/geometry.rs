use gymnarium_visualisers_base::math::{Position2D, Size2D, Vector2D};
use gymnarium_visualisers_base::scalar::Scalar;
use gymnarium_visualisers_base::transformation::{Transformation2D, Transformations2D};
use gymnarium_visualisers_base::{
    Color, CornerShape, Geometry2D, LineShape, TextureSource, Viewport2D, ViewportRemap,
};

fn s(x: f64) -> Scalar {
    Scalar::from_bits(x.to_bits())
}

fn p(x: f64, y: f64) -> Position2D {
    Position2D::with(s(x), s(y))
}

fn empty() -> Transformations2D {
    Transformations2D::default()
}

fn pipeline(list: Vec<Transformation2D>) -> Transformations2D {
    Transformations2D::with(list)
}

fn one_of_each() -> Vec<Geometry2D> {
    vec![
        Geometry2D::point(p(1.0, 2.0)),
        Geometry2D::line(p(0.0, 0.0), p(10.0, 0.0)),
        Geometry2D::polyline(vec![p(0.0, 0.0), p(1.0, 1.0), p(2.0, 0.0)]),
        Geometry2D::triangle(p(0.0, 0.0), p(1.0, 0.0), p(0.0, 1.0)),
        Geometry2D::square(p(0.0, 0.0), s(2.0)),
        Geometry2D::rectangle(p(0.0, 0.0), Size2D::with(s(2.0), s(3.0))),
        Geometry2D::polygon(vec![p(0.0, 0.0), p(1.0, 1.0), p(2.0, 0.0)]),
        Geometry2D::circle(p(0.0, 0.0), s(5.0)),
        Geometry2D::ellipse(p(0.0, 0.0), Size2D::with(s(2.0), s(3.0))),
        Geometry2D::image(
            p(0.0, 0.0),
            Size2D::with(s(2.0), s(3.0)),
            TextureSource::path("ship.png".to_string()),
        ),
    ]
}

#[test]
fn a_point_is_black() {
    assert_eq!(
        Geometry2D::point(p(1.0, 2.0)),
        Geometry2D::Point { position: p(1.0, 2.0), color: Color::black(), transformations: empty() }
    );
}

#[test]
fn a_line_is_black_of_width_one_with_square_ends() {
    assert_eq!(
        Geometry2D::line(p(0.0, 0.0), p(10.0, 0.0)),
        Geometry2D::Line {
            points: [p(0.0, 0.0), p(10.0, 0.0)],
            line_color: Color::black(),
            line_width: s(1.0),
            line_shape: LineShape::Square,
            transformations: empty(),
        }
    );
}

#[test]
fn a_polyline_is_black_of_width_one_with_square_ends() {
    assert_eq!(
        Geometry2D::polyline(vec![p(0.0, 0.0), p(1.0, 1.0)]),
        Geometry2D::Polyline {
            points: vec![p(0.0, 0.0), p(1.0, 1.0)],
            line_color: Color::black(),
            line_width: s(1.0),
            line_shape: LineShape::Square,
            transformations: empty(),
        }
    );
}

#[test]
fn a_triangle_is_filled_black_without_border() {
    assert_eq!(
        Geometry2D::triangle(p(0.0, 0.0), p(1.0, 0.0), p(0.0, 1.0)),
        Geometry2D::Triangle {
            points: [p(0.0, 0.0), p(1.0, 0.0), p(0.0, 1.0)],
            fill_color: Color::black(),
            border_color: Color::transparent(),
            border_width: s(0.0),
            transformations: empty(),
        }
    );
}

#[test]
fn a_square_is_filled_black_without_border_and_has_square_corners() {
    assert_eq!(
        Geometry2D::square(p(3.0, 4.0), s(2.0)),
        Geometry2D::Square {
            center_position: p(3.0, 4.0),
            edge_length: s(2.0),
            fill_color: Color::black(),
            border_color: Color::transparent(),
            border_width: s(0.0),
            corner_shape: CornerShape::Square,
            transformations: empty(),
        }
    );
}

#[test]
fn a_rectangle_is_filled_black_without_border_and_has_square_corners() {
    assert_eq!(
        Geometry2D::rectangle(p(3.0, 4.0), Size2D::with(s(2.0), s(6.0))),
        Geometry2D::Rectangle {
            center_position: p(3.0, 4.0),
            size: Size2D::with(s(2.0), s(6.0)),
            fill_color: Color::black(),
            border_color: Color::transparent(),
            border_width: s(0.0),
            corner_shape: CornerShape::Square,
            transformations: empty(),
        }
    );
}

#[test]
fn a_polygon_is_filled_black_without_border() {
    assert_eq!(
        Geometry2D::polygon(vec![p(0.0, 0.0), p(1.0, 1.0), p(2.0, 0.0)]),
        Geometry2D::Polygon {
            points: vec![p(0.0, 0.0), p(1.0, 1.0), p(2.0, 0.0)],
            fill_color: Color::black(),
            border_color: Color::transparent(),
            border_width: s(0.0),
            transformations: empty(),
        }
    );
}

#[test]
fn a_circle_is_filled_black_without_border() {
    assert_eq!(
        Geometry2D::circle(p(3.0, 4.0), s(5.0)),
        Geometry2D::Circle {
            center_position: p(3.0, 4.0),
            radius: s(5.0),
            fill_color: Color::black(),
            border_color: Color::transparent(),
            border_width: s(0.0),
            transformations: empty(),
        }
    );
}

#[test]
fn an_ellipse_is_filled_black_without_border() {
    assert_eq!(
        Geometry2D::ellipse(p(3.0, 4.0), Size2D::with(s(2.0), s(6.0))),
        Geometry2D::Ellipse {
            center_position: p(3.0, 4.0),
            size: Size2D::with(s(2.0), s(6.0)),
            fill_color: Color::black(),
            border_color: Color::transparent(),
            border_width: s(0.0),
            transformations: empty(),
        }
    );
}

#[test]
fn an_image_shows_the_whole_texture_untinted() {
    assert_eq!(
        Geometry2D::image(
            p(3.0, 4.0),
            Size2D::with(s(2.0), s(6.0)),
            TextureSource::bytes(vec![1, 2, 3, 4], 1, 1)
        ),
        Geometry2D::Image {
            center_position: p(3.0, 4.0),
            size: Size2D::with(s(2.0), s(6.0)),
            texture_source: TextureSource::Bytes { data: vec![1, 2, 3, 4], width: 1, height: 1 },
            source_rectangle: None,
            fill_color: None,
            transformations: empty(),
        }
    );
}

#[test]
fn a_group_holds_its_members_in_order() {
    let g = Geometry2D::group(vec![Geometry2D::point(p(1.0, 1.0)), Geometry2D::point(p(2.0, 2.0))]);
    assert_eq!(
        g,
        Geometry2D::Group(vec![Geometry2D::point(p(1.0, 1.0)), Geometry2D::point(p(2.0, 2.0))])
    );
    assert_ne!(
        g,
        Geometry2D::Group(vec![Geometry2D::point(p(2.0, 2.0)), Geometry2D::point(p(1.0, 1.0))])
    );
}

#[test]
fn fill_color_leaves_a_line_as_it_was() {
    let line = Geometry2D::line(p(0.0, 0.0), p(10.0, 0.0));
    assert_eq!(line.clone().fill_color(Color::red()), line);
    let styled = Geometry2D::line(p(1.0, 2.0), p(3.0, 4.0))
        .line_or_border_color(Color::blue())
        .line_or_border_width(s(2.5))
        .line_shape(LineShape::Round)
        .move_by(Vector2D::with(s(1.0), s(1.0)));
    assert_eq!(styled.clone().fill_color(Color::red()), styled);
}

#[test]
fn fill_color_leaves_a_polyline_as_it_was() {
    let polyline = Geometry2D::polyline(vec![p(0.0, 0.0), p(1.0, 1.0)]);
    assert_eq!(polyline.clone().fill_color(Color::red()), polyline);
}

#[test]
fn fill_color_sets_the_fill_of_every_other_shape() {
    let got: Vec<Geometry2D> =
        one_of_each().into_iter().map(|g| g.fill_color(Color::red())).collect();
    let want = vec![
        Geometry2D::Point { position: p(1.0, 2.0), color: Color::red(), transformations: empty() },
        Geometry2D::line(p(0.0, 0.0), p(10.0, 0.0)),
        Geometry2D::polyline(vec![p(0.0, 0.0), p(1.0, 1.0), p(2.0, 0.0)]),
        Geometry2D::Triangle {
            points: [p(0.0, 0.0), p(1.0, 0.0), p(0.0, 1.0)],
            fill_color: Color::red(),
            border_color: Color::transparent(),
            border_width: s(0.0),
            transformations: empty(),
        },
        Geometry2D::Square {
            center_position: p(0.0, 0.0),
            edge_length: s(2.0),
            fill_color: Color::red(),
            border_color: Color::transparent(),
            border_width: s(0.0),
            corner_shape: CornerShape::Square,
            transformations: empty(),
        },
        Geometry2D::Rectangle {
            center_position: p(0.0, 0.0),
            size: Size2D::with(s(2.0), s(3.0)),
            fill_color: Color::red(),
            border_color: Color::transparent(),
            border_width: s(0.0),
            corner_shape: CornerShape::Square,
            transformations: empty(),
        },
        Geometry2D::Polygon {
            points: vec![p(0.0, 0.0), p(1.0, 1.0), p(2.0, 0.0)],
            fill_color: Color::red(),
            border_color: Color::transparent(),
            border_width: s(0.0),
            transformations: empty(),
        },
        Geometry2D::Circle {
            center_position: p(0.0, 0.0),
            radius: s(5.0),
            fill_color: Color::red(),
            border_color: Color::transparent(),
            border_width: s(0.0),
            transformations: empty(),
        },
        Geometry2D::Ellipse {
            center_position: p(0.0, 0.0),
            size: Size2D::with(s(2.0), s(3.0)),
            fill_color: Color::red(),
            border_color: Color::transparent(),
            border_width: s(0.0),
            transformations: empty(),
        },
        Geometry2D::Image {
            center_position: p(0.0, 0.0),
            size: Size2D::with(s(2.0), s(3.0)),
            texture_source: TextureSource::path("ship.png".to_string()),
            source_rectangle: None,
            fill_color: Some(Color::red()),
            transformations: empty(),
        },
    ];
    assert_eq!(got, want);
}

#[test]
fn line_or_border_color_sets_line_and_border_and_nothing_else() {
    let got: Vec<Geometry2D> =
        one_of_each().into_iter().map(|g| g.line_or_border_color(Color::green())).collect();
    let before = one_of_each();
    assert_eq!(got[0], before[0]);
    assert_eq!(got[9], before[9]);
    assert_eq!(
        got[1],
        Geometry2D::Line {
            points: [p(0.0, 0.0), p(10.0, 0.0)],
            line_color: Color::green(),
            line_width: s(1.0),
            line_shape: LineShape::Square,
            transformations: empty(),
        }
    );
    assert_eq!(
        got[2],
        Geometry2D::Polyline {
            points: vec![p(0.0, 0.0), p(1.0, 1.0), p(2.0, 0.0)],
            line_color: Color::green(),
            line_width: s(1.0),
            line_shape: LineShape::Square,
            transformations: empty(),
        }
    );
    assert_eq!(
        got[3],
        Geometry2D::Triangle {
            points: [p(0.0, 0.0), p(1.0, 0.0), p(0.0, 1.0)],
            fill_color: Color::black(),
            border_color: Color::green(),
            border_width: s(0.0),
            transformations: empty(),
        }
    );
    assert_eq!(
        got[4],
        Geometry2D::Square {
            center_position: p(0.0, 0.0),
            edge_length: s(2.0),
            fill_color: Color::black(),
            border_color: Color::green(),
            border_width: s(0.0),
            corner_shape: CornerShape::Square,
            transformations: empty(),
        }
    );
    assert_eq!(
        got[5],
        Geometry2D::Rectangle {
            center_position: p(0.0, 0.0),
            size: Size2D::with(s(2.0), s(3.0)),
            fill_color: Color::black(),
            border_color: Color::green(),
            border_width: s(0.0),
            corner_shape: CornerShape::Square,
            transformations: empty(),
        }
    );
    assert_eq!(
        got[6],
        Geometry2D::Polygon {
            points: vec![p(0.0, 0.0), p(1.0, 1.0), p(2.0, 0.0)],
            fill_color: Color::black(),
            border_color: Color::green(),
            border_width: s(0.0),
            transformations: empty(),
        }
    );
    assert_eq!(
        got[7],
        Geometry2D::Circle {
            center_position: p(0.0, 0.0),
            radius: s(5.0),
            fill_color: Color::black(),
            border_color: Color::green(),
            border_width: s(0.0),
            transformations: empty(),
        }
    );
    assert_eq!(
        got[8],
        Geometry2D::Ellipse {
            center_position: p(0.0, 0.0),
            size: Size2D::with(s(2.0), s(3.0)),
            fill_color: Color::black(),
            border_color: Color::green(),
            border_width: s(0.0),
            transformations: empty(),
        }
    );
}

#[test]
fn line_or_border_width_sets_line_and_border_and_nothing_else() {
    let got: Vec<Geometry2D> =
        one_of_each().into_iter().map(|g| g.line_or_border_width(s(3.5))).collect();
    let before = one_of_each();
    assert_eq!(got[0], before[0]);
    assert_eq!(got[9], before[9]);
    assert_eq!(
        got[1],
        Geometry2D::Line {
            points: [p(0.0, 0.0), p(10.0, 0.0)],
            line_color: Color::black(),
            line_width: s(3.5),
            line_shape: LineShape::Square,
            transformations: empty(),
        }
    );
    assert_eq!(
        got[2],
        Geometry2D::Polyline {
            points: vec![p(0.0, 0.0), p(1.0, 1.0), p(2.0, 0.0)],
            line_color: Color::black(),
            line_width: s(3.5),
            line_shape: LineShape::Square,
            transformations: empty(),
        }
    );
    for (i, g) in got.iter().enumerate() {
        if (3..=8).contains(&i) {
            let width = match g {
                Geometry2D::Triangle { border_width, .. }
                | Geometry2D::Square { border_width, .. }
                | Geometry2D::Rectangle { border_width, .. }
                | Geometry2D::Polygon { border_width, .. }
                | Geometry2D::Circle { border_width, .. }
                | Geometry2D::Ellipse { border_width, .. } => *border_width,
                _ => panic!("shape {i} changed its kind"),
            };
            assert_eq!(width, s(3.5));
            assert_eq!(g.clone().line_or_border_width(s(0.0)), before[i]);
        }
    }
}

#[test]
fn line_shape_sets_the_ends_of_lines_and_nothing_else() {
    let got: Vec<Geometry2D> =
        one_of_each().into_iter().map(|g| g.line_shape(LineShape::Bevel)).collect();
    let before = one_of_each();
    assert_eq!(
        got[1],
        Geometry2D::Line {
            points: [p(0.0, 0.0), p(10.0, 0.0)],
            line_color: Color::black(),
            line_width: s(1.0),
            line_shape: LineShape::Bevel,
            transformations: empty(),
        }
    );
    assert_eq!(
        got[2],
        Geometry2D::Polyline {
            points: vec![p(0.0, 0.0), p(1.0, 1.0), p(2.0, 0.0)],
            line_color: Color::black(),
            line_width: s(1.0),
            line_shape: LineShape::Bevel,
            transformations: empty(),
        }
    );
    for i in [0usize, 3, 4, 5, 6, 7, 8, 9] {
        assert_eq!(got[i], before[i]);
    }
}

#[test]
fn corner_shape_sets_the_corners_of_boxes_and_nothing_else() {
    let got: Vec<Geometry2D> = one_of_each()
        .into_iter()
        .map(|g| g.corner_shape(CornerShape::Round(s(0.25), 8)))
        .collect();
    let before = one_of_each();
    assert_eq!(
        got[4],
        Geometry2D::Square {
            center_position: p(0.0, 0.0),
            edge_length: s(2.0),
            fill_color: Color::black(),
            border_color: Color::transparent(),
            border_width: s(0.0),
            corner_shape: CornerShape::Round(s(0.25), 8),
            transformations: empty(),
        }
    );
    assert_eq!(
        got[5],
        Geometry2D::Rectangle {
            center_position: p(0.0, 0.0),
            size: Size2D::with(s(2.0), s(3.0)),
            fill_color: Color::black(),
            border_color: Color::transparent(),
            border_width: s(0.0),
            corner_shape: CornerShape::Round(s(0.25), 8),
            transformations: empty(),
        }
    );
    for i in [0usize, 1, 2, 3, 6, 7, 8, 9] {
        assert_eq!(got[i], before[i]);
    }
}

#[test]
fn a_group_hands_every_setter_on_to_its_members() {
    let nested = || {
        Geometry2D::group(vec![
            Geometry2D::line(p(0.0, 0.0), p(1.0, 0.0)),
            Geometry2D::group(vec![
                Geometry2D::square(p(0.0, 0.0), s(2.0)),
                Geometry2D::group(vec![]),
                Geometry2D::point(p(5.0, 5.0)),
            ]),
        ])
    };
    assert_eq!(
        nested().fill_color(Color::red()),
        Geometry2D::group(vec![
            Geometry2D::line(p(0.0, 0.0), p(1.0, 0.0)),
            Geometry2D::group(vec![
                Geometry2D::square(p(0.0, 0.0), s(2.0)).fill_color(Color::red()),
                Geometry2D::group(vec![]),
                Geometry2D::point(p(5.0, 5.0)).fill_color(Color::red()),
            ]),
        ])
    );
    assert_eq!(
        nested().line_or_border_color(Color::cyan()),
        Geometry2D::group(vec![
            Geometry2D::line(p(0.0, 0.0), p(1.0, 0.0)).line_or_border_color(Color::cyan()),
            Geometry2D::group(vec![
                Geometry2D::square(p(0.0, 0.0), s(2.0)).line_or_border_color(Color::cyan()),
                Geometry2D::group(vec![]),
                Geometry2D::point(p(5.0, 5.0)),
            ]),
        ])
    );
    assert_eq!(
        nested().line_or_border_width(s(4.0)),
        Geometry2D::group(vec![
            Geometry2D::line(p(0.0, 0.0), p(1.0, 0.0)).line_or_border_width(s(4.0)),
            Geometry2D::group(vec![
                Geometry2D::square(p(0.0, 0.0), s(2.0)).line_or_border_width(s(4.0)),
                Geometry2D::group(vec![]),
                Geometry2D::point(p(5.0, 5.0)),
            ]),
        ])
    );
    assert_eq!(
        nested().line_shape(LineShape::Round),
        Geometry2D::group(vec![
            Geometry2D::line(p(0.0, 0.0), p(1.0, 0.0)).line_shape(LineShape::Round),
            Geometry2D::group(vec![
                Geometry2D::square(p(0.0, 0.0), s(2.0)),
                Geometry2D::group(vec![]),
                Geometry2D::point(p(5.0, 5.0)),
            ]),
        ])
    );
    assert_eq!(
        nested().corner_shape(CornerShape::Bevel(s(0.5))),
        Geometry2D::group(vec![
            Geometry2D::line(p(0.0, 0.0), p(1.0, 0.0)),
            Geometry2D::group(vec![
                Geometry2D::square(p(0.0, 0.0), s(2.0)).corner_shape(CornerShape::Bevel(s(0.5))),
                Geometry2D::group(vec![]),
                Geometry2D::point(p(5.0, 5.0)),
            ]),
        ])
    );
}

#[test]
fn the_line_shape_of_a_grouped_line_changes() {
    let g = Geometry2D::group(vec![Geometry2D::line(p(0.0, 0.0), p(1.0, 0.0))])
        .line_shape(LineShape::Round);
    match g {
        Geometry2D::Group(members) => match &members[0] {
            Geometry2D::Line { line_shape, .. } => assert_eq!(*line_shape, LineShape::Round),
            other => panic!("not a line: {other:?}"),
        },
        other => panic!("not a group: {other:?}"),
    }
}

#[test]
fn setting_twice_keeps_the_second_value() {
    for g in one_of_each() {
        assert_eq!(
            g.clone().fill_color(Color::red()).fill_color(Color::blue()),
            g.clone().fill_color(Color::blue())
        );
        assert_eq!(
            g.clone().line_or_border_width(s(1.0)).line_or_border_width(s(2.0)),
            g.clone().line_or_border_width(s(2.0))
        );
        assert_eq!(
            g.clone().corner_shape(CornerShape::Bevel(s(1.0))).corner_shape(CornerShape::Square),
            g.clone().corner_shape(CornerShape::Square)
        );
    }
}

#[test]
fn append_transformation_adds_at_the_end_of_each_pipeline() {
    for g in one_of_each() {
        let moved = g
            .append_transformation(Transformation2D::Rotation(s(0.5)))
            .append_transformation(Transformation2D::Identity);
        let pipeline = match &moved {
            Geometry2D::Point { transformations, .. }
            | Geometry2D::Line { transformations, .. }
            | Geometry2D::Polyline { transformations, .. }
            | Geometry2D::Triangle { transformations, .. }
            | Geometry2D::Square { transformations, .. }
            | Geometry2D::Rectangle { transformations, .. }
            | Geometry2D::Polygon { transformations, .. }
            | Geometry2D::Circle { transformations, .. }
            | Geometry2D::Ellipse { transformations, .. }
            | Geometry2D::Image { transformations, .. } => transformations,
            Geometry2D::Group(_) => panic!("a shape became a group"),
        };
        assert_eq!(
            pipeline.transformations,
            vec![Transformation2D::Rotation(s(0.5)), Transformation2D::Identity]
        );
    }
}

#[test]
fn append_transformation_changes_nothing_but_the_pipeline() {
    let before = one_of_each();
    for (i, g) in one_of_each().into_iter().enumerate() {
        let moved = g.append_transformation(Transformation2D::ReflectionX);
        let restored = match moved {
            Geometry2D::Point { position, color, .. } => {
                Geometry2D::Point { position, color, transformations: empty() }
            }
            Geometry2D::Circle {
                center_position, radius, fill_color, border_color, border_width, ..
            } => Geometry2D::Circle {
                center_position,
                radius,
                fill_color,
                border_color,
                border_width,
                transformations: empty(),
            },
            Geometry2D::Image {
                center_position,
                size,
                texture_source,
                source_rectangle,
                fill_color,
                ..
            } => Geometry2D::Image {
                center_position,
                size,
                texture_source,
                source_rectangle,
                fill_color,
                transformations: empty(),
            },
            other => {
                assert_ne!(other, before[i]);
                continue;
            }
        };
        assert_eq!(restored, before[i]);
    }
}

#[test]
fn a_group_adds_the_operation_to_each_shape_in_it() {
    let op = || {
        Transformation2D::composition(
            "Twice".to_string(),
            vec![Transformation2D::IsotropicScale(s(2.0)), Transformation2D::ShearX(s(0.5))],
        )
    };
    let g = Geometry2D::group(vec![
        Geometry2D::point(p(1.0, 1.0)).move_by(Vector2D::with(s(1.0), s(0.0))),
        Geometry2D::group(vec![Geometry2D::circle(p(0.0, 0.0), s(1.0)), Geometry2D::group(vec![])]),
    ])
    .append_transformation(op());
    assert_eq!(
        g,
        Geometry2D::Group(vec![
            Geometry2D::Point {
                position: p(1.0, 1.0),
                color: Color::black(),
                transformations: pipeline(vec![
                    Transformation2D::Translation(Vector2D::with(s(1.0), s(0.0))),
                    op(),
                ]),
            },
            Geometry2D::Group(vec![
                Geometry2D::Circle {
                    center_position: p(0.0, 0.0),
                    radius: s(1.0),
                    fill_color: Color::black(),
                    border_color: Color::transparent(),
                    border_width: s(0.0),
                    transformations: pipeline(vec![op()]),
                },
                Geometry2D::Group(vec![]),
            ]),
        ])
    );
}

#[test]
fn move_by_adds_a_translation() {
    let g = Geometry2D::line(p(0.0, 0.0), p(1.0, 0.0)).move_by(Vector2D::with(s(3.0), s(-4.0)));
    assert_eq!(
        g,
        Geometry2D::line(p(0.0, 0.0), p(1.0, 0.0))
            .append_transformation(Transformation2D::Translation(Vector2D::with(s(3.0), s(-4.0))))
    );
    match g {
        Geometry2D::Line { transformations, .. } => assert_eq!(
            transformations.transformations,
            vec![Transformation2D::Translation(Vector2D::with(s(3.0), s(-4.0)))]
        ),
        other => panic!("not a line: {other:?}"),
    }
}

#[test]
fn a_clone_is_equal_and_shares_nothing() {
    let source = Geometry2D::group(vec![
        Geometry2D::polygon(vec![p(0.0, 0.0), p(1.0, 1.0), p(2.0, 0.0)])
            .move_by(Vector2D::with(s(1.0), s(1.0))),
        Geometry2D::image(
            p(0.0, 0.0),
            Size2D::with(s(1.0), s(1.0)),
            TextureSource::bytes(vec![9, 8, 7, 6], 1, 1),
        ),
        Geometry2D::group(vec![]),
    ]);
    let copy = source.clone();
    assert_eq!(copy, source);
    let changed = copy.append_transformation(Transformation2D::Identity);
    assert_ne!(changed, source);
    match &source {
        Geometry2D::Group(members) => match &members[0] {
            Geometry2D::Polygon { transformations, .. } => assert_eq!(transformations.len(), 1),
            other => panic!("not a polygon: {other:?}"),
        },
        other => panic!("not a group: {other:?}"),
    }
}

#[test]
fn viewports_start_unflipped_and_flip_one_axis_at_a_time() {
    let v = Viewport2D::with(p(1.0, 2.0), Size2D::with(s(3.0), s(4.0)));
    assert_eq!(
        v,
        Viewport2D {
            center: p(1.0, 2.0),
            size: Size2D::with(s(3.0), s(4.0)),
            flipped_x_axis: false,
            flipped_y_axis: false,
        }
    );
    let x = v.flipped_x_axis(true);
    assert_eq!((x.flipped_x_axis, x.flipped_y_axis), (true, false));
    assert_eq!((x.center, x.size), (v.center, v.size));
    let xy = x.flipped_y_axis(true);
    assert_eq!((xy.flipped_x_axis, xy.flipped_y_axis), (true, true));
    let y = xy.flipped_x_axis(false);
    assert_eq!((y.flipped_x_axis, y.flipped_y_axis), (false, true));
    assert_eq!((y.center, y.size), (v.center, v.size));
}

fn remap() -> ViewportRemap {
    ViewportRemap {
        source_to_origin: Vector2D::with(s(-10.0), s(-20.0)),
        x_factor: s(2.0),
        y_factor: s(0.5),
        origin_to_target: Vector2D::with(s(7.0), s(8.0)),
    }
}

fn first() -> Transformation2D {
    Transformation2D::Translation(Vector2D::with(s(-10.0), s(-20.0)))
}

fn scaling() -> Transformation2D {
    Transformation2D::Scale(s(2.0), s(0.5))
}

fn last() -> Transformation2D {
    Transformation2D::Translation(Vector2D::with(s(7.0), s(8.0)))
}

fn named(steps: Vec<Transformation2D>) -> Transformation2D {
    Transformation2D::Composition("ViewportTransformation".to_string(), steps)
}

#[test]
fn between_viewports_that_agree_there_are_three_steps() {
    let a = Viewport2D::with(p(10.0, 20.0), Size2D::with(s(1.0), s(2.0)));
    let b = Viewport2D::with(p(7.0, 8.0), Size2D::with(s(2.0), s(1.0)));
    assert_eq!(a.transformation_to(&b, &remap()), named(vec![first(), scaling(), last()]));
    let a = a.flipped_x_axis(true).flipped_y_axis(true);
    let b = b.flipped_x_axis(true).flipped_y_axis(true);
    assert_eq!(a.transformation_to(&b, &remap()), named(vec![first(), scaling(), last()]));
}

#[test]
fn a_differing_y_flip_reflects_y_after_the_first_step() {
    let a = Viewport2D::with(p(10.0, 20.0), Size2D::with(s(1.0), s(2.0)));
    let b = Viewport2D::with(p(7.0, 8.0), Size2D::with(s(2.0), s(1.0))).flipped_y_axis(true);
    let want = named(vec![first(), Transformation2D::ReflectionY, scaling(), last()]);
    assert_eq!(a.transformation_to(&b, &remap()), want);
    assert_eq!(b.transformation_to(&a, &remap()), want);
}

#[test]
fn a_differing_x_flip_reflects_x_after_the_first_step() {
    let a = Viewport2D::with(p(10.0, 20.0), Size2D::with(s(1.0), s(2.0))).flipped_x_axis(true);
    let b = Viewport2D::with(p(7.0, 8.0), Size2D::with(s(2.0), s(1.0)));
    let want = named(vec![first(), Transformation2D::ReflectionX, scaling(), last()]);
    assert_eq!(a.transformation_to(&b, &remap()), want);
}

#[test]
fn both_flips_differing_reflects_y_then_x() {
    let a = Viewport2D::with(p(10.0, 20.0), Size2D::with(s(1.0), s(2.0))).flipped_x_axis(true);
    let b = Viewport2D::with(p(7.0, 8.0), Size2D::with(s(2.0), s(1.0))).flipped_y_axis(true);
    assert_eq!(
        a.transformation_to(&b, &remap()),
        named(vec![
            first(),
            Transformation2D::ReflectionY,
            Transformation2D::ReflectionX,
            scaling(),
            last(),
        ])
    );
}

#[test]
fn transform_adds_the_viewport_composition_to_each_shape() {
    let a = Viewport2D::with(p(10.0, 20.0), Size2D::with(s(1.0), s(2.0)));
    let b = Viewport2D::with(p(7.0, 8.0), Size2D::with(s(2.0), s(1.0))).flipped_y_axis(true);
    let g = Geometry2D::group(vec![
        Geometry2D::point(p(1.0, 1.0)),
        Geometry2D::circle(p(0.0, 0.0), s(1.0)).move_by(Vector2D::with(s(1.0), s(1.0))),
    ])
    .transform(&a, &b, &remap());
    let op = || named(vec![first(), Transformation2D::ReflectionY, scaling(), last()]);
    assert_eq!(
        g,
        Geometry2D::group(vec![
            Geometry2D::point(p(1.0, 1.0)).append_transformation(op()),
            Geometry2D::circle(p(0.0, 0.0), s(1.0))
                .move_by(Vector2D::with(s(1.0), s(1.0)))
                .append_transformation(op()),
        ])
    );
}
