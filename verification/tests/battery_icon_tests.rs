//! Battery icon glyph tests: the command sequences are replayed against an
//! embedded-graphics mock display and checked pixel by pixel.

use embedded_graphics::draw_target::DrawTarget;
use embedded_graphics::geometry::Point as EgPoint;
use embedded_graphics::geometry::Size as EgSize;
use embedded_graphics::mock_display::MockDisplay;
use embedded_graphics::pixelcolor::Rgb888;
use embedded_graphics::pixelcolor::RgbColor;
use embedded_graphics::primitives::Polyline;
use embedded_graphics::primitives::Primitive;
use embedded_graphics::primitives::PrimitiveStyleBuilder;
use embedded_graphics::primitives::Rectangle as EgRectangle;
use embedded_graphics::primitives::Triangle as EgTriangle;
use embedded_graphics::Drawable;

use watchface::battery_icon::BatteryIconBuilder;
use watchface::battery_icon::ChargerAlignment;
use watchface::draw_command::DrawCommand;
use watchface::geometry::Color;
use watchface::geometry::Point;
use watchface::ChargerState;
use watchface::StateOfCharge;

fn to_rgb(color: Color) -> Rgb888 {
    match color {
        Color::Black => Rgb888::BLACK,
        Color::White => Rgb888::WHITE,
        Color::Red => Rgb888::RED,
        Color::Green => Rgb888::GREEN,
    }
}

fn execute<D: DrawTarget<Color = Rgb888>>(
    commands: &[DrawCommand],
    display: &mut D,
) -> Result<(), D::Error> {
    for command in commands {
        match command {
            DrawCommand::Polyline { points, color, stroke_width } => {
                let vertices: Vec<EgPoint> =
                    points.iter().map(|p| EgPoint::new(p.x, p.y)).collect();
                let style = PrimitiveStyleBuilder::new()
                    .stroke_width(*stroke_width)
                    .stroke_color(to_rgb(*color))
                    .build();
                Polyline::new(&vertices).into_styled(style).draw(display)?;
            }
            DrawCommand::FillRectangle { top_left, size, color } => {
                let style = PrimitiveStyleBuilder::new().fill_color(to_rgb(*color)).build();
                EgRectangle::new(
                    EgPoint::new(top_left.x, top_left.y),
                    EgSize::new(size.width, size.height),
                )
                .into_styled(style)
                .draw(display)?;
            }
            DrawCommand::FillTriangle { a, b, c, color } => {
                let style = PrimitiveStyleBuilder::new().fill_color(to_rgb(*color)).build();
                EgTriangle::new(
                    EgPoint::new(a.x, a.y),
                    EgPoint::new(b.x, b.y),
                    EgPoint::new(c.x, c.y),
                )
                .into_styled(style)
                .draw(display)?;
            }
        }
    }
    Ok(())
}

#[test]
fn battery_zero_percent() {
    let mut display: MockDisplay<Rgb888> = MockDisplay::new();

    let commands = BatteryIconBuilder::new(Point { x: 0, y: 0 })
        .with_state_of_charge(StateOfCharge::from_percentage(0))
        .build()
        .draw_commands();
    execute(&commands, &mut display).unwrap();

    display.assert_pattern(&[
        "   RRRRRRRRR   ",
        "   RRRRRRRRR   ",
        "   RR     RR   ",
        "   RR     RR   ",
        "   RR     RR   ",
        "RRRRR     RRRRR",
        "RRRRR     RRRRR",
        "RR           RR",
        "RR           RR",
        "RR           RR",
        "RR           RR",
        "RR           RR",
        "RR           RR",
        "RR           RR",
        "RR           RR",
        "RR           RR",
        "RR           RR",
        "RR           RR",
        "RR           RR",
        "RR           RR",
        "RR           RR",
        "RR           RR",
        "RR           RR",
        "RRRRRRRRRRRRRRR",
        "RRRRRRRRRRRRRRR",
    ]);
}

#[test]
fn battery_hundred_percent_with_offset() {
    let mut display: MockDisplay<Rgb888> = MockDisplay::new();

    let commands = BatteryIconBuilder::new(Point { x: 1, y: 1 })
        .with_state_of_charge(StateOfCharge::from_percentage(100))
        .build()
        .draw_commands();
    execute(&commands, &mut display).unwrap();

    display.assert_pattern(&[
        "                ",
        "    WWWWWWWWW   ",
        "    WWWWWWWWW   ",
        "    WW     WW   ",
        "    WW WWW WW   ",
        "    WW WWW WW   ",
        " WWWWW WWW WWWWW",
        " WWWWW WWW WWWWW",
        " WW           WW",
        " WW WWWWWWWWW WW",
        " WW WWWWWWWWW WW",
        " WW WWWWWWWWW WW",
        " WW WWWWWWWWW WW",
        " WW           WW",
        " WW WWWWWWWWW WW",
        " WW WWWWWWWWW WW",
        " WW WWWWWWWWW WW",
        " WW WWWWWWWWW WW",
        " WW           WW",
        " WW WWWWWWWWW WW",
        " WW WWWWWWWWW WW",
        " WW WWWWWWWWW WW",
        " WW WWWWWWWWW WW",
        " WW           WW",
        " WWWWWWWWWWWWWWW",
        " WWWWWWWWWWWWWWW",
    ]);
}

#[test]
fn charger() {
    let mut display: MockDisplay<Rgb888> = MockDisplay::new();
    display.set_allow_overdraw(true);

    let commands = BatteryIconBuilder::new(Point { x: 0, y: 0 })
        .with_charger(ChargerState::Full)
        .with_charger_alignment(ChargerAlignment::Left)
        .build()
        .draw_commands();
    execute(&commands, &mut display).unwrap();

    display.assert_pattern(&[
        "                ",
        "        G       ",
        "        G       ",
        "       GG       ",
        "       GG       ",
        "      GGG       ",
        "      GGG       ",
        "     GGGG       ",
        "     GGGG       ",
        "    GGGGG       ",
        "    GGGGGGGGGG  ",
        "   GGGGGGGGGGG  ",
        "   GGGGGGGGGG   ",
        "  GGGGGGGGGGG   ",
        "  GGGGGGGGGG    ",
        "       GGGGG    ",
        "       GGGG     ",
        "       GGGG     ",
        "       GGG      ",
        "       GGG      ",
        "       GG       ",
        "       GG       ",
        "       G        ",
        "       G        ",
        "                ",
    ]);
}

#[test]
fn charger_while_charging_is_red() {
    let mut display: MockDisplay<Rgb888> = MockDisplay::new();
    display.set_allow_overdraw(true);

    let commands = BatteryIconBuilder::new(Point { x: 0, y: 0 })
        .with_charger(ChargerState::Charging)
        .with_charger_alignment(ChargerAlignment::Left)
        .build()
        .draw_commands();
    execute(&commands, &mut display).unwrap();

    // Same bolt as for a full charger, only red.
    assert_eq!(commands.len(), 2);
    for command in &commands {
        match command {
            DrawCommand::FillTriangle { color, .. } => assert_eq!(*color, Color::Red),
            _ => panic!("the charger overlay holds only triangles"),
        }
    }
}

#[test]
fn discharging_draws_no_bolt() {
    let commands = BatteryIconBuilder::new(Point { x: 0, y: 0 })
        .with_charger(ChargerState::Discharging)
        .build()
        .draw_commands();
    assert!(commands.is_empty());
}

#[test]
fn absent_inputs_draw_nothing() {
    let mut display: MockDisplay<Rgb888> = MockDisplay::new();

    let commands = BatteryIconBuilder::new(Point { x: 0, y: 0 }).build().draw_commands();
    assert!(commands.is_empty());
    execute(&commands, &mut display).unwrap();

    // The display is untouched: no primitive was issued at all.
    display.assert_pattern(&[]);
}

#[test]
fn glyph_is_deterministic() {
    let build = || {
        BatteryIconBuilder::new(Point { x: 3, y: 4 })
            .with_state_of_charge(StateOfCharge::from_percentage(73))
            .with_charger(ChargerState::Charging)
            .with_charger_alignment(ChargerAlignment::Left)
            .build()
            .draw_commands()
    };
    let first = build();
    let second = build();
    assert_eq!(first, second);

    let mut display_a: MockDisplay<Rgb888> = MockDisplay::new();
    display_a.set_allow_overdraw(true);
    execute(&first, &mut display_a).unwrap();
    let mut display_b: MockDisplay<Rgb888> = MockDisplay::new();
    display_b.set_allow_overdraw(true);
    execute(&second, &mut display_b).unwrap();
    display_a.assert_eq(&display_b);
}

fn filled_segment_corners(percentage: u8) -> Vec<Point> {
    let commands = BatteryIconBuilder::new(Point { x: 0, y: 0 })
        .with_state_of_charge(StateOfCharge::from_percentage(percentage))
        .build()
        .draw_commands();
    commands
        .iter()
        .filter_map(|command| match command {
            DrawCommand::FillRectangle { top_left, .. } => Some(*top_left),
            _ => None,
        })
        .collect()
}

#[test]
fn filled_segments_grow_with_charge() {
    // As the percentage rises the set of filled segments only gains
    // members; no segment ever un-fills.
    let mut previous: Vec<Point> = Vec::new();
    for percentage in 0..=100u8 {
        let current = filled_segment_corners(percentage);
        for corner in &previous {
            assert!(
                current.contains(corner),
                "segment at {:?} un-filled between {} and {}",
                corner,
                percentage - 1,
                percentage
            );
        }
        previous = current;
    }
    assert_eq!(previous.len(), 4);
}

#[test]
fn segment_thresholds_are_exact() {
    assert_eq!(filled_segment_corners(10).len(), 0);
    assert_eq!(filled_segment_corners(11).len(), 1);
    assert_eq!(filled_segment_corners(35).len(), 1);
    assert_eq!(filled_segment_corners(36).len(), 2);
    assert_eq!(filled_segment_corners(65).len(), 2);
    assert_eq!(filled_segment_corners(66).len(), 3);
    assert_eq!(filled_segment_corners(90).len(), 3);
    assert_eq!(filled_segment_corners(91).len(), 4);
}

#[test]
fn low_battery_turns_the_body_red() {
    let commands = BatteryIconBuilder::new(Point { x: 0, y: 0 })
        .with_state_of_charge(StateOfCharge::from_percentage(15))
        .build()
        .draw_commands();
    // Outline white above the 10% threshold, but the lowest segment stays
    // red until the percentage clears 20%.
    match &commands[0] {
        DrawCommand::Polyline { color, .. } => assert_eq!(*color, Color::White),
        _ => panic!("the first command is the outline"),
    }
    match &commands[1] {
        DrawCommand::FillRectangle { color, .. } => assert_eq!(*color, Color::Red),
        _ => panic!("the second command is the lowest segment"),
    }
}

#[test]
fn translate_moves_the_glyph() {
    let icon = BatteryIconBuilder::new(Point { x: 0, y: 0 })
        .with_state_of_charge(StateOfCharge::from_percentage(100))
        .build();
    let moved = icon.translate(Point { x: 1, y: 1 });

    let mut display_a: MockDisplay<Rgb888> = MockDisplay::new();
    execute(&moved.draw_commands(), &mut display_a).unwrap();

    let direct = BatteryIconBuilder::new(Point { x: 1, y: 1 })
        .with_state_of_charge(StateOfCharge::from_percentage(100))
        .build();
    let mut display_b: MockDisplay<Rgb888> = MockDisplay::new();
    execute(&direct.draw_commands(), &mut display_b).unwrap();

    display_a.assert_eq(&display_b);
}

#[test]
fn translate_mut_matches_translate() {
    let mut icon = BatteryIconBuilder::new(Point { x: 2, y: 3 })
        .with_state_of_charge(StateOfCharge::from_percentage(50))
        .build();
    let translated = icon.translate(Point { x: 5, y: 7 });
    icon.translate_mut(Point { x: 5, y: 7 });
    assert_eq!(icon.draw_commands(), translated.draw_commands());
}

#[test]
fn bounding_box_spans_the_icon_region() {
    let icon = BatteryIconBuilder::new(Point { x: 4, y: 9 }).build();
    let bounds = icon.bounding_box();
    assert_eq!(bounds.top_left, Point { x: 4, y: 9 });
    assert_eq!(bounds.size.width, 30);
    assert_eq!(bounds.size.height, 25);
}
