//! The layered battery glyph.
//!
//! A `BatteryIcon` maps a charge level and a charger state to a fixed
//! 30 by 25 unit glyph: an outlined battery body whose fill segments appear
//! one by one as the charge rises, plus an optional lightning-bolt charger
//! overlay. The glyph is produced as a sequence of primitive drawing
//! commands, a pure function of the icon's inputs.

use vstd::prelude::*;

use crate::battery::level_of_percentage;
use crate::battery::ChargerState;
use crate::battery::StateOfCharge;
use crate::draw_command::commands_view;
use crate::draw_command::CommandModel;
use crate::draw_command::DrawCommand;
use crate::geometry::Color;
use crate::geometry::Point;
use crate::geometry::Rectangle;
use crate::geometry::Size;

verus! {

/// Which side of the icon region the charger bolt occupies; the battery
/// body takes the other side, so the two glyphs never overlap.
#[derive(Copy, Clone, Eq, PartialEq, Structural, Debug)]
pub enum ChargerAlignment {
    Left,
    Right,
}

impl ChargerAlignment {
    /// The offset of the battery body inside the icon region.
    pub open spec fn spec_battery_offset(&self) -> Point {
        match self {
            ChargerAlignment::Left => Point { x: 15, y: 0 },
            ChargerAlignment::Right => Point { x: 0, y: 0 },
        }
    }

    /// The offset of the charger bolt inside the icon region.
    pub open spec fn spec_charger_offset(&self) -> Point {
        match self {
            ChargerAlignment::Left => Point { x: 0, y: 0 },
            ChargerAlignment::Right => Point { x: 15, y: 0 },
        }
    }

    pub fn battery_offset(&self) -> (r: Point)
        ensures
            r == self.spec_battery_offset(),
    {
        match self {
            ChargerAlignment::Left => Point { x: 15, y: 0 },
            ChargerAlignment::Right => Point { x: 0, y: 0 },
        }
    }

    pub fn charger_offset(&self) -> (r: Point)
        ensures
            r == self.spec_charger_offset(),
    {
        match self {
            ChargerAlignment::Left => Point { x: 0, y: 0 },
            ChargerAlignment::Right => Point { x: 15, y: 0 },
        }
    }
}

/// A positioned battery glyph descriptor: an optional charge level, an
/// optional charger state and a layout knob. Absent inputs suppress the
/// corresponding part of the glyph.
#[derive(Copy, Clone, Eq, PartialEq, Structural, Debug)]
pub struct BatteryIcon {
    position: Point,
    state_of_charge: Option<StateOfCharge>,
    charger: Option<ChargerState>,
    charger_alignment: ChargerAlignment,
}

/// The fill segments of the battery body, lowest first, that a raw charge
/// level lights: segment `i` is filled exactly when the level is above the
/// level of threshold percentage 10, 35, 65 or 90.
pub open spec fn filled_segments(level: int) -> Set<int> {
    Set::new(
        |i: int|
            {
                ||| i == 0 && level > level_of_percentage(10)
                ||| i == 1 && level > level_of_percentage(35)
                ||| i == 2 && level > level_of_percentage(65)
                ||| i == 3 && level > level_of_percentage(90)
            },
    )
}

/// The color of the battery outline: white, or red as a low-battery warning.
pub open spec fn border_color(level: int) -> Color {
    if level > level_of_percentage(10) {
        Color::White
    } else {
        Color::Red
    }
}

/// The color of the lowest fill segment, which mirrors the low-battery
/// warning near the boundary.
pub open spec fn lowest_segment_color(level: int) -> Color {
    if level > level_of_percentage(20) {
        Color::White
    } else {
        Color::Red
    }
}

/// The nine vertices of the battery outline, terminal nub included,
/// relative to the battery body offset.
pub open spec fn outline_points(off: Point) -> Seq<Point> {
    seq![
        off.spec_offset_by(Point { x: 1, y: 24 }),
        off.spec_offset_by(Point { x: 1, y: 6 }),
        off.spec_offset_by(Point { x: 4, y: 6 }),
        off.spec_offset_by(Point { x: 4, y: 1 }),
        off.spec_offset_by(Point { x: 10, y: 1 }),
        off.spec_offset_by(Point { x: 10, y: 6 }),
        off.spec_offset_by(Point { x: 13, y: 6 }),
        off.spec_offset_by(Point { x: 13, y: 23 }),
        off.spec_offset_by(Point { x: 2, y: 23 }),
    ]
}

/// The top-left corner of fill segment `i`, relative to the battery body
/// offset; segments sit at increasing heights.
pub open spec fn segment_top_left(off: Point, i: int) -> Point {
    if i == 0 {
        off.spec_offset_by(Point { x: 3, y: 18 })
    } else if i == 1 {
        off.spec_offset_by(Point { x: 3, y: 13 })
    } else if i == 2 {
        off.spec_offset_by(Point { x: 3, y: 8 })
    } else {
        off.spec_offset_by(Point { x: 6, y: 3 })
    }
}

/// The extent of fill segment `i`; the topmost segment fills the narrower
/// terminal nub.
pub open spec fn segment_size(i: int) -> Size {
    if i == 3 {
        Size { width: 3, height: 4 }
    } else {
        Size { width: 9, height: 4 }
    }
}

/// The fill command for segment `i` of a body at the given offset.
pub open spec fn segment_command(off: Point, level: int, i: int) -> CommandModel {
    CommandModel::FillRectangle {
        top_left: segment_top_left(off, i),
        size: segment_size(i),
        color: if i == 0 {
            lowest_segment_color(level)
        } else {
            Color::White
        },
    }
}

/// The commands of the battery body: the outline, then each filled segment
/// from lowest to highest.
pub open spec fn battery_body_commands(off: Point, level: int) -> Seq<CommandModel> {
    seq![
        CommandModel::Polyline { points: outline_points(off), color: border_color(level), stroke_width: 2u32 },
    ] + (if filled_segments(level).contains(0) {
        seq![segment_command(off, level, 0)]
    } else {
        Seq::empty()
    }) + (if filled_segments(level).contains(1) {
        seq![segment_command(off, level, 1)]
    } else {
        Seq::empty()
    }) + (if filled_segments(level).contains(2) {
        seq![segment_command(off, level, 2)]
    } else {
        Seq::empty()
    }) + (if filled_segments(level).contains(3) {
        seq![segment_command(off, level, 3)]
    } else {
        Seq::empty()
    })
}

/// The color of the charger bolt for a connected power source.
pub open spec fn charger_color(charger: ChargerState) -> Color {
    if charger is Charging {
        Color::Red
    } else {
        Color::Green
    }
}

/// The commands of the charger overlay: a two-triangle lightning bolt for
/// a connected power source, nothing while discharging.
pub open spec fn charger_overlay_commands(off: Point, charger: ChargerState) -> Seq<CommandModel> {
    if charger is Discharging {
        Seq::empty()
    } else {
        seq![
            CommandModel::FillTriangle {
                a: off.spec_offset_by(Point { x: 8, y: 1 }),
                b: off.spec_offset_by(Point { x: 8, y: 14 }),
                c: off.spec_offset_by(Point { x: 2, y: 14 }),
                color: charger_color(charger),
            },
            CommandModel::FillTriangle {
                a: off.spec_offset_by(Point { x: 7, y: 10 }),
                b: off.spec_offset_by(Point { x: 13, y: 10 }),
                c: off.spec_offset_by(Point { x: 7, y: 23 }),
                color: charger_color(charger),
            },
        ]
    }
}

/// The full glyph of an icon: the battery body if a charge level is
/// present, then the charger overlay if a charger state is present. With
/// both absent the glyph is empty.
pub open spec fn icon_commands(icon: BatteryIcon) -> Seq<CommandModel> {
    (match icon.spec_state_of_charge() {
        Some(state_of_charge) => battery_body_commands(
            icon.spec_position().spec_offset_by(
                icon.spec_charger_alignment().spec_battery_offset(),
            ),
            state_of_charge.spec_level() as int,
        ),
        None => Seq::empty(),
    }) + (match icon.spec_charger() {
        Some(charger) => charger_overlay_commands(
            icon.spec_position().spec_offset_by(
                icon.spec_charger_alignment().spec_charger_offset(),
            ),
            charger,
        ),
        None => Seq::empty(),
    })
}

impl BatteryIcon {
    /// Where the 30 by 25 icon region starts, as an abstract value.
    pub closed spec fn spec_position(&self) -> Point {
        self.position
    }

    /// The charge level shown, as an abstract value.
    pub closed spec fn spec_state_of_charge(&self) -> Option<StateOfCharge> {
        self.state_of_charge
    }

    /// The charger state shown, as an abstract value.
    pub closed spec fn spec_charger(&self) -> Option<ChargerState> {
        self.charger
    }

    /// The layout knob, as an abstract value.
    pub closed spec fn spec_charger_alignment(&self) -> ChargerAlignment {
        self.charger_alignment
    }

    /// The icon region fits on the surface without coordinate overflow.
    pub open spec fn fits(&self) -> bool {
        self.spec_position().x + 30 <= i32::MAX && self.spec_position().y + 25 <= i32::MAX
    }

    /// Compute the glyph of this icon as a command sequence.
    ///
    /// The result is exactly [`icon_commands`]: a pure function of the
    /// charge level, the charger state and the alignment, so equal icons
    /// always yield the identical glyph.
    pub fn draw_commands(&self) -> (r: Vec<DrawCommand>)
        requires
            self.fits(),
        ensures
            commands_view(r@) == icon_commands(*self),
    {
        let mut commands: Vec<DrawCommand> = Vec::new();
        if let Some(state_of_charge) = self.state_of_charge {
            let off = self.position.offset_by(self.charger_alignment.battery_offset());
            let level = state_of_charge.level();

            let border = if level > StateOfCharge::from_percentage(10).level() {
                Color::White
            } else {
                Color::Red
            };
            let mut points: Vec<Point> = Vec::new();
            points.push(off.offset_by(Point { x: 1, y: 24 }));
            points.push(off.offset_by(Point { x: 1, y: 6 }));
            points.push(off.offset_by(Point { x: 4, y: 6 }));
            points.push(off.offset_by(Point { x: 4, y: 1 }));
            points.push(off.offset_by(Point { x: 10, y: 1 }));
            points.push(off.offset_by(Point { x: 10, y: 6 }));
            points.push(off.offset_by(Point { x: 13, y: 6 }));
            points.push(off.offset_by(Point { x: 13, y: 23 }));
            points.push(off.offset_by(Point { x: 2, y: 23 }));
            assert(points@ =~= outline_points(off));
            commands.push(DrawCommand::Polyline { points, color: border, stroke_width: 2 });

            if level > StateOfCharge::from_percentage(10).level() {
                let color = if level > StateOfCharge::from_percentage(20).level() {
                    Color::White
                } else {
                    Color::Red
                };
                commands.push(
                    DrawCommand::FillRectangle {
                        top_left: off.offset_by(Point { x: 3, y: 18 }),
                        size: Size { width: 9, height: 4 },
                        color,
                    },
                );
            }
            if level > StateOfCharge::from_percentage(35).level() {
                commands.push(
                    DrawCommand::FillRectangle {
                        top_left: off.offset_by(Point { x: 3, y: 13 }),
                        size: Size { width: 9, height: 4 },
                        color: Color::White,
                    },
                );
            }
            if level > StateOfCharge::from_percentage(65).level() {
                commands.push(
                    DrawCommand::FillRectangle {
                        top_left: off.offset_by(Point { x: 3, y: 8 }),
                        size: Size { width: 9, height: 4 },
                        color: Color::White,
                    },
                );
            }
            if level > StateOfCharge::from_percentage(90).level() {
                commands.push(
                    DrawCommand::FillRectangle {
                        top_left: off.offset_by(Point { x: 6, y: 3 }),
                        size: Size { width: 3, height: 4 },
                        color: Color::White,
                    },
                );
            }
        }
        if let Some(charger) = self.charger {
            if charger == ChargerState::Charging || charger == ChargerState::Full {
                let coff = self.position.offset_by(self.charger_alignment.charger_offset());
                let color = if charger == ChargerState::Charging {
                    Color::Red
                } else {
                    Color::Green
                };
                commands.push(
                    DrawCommand::FillTriangle {
                        a: coff.offset_by(Point { x: 8, y: 1 }),
                        b: coff.offset_by(Point { x: 8, y: 14 }),
                        c: coff.offset_by(Point { x: 2, y: 14 }),
                        color,
                    },
                );
                commands.push(
                    DrawCommand::FillTriangle {
                        a: coff.offset_by(Point { x: 7, y: 10 }),
                        b: coff.offset_by(Point { x: 13, y: 10 }),
                        c: coff.offset_by(Point { x: 7, y: 23 }),
                        color,
                    },
                );
            }
        }
        assert(commands_view(commands@) =~= icon_commands(*self));
        commands
    }

    /// A copy of this icon, moved by the given offset.
    pub fn translate(&self, by: Point) -> (r: Self)
        requires
            i32::MIN <= self.spec_position().x + by.x <= i32::MAX,
            i32::MIN <= self.spec_position().y + by.y <= i32::MAX,
        ensures
            r.spec_position() == self.spec_position().spec_offset_by(by),
            r.spec_state_of_charge() == self.spec_state_of_charge(),
            r.spec_charger() == self.spec_charger(),
            r.spec_charger_alignment() == self.spec_charger_alignment(),
    {
        Self { position: self.position.offset_by(by), ..*self }
    }

    /// Move this icon by the given offset.
    pub fn translate_mut(&mut self, by: Point)
        requires
            i32::MIN <= old(self).spec_position().x + by.x <= i32::MAX,
            i32::MIN <= old(self).spec_position().y + by.y <= i32::MAX,
        ensures
            final(self).spec_position() == old(self).spec_position().spec_offset_by(by),
            final(self).spec_state_of_charge() == old(self).spec_state_of_charge(),
            final(self).spec_charger() == old(self).spec_charger(),
            final(self).spec_charger_alignment() == old(self).spec_charger_alignment(),
    {
        self.position = self.position.offset_by(by);
    }

    /// The region the glyph occupies: 30 by 25 units from the position.
    pub fn bounding_box(&self) -> (r: Rectangle)
        ensures
            r.top_left == self.spec_position(),
            r.size == (Size { width: 30, height: 25 }),
    {
        Rectangle { top_left: self.position, size: Size { width: 30, height: 25 } }
    }
}

/// Incremental construction of a [`BatteryIcon`]: both glyph inputs start
/// absent, and the charger bolt starts on the right.
pub struct BatteryIconBuilder {
    battery_icon: BatteryIcon,
}

impl BatteryIconBuilder {
    /// The icon this builder has accumulated, as an abstract value.
    pub closed spec fn spec_icon(&self) -> BatteryIcon {
        self.battery_icon
    }

    /// Start building an icon at the given position.
    pub fn new(position: Point) -> (r: Self)
        ensures
            r.spec_icon().spec_position() == position,
            r.spec_icon().spec_state_of_charge() is None,
            r.spec_icon().spec_charger() is None,
            r.spec_icon().spec_charger_alignment() is Right,
    {
        Self {
            battery_icon: BatteryIcon {
                position,
                state_of_charge: None,
                charger: None,
                charger_alignment: ChargerAlignment::Right,
            },
        }
    }

    /// Show a battery body for this charge level.
    pub fn with_state_of_charge(self, state_of_charge: StateOfCharge) -> (r: Self)
        ensures
            r.spec_icon().spec_state_of_charge() == Some(state_of_charge),
            r.spec_icon().spec_position() == self.spec_icon().spec_position(),
            r.spec_icon().spec_charger() == self.spec_icon().spec_charger(),
            r.spec_icon().spec_charger_alignment() == self.spec_icon().spec_charger_alignment(),
    {
        let mut this = self;
        this.battery_icon.state_of_charge = Some(state_of_charge);
        this
    }

    /// Show a charger bolt for this charger state.
    pub fn with_charger(self, charger: ChargerState) -> (r: Self)
        ensures
            r.spec_icon().spec_charger() == Some(charger),
            r.spec_icon().spec_position() == self.spec_icon().spec_position(),
            r.spec_icon().spec_state_of_charge() == self.spec_icon().spec_state_of_charge(),
            r.spec_icon().spec_charger_alignment() == self.spec_icon().spec_charger_alignment(),
    {
        let mut this = self;
        this.battery_icon.charger = Some(charger);
        this
    }

    /// Put the charger bolt on the given side.
    pub fn with_charger_alignment(self, charger_alignment: ChargerAlignment) -> (r: Self)
        ensures
            r.spec_icon().spec_charger_alignment() == charger_alignment,
            r.spec_icon().spec_position() == self.spec_icon().spec_position(),
            r.spec_icon().spec_state_of_charge() == self.spec_icon().spec_state_of_charge(),
            r.spec_icon().spec_charger() == self.spec_icon().spec_charger(),
    {
        let mut this = self;
        this.battery_icon.charger_alignment = charger_alignment;
        this
    }

    /// Finish building and return the icon.
    pub fn build(self) -> (r: BatteryIcon)
        ensures
            r == self.spec_icon(),
    {
        self.battery_icon
    }
}

/// Segment monotonicity: as the charge percentage rises, fill segments are
/// only added, never removed — the set of filled segments for the lower
/// percentage is a subset of the set for the higher one.
pub proof fn lemma_filled_segments_monotone(p1: u8, p2: u8)
    requires
        p1 <= p2,
        p2 <= 100,
    ensures
        filled_segments(level_of_percentage(p1 as int)).subset_of(
            filled_segments(level_of_percentage(p2 as int)),
        ),
{
    vstd::arithmetic::div_mod::lemma_div_is_ordered(p1 * 255, p2 * 255, 100);
    assert forall|i: int|
        filled_segments(level_of_percentage(p1 as int)).contains(
            i,
        ) implies filled_segments(level_of_percentage(p2 as int)).contains(i) by {}
}

/// Glyph determinism: the glyph is a pure function of the icon's
/// position, charge level, charger state and alignment — two icons that
/// agree on those inputs always yield the identical command sequence, so
/// drawing the same inputs twice produces the same pixel pattern.
pub proof fn lemma_icon_commands_deterministic(icon1: BatteryIcon, icon2: BatteryIcon)
    requires
        icon1.spec_position() == icon2.spec_position(),
        icon1.spec_state_of_charge() == icon2.spec_state_of_charge(),
        icon1.spec_charger() == icon2.spec_charger(),
        icon1.spec_charger_alignment() == icon2.spec_charger_alignment(),
    ensures
        icon_commands(icon1) == icon_commands(icon2),
{
}

/// Absence handling: with no charge level and no charger state the icon
/// draws nothing at all.
pub proof fn lemma_empty_icon_draws_nothing(icon: BatteryIcon)
    requires
        icon.spec_state_of_charge() is None,
        icon.spec_charger() is None,
    ensures
        icon_commands(icon) == Seq::<CommandModel>::empty(),
{
    assert(icon_commands(icon) =~= Seq::<CommandModel>::empty());
}

} // verus!
