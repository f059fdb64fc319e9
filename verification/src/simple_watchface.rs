//! The reference watchface style: clock digits as text, battery as a glyph.

use vstd::prelude::*;

use crate::battery_icon::BatteryIconBuilder;
use crate::battery_icon::ChargerAlignment;
use crate::geometry::Color;
use crate::geometry::Point;
use crate::styled::scene_view;
use crate::styled::Alignment;
use crate::styled::SceneCommand;
use crate::styled::SceneModel;
use crate::styled::TextKind;
use crate::styled::WatchfaceStyle;
use crate::text_format::two_padded_decimal;
use crate::text_format::two_padded_decimal_text;
use crate::watchface_data::Watchface;

verus! {

/// The clock read-out `HH:MM`, both fields zero-padded to two digits.
pub open spec fn clock_text(hours: int, minutes: int) -> Seq<char> {
    two_padded_decimal(hours) + seq![':'] + two_padded_decimal(minutes)
}

/// Format the clock read-out of a time as `HH:MM`.
pub fn clock_text_of(hours: u8, minutes: u8) -> (r: String)
    ensures
        r@ == clock_text(hours as int, minutes as int),
{
    let mut text = two_padded_decimal_text(hours);
    text.append(":");
    let minutes_text = two_padded_decimal_text(minutes);
    text.append(minutes_text.as_str());
    proof {
        reveal_strlit(":");
        assert(text@ =~= clock_text(hours as int, minutes as int));
    }
    text
}

/// Simple watchface style.
///
/// Clears the surface to black, draws the clock read-out centered when a
/// time is present, and delegates the battery portion to a right-aligned
/// battery icon with the charger bolt on its left when at least one of the
/// battery values is present.
pub struct SimpleWatchfaceStyle {}

impl Default for SimpleWatchfaceStyle {
    fn default() -> (r: Self)
        ensures
            r == (SimpleWatchfaceStyle {  }),
    {
        SimpleWatchfaceStyle {  }
    }
}

impl WatchfaceStyle for SimpleWatchfaceStyle {
    /// Every snapshot is accepted.
    open spec fn accepts(&self, data: &Watchface) -> bool {
        true
    }

    /// The scene: clear first, then the centered clock text if a time is
    /// present, then the battery icon if battery or charger is present.
    open spec fn scene_spec(&self, data: &Watchface) -> Seq<SceneModel> {
        seq![SceneModel::Clear { color: Color::Black }] + (match data.time {
            Some(time) => seq![
                SceneModel::Text {
                    kind: TextKind::ClockDigits,
                    text: clock_text(time.spec_hours() as int, time.spec_minutes() as int),
                    align: Alignment::CenterCenter,
                },
            ],
            None => Seq::empty(),
        }) + (if data.battery is Some || data.charger is Some {
            seq![
                SceneModel::Icon {
                    position: Point { x: 10, y: 10 },
                    state_of_charge: data.battery,
                    charger: data.charger,
                    charger_alignment: ChargerAlignment::Left,
                    align: Alignment::RightTop,
                },
            ]
        } else {
            Seq::empty()
        })
    }

    fn render(&self, data: &Watchface) -> (r: Vec<SceneCommand>)
        ensures
            scene_view(r@) == self.scene_spec(data),
    {
        let mut scene: Vec<SceneCommand> = Vec::new();
        scene.push(SceneCommand::Clear { color: Color::Black });

        if let Some(time) = &data.time {
            let text = clock_text_of(time.hours_local(), time.minutes_local());
            scene.push(
                SceneCommand::Text {
                    kind: TextKind::ClockDigits,
                    text,
                    align: Alignment::CenterCenter,
                },
            );
        }

        if data.battery.is_some() || data.charger.is_some() {
            let mut icon_builder = BatteryIconBuilder::new(Point { x: 10, y: 10 });
            if let Some(battery) = &data.battery {
                icon_builder = icon_builder.with_state_of_charge(*battery);
            }
            if let Some(charger) = &data.charger {
                icon_builder = icon_builder.with_charger(*charger);
            }
            let icon = icon_builder.with_charger_alignment(ChargerAlignment::Left).build();
            scene.push(SceneCommand::Icon { icon, align: Alignment::RightTop });
        }

        assert(scene_view(scene@) =~= self.scene_spec(data));
        scene
    }
}

} // verus!
