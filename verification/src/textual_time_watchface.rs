//! A watchface style that spells the time out in words (in Dutch), with a
//! textual battery and charger read-out instead of an icon.

use vstd::prelude::*;

use crate::battery::percentage_of_level;
use crate::battery::ChargerState;
use crate::battery::StateOfCharge;
use crate::geometry::Color;
use crate::styled::scene_view;
use crate::styled::Alignment;
use crate::styled::SceneCommand;
use crate::styled::SceneModel;
use crate::styled::TextKind;
use crate::styled::WatchfaceStyle;
use crate::text_format::two_padded_decimal;
use crate::text_format::two_padded_decimal_text;
use crate::time::Time;
use crate::watchface_data::Watchface;

verus! {

/// The word for an hour on a twelve-hour clock.
pub open spec fn hour_word(hours: int) -> Seq<char> {
    let h = hours % 12;
    if h == 0 {
        "twaalf"@
    } else if h == 1 {
        "één"@
    } else if h == 2 {
        "twee"@
    } else if h == 3 {
        "drie"@
    } else if h == 4 {
        "vier"@
    } else if h == 5 {
        "vijf"@
    } else if h == 6 {
        "zes"@
    } else if h == 7 {
        "zeven"@
    } else if h == 8 {
        "acht"@
    } else if h == 9 {
        "negen"@
    } else if h == 10 {
        "tien"@
    } else {
        "elf"@
    }
}

/// The spoken-time sentence for a time, after quarter rounding: on the
/// hour it is "<hour> uur", and the quarters are spoken as "kwart over",
/// "half" and "kwart voor" of the surrounding hours.
pub open spec fn spoken_time_text(time: Time) -> Seq<char> {
    let minutes = time.spec_rounded_minutes();
    if minutes == 0 {
        hour_word(time.spec_rounded_hours()) + "\nuur"@
    } else if minutes == 15 {
        "kwart\nover\n"@ + hour_word(time.spec_rounded_hours())
    } else if minutes == 30 {
        "half\n"@ + hour_word(time.spec_rounded_hours() + 1)
    } else {
        "kwart\nvoor\n"@ + hour_word(time.spec_rounded_hours() + 1)
    }
}

/// The battery read-out: the charge percentage, zero-padded to two digits,
/// followed by a percent sign; empty when no battery level is present.
pub open spec fn battery_line_text(battery: Option<StateOfCharge>) -> Seq<char> {
    match battery {
        Some(battery) => two_padded_decimal(percentage_of_level(battery.spec_level() as int))
            + "%"@,
        None => Seq::empty(),
    }
}

/// The charger read-out: a word for a connected power source, empty while
/// discharging or when no charger state is present.
pub open spec fn charger_line_text(charger: Option<ChargerState>) -> Seq<char> {
    match charger {
        Some(ChargerState::Charging) => "Charging"@,
        Some(ChargerState::Full) => "Full"@,
        _ => Seq::empty(),
    }
}

/// Spell out the word for an hour on a twelve-hour clock.
pub fn convert_hours_to_text(hours: u8) -> (r: &'static str)
    ensures
        r@ == hour_word(hours as int),
{
    match hours % 12 {
        0 => "twaalf",
        1 => "één",
        2 => "twee",
        3 => "drie",
        4 => "vier",
        5 => "vijf",
        6 => "zes",
        7 => "zeven",
        8 => "acht",
        9 => "negen",
        10 => "tien",
        _ => "elf",
    }
}

/// Spell out the spoken-time sentence of a time, rounded to its quarter.
pub fn convert_time_to_text(time: &Time) -> (r: String)
    requires
        time.inv(),
    ensures
        r@ == spoken_time_text(*time),
{
    let mut text = String::new();

    let rounded_time = time.round_to_quarters();
    if rounded_time.minutes_local() == 0 {
        text.append(convert_hours_to_text(rounded_time.hours_local()));
        text.append("\nuur");
    } else if rounded_time.minutes_local() == 15 {
        text.append("kwart\nover\n");
        text.append(convert_hours_to_text(rounded_time.hours_local()));
    } else if rounded_time.minutes_local() == 30 {
        text.append("half\n");
        text.append(convert_hours_to_text(rounded_time.hours_local() + 1));
    } else {
        text.append("kwart\nvoor\n");
        text.append(convert_hours_to_text(rounded_time.hours_local() + 1));
    }

    proof {
        assert(text@ =~= spoken_time_text(*time));
    }
    text
}

/// A watchface style that spells the quarter-rounded time out in words,
/// with the battery percentage and charger state as a right-aligned text
/// column instead of an icon.
pub struct TextualTimeWatchfaceStyle {}

impl Default for TextualTimeWatchfaceStyle {
    fn default() -> (r: Self)
        ensures
            r == (TextualTimeWatchfaceStyle {  }),
    {
        TextualTimeWatchfaceStyle {  }
    }
}

impl WatchfaceStyle for TextualTimeWatchfaceStyle {
    /// A present time must be in clock range, so that quarter rounding is
    /// defined.
    open spec fn accepts(&self, data: &Watchface) -> bool {
        data.inv()
    }

    /// The scene: clear first, then the centered spoken-time sentence if a
    /// time is present, then the battery and charger read-out column.
    open spec fn scene_spec(&self, data: &Watchface) -> Seq<SceneModel> {
        seq![SceneModel::Clear { color: Color::Black }] + (match data.time {
            Some(time) => seq![
                SceneModel::Text {
                    kind: TextKind::SpokenTime,
                    text: spoken_time_text(time),
                    align: Alignment::CenterCenter,
                },
            ],
            None => Seq::empty(),
        }) + seq![
            SceneModel::TextColumn {
                kind: TextKind::StatusLine,
                first: battery_line_text(data.battery),
                second: charger_line_text(data.charger),
                align: Alignment::RightTop,
            },
        ]
    }

    fn render(&self, data: &Watchface) -> (r: Vec<SceneCommand>)
        ensures
            scene_view(r@) == self.scene_spec(data),
    {
        let mut scene: Vec<SceneCommand> = Vec::new();
        scene.push(SceneCommand::Clear { color: Color::Black });

        if let Some(time) = &data.time {
            let text = convert_time_to_text(time);
            scene.push(
                SceneCommand::Text { kind: TextKind::SpokenTime, text, align: Alignment::CenterCenter },
            );
        }

        let battery_text = if let Some(battery) = &data.battery {
            let mut battery_text = two_padded_decimal_text(battery.percentage());
            battery_text.append("%");
            proof {
                reveal_strlit("%");
                assert(battery_text@ =~= battery_line_text(data.battery));
            }
            battery_text
        } else {
            String::new()
        };

        let charger_text = match &data.charger {
            Some(ChargerState::Charging) => "Charging",
            Some(ChargerState::Full) => "Full",
            Some(ChargerState::Discharging) => "",
            None => "",
        };
        proof {
            reveal_strlit("");
            assert(charger_text@ =~= charger_line_text(data.charger));
        }

        scene.push(
            SceneCommand::TextColumn {
                kind: TextKind::StatusLine,
                first: battery_text,
                second: String::from_str(charger_text),
                align: Alignment::RightTop,
            },
        );

        assert(scene_view(scene@) =~= self.scene_spec(data));
        scene
    }
}

} // verus!
