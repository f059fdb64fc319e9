//! Scene elements and the style capability.
//!
//! A style is a drawing strategy: it consumes one immutable data snapshot
//! and computes a scene, a sequence of elements that a caller then realizes
//! on its drawing surface. The scene keeps layout symbolic — an element
//! carries an alignment, not a resolved pixel position, because only the
//! surface knows its own bounds.

use vstd::prelude::*;

use crate::battery::ChargerState;
use crate::battery::StateOfCharge;
use crate::battery_icon::BatteryIcon;
use crate::battery_icon::ChargerAlignment;
use crate::geometry::Color;
use crate::geometry::Point;
use crate::watchface_data::Watchface;

verus! {

/// The role of a piece of text in a scene; the concrete font is an
/// external asset bound by the caller per role.
#[derive(Copy, Clone, Eq, PartialEq, Structural, Debug)]
pub enum TextKind {
    /// The digit read-out of the clock.
    ClockDigits,
    /// The spoken-style time sentence.
    SpokenTime,
    /// A small status read-out.
    StatusLine,
}

/// Where an element sits relative to the surface bounds.
#[derive(Copy, Clone, Eq, PartialEq, Structural, Debug)]
pub enum Alignment {
    /// Centered both horizontally and vertically.
    CenterCenter,
    /// Flush with the right edge, at the top.
    RightTop,
}

/// One element of a computed scene.
#[derive(Clone, PartialEq, Debug)]
pub enum SceneCommand {
    /// Clear the whole surface to one color.
    Clear { color: Color },
    /// A piece of text.
    Text { kind: TextKind, text: String, align: Alignment },
    /// Two stacked lines of text, right-aligned within the stack.
    TextColumn { kind: TextKind, first: String, second: String, align: Alignment },
    /// A battery glyph.
    Icon { icon: BatteryIcon, align: Alignment },
}

/// The ghost image of a [`SceneCommand`]: text as character sequences and
/// the icon flattened to its inputs.
pub enum SceneModel {
    Clear { color: Color },
    Text { kind: TextKind, text: Seq<char>, align: Alignment },
    TextColumn { kind: TextKind, first: Seq<char>, second: Seq<char>, align: Alignment },
    Icon {
        position: Point,
        state_of_charge: Option<StateOfCharge>,
        charger: Option<ChargerState>,
        charger_alignment: ChargerAlignment,
        align: Alignment,
    },
}

impl View for SceneCommand {
    type V = SceneModel;

    open spec fn view(&self) -> SceneModel {
        match self {
            SceneCommand::Clear { color } => (SceneModel::Clear { color: *color }),
            SceneCommand::Text { kind, text, align } => (SceneModel::Text {
                kind: *kind,
                text: text@,
                align: *align,
            }),
            SceneCommand::TextColumn { kind, first, second, align } => (SceneModel::TextColumn {
                kind: *kind,
                first: first@,
                second: second@,
                align: *align,
            }),
            SceneCommand::Icon { icon, align } => (SceneModel::Icon {
                position: icon.spec_position(),
                state_of_charge: icon.spec_state_of_charge(),
                charger: icon.spec_charger(),
                charger_alignment: icon.spec_charger_alignment(),
                align: *align,
            }),
        }
    }
}

/// The ghost image of a scene, element by element.
pub open spec fn scene_view(s: Seq<SceneCommand>) -> Seq<SceneModel> {
    s.map_values(|c: SceneCommand| c@)
}

/// A drawing strategy: anything that can turn one data snapshot into a
/// scene is a valid style, and the data model knows none of them.
pub trait WatchfaceStyle {
    /// The snapshots this style accepts.
    spec fn accepts(&self, data: &Watchface) -> bool;

    /// The scene this style computes for a snapshot.
    spec fn scene_spec(&self, data: &Watchface) -> Seq<SceneModel>;

    /// Compute the scene for one snapshot.
    fn render(&self, data: &Watchface) -> (r: Vec<SceneCommand>)
        requires
            self.accepts(data),
        ensures
            scene_view(r@) == self.scene_spec(data),
    ;
}

/// One data snapshot bound to one style; the pair itself is drawable, and
/// may be rendered many times without mutation.
pub struct Styled<T, S> {
    pub watchface: T,
    pub style: S,
}

impl<T, S> Styled<T, S> {
    /// Bind a data snapshot to a style.
    pub fn new(watchface: T, style: S) -> (r: Self)
        ensures
            r.watchface == watchface,
            r.style == style,
    {
        Styled { watchface, style }
    }
}

impl<S: WatchfaceStyle> Styled<Watchface, S> {
    /// Compute the scene of this styled watchface, delegating
    /// unconditionally to the bound style.
    pub fn render(&self) -> (r: Vec<SceneCommand>)
        requires
            self.style.accepts(&self.watchface),
        ensures
            scene_view(r@) == self.style.scene_spec(&self.watchface),
    {
        self.style.render(&self.watchface)
    }
}

} // verus!
