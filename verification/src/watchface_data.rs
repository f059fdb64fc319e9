//! The immutable watchface data snapshot and its builder.

use vstd::prelude::*;

use crate::battery::ChargerState;
use crate::battery::StateOfCharge;
use crate::styled::Styled;
use crate::time::Time;

verus! {

/// Representation of watchface data: one immutable snapshot of what to
/// draw. Every field is optional, and absence means "do not render this
/// element" — there are no sentinel values.
pub struct Watchface {
    pub time: Option<Time>,
    pub charger: Option<ChargerState>,
    pub battery: Option<StateOfCharge>,
}

impl Watchface {
    /// A present time keeps its clock-range invariant; the other fields
    /// are in range by their types.
    pub open spec fn inv(&self) -> bool {
        match self.time {
            Some(time) => time.inv(),
            None => true,
        }
    }

    /// Returns a watchface builder.
    pub fn build() -> (r: WatchfaceBuilder)
        ensures
            r.spec_watchface().time is None,
            r.spec_watchface().charger is None,
            r.spec_watchface().battery is None,
    {
        WatchfaceBuilder::default()
    }

    /// Convert to a styled watchface.
    pub fn into_styled<S>(self, style: S) -> (r: Styled<Self, S>)
        ensures
            r.watchface == self,
            r.style == style,
    {
        Styled::new(self, style)
    }
}

impl Default for Watchface {
    /// The empty snapshot: nothing to draw.
    fn default() -> (r: Self)
        ensures
            r.time is None,
            r.charger is None,
            r.battery is None,
    {
        Watchface { time: None, charger: None, battery: None }
    }
}

/// Builder for creating watchface data: each setter is optional, and
/// setting a field twice keeps the last value.
pub struct WatchfaceBuilder {
    watchface: Watchface,
}

impl WatchfaceBuilder {
    /// The snapshot this builder has accumulated, as an abstract value.
    pub closed spec fn spec_watchface(&self) -> Watchface {
        self.watchface
    }

    /// Add a time to the watchface data.
    pub fn with_time(self, time: Time) -> (r: Self)
        ensures
            r.spec_watchface().time == Some(time),
            r.spec_watchface().charger == self.spec_watchface().charger,
            r.spec_watchface().battery == self.spec_watchface().battery,
    {
        let mut this = self;
        this.watchface.time = Some(time);
        this
    }

    /// Add a charger state to the watchface data.
    pub fn with_charger(self, charger: ChargerState) -> (r: Self)
        ensures
            r.spec_watchface().charger == Some(charger),
            r.spec_watchface().time == self.spec_watchface().time,
            r.spec_watchface().battery == self.spec_watchface().battery,
    {
        let mut this = self;
        this.watchface.charger = Some(charger);
        this
    }

    /// Add a battery state of charge to the watchface data.
    pub fn with_battery(self, battery: StateOfCharge) -> (r: Self)
        ensures
            r.spec_watchface().battery == Some(battery),
            r.spec_watchface().time == self.spec_watchface().time,
            r.spec_watchface().charger == self.spec_watchface().charger,
    {
        let mut this = self;
        this.watchface.battery = Some(battery);
        this
    }

    /// Convert the builder to a watchface.
    pub fn finish(self) -> (r: Watchface)
        ensures
            r == self.spec_watchface(),
    {
        self.watchface
    }

    /// Convert the builder to a styled watchface.
    pub fn into_styled<S>(self, style: S) -> (r: Styled<Watchface, S>)
        ensures
            r.watchface == self.spec_watchface(),
            r.style == style,
    {
        self.watchface.into_styled(style)
    }
}

impl Default for WatchfaceBuilder {
    /// A builder holding the empty snapshot.
    fn default() -> (r: Self)
        ensures
            r.spec_watchface().time is None,
            r.spec_watchface().charger is None,
            r.spec_watchface().battery is None,
    {
        WatchfaceBuilder { watchface: Watchface::default() }
    }
}

} // verus!
