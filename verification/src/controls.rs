//! Which of the two mesh sets of a planet is shown: the terrain or the
//! geothermal overlay.

use vstd::prelude::*;

verus! {

/// The state that a toggle flips: whether the geothermal overlay is shown
/// in place of the terrain.
#[derive(Clone, Copy, Debug, PartialEq, Eq, Structural)]
pub struct PlanetState {
    pub geothermal_overlay: bool,
}

/// Whether a mesh set is drawn.
#[derive(Clone, Copy, Debug, PartialEq, Eq, Structural)]
pub enum Visibility {
    /// Drawn, as far as the parent is.
    Inherited,
    /// Not drawn.
    Hidden,
}

/// Visibility of the two mesh sets of a planet.
#[derive(Clone, Copy, Debug, PartialEq, Eq, Structural)]
pub struct PlanetVisibility {
    pub planet: Visibility,
    pub geothermal: Visibility,
}

/// The visibilities that belong to an overlay flag: the overlay is drawn and
/// the terrain hidden if the flag is set, the reverse if it is not.
pub open spec fn visibility_of(geothermal_overlay: bool) -> PlanetVisibility {
    if geothermal_overlay {
        PlanetVisibility { planet: Visibility::Hidden, geothermal: Visibility::Inherited }
    } else {
        PlanetVisibility { planet: Visibility::Inherited, geothermal: Visibility::Hidden }
    }
}

impl Default for PlanetState {
    /// The terrain is shown first.
    fn default() -> (state: PlanetState)
        ensures
            !state.geothermal_overlay,
    {
        PlanetState { geothermal_overlay: false }
    }
}

/// Reacts to the toggle action: if it was just pressed the flag flips and the
/// new flag is returned as the change to announce; otherwise nothing happens.
pub fn check(state: &mut PlanetState, just_pressed: bool) -> (change: Option<bool>)
    ensures
        just_pressed ==> final(state).geothermal_overlay == !old(state).geothermal_overlay
            && change == Some(final(state).geothermal_overlay),
        !just_pressed ==> *final(state) == *old(state) && change is None,
{
    if just_pressed {
        state.geothermal_overlay = !state.geothermal_overlay;
        Some(state.geothermal_overlay)
    } else {
        None
    }
}

/// The visibilities to set when the overlay flag has changed to `state_change`.
pub fn on_state_change(state_change: bool) -> (visibility: PlanetVisibility)
    ensures
        visibility == visibility_of(state_change),
{
    if state_change {
        PlanetVisibility { planet: Visibility::Hidden, geothermal: Visibility::Inherited }
    } else {
        PlanetVisibility { planet: Visibility::Inherited, geothermal: Visibility::Hidden }
    }
}

/// In every state exactly one of the two mesh sets is drawn, and it is the
/// overlay exactly if the flag is set.
pub proof fn lemma_exactly_one_visible(geothermal_overlay: bool)
    ensures
        (visibility_of(geothermal_overlay).planet == Visibility::Inherited) != (visibility_of(
            geothermal_overlay,
        ).geothermal == Visibility::Inherited),
        visibility_of(geothermal_overlay).geothermal == Visibility::Inherited
            <==> geothermal_overlay,
{
}

} // verus!
