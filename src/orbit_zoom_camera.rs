//! Input handling of a camera that orbits a target point: which modifier
//! buttons are held, and whether a motion delta pans, zooms or orbits.

use input::{Button, Key, MouseButton};
use vstd::prelude::*;
use crate::buttons::same_button;

verus! {

/// A modifier whose button changes how motion deltas are read while held.
#[derive(Clone, Copy, Debug, PartialEq, Eq, Structural)]
pub enum Modifier {
    Zoom,
    Pan,
    Orbit,
}

/// How a motion delta moves the camera.
#[derive(Clone, Copy, Debug, PartialEq, Eq, Structural)]
pub enum ControlMode {
    /// Moves the target in the plane facing the camera.
    Pan,
    /// Changes the distance to the target.
    Zoom,
    /// Turns the camera about the target.
    Orbit,
}

/// The set of modifiers whose buttons are held.
#[derive(Clone, Copy, Debug, PartialEq, Eq, Structural)]
pub struct Keys {
    zoom: bool,
    pan: bool,
    orbit: bool,
}

impl Keys {
    /// Whether the flag of `m` is set.
    pub closed spec fn holds(self, m: Modifier) -> bool {
        match m {
            Modifier::Zoom => self.zoom,
            Modifier::Pan => self.pan,
            Modifier::Orbit => self.orbit,
        }
    }
}

impl View for Keys {
    type V = Set<Modifier>;

    closed spec fn view(&self) -> Set<Modifier> {
        Set::new(|m: Modifier| self.holds(m))
    }
}

/// The mode of a delta while the modifiers in `k` are held: pan comes before
/// zoom, and orbit is what is left.
pub open spec fn mode_of(k: Set<Modifier>) -> ControlMode {
    if k.contains(Modifier::Pan) {
        ControlMode::Pan
    } else if k.contains(Modifier::Zoom) {
        ControlMode::Zoom
    } else {
        ControlMode::Orbit
    }
}

impl Keys {
    /// No modifier held.
    pub fn empty() -> (r: Keys)
        ensures
            r@ == Set::<Modifier>::empty(),
    {
        let r = Keys { zoom: false, pan: false, orbit: false };
        assert(r@ =~= Set::<Modifier>::empty());
        r
    }

    /// Whether `m` is held.
    pub fn contains(&self, m: Modifier) -> (r: bool)
        ensures
            r == self@.contains(m),
    {
        match m {
            Modifier::Zoom => self.zoom,
            Modifier::Pan => self.pan,
            Modifier::Orbit => self.orbit,
        }
    }

    /// Sets the flag of `m` to `held`.
    fn set(&mut self, m: Modifier, held: bool)
        ensures
            final(self)@ == (if held { old(self)@.insert(m) } else { old(self)@.remove(m) }),
    {
        match m {
            Modifier::Zoom => self.zoom = held,
            Modifier::Pan => self.pan = held,
            Modifier::Orbit => self.orbit = held,
        }
        assert(final(self)@ =~= (if held { old(self)@.insert(m) } else { old(self)@.remove(m) }));
    }

    /// Marks `m` as held.
    pub fn insert(&mut self, m: Modifier)
        ensures
            final(self)@ == old(self)@.insert(m),
    {
        self.set(m, true);
    }

    /// Marks `m` as no longer held.
    pub fn remove(&mut self, m: Modifier)
        ensures
            final(self)@ == old(self)@.remove(m),
    {
        self.set(m, false);
    }

    /// How a scroll delta moves the camera with these modifiers held.
    pub fn control_mode(&self) -> (r: ControlMode)
        ensures
            r == mode_of(self@),
    {
        if self.contains(Modifier::Pan) {
            ControlMode::Pan
        } else if self.contains(Modifier::Zoom) {
            ControlMode::Zoom
        } else {
            ControlMode::Orbit
        }
    }

    /// How a relative mouse motion moves the camera: it is handed on, with its
    /// horizontal part negated, only while the orbit button is held.
    pub fn relative_motion_mode(&self) -> (r: Option<ControlMode>)
        ensures
            r == (if self@.contains(Modifier::Orbit) {
                Some(mode_of(self@))
            } else {
                None
            }),
    {
        if self.contains(Modifier::Orbit) {
            Some(self.control_mode())
        } else {
            None
        }
    }

    /// Handles the press of button `b`: the modifier bound to it in
    /// `settings` becomes held; other buttons change nothing.
    pub fn press_button<T>(&mut self, settings: &OrbitZoomCameraSettings<T>, b: &Button)
        ensures
            final(self)@ == match settings.modifier_spec(*b) {
                Some(m) => old(self)@.insert(m),
                None => old(self)@,
            },
    {
        match settings.modifier(b) {
            Some(m) => self.insert(m),
            None => {},
        }
    }

    /// Handles the release of button `b`: the modifier bound to it in
    /// `settings` is no longer held; other buttons change nothing.
    pub fn release_button<T>(&mut self, settings: &OrbitZoomCameraSettings<T>, b: &Button)
        ensures
            final(self)@ == match settings.modifier_spec(*b) {
                Some(m) => old(self)@.remove(m),
                None => old(self)@,
            },
    {
        match settings.modifier(b) {
            Some(m) => self.remove(m),
            None => {},
        }
    }
}

/// Key bindings and speed factors of an orbiting camera.
pub struct OrbitZoomCameraSettings<T> {
    /// Which button to press to orbit with the mouse.
    pub orbit_button: Button,
    /// Which button to press to zoom with the mouse.
    pub zoom_button: Button,
    /// Which button to press to pan with the mouse.
    pub pan_button: Button,
    /// Factor of the orbiting speed.
    pub orbit_speed: T,
    /// Factor of the panning speed.
    pub pan_speed: T,
    /// Factor of the zoom speed.
    pub zoom_speed: T,
}

impl<T> OrbitZoomCameraSettings<T> {
    /// Dragging with the left mouse button or scrolling orbits, with left
    /// Shift held it pans and with left Ctrl held it zooms; the speeds are
    /// the given ones.
    pub fn with_speeds(orbit_speed: T, pan_speed: T, zoom_speed: T) -> (r: OrbitZoomCameraSettings<
        T,
    >)
        ensures
            r.orbit_button == Button::Mouse(MouseButton::Left),
            r.zoom_button == Button::Keyboard(Key::LCtrl),
            r.pan_button == Button::Keyboard(Key::LShift),
            r.orbit_speed == orbit_speed,
            r.pan_speed == pan_speed,
            r.zoom_speed == zoom_speed,
    {
        OrbitZoomCameraSettings {
            orbit_button: Button::Mouse(MouseButton::Left),
            zoom_button: Button::Keyboard(Key::LCtrl),
            pan_button: Button::Keyboard(Key::LShift),
            orbit_speed,
            pan_speed,
            zoom_speed,
        }
    }

    /// The modifier bound to `b`; bindings are tried in the order orbit, pan,
    /// zoom.
    pub open spec fn modifier_spec(&self, b: Button) -> Option<Modifier> {
        if b == self.orbit_button {
            Some(Modifier::Orbit)
        } else if b == self.pan_button {
            Some(Modifier::Pan)
        } else if b == self.zoom_button {
            Some(Modifier::Zoom)
        } else {
            None
        }
    }

    /// Looks up the modifier bound to `b`.
    pub fn modifier(&self, b: &Button) -> (r: Option<Modifier>)
        ensures
            r == self.modifier_spec(*b),
    {
        if same_button(b, &self.orbit_button) {
            Some(Modifier::Orbit)
        } else if same_button(b, &self.pan_button) {
            Some(Modifier::Pan)
        } else if same_button(b, &self.zoom_button) {
            Some(Modifier::Zoom)
        } else {
            None
        }
    }
}

/// Pan takes precedence over the other modes whenever its button is held,
/// whatever else is held; zoom takes precedence over orbit.
pub proof fn lemma_pan_precedence(k: Keys)
    ensures
        k@.contains(Modifier::Pan) ==> mode_of(k@) == ControlMode::Pan,
        !k@.contains(Modifier::Pan) && k@.contains(Modifier::Zoom) ==> mode_of(k@)
            == ControlMode::Zoom,
        mode_of(k@) == ControlMode::Orbit <==> !k@.contains(Modifier::Pan) && !k@.contains(
            Modifier::Zoom,
        ),
{
}

} // verus!
