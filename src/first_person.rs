//! Input handling of a flying first person camera: which movement keys are
//! held, the direction of movement that they give, and the speed boost.

use input::{Button, Key};
use vstd::prelude::*;
use vstd::std_specs::convert::FromSpec;
use crate::buttons::same_button;

verus! {

/// A logical movement action that a held button stands for.
#[derive(Clone, Copy, Debug, PartialEq, Eq, Structural)]
pub enum MoveAction {
    MoveForward,
    MoveBackward,
    StrafeLeft,
    StrafeRight,
    FlyUp,
    FlyDown,
}

/// What a button of the first person settings does.
#[derive(Clone, Copy, Debug, PartialEq, Eq, Structural)]
pub enum FirstPersonAction {
    /// Moves along one axis while held.
    Move(MoveAction),
    /// Doubles the velocity while held.
    MoveFaster,
}

/// The opposite action on the same axis.
pub open spec fn opposite(a: MoveAction) -> MoveAction {
    match a {
        MoveAction::MoveForward => MoveAction::MoveBackward,
        MoveAction::MoveBackward => MoveAction::MoveForward,
        MoveAction::StrafeLeft => MoveAction::StrafeRight,
        MoveAction::StrafeRight => MoveAction::StrafeLeft,
        MoveAction::FlyUp => MoveAction::FlyDown,
        MoveAction::FlyDown => MoveAction::FlyUp,
    }
}

/// The set of movement actions whose buttons are held.
#[derive(Clone, Copy, Debug, PartialEq, Eq, Structural)]
pub struct Keys {
    move_forward: bool,
    move_backward: bool,
    strafe_left: bool,
    strafe_right: bool,
    fly_up: bool,
    fly_down: bool,
}

impl Keys {
    /// Whether the flag of `a` is set.
    pub closed spec fn holds(self, a: MoveAction) -> bool {
        match a {
            MoveAction::MoveForward => self.move_forward,
            MoveAction::MoveBackward => self.move_backward,
            MoveAction::StrafeLeft => self.strafe_left,
            MoveAction::StrafeRight => self.strafe_right,
            MoveAction::FlyUp => self.fly_up,
            MoveAction::FlyDown => self.fly_down,
        }
    }
}

impl View for Keys {
    type V = Set<MoveAction>;

    closed spec fn view(&self) -> Set<MoveAction> {
        Set::new(|a: MoveAction| self.holds(a))
    }
}

impl Keys {
    /// No key held.
    pub fn empty() -> (r: Keys)
        ensures
            r@ == Set::<MoveAction>::empty(),
    {
        let r = Keys {
            move_forward: false,
            move_backward: false,
            strafe_left: false,
            strafe_right: false,
            fly_up: false,
            fly_down: false,
        };
        assert(r@ =~= Set::<MoveAction>::empty());
        r
    }

    /// Whether `a` is held.
    pub fn contains(&self, a: MoveAction) -> (r: bool)
        ensures
            r == self@.contains(a),
    {
        match a {
            MoveAction::MoveForward => self.move_forward,
            MoveAction::MoveBackward => self.move_backward,
            MoveAction::StrafeLeft => self.strafe_left,
            MoveAction::StrafeRight => self.strafe_right,
            MoveAction::FlyUp => self.fly_up,
            MoveAction::FlyDown => self.fly_down,
        }
    }

    /// Sets the flag of `a` to `held`.
    fn set(&mut self, a: MoveAction, held: bool)
        ensures
            final(self)@ == (if held { old(self)@.insert(a) } else { old(self)@.remove(a) }),
    {
        match a {
            MoveAction::MoveForward => self.move_forward = held,
            MoveAction::MoveBackward => self.move_backward = held,
            MoveAction::StrafeLeft => self.strafe_left = held,
            MoveAction::StrafeRight => self.strafe_right = held,
            MoveAction::FlyUp => self.fly_up = held,
            MoveAction::FlyDown => self.fly_down = held,
        }
        assert(final(self)@ =~= (if held { old(self)@.insert(a) } else { old(self)@.remove(a) }));
    }

    /// Marks `a` as held.
    pub fn insert(&mut self, a: MoveAction)
        ensures
            final(self)@ == old(self)@.insert(a),
    {
        self.set(a, true);
    }

    /// Marks `a` as no longer held.
    pub fn remove(&mut self, a: MoveAction)
        ensures
            final(self)@ == old(self)@.remove(a),
    {
        self.set(a, false);
    }
}

/// The signed unit contribution of an action to its axis of the local
/// direction: forward is -1 and backward +1 on z, strafing left is +1 and
/// right -1 on x, flying up is +1 and down -1 on y.
pub open spec fn unit(a: MoveAction) -> i8 {
    match a {
        MoveAction::MoveForward => -1i8,
        MoveAction::MoveBackward => 1i8,
        MoveAction::StrafeLeft => 1i8,
        MoveAction::StrafeRight => -1i8,
        MoveAction::FlyUp => 1i8,
        MoveAction::FlyDown => -1i8,
    }
}

fn unit_of(a: MoveAction) -> (r: i8)
    ensures
        r == unit(a),
{
    match a {
        MoveAction::MoveForward => -1,
        MoveAction::MoveBackward => 1,
        MoveAction::StrafeLeft => 1,
        MoveAction::StrafeRight => -1,
        MoveAction::FlyUp => 1,
        MoveAction::FlyDown => -1,
    }
}

fn opposite_of(a: MoveAction) -> (r: MoveAction)
    ensures
        r == opposite(a),
{
    match a {
        MoveAction::MoveForward => MoveAction::MoveBackward,
        MoveAction::MoveBackward => MoveAction::MoveForward,
        MoveAction::StrafeLeft => MoveAction::StrafeRight,
        MoveAction::StrafeRight => MoveAction::StrafeLeft,
        MoveAction::FlyUp => MoveAction::FlyDown,
        MoveAction::FlyDown => MoveAction::FlyUp,
    }
}

/// The direction of movement in camera-local axes, as the sign of each
/// component. When both horizontal components (x and z) are non-zero the
/// direction is diagonal, and each of them then has length 1/√2 instead of 1,
/// so that diagonal movement is no faster than movement along one axis.
#[derive(Clone, Copy, Debug, PartialEq, Eq, Structural)]
pub struct Direction {
    pub x: i8,
    pub y: i8,
    pub z: i8,
}

/// Whether `v` is -1, 0 or 1.
pub open spec fn is_sign(v: i8) -> bool {
    -1 <= v <= 1
}

impl Direction {
    /// Each component is a sign.
    pub open spec fn wf(self) -> bool {
        is_sign(self.x) && is_sign(self.y) && is_sign(self.z)
    }

    /// Whether each component is a sign.
    pub fn is_valid(&self) -> (r: bool)
        ensures
            r == self.wf(),
    {
        -1 <= self.x && self.x <= 1 && -1 <= self.y && self.y <= 1 && -1 <= self.z && self.z <= 1
    }

    /// No movement.
    pub fn zero() -> (r: Direction)
        ensures
            r == (Direction { x: 0, y: 0, z: 0 }),
    {
        Direction { x: 0, y: 0, z: 0 }
    }

    /// Both horizontal components are non-zero.
    pub open spec fn diagonal(self) -> bool {
        self.x != 0 && self.z != 0
    }

    /// Whether both horizontal components are non-zero, so that each is scaled
    /// by 1/√2.
    pub fn is_diagonal(&self) -> (r: bool)
        ensures
            r == self.diagonal(),
    {
        self.x != 0 && self.z != 0
    }

    /// Twice the square of the scaled x component: `(x/√2)²·2 = x²` on a
    /// diagonal, `2·x²` otherwise.
    pub open spec fn double_square_x(self) -> int {
        if self.diagonal() {
            self.x * self.x
        } else {
            2 * self.x * self.x
        }
    }

    /// Twice the square of the scaled z component, as for x.
    pub open spec fn double_square_z(self) -> int {
        if self.diagonal() {
            self.z * self.z
        } else {
            2 * self.z * self.z
        }
    }

    /// The direction with the axis of `a` set to `v`.
    pub open spec fn with_axis(self, a: MoveAction, v: i8) -> Direction {
        match a {
            MoveAction::MoveForward | MoveAction::MoveBackward => Direction { z: v, ..self },
            MoveAction::StrafeLeft | MoveAction::StrafeRight => Direction { x: v, ..self },
            MoveAction::FlyUp | MoveAction::FlyDown => Direction { y: v, ..self },
        }
    }

    fn set_axis(&mut self, a: MoveAction, v: i8)
        ensures
            *final(self) == old(self).with_axis(a, v),
    {
        match a {
            MoveAction::MoveForward | MoveAction::MoveBackward => self.z = v,
            MoveAction::StrafeLeft | MoveAction::StrafeRight => self.x = v,
            MoveAction::FlyUp | MoveAction::FlyDown => self.y = v,
        }
    }
}

/// The movement state of a first person camera: the held movement keys, the
/// direction they give, and whether the speed boost is held.
#[derive(Clone, Copy, Debug, PartialEq, Eq, Structural)]
pub struct Movement {
    pub keys: Keys,
    pub direction: Direction,
    pub fast: bool,
}

impl Movement {
    /// The direction's components are signs.
    pub open spec fn wf(self) -> bool {
        self.direction.wf()
    }

    /// `next` is this state after the button of `a` was pressed: a movement
    /// action sets its axis to its own contribution and is recorded as held;
    /// the speed boost is switched on.
    pub open spec fn press_step(self, a: FirstPersonAction, next: Movement) -> bool {
        match a {
            FirstPersonAction::Move(m) => {
                &&& next.keys@ == self.keys@.insert(m)
                &&& next.direction == self.direction.with_axis(m, unit(m))
                &&& next.fast == self.fast
            },
            FirstPersonAction::MoveFaster => next == (Movement { fast: true, ..self }),
        }
    }

    /// `next` is this state after the button of `a` was released: a movement
    /// action is no longer held, and its axis takes the contribution of the
    /// opposite action if that one is still held, else zero; the speed boost
    /// is switched off.
    pub open spec fn release_step(self, a: FirstPersonAction, next: Movement) -> bool {
        match a {
            FirstPersonAction::Move(m) => {
                &&& next.keys@ == self.keys@.remove(m)
                &&& next.direction == self.direction.with_axis(
                    m,
                    if self.keys@.contains(opposite(m)) {
                        unit(opposite(m))
                    } else {
                        0
                    },
                )
                &&& next.fast == self.fast
            },
            FirstPersonAction::MoveFaster => next == (Movement { fast: false, ..self }),
        }
    }

    /// At rest: no key held, no direction, no boost.
    pub fn new() -> (r: Movement)
        ensures
            r.wf(),
            r.keys@ == Set::<MoveAction>::empty(),
            r.direction == (Direction { x: 0, y: 0, z: 0 }),
            !r.fast,
    {
        Movement { keys: Keys::empty(), direction: Direction::zero(), fast: false }
    }

    /// Handles the press of the button of `a`.
    pub fn press(&mut self, a: FirstPersonAction)
        requires
            old(self).wf(),
        ensures
            final(self).wf(),
            old(self).press_step(a, *final(self)),
    {
        match a {
            FirstPersonAction::Move(m) => {
                let v = unit_of(m);
                self.direction.set_axis(m, v);
                self.keys.insert(m);
            },
            FirstPersonAction::MoveFaster => {
                self.fast = true;
            },
        }
    }

    /// Handles the release of the button of `a`.
    pub fn release(&mut self, a: FirstPersonAction)
        requires
            old(self).wf(),
        ensures
            final(self).wf(),
            old(self).release_step(a, *final(self)),
    {
        match a {
            FirstPersonAction::Move(m) => {
                self.keys.remove(m);
                let rev = opposite_of(m);
                let v: i8 = if self.keys.contains(rev) {
                    unit_of(rev)
                } else {
                    0
                };
                self.direction.set_axis(m, v);
            },
            FirstPersonAction::MoveFaster => {
                self.fast = false;
            },
        }
    }

    /// The velocity multiplier: 2 while the speed boost is held, else 1.
    pub fn velocity(&self) -> (r: u8)
        ensures
            r == (if self.fast { 2u8 } else { 1u8 }),
    {
        if self.fast {
            2
        } else {
            1
        }
    }
}

/// First person camera settings: the button bound to each action, and the
/// movement speeds in units per second.
pub struct FirstPersonSettings<T> {
    /// Which button to press to move forward.
    pub move_forward_button: Button,
    /// Which button to press to move backward.
    pub move_backward_button: Button,
    /// Which button to press to strafe left.
    pub strafe_left_button: Button,
    /// Which button to press to strafe right.
    pub strafe_right_button: Button,
    /// Which button to press to fly up.
    pub fly_up_button: Button,
    /// Which button to press to fly down.
    pub fly_down_button: Button,
    /// Which button to press to move faster.
    pub move_faster_button: Button,
    /// The horizontal movement speed.
    pub speed_horizontal: T,
    /// The vertical movement speed.
    pub speed_vertical: T,
}

impl<T> FirstPersonSettings<T> {
    /// The action bound to `b`. Bindings are tried in the order move forward,
    /// move backward, strafe left, strafe right, fly up, fly down, move faster:
    /// the first that matches wins.
    pub open spec fn action_spec(&self, b: Button) -> Option<FirstPersonAction> {
        if b == self.move_forward_button {
            Some(FirstPersonAction::Move(MoveAction::MoveForward))
        } else if b == self.move_backward_button {
            Some(FirstPersonAction::Move(MoveAction::MoveBackward))
        } else if b == self.strafe_left_button {
            Some(FirstPersonAction::Move(MoveAction::StrafeLeft))
        } else if b == self.strafe_right_button {
            Some(FirstPersonAction::Move(MoveAction::StrafeRight))
        } else if b == self.fly_up_button {
            Some(FirstPersonAction::Move(MoveAction::FlyUp))
        } else if b == self.fly_down_button {
            Some(FirstPersonAction::Move(MoveAction::FlyDown))
        } else if b == self.move_faster_button {
            Some(FirstPersonAction::MoveFaster)
        } else {
            None
        }
    }

    /// Looks up the action bound to `b`.
    pub fn action(&self, b: &Button) -> (r: Option<FirstPersonAction>)
        ensures
            r == self.action_spec(*b),
    {
        if same_button(b, &self.move_forward_button) {
            Some(FirstPersonAction::Move(MoveAction::MoveForward))
        } else if same_button(b, &self.move_backward_button) {
            Some(FirstPersonAction::Move(MoveAction::MoveBackward))
        } else if same_button(b, &self.strafe_left_button) {
            Some(FirstPersonAction::Move(MoveAction::StrafeLeft))
        } else if same_button(b, &self.strafe_right_button) {
            Some(FirstPersonAction::Move(MoveAction::StrafeRight))
        } else if same_button(b, &self.fly_up_button) {
            Some(FirstPersonAction::Move(MoveAction::FlyUp))
        } else if same_button(b, &self.fly_down_button) {
            Some(FirstPersonAction::Move(MoveAction::FlyDown))
        } else if same_button(b, &self.move_faster_button) {
            Some(FirstPersonAction::MoveFaster)
        } else {
            None
        }
    }
}

impl<T: From<u8>> FirstPersonSettings<T> {
    /// Settings for the W, A, S, D layout: W forward, S backward, A left,
    /// D right, Space up, left Shift down, left Ctrl faster; both speeds one.
    pub fn keyboard_wasd() -> (r: FirstPersonSettings<T>)
        ensures
            r.move_forward_button == Button::Keyboard(Key::W),
            r.move_backward_button == Button::Keyboard(Key::S),
            r.strafe_left_button == Button::Keyboard(Key::A),
            r.strafe_right_button == Button::Keyboard(Key::D),
            r.fly_up_button == Button::Keyboard(Key::Space),
            r.fly_down_button == Button::Keyboard(Key::LShift),
            r.move_faster_button == Button::Keyboard(Key::LCtrl),
            T::obeys_from_spec() ==> r.speed_horizontal == T::from_spec(1u8),
            T::obeys_from_spec() ==> r.speed_vertical == T::from_spec(1u8),
    {
        FirstPersonSettings {
            move_forward_button: Button::Keyboard(Key::W),
            move_backward_button: Button::Keyboard(Key::S),
            strafe_left_button: Button::Keyboard(Key::A),
            strafe_right_button: Button::Keyboard(Key::D),
            fly_up_button: Button::Keyboard(Key::Space),
            fly_down_button: Button::Keyboard(Key::LShift),
            move_faster_button: Button::Keyboard(Key::LCtrl),
            speed_horizontal: T::from(1u8),
            speed_vertical: T::from(1u8),
        }
    }

    /// Settings for the E, S, D, F layout: E forward, D backward, S left,
    /// F right, Space up, Z down, left Shift faster; both speeds one.
    pub fn keyboard_esdf() -> (r: FirstPersonSettings<T>)
        ensures
            r.move_forward_button == Button::Keyboard(Key::E),
            r.move_backward_button == Button::Keyboard(Key::D),
            r.strafe_left_button == Button::Keyboard(Key::S),
            r.strafe_right_button == Button::Keyboard(Key::F),
            r.fly_up_button == Button::Keyboard(Key::Space),
            r.fly_down_button == Button::Keyboard(Key::Z),
            r.move_faster_button == Button::Keyboard(Key::LShift),
            T::obeys_from_spec() ==> r.speed_horizontal == T::from_spec(1u8),
            T::obeys_from_spec() ==> r.speed_vertical == T::from_spec(1u8),
    {
        FirstPersonSettings {
            move_forward_button: Button::Keyboard(Key::E),
            move_backward_button: Button::Keyboard(Key::D),
            strafe_left_button: Button::Keyboard(Key::S),
            strafe_right_button: Button::Keyboard(Key::F),
            fly_up_button: Button::Keyboard(Key::Space),
            fly_down_button: Button::Keyboard(Key::Z),
            move_faster_button: Button::Keyboard(Key::LShift),
            speed_horizontal: T::from(1u8),
            speed_vertical: T::from(1u8),
        }
    }
}

impl Movement {
    /// Handles the press of button `b`: the action bound to it in `settings`
    /// takes effect; an unbound button changes nothing.
    pub fn press_button<T>(&mut self, settings: &FirstPersonSettings<T>, b: &Button)
        requires
            old(self).wf(),
        ensures
            final(self).wf(),
            match settings.action_spec(*b) {
                Some(a) => old(self).press_step(a, *final(self)),
                None => *final(self) == *old(self),
            },
    {
        match settings.action(b) {
            Some(a) => self.press(a),
            None => {},
        }
    }

    /// Handles the release of button `b`: the action bound to it in
    /// `settings` ends; an unbound button changes nothing.
    pub fn release_button<T>(&mut self, settings: &FirstPersonSettings<T>, b: &Button)
        requires
            old(self).wf(),
        ensures
            final(self).wf(),
            match settings.action_spec(*b) {
                Some(a) => old(self).release_step(a, *final(self)),
                None => *final(self) == *old(self),
            },
    {
        match settings.action(b) {
            Some(a) => self.release(a),
            None => {},
        }
    }
}

/// The component of `d` on the axis of `a`.
pub open spec fn component(d: Direction, a: MoveAction) -> i8 {
    match a {
        MoveAction::MoveForward | MoveAction::MoveBackward => d.z,
        MoveAction::StrafeLeft | MoveAction::StrafeRight => d.x,
        MoveAction::FlyUp | MoveAction::FlyDown => d.y,
    }
}

/// Each horizontal component of `d` has length 1/√2 when the direction is
/// diagonal, and the one non-zero horizontal component has length exactly 1
/// when it is not.
pub open spec fn normalized(d: Direction) -> bool {
    &&& d.diagonal() ==> d.double_square_x() == 1 && d.double_square_z() == 1
    &&& d.x != 0 && d.z == 0 ==> d.double_square_x() == 2
    &&& d.x == 0 && d.z != 0 ==> d.double_square_z() == 2
}

/// `next` follows `m` by a press (`pressed`) or a release of the button of `a`.
pub open spec fn step(m: Movement, pressed: bool, a: FirstPersonAction, next: Movement) -> bool {
    if pressed {
        m.press_step(a, next)
    } else {
        m.release_step(a, next)
    }
}

proof fn lemma_signs_normalized(d: Direction)
    requires
        d.wf(),
    ensures
        normalized(d),
{
    assert(d.x * d.x == 1 || d.x == 0) by (nonlinear_arith)
        requires
            -1 <= d.x <= 1,
    ;
    assert(d.z * d.z == 1 || d.z == 0) by (nonlinear_arith)
        requires
            -1 <= d.z <= 1,
    ;
    assert(2 * d.x * d.x == 2 * (d.x * d.x)) by (nonlinear_arith);
    assert(2 * d.z * d.z == 2 * (d.z * d.z)) by (nonlinear_arith);
}

/// A press or a release keeps the direction made of signs.
pub proof fn lemma_step_keeps_wf(m: Movement, pressed: bool, a: FirstPersonAction, next: Movement)
    requires
        m.wf(),
        step(m, pressed, a, next),
    ensures
        next.wf(),
        normalized(next.direction),
{
    lemma_signs_normalized(next.direction);
}

proof fn lemma_wf_along(
    states: Seq<Movement>,
    presses: Seq<bool>,
    actions: Seq<FirstPersonAction>,
    i: int,
)
    requires
        states.len() == presses.len() + 1,
        actions.len() == presses.len(),
        states[0].wf(),
        forall|k: int|
            0 <= k < presses.len() ==> step(#[trigger] states[k], presses[k], actions[k], states[k + 1]),
        0 <= i < states.len(),
    ensures
        states[i].wf(),
    decreases i,
{
    if i > 0 {
        lemma_wf_along(states, presses, actions, i - 1);
        lemma_step_keeps_wf(states[i - 1], presses[i - 1], actions[i - 1], states[i]);
    }
}

/// After any sequence of presses and releases from a well-formed state (such
/// as the one `Movement::new` gives), every state's direction is normalized:
/// a diagonal has horizontal components of length 1/√2 each, and a direction
/// along one horizontal axis has length exactly 1 on it.
pub proof fn lemma_diagonal_normalized(
    states: Seq<Movement>,
    presses: Seq<bool>,
    actions: Seq<FirstPersonAction>,
)
    requires
        states.len() == presses.len() + 1,
        actions.len() == presses.len(),
        states[0].wf(),
        forall|k: int|
            0 <= k < presses.len() ==> step(#[trigger] states[k], presses[k], actions[k], states[k + 1]),
    ensures
        forall|i: int|
            0 <= i < states.len() ==> (#[trigger] states[i]).wf() && normalized(states[i].direction),
{
    assert forall|i: int| 0 <= i < states.len() implies (#[trigger] states[i]).wf() && normalized(
        states[i].direction,
    ) by {
        lemma_wf_along(states, presses, actions, i);
        lemma_signs_normalized(states[i].direction);
    }
}

/// Pressing `a`, then its opposite, then releasing `a` leaves the opposite
/// action in charge of the axis: its contribution stays, instead of zero.
pub proof fn lemma_release_restores_opposite(
    a: MoveAction,
    m0: Movement,
    m1: Movement,
    m2: Movement,
    m3: Movement,
)
    requires
        m0.press_step(FirstPersonAction::Move(a), m1),
        m1.press_step(FirstPersonAction::Move(opposite(a)), m2),
        m2.release_step(FirstPersonAction::Move(a), m3),
    ensures
        component(m3.direction, a) == unit(opposite(a)),
        m3.keys@.contains(opposite(a)),
        !m3.keys@.contains(a),
{
}

} // verus!
