//! The input buttons that camera settings bind to actions.

use input::{Button, ControllerButton, ControllerHat, HatState, Key, MouseButton};
use vstd::prelude::*;

verus! {

/// `input::Button`: a keyboard key, a mouse button, a controller button or a
/// controller hat. Declared with its variants visible, so that bindings can be
/// built and stated in verified code.
#[verifier::external_type_specification]
pub struct ExButton(Button);

/// `input::Key`, a keyboard key.
#[verifier::external_type_specification]
pub struct ExKey(Key);

/// `input::MouseButton`, a mouse button.
#[verifier::external_type_specification]
pub struct ExMouseButton(MouseButton);

/// `input::ControllerButton`, a controller id and a button number.
#[verifier::external_type_specification]
pub struct ExControllerButton(ControllerButton);

/// `input::ControllerHat`, a controller id, a hat state and a hat number.
#[verifier::external_type_specification]
pub struct ExControllerHat(ControllerHat);

/// `input::HatState`, the direction a controller hat points in.
#[verifier::external_type_specification]
pub struct ExHatState(HatState);

/// Relies on the `PartialEq` that `input::Button` derives: two buttons compare
/// equal exactly when they are the same variant with equal contents.
#[verifier::external_body]
pub(crate) fn same_button(a: &Button, b: &Button) -> (r: bool)
    ensures
        r == (*a == *b),
{
    a == b
}

} // verus!
