//! Camera state and input handling for 3D navigation: the held-key sets, the
//! movement direction of a first person camera and the control mode of an
//! orbit/pan/zoom camera.

pub mod buttons;
pub mod first_person;
pub mod orbit_zoom_camera;
