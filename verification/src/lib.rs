//! The logic of an animated clock face: a dilated virtual clock, the breathing
//! field that drives its ripples, the colour compositor of the background layer,
//! the exact geometry of the overlay, minute selection and the notes attached to
//! minutes. Real quantities are held in fixed point, so every result is exact.

pub mod breathing;
pub mod clock;
pub mod notes;
pub mod note_key;
pub mod text;
pub mod selection;
pub mod shader;
pub mod geometry;
pub mod overlay;
pub mod scheduler;
pub mod session;
