//! Note trainer core: the staff-geometry mapper and the round state machine
//! for a sight-training exercise. A target note is shown on a five-line
//! staff; the player answers with a pitch from an input device, and the
//! round advances after a correct answer.

pub mod game;
pub mod staff;
