//! Translation of finger-trick notation into absolute cube moves.
//!
//! A finger trick names the finger and hand that push or pull a layer of a
//! hand-held cube. Which face that turns depends on how far each hand has
//! rotated the cube out of its neutral hold. This crate keeps track of those
//! grips while it walks an algorithm and names, for every action, the face
//! that really turns.

pub mod absolute_moves;
pub mod rotation;
pub mod moves;
pub mod notation;
