//! Front-end logic for an 8×8 board game: pixel ↔ square mapping, the
//! two-click input protocol, promotion selection and per-frame draw planning.
//!
//! Everything here works on plain values; the windowing, drawing and the
//! rules model live with the caller.

pub mod input;
pub mod mapper;
pub mod piece;
pub mod promotion;
pub mod render;
pub mod square;
