//! Event model and capability negotiation for a plugin boundary: wildcard
//! addressing of notes, fixed-layout note events, ordered event lists,
//! extension identifiers, and the typed reading of raw extension replies.

pub mod pckn;
pub mod note;
pub mod list;
pub mod log;
pub mod ext;
pub mod gui;
