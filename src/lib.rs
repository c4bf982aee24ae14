//! Verified core of a resonance simulation: the decisions and text handling
//! that surround the numeric engine. Tone classification and text cues
//! (`classify`), the categories, their boosts and the choice of a collapsed
//! index (`category`), the starting weights, amplitudes and traits
//! (`initial`), the event log and the files it is saved as
//! (`journal`), reading back the latest stored record (`memory`), and the
//! character-level primitives they rest on (`text`).

pub mod category;
pub mod classify;
pub mod initial;
pub mod journal;
pub mod memory;
pub mod text;
