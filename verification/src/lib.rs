//! Repair of mojibake in Cyrillic music metadata: text that was stored as
//! legacy code-page (cp1251) bytes but mis-decoded through a single-byte
//! Latin scheme. The detector re-interprets each character as the legacy
//! byte it came from, decodes those bytes as cp1251, and scores the result;
//! companion modules decide cue-sheet rewrites, batch tag fixes, gate
//! backups, and classify files by extension.

pub mod backup;
pub mod chars;
pub mod classify;
pub mod codec;
pub mod cue;
pub mod detect;
pub mod tags;
pub mod trim;
