//! Unicode Character Database tooling: reading the UCD text files, compacting
//! per-codepoint properties into sorted range tables, looking values up in
//! those tables, and rendering them as embeddable source text.

pub mod text;
pub mod number;
pub mod codepoint;
pub mod record;
pub mod compact;
pub mod lookup;
pub mod tables;
pub mod emit;
pub mod version;
pub mod case;
pub mod property;
pub mod lowercase;
