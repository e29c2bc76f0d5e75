//! Store paths of the interchain host: a typed model of every provable key and
//! a verified codec between the model and the canonical `/`-separated text.

pub mod decimal;
pub mod identifiers;
pub mod laws;
pub mod parse;
pub mod path;
pub mod text;
