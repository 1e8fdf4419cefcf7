//! Verified core of the rakukan input method: text conversion, composition
//! sessions, key handling, configuration, logging and dictionary building.

pub mod builder;
pub mod engine;
pub mod logfile;
pub mod scan;
pub mod text;
pub mod tsf;
