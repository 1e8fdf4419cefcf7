//! What the text service decides: key handling, live conversion and windows.

pub mod action;
pub mod activation;
pub mod candidate_window;
pub mod commit;
pub mod composition;
pub mod convert;
pub mod edit;
pub mod effects;
pub mod focus;
pub mod input;
pub mod language_bar;
pub mod live;
pub mod live_session;
pub mod mode;
pub mod punctuate;
pub mod registration;
pub mod select;
pub mod waiting;
pub mod world;
