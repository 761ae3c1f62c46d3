//! A global text-expansion engine: the verified core.
//!
//! Key codes are classified into logical keys, an edit buffer follows what
//! the user has typed since the caret was last known, triggers are recognised
//! at word separators, and each expansion is carried out as a fixed protocol
//! that always turns listening back on.

pub mod keys;
pub mod text;
pub mod date;
pub mod table;
pub mod engine;
pub mod executor;
pub mod capture;
pub mod injector;
