//! Core logic of an interactive ledger front end: classifying a typed line
//! as a control command or a monetary amount, validating and suggesting
//! account names against a session snapshot of known user names, and
//! assembling transaction requests for the ledger collaborator.

pub mod commands;
pub mod flow;
pub mod suggest;
pub mod text;
pub mod usernames;
