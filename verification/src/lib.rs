//! Emoji toolkit for developers: a git commit-message hook that validates
//! emoji shortcodes against a dictionary, plus a fuzzy shortcode search.
//!
//! The dictionary lives in `dict` and is read by the parser in `parse`; the
//! validator in `validate` is what the installed `commit-msg` hook runs; the
//! installation itself is decided by the state machine in `install`; the
//! interactive search is the query buffer in `query` and the fuzzy lookup in
//! `search`.

pub mod dict;
pub mod hook;
pub mod install;
pub mod parse;
pub mod query;
pub mod search;
pub mod validate;
