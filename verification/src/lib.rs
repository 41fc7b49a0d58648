//! Switch, case and default block helpers for Handlebars templates.
//!
//! A `switch` block opens a scope that holds one match flag. Inside it, the
//! first `case` whose arguments hold the switched value renders its body and
//! raises the flag; later cases stay silent, and `default` renders only
//! while the flag is still down.
//!
//! The host engine walks the template, keeps the stack of scopes and renders
//! the bodies. This crate decides: each helper's `call` takes what the host
//! hands a helper and says what the host has to do next.

pub mod json;
pub mod scope;
pub mod switch;
pub mod template;

pub use self::switch::{
    Action, CaseHelper, DefaultHelper, SwitchError, SwitchHelper, SwitchScope, CASE_NAME,
    DEFAULT_NAME,
};
