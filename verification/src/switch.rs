//! The three helpers and what each of them decides.

use vstd::prelude::*;
use handlebars::BlockContext;
use serde_json::Value;
use crate::json::{any_equal, json_bool, matches_any};
use crate::scope::{flag_key, flag_stored, local_vars, match_flag, read_flag, store_flag};

verus! {

/// The name under which the `case` helper of a scope is registered while
/// the body of its switch renders.
pub const CASE_NAME: &'static str = "case";

/// The name under which the `default` helper of a scope is registered
/// while the body of its switch renders.
pub const DEFAULT_NAME: &'static str = "default";

/// What the host does with the body of a `case` or `default` block.
#[derive(Clone, Copy, Debug, PartialEq, Eq, Structural)]
pub enum Action {
    /// Render the body, if the block has one.
    Render,
    /// Render nothing.
    Skip,
}

/// Why a `switch` block cannot be rendered.
#[derive(Clone, Copy, Debug, PartialEq, Eq, Structural)]
pub enum SwitchError {
    /// The block names no value to switch on.
    MissingArgument,
}

impl SwitchError {
    /// The text of the error, for the host to report.
    pub fn message(&self) -> (text: String)
        ensures
            text@ == "Param not found for helper \"switch\""@,
    {
        "Param not found for helper \"switch\"".to_string()
    }
}

/// One switch scope, as the helpers see it: the value switched on and the
/// match flag.
pub struct Scope {
    pub value: Value,
    pub matched: bool,
}

impl Scope {
    /// The scope that a switch on `value` opens.
    pub open spec fn opened(value: Value) -> Scope {
        Scope { value, matched: false }
    }

    /// This scope once a case has matched.
    pub open spec fn raised(self) -> Scope {
        Scope { value: self.value, matched: true }
    }
}

/// Whether a `case` block with the arguments `args` renders, in a scope that
/// switches on `value` and whose match flag is `matched`.
pub open spec fn case_renders(matched: bool, value: Value, args: Seq<Value>) -> bool {
    !matched && matches_any(value, args)
}

/// Whether a `default` block renders, in a scope whose match flag is
/// `matched`.
pub open spec fn default_renders(matched: bool) -> bool {
    !matched
}

/// The `default` helper of a switch scope: renders its body while no case
/// of the scope has matched. It takes no arguments; what a template passes
/// to `default` is ignored.
#[derive(Clone, Copy)]
pub struct DefaultHelper;

impl DefaultHelper {
    /// Decides one `default` block, given the innermost scope of the host.
    /// It never changes the scope: a case that follows is still tried.
    pub fn call(&self, block: Option<&BlockContext<'_>>) -> (action: Action)
        ensures
            action == (match block {
                Some(scope) if default_renders(match_flag(*scope)) => Action::Render,
                _ => Action::Skip,
            }),
    {
        match block {
            Some(scope) => {
                if !read_flag(scope) {
                    Action::Render
                } else {
                    Action::Skip
                }
            },
            None => Action::Skip,
        }
    }
}

/// The `case` helper of one switch scope. It holds the value that the
/// switch was opened with.
#[derive(Clone)]
pub struct CaseHelper {
    expression_value: Value,
}

impl CaseHelper {
    /// The helper for a switch on `expression_value`.
    pub fn new(expression_value: Value) -> (helper: CaseHelper)
        ensures
            helper.switched() == expression_value,
    {
        CaseHelper { expression_value }
    }

    /// The value that the cases are compared with.
    pub closed spec fn switched(&self) -> Value {
        self.expression_value
    }

    /// The value that the cases are compared with.
    pub fn expression_value(&self) -> (value: &Value)
        ensures
            *value == self.switched(),
    {
        &self.expression_value
    }

    /// The scope that this helper and `block` make up.
    pub open spec fn scope(&self, block: BlockContext<'_>) -> Scope {
        Scope { value: self.switched(), matched: match_flag(block) }
    }

    /// Decides one `case` block, given the innermost scope of the host and
    /// the block's arguments. A case that renders raises the match flag of
    /// the scope first; any other leaves the scope as it is. The arguments
    /// are compared only while the flag is down.
    pub fn call(&self, block: Option<&mut BlockContext<'_>>, args: &[Value]) -> (action: Action)
        ensures
            match block {
                Some(scope) => {
                    if case_renders(match_flag(*scope), self.switched(), args@) {
                        &&& action == Action::Render
                        &&& flag_stored(*scope, *final(scope), true)
                        &&& self.scope(*final(scope)) == self.scope(*scope).raised()
                    } else {
                        action == Action::Skip && *final(scope) == *scope
                    }
                },
                None => action == Action::Skip,
            },
    {
        match block {
            Some(scope) => {
                let holds = !read_flag(scope) && any_equal(args, &self.expression_value);
                Self::decide(Some(scope), holds)
            },
            None => Self::decide(None, false),
        }
    }

    /// Decides one `case` block, given the innermost scope of the host and
    /// whether the arguments of the block hold the switched value.
    pub fn decide(block: Option<&mut BlockContext<'_>>, holds: bool) -> (action: Action)
        ensures
            match block {
                Some(scope) => {
                    if holds && !match_flag(*scope) {
                        action == Action::Render && flag_stored(*scope, *final(scope), true)
                    } else {
                        action == Action::Skip && *final(scope) == *scope
                    }
                },
                None => action == Action::Skip,
            },
    {
        match block {
            Some(scope) => {
                if holds && !read_flag(scope) {
                    store_flag(scope, true);
                    Action::Render
                } else {
                    Action::Skip
                }
            },
            None => Action::Skip,
        }
    }
}

/// What a `switch` block opens: the scope for the host to push, and the two
/// helpers for it to register under `case` and `default` while the body of
/// the block renders.
pub struct SwitchScope<'reg> {
    pub block: BlockContext<'reg>,
    pub case: CaseHelper,
    pub default: DefaultHelper,
}

impl<'reg> View for SwitchScope<'reg> {
    type V = Scope;

    open spec fn view(&self) -> Scope {
        self.case.scope(self.block)
    }
}

/// The `switch` helper.
#[derive(Clone, Copy)]
pub struct SwitchHelper;

impl SwitchHelper {
    /// Opens the scope of one `switch` block, given the block's arguments.
    /// The first argument is the value switched on; further ones are
    /// ignored. The new scope holds the match flag, down, and nothing else.
    pub fn call<'reg>(&self, args: &[Value]) -> (opened: Result<SwitchScope<'reg>, SwitchError>)
        ensures
            match opened {
                Ok(scope) => {
                    &&& args@.len() > 0
                    &&& scope@ == Scope::opened(args@[0])
                    &&& local_vars(scope.block).dom() == set![flag_key()]
                    &&& json_bool(local_vars(scope.block)[flag_key()]) == Some(false)
                },
                Err(error) => args@.len() == 0 && error == SwitchError::MissingArgument,
            },
    {
        if args.len() == 0 {
            return Err(SwitchError::MissingArgument);
        }
        let expression_value = args[0].clone();
        let mut block = BlockContext::new();
        store_flag(&mut block, false);
        assert(local_vars(block).dom() =~= set![flag_key()]);
        Ok(SwitchScope { block, case: CaseHelper::new(expression_value), default: DefaultHelper })
    }
}

} // verus!
