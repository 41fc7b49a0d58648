//! The decisions of the three helpers, called one by one on scopes of the
//! host engine.

use handlebars::BlockContext;
use handlebars_switch::json::any_equal;
use handlebars_switch::scope::{read_flag, store_flag};
use handlebars_switch::{Action, CaseHelper, DefaultHelper, SwitchError, SwitchHelper};
use serde_json::{Number, Value};

fn text(s: &str) -> Value {
    Value::String(s.to_string())
}

fn number(n: u64) -> Value {
    Value::Number(Number::from(n))
}

#[test]
fn switch_needs_an_argument() {
    let opened = SwitchHelper.call(&[]);
    assert!(matches!(opened, Err(SwitchError::MissingArgument)));
}

#[test]
fn missing_argument_message() {
    assert_eq!(SwitchError::MissingArgument.message(), "Param not found for helper \"switch\"");
}

#[test]
fn switch_opens_a_scope_with_the_flag_down() {
    let scope = SwitchHelper.call(&[text("admin")]).unwrap();
    assert!(!read_flag(&scope.block));
    assert_eq!(scope.block.get_local_var("match"), Some(&Value::Bool(false)));
    assert_eq!(scope.case.expression_value(), &text("admin"));
}

#[test]
fn switch_takes_the_first_argument() {
    let scope = SwitchHelper.call(&[number(1), number(2), text("x")]).unwrap();
    assert_eq!(scope.case.expression_value(), &number(1));
}

#[test]
fn first_matching_case_renders_and_later_ones_skip() {
    let mut scope = SwitchHelper.call(&[text("page2")]).unwrap();
    let case = scope.case;
    let first = case.call(Some(&mut scope.block), &[text("page0")]);
    assert_eq!(first, Action::Skip);
    assert!(!read_flag(&scope.block));
    let second = case.call(Some(&mut scope.block), &[text("page1"), text("page2")]);
    assert_eq!(second, Action::Render);
    assert!(read_flag(&scope.block));
    assert_eq!(scope.block.get_local_var("match"), Some(&Value::Bool(true)));
    let third = case.call(Some(&mut scope.block), &[text("page2")]);
    assert_eq!(third, Action::Skip);
    assert_eq!(scope.default.call(Some(&scope.block)), Action::Skip);
    assert!(read_flag(&scope.block));
}

#[test]
fn default_renders_while_nothing_matched() {
    let mut scope = SwitchHelper.call(&[text("nobody")]).unwrap();
    let case = scope.case;
    assert_eq!(case.call(Some(&mut scope.block), &[text("admin")]), Action::Skip);
    assert_eq!(scope.default.call(Some(&scope.block)), Action::Render);
    assert!(!read_flag(&scope.block));
    assert_eq!(case.call(Some(&mut scope.block), &[text("nobody")]), Action::Render);
}

#[test]
fn case_without_arguments_never_matches() {
    let mut scope = SwitchHelper.call(&[Value::Null]).unwrap();
    let case = scope.case;
    assert_eq!(case.call(Some(&mut scope.block), &[]), Action::Skip);
    assert!(!read_flag(&scope.block));
}

#[test]
fn helpers_outside_a_scope_skip() {
    let case = CaseHelper::new(text("a"));
    assert_eq!(case.call(None, &[text("a")]), Action::Skip);
    assert_eq!(CaseHelper::decide(None, true), Action::Skip);
    assert_eq!(DefaultHelper.call(None), Action::Skip);
}

#[test]
fn block_without_flag_counts_as_unmatched() {
    let mut block = BlockContext::new();
    assert!(!read_flag(&block));
    assert_eq!(DefaultHelper.call(Some(&block)), Action::Render);
    let case = CaseHelper::new(number(4));
    assert_eq!(case.call(Some(&mut block), &[number(4)]), Action::Render);
    assert!(read_flag(&block));
    assert_eq!(DefaultHelper.call(Some(&block)), Action::Skip);
}

#[test]
fn flag_that_is_no_boolean_counts_as_down() {
    let mut block = BlockContext::new();
    block.set_local_var("@match".to_string(), text("true"));
    assert!(!read_flag(&block));
    block.set_local_var("@match".to_string(), number(1));
    assert!(!read_flag(&block));
    assert_eq!(DefaultHelper.call(Some(&block)), Action::Render);
}

#[test]
fn flag_is_read_under_its_stored_name() {
    let mut block = BlockContext::new();
    block.set_local_var("match".to_string(), Value::Bool(true));
    assert!(!read_flag(&block));
    block.set_local_var("@match".to_string(), Value::Bool(true));
    assert!(read_flag(&block));
}

#[test]
fn stored_flag_is_read_back() {
    let mut block = BlockContext::new();
    store_flag(&mut block, true);
    assert!(read_flag(&block));
    assert_eq!(block.get_local_var("match"), Some(&Value::Bool(true)));
    store_flag(&mut block, false);
    assert!(!read_flag(&block));
    assert_eq!(block.get_local_var("match"), Some(&Value::Bool(false)));
}

#[test]
fn storing_the_flag_keeps_other_variables() {
    let mut block = BlockContext::new();
    block.set_local_var("@index".to_string(), number(3));
    store_flag(&mut block, true);
    assert_eq!(block.get_local_var("index"), Some(&number(3)));
    let case = CaseHelper::new(number(1));
    let mut other = BlockContext::new();
    other.set_local_var("@index".to_string(), number(3));
    assert_eq!(case.call(Some(&mut other), &[number(1)]), Action::Render);
    assert_eq!(other.get_local_var("index"), Some(&number(3)));
}

#[test]
fn decide_follows_flag_and_answer() {
    let mut block = BlockContext::new();
    assert_eq!(CaseHelper::decide(Some(&mut block), false), Action::Skip);
    assert!(!read_flag(&block));
    assert_eq!(CaseHelper::decide(Some(&mut block), true), Action::Render);
    assert!(read_flag(&block));
    assert_eq!(CaseHelper::decide(Some(&mut block), true), Action::Skip);
    assert_eq!(CaseHelper::decide(Some(&mut block), false), Action::Skip);
    assert!(read_flag(&block));
}

#[test]
fn any_equal_compares_by_value_and_kind() {
    let args = [text("1"), number(2), Value::Bool(true), Value::Null];
    assert!(any_equal(&args, &text("1")));
    assert!(any_equal(&args, &number(2)));
    assert!(any_equal(&args, &Value::Bool(true)));
    assert!(any_equal(&args, &Value::Null));
    assert!(!any_equal(&args, &number(1)));
    assert!(!any_equal(&args, &text("2")));
    assert!(!any_equal(&args, &text("true")));
    assert!(!any_equal(&args, &Value::Bool(false)));
    assert!(!any_equal(&[], &Value::Null));
}

#[test]
fn any_equal_compares_structures() {
    let list: Value = serde_json::from_str("[1, {\"a\": \"b\"}]").unwrap();
    let same: Value = serde_json::from_str("[1, {\"a\": \"b\"}]").unwrap();
    let other: Value = serde_json::from_str("[1, {\"a\": \"c\"}]").unwrap();
    assert!(any_equal(&[other.clone(), same], &list));
    assert!(!any_equal(&[other], &list));
}

#[test]
fn inner_scope_is_independent_of_the_outer() {
    let mut outer = SwitchHelper.call(&[text("page5")]).unwrap();
    let outer_case = outer.case;
    assert_eq!(outer_case.call(Some(&mut outer.block), &[text("page5")]), Action::Render);

    let mut inner = SwitchHelper.call(&[number(4)]).unwrap();
    let inner_case = inner.case;
    assert!(!read_flag(&inner.block));
    assert_eq!(inner_case.call(Some(&mut inner.block), &[number(3)]), Action::Skip);
    assert_eq!(inner.default.call(Some(&inner.block)), Action::Render);
    assert!(read_flag(&outer.block));
    assert!(!read_flag(&inner.block));

    assert_eq!(outer.default.call(Some(&outer.block)), Action::Skip);
}

#[test]
fn inner_match_leaves_the_outer_flag_down() {
    let outer = SwitchHelper.call(&[text("a")]).unwrap();
    let mut inner = SwitchHelper.call(&[text("b")]).unwrap();
    let inner_case = inner.case;
    assert_eq!(inner_case.call(Some(&mut inner.block), &[text("b")]), Action::Render);
    assert!(read_flag(&inner.block));
    assert!(!read_flag(&outer.block));
    assert_eq!(outer.default.call(Some(&outer.block)), Action::Render);
}

#[test]
fn helpers_can_be_copied() {
    let case = CaseHelper::new(text("x"));
    let copy = case.clone();
    assert_eq!(copy.expression_value(), case.expression_value());
    let switch = SwitchHelper;
    let again = switch;
    assert!(again.call(&[]).is_err());
    assert!(switch.call(&[text("x")]).is_ok());
    let default = DefaultHelper;
    let twin = default;
    assert_eq!(twin.call(None), default.call(None));
}
