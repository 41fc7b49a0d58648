//! The block scope of the host engine, and the match flag that a switch
//! keeps in it.

use vstd::prelude::*;
use handlebars::BlockContext;
use serde_json::Value;
use crate::json::{bool_value, json_bool};

verus! {

/// `handlebars::BlockContext`, of which nothing is known here but what the
/// items below state of its local variables.
#[verifier::external_type_specification]
#[verifier::external_body]
pub struct ExBlockContext<'reg>(handlebars::BlockContext<'reg>);

/// The local variables of a block, by the names they are stored under.
pub uninterp spec fn local_vars(block: BlockContext<'_>) -> Map<Seq<char>, Value>;

/// `BlockContext::new`. Not proved: a new block has no local variables.
pub assume_specification<'reg>[ BlockContext::<'reg>::new ]() -> (block: BlockContext<'reg>)
    ensures
        local_vars(block) == (Map::<Seq<char>, Value>::empty()),
;

/// `BlockContext::set_local_var`. Not proved: the value is stored under
/// `name` as it is written, and no other variable changes.
pub assume_specification<'reg>[ BlockContext::<'reg>::set_local_var ](
    block: &mut BlockContext<'reg>,
    name: String,
    value: Value,
)
    ensures
        local_vars(*final(block)) == local_vars(*old(block)).insert(name@, value),
;

/// `BlockContext::get_local_var`. Not proved: the variable is looked up
/// under `@` followed by `name`.
pub assume_specification<'reg, 'a, 'b>[ BlockContext::<'reg>::get_local_var ](
    block: &'a BlockContext<'reg>,
    name: &'b str,
) -> (found: Option<&'a Value>)
    ensures
        found is Some <==> local_vars(*block).contains_key(seq!['@'] + name@),
        found matches Some(value) ==> *value == local_vars(*block)[seq!['@'] + name@],
;

/// The name under which a switch stores its match flag.
pub open spec fn flag_key() -> Seq<char> {
    "@match"@
}

/// The match flag of a block: up when the block holds the boolean `true`
/// under `@match`, down in every other case.
pub open spec fn match_flag(block: BlockContext<'_>) -> bool {
    local_vars(block).contains_key(flag_key()) && json_bool(local_vars(block)[flag_key()])
        == Some(true)
}

/// Whether `after` is `before` with the match flag stored anew as `flag`,
/// and every other local variable as it was.
pub open spec fn flag_stored(before: BlockContext<'_>, after: BlockContext<'_>, flag: bool) -> bool {
    &&& local_vars(after).contains_key(flag_key())
    &&& json_bool(local_vars(after)[flag_key()]) == Some(flag)
    &&& local_vars(after) == local_vars(before).insert(flag_key(), local_vars(after)[flag_key()])
}

/// Reads the match flag of a block.
pub fn read_flag(block: &BlockContext<'_>) -> (flag: bool)
    ensures
        flag == match_flag(*block),
{
    proof {
        reveal_strlit("match");
        reveal_strlit("@match");
        assert(seq!['@'] + "match"@ =~= "@match"@);
    }
    match block.get_local_var("match") {
        Some(value) => match value.as_bool() {
            Some(flag) => flag,
            None => false,
        },
        None => false,
    }
}

/// Stores `flag` as the match flag of a block.
pub fn store_flag(block: &mut BlockContext<'_>, flag: bool)
    ensures
        flag_stored(*old(block), *final(block), flag),
        match_flag(*final(block)) == flag,
{
    block.set_local_var("@match".to_string(), bool_value(flag));
}

} // verus!
