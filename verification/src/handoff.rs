//! The single text argument that carries two fields to the managed entry point.

use crate::render::{decimal, lemma_decimal_is_digits, lemma_decimal_is_injective, render_decimal};
use vstd::prelude::*;
use vstd::string::*;

verus! {

/// The type that holds the managed entry point.
pub const ENTRY_TYPE: &'static str = "ModelMod.Main";

/// The managed entry point method.
pub const ENTRY_METHOD: &'static str = "Main";

/// The character that separates the two fields of a handoff argument.
pub open spec fn delimiter() -> char {
    '|'
}

/// The handoff argument for a native state handle and a context tag: the
/// handle in base ten, the delimiter, the tag.
pub open spec fn handoff_argument(global_state: u64, context: Seq<char>) -> Seq<char> {
    decimal(global_state as nat) + seq![delimiter()] + context
}

/// Builds the handoff argument for `global_state` and `context`. The handle is
/// only rendered as a number, never read through.
pub fn build_handoff_argument(global_state: u64, context: &str) -> (argument: String)
    ensures
        argument@ == handoff_argument(global_state, context@),
{
    let mut argument = render_decimal(global_state);
    argument.append("|");
    argument.append(context);
    proof {
        reveal_strlit("|");
    }
    argument
}

/// The handle's text ends where the first delimiter stands, whatever the tag
/// holds: no digit is a delimiter.
pub proof fn lemma_first_delimiter(global_state: u64, context: Seq<char>)
    ensures
        decimal(global_state as nat).len() < handoff_argument(global_state, context).len(),
        handoff_argument(global_state, context)[decimal(global_state as nat).len() as int]
            == delimiter(),
        forall|i: int|
            0 <= i < decimal(global_state as nat).len() ==> #[trigger] handoff_argument(
                global_state,
                context,
            )[i] != delimiter(),
{
    lemma_decimal_is_digits(global_state as nat);
}

/// Both fields can be read back from a handoff argument: two arguments that
/// are equal were made of the same handle and the same tag.
pub proof fn law_handoff_fields_can_be_read_back(
    global_state: u64,
    context: Seq<char>,
    other_state: u64,
    other_context: Seq<char>,
)
    requires
        handoff_argument(global_state, context) == handoff_argument(other_state, other_context),
    ensures
        global_state == other_state,
        context == other_context,
{
    let argument = handoff_argument(global_state, context);
    let digits = decimal(global_state as nat);
    let other_digits = decimal(other_state as nat);
    lemma_first_delimiter(global_state, context);
    lemma_first_delimiter(other_state, other_context);
    assert(digits.len() == other_digits.len());
    assert(digits == argument.subrange(0, digits.len() as int));
    assert(other_digits == argument.subrange(0, digits.len() as int));
    lemma_decimal_is_injective(global_state as nat, other_state as nat);
    assert(context == argument.subrange(digits.len() as int + 1, argument.len() as int));
    assert(other_context == argument.subrange(digits.len() as int + 1, argument.len() as int));
}

} // verus!
