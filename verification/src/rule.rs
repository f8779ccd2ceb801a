//! Rules for texts that the parts of the runtime share, such as which names are safe.

use vstd::prelude::*;

verus! {

/// Whether the rule can be put to every text, and its answer depends on the text alone.
pub open spec fn is_rule<F: Fn(&str) -> bool>(rule: F) -> bool {
    &&& forall|s: &str| call_requires(rule, (s,))
    &&& forall|s: &str, t: &str, a: bool, b: bool|
        s@ == t@ && #[trigger] call_ensures(rule, (s,), a) && #[trigger] call_ensures(
            rule,
            (t,),
            b,
        ) ==> a == b
}

/// The texts that the rule accepts.
pub open spec fn accepted<F: Fn(&str) -> bool>(rule: F) -> spec_fn(Seq<char>) -> bool {
    |text: Seq<char>| exists|s: &str| s@ == text && #[trigger] call_ensures(rule, (s,), true)
}

/// A text is accepted exactly where the rule, put to it, says so.
pub proof fn law_rule_decides<F: Fn(&str) -> bool>(rule: F, s: &str, answer: bool)
    requires
        is_rule(rule),
        call_ensures(rule, (s,), answer),
    ensures
        accepted(rule)(s@) == answer,
{
}

} // verus!
