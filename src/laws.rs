//! Properties of the rewrite as a whole, stated over the literal store before
//! and after `process_module` (whose contract is `requoted_where` over
//! `reaches_module`).
use vstd::prelude::*;
use crate::literal::{
    SUBSTITUTE_QUOTE, TARGET_QUOTE, lemma_requoted_idempotent, requoted, requoted_where,
};
use crate::reach::{reaches_expression, reaches_module};
use crate::tree::{Expression, Module};

verus! {

/// Rewriting a module a second time, on the store that the first rewrite left,
/// changes no literal.
pub proof fn lemma_rewrite_idempotent(
    module: Module,
    t0: Seq<String>,
    t1: Seq<String>,
    t2: Seq<String>,
)
    requires
        requoted_where(t0, t1, |k: int| reaches_module(module, k)),
        requoted_where(t1, t2, |k: int| reaches_module(module, k)),
    ensures
        t2.len() == t1.len(),
        forall|k: int| 0 <= k < t1.len() ==> #[trigger] t2[k]@ == t1[k]@,
{
    assert forall|k: int| 0 <= k < t1.len() implies #[trigger] t2[k]@ == t1[k]@ by {
        lemma_requoted_idempotent(t0[k]@);
    }
}

/// The rewrite changes nothing but target quotes inside reached literals: each
/// literal keeps its length, a changed character was a target quote and is now
/// the substitute quote, and a literal that is not reached is left as it was.
pub proof fn lemma_rewrite_local(module: Module, t0: Seq<String>, t1: Seq<String>)
    requires
        requoted_where(t0, t1, |k: int| reaches_module(module, k)),
    ensures
        t1.len() == t0.len(),
        forall|k: int| 0 <= k < t0.len() ==> #[trigger] t1[k]@.len() == t0[k]@.len(),
        forall|k: int, j: int|
            0 <= k < t0.len() && 0 <= j < t0[k]@.len() && #[trigger] t1[k]@[j] != t0[k]@[j]
                ==> t0[k]@[j] == TARGET_QUOTE && t1[k]@[j] == SUBSTITUTE_QUOTE,
        forall|k: int|
            0 <= k < t0.len() && !reaches_module(module, k) ==> #[trigger] t1[k]@ == t0[k]@,
{
}

/// Every literal that the dispatch reaches, however deep, is requoted.
pub proof fn lemma_reached_literal_requoted(
    module: Module,
    t0: Seq<String>,
    t1: Seq<String>,
    k: int,
)
    requires
        requoted_where(t0, t1, |k: int| reaches_module(module, k)),
        reaches_module(module, k),
        0 <= k < t0.len(),
    ensures
        t1[k]@ == requoted(t0[k]@),
{
}

/// An expression of a kind that the traversal does not enter (`Other`: a
/// lambda, a call, a comprehension, an f-string, ...) is left as it is:
/// processing it leaves every literal unchanged, those nested inside it
/// included.
pub proof fn lemma_other_expression_untouched(
    children: Vec<Expression>,
    t0: Seq<String>,
    t1: Seq<String>,
)
    requires
        requoted_where(t0, t1, |k: int| reaches_expression(Expression::Other(children), k)),
    ensures
        t1.len() == t0.len(),
        forall|k: int| 0 <= k < t0.len() ==> #[trigger] t1[k]@ == t0[k]@,
{
}

/// The rewriter does not read escapes: an escaped target quote becomes an
/// escaped substitute quote, the backslash kept.
pub proof fn lemma_requote_ignores_escapes(s: Seq<char>, j: int)
    requires
        0 <= j,
        j + 1 < s.len(),
        s[j] == '\\',
        s[j + 1] == TARGET_QUOTE,
    ensures
        requoted(s).len() == s.len(),
        requoted(s)[j] == '\\',
        requoted(s)[j + 1] == SUBSTITUTE_QUOTE,
{
}

} // verus!
