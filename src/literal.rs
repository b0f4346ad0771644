//! The literal rewriter, and the store that holds the text of every literal.
use vstd::prelude::*;
use crate::tree::SimpleString;

verus! {

/// The quote character that the rewriter replaces.
pub const TARGET_QUOTE: char = '"';

/// The quote character that replaces it.
pub const SUBSTITUTE_QUOTE: char = '\'';

pub open spec fn swap_quote(c: char) -> char {
    if c == TARGET_QUOTE {
        SUBSTITUTE_QUOTE
    } else {
        c
    }
}

/// The text with every target quote replaced by the substitute quote, and
/// every other character kept, escapes included.
pub open spec fn requoted(s: Seq<char>) -> Seq<char> {
    s.map_values(|c: char| swap_quote(c))
}

/// `after` is the literal store `before` with the literals whose slots satisfy
/// `hit` requoted and every other literal left as it was.
pub open spec fn requoted_where(
    before: Seq<String>,
    after: Seq<String>,
    hit: spec_fn(int) -> bool,
) -> bool {
    &&& after.len() == before.len()
    &&& forall|k: int|
        0 <= k < before.len() ==> #[trigger] after[k]@ == (if hit(k) {
            requoted(before[k]@)
        } else {
            before[k]@
        })
}

pub proof fn lemma_requoted_idempotent(s: Seq<char>)
    ensures
        requoted(requoted(s)) == requoted(s),
{
    assert(requoted(requoted(s)) =~= requoted(s));
}

/// Requoting at the slots of `p`, then at those of `q`, is requoting at the
/// slots of either.
pub proof fn lemma_requoted_where_then(
    t0: Seq<String>,
    t1: Seq<String>,
    t2: Seq<String>,
    p: spec_fn(int) -> bool,
    q: spec_fn(int) -> bool,
)
    requires
        requoted_where(t0, t1, p),
        requoted_where(t1, t2, q),
    ensures
        requoted_where(t0, t2, |k: int| p(k) || q(k)),
{
    assert forall|k: int| 0 <= k < t0.len() implies #[trigger] t2[k]@ == (if p(k) || q(k) {
        requoted(t0[k]@)
    } else {
        t0[k]@
    }) by {
        assert(t1[k]@ == (if p(k) { requoted(t0[k]@) } else { t0[k]@ }));
        lemma_requoted_idempotent(t0[k]@);
    }
}

/// Relies on `String: FromIterator<&char>`, through `Iterator::collect`: the
/// collected string holds the characters in order.
#[verifier::external_body]
fn string_from_chars(chars: &Vec<char>) -> (r: String)
    ensures
        r@ == chars@,
{
    chars.iter().collect()
}

/// The text with every target quote replaced by the substitute quote.
pub fn requote(s: &str) -> (r: String)
    ensures
        r@ == requoted(s@),
{
    let mut out: Vec<char> = Vec::new();
    for c in it: s.chars()
        invariant
            it.seq() == s@,
            out@ == requoted(it.seq().take(it.index() as int)),
    {
        let d = if c == TARGET_QUOTE {
            SUBSTITUTE_QUOTE
        } else {
            c
        };
        assert(it.seq().take(it.index() as int + 1) == it.seq().take(it.index() as int).push(c));
        out.push(d);
        assert(out@ =~= requoted(it.seq().take(it.index() as int + 1)));
    }
    assert(s@.take(s@.len() as int) =~= s@);
    string_from_chars(&out)
}

/// Requotes the literal's entry in the store, if the store has that slot.
pub fn process_simple_string(string: &SimpleString, literals: &mut Vec<String>)
    ensures
        requoted_where(old(literals)@, final(literals)@, |k: int| k == string.slot),
{
    if string.slot < literals.len() {
        let replaced = requote(literals[string.slot].as_str());
        literals.set(string.slot, replaced);
    }
}

} // verus!
