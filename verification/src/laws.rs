//! The guarantees of the cache policy, stated as proof functions over
//! `resolve_post`, the relation that `OracleCache::resolve` establishes
//! between the store's contents before and after a call and the returned
//! answer.
use vstd::prelude::*;
use crate::cache::ResolveError;
use crate::cache::resolve_post;
use crate::placeholder;

verus! {

/// Once a resolution has returned a non-placeholder answer, a second
/// resolution of the same question, with no store change in between, returns
/// that answer unchanged and leaves the store untouched: the cache is
/// idempotent once a real answer has landed.
pub proof fn lemma_resolved_answer_is_stable(
    pre: Map<Seq<char>, Seq<char>>,
    q: Seq<char>,
    a: Seq<char>,
    mid: Map<Seq<char>, Seq<char>>,
    r2: Result<Seq<char>, ResolveError>,
    post: Map<Seq<char>, Seq<char>>,
)
    requires
        resolve_post(pre, q, Ok(a), mid),
        a != placeholder(),
        resolve_post(mid, q, r2, post),
        r2 is Ok,
    ensures
        r2 == Result::<Seq<char>, ResolveError>::Ok(a),
        post == mid,
{
    assert(mid.contains_key(q) && mid[q] == a);
}

/// A stored placeholder is never authoritative: resolving a question whose
/// stored answer is the placeholder overwrites the entry with the freshly
/// generated answer and returns that answer. The fresh answer may itself be
/// the placeholder again, in which case a later resolution re-rolls once
/// more.
pub proof fn lemma_placeholder_is_rerolled(
    pre: Map<Seq<char>, Seq<char>>,
    q: Seq<char>,
    a: Seq<char>,
    post: Map<Seq<char>, Seq<char>>,
)
    requires
        pre.contains_key(q),
        pre[q] == placeholder(),
        resolve_post(pre, q, Ok(a), post),
    ensures
        post == pre.insert(q, a),
        post.contains_key(q),
        post[q] == a,
{
}

/// Resolving a question with no stored entry persists the one generated
/// answer under that question, and that answer is what is returned; no other
/// entry is touched.
pub proof fn lemma_absence_generates_and_persists(
    pre: Map<Seq<char>, Seq<char>>,
    q: Seq<char>,
    a: Seq<char>,
    post: Map<Seq<char>, Seq<char>>,
)
    requires
        !pre.contains_key(q),
        resolve_post(pre, q, Ok(a), post),
    ensures
        post == pre.insert(q, a),
        post[q] == a,
        forall|k: Seq<char>| k != q && pre.contains_key(k) ==> post.contains_key(k) && post[k]
            == pre[k],
{
}

/// A successful resolution never returns an answer whose write failed: every
/// returned answer is either the authoritative entry the store already held,
/// or is the stored entry for the question when the call returns. Failure
/// propagation itself is stated on `resolve`: a store whose lookups fail
/// forces `Err(StoreFailure)` with nothing generated or written, a store
/// whose writes fail withholds every freshly generated answer the same way,
/// a generator that always fails forces `Err(InferenceFailure)` wherever
/// generation is needed, and an error is returned only when a component may
/// fail at all.
pub proof fn lemma_success_implies_persisted(
    pre: Map<Seq<char>, Seq<char>>,
    q: Seq<char>,
    a: Seq<char>,
    post: Map<Seq<char>, Seq<char>>,
)
    requires
        resolve_post(pre, q, Ok(a), post),
    ensures
        post.contains_key(q),
        post[q] == a,
        (pre.contains_key(q) && pre[q] != placeholder() && a == pre[q] && post == pre) || post
            == pre.insert(q, a),
{
    if pre.contains_key(q) && pre[q] != placeholder() {
        assert(post[q] == a);
    }
}

} // verus!
