//! The oracle-answer cache: given a question, return the stored answer if one
//! exists and is authoritative, otherwise generate a fresh answer and persist
//! it. The one distinguished placeholder value is storable but never
//! authoritative on read: finding it triggers a fresh generation, exactly as
//! finding nothing does.
use vstd::prelude::*;
use crate::generator::AnswerGenerator;
use crate::generator::InferenceFailure;
use crate::placeholder;
use crate::store::AnswerStore;
use crate::store::Lookup;
use crate::store::StoreFailure;

verus! {

/// Why a resolution failed: the store signalled an error on get or set, or
/// the generator could not produce an answer. A failure is never masked by a
/// default answer.
#[derive(Debug, PartialEq, Eq)]
pub enum ResolveError {
    StoreFailure(StoreFailure),
    InferenceFailure(InferenceFailure),
}

/// The view of a resolution result: the answer as a character sequence.
pub open spec fn answer_view(r: Result<String, ResolveError>) -> Result<Seq<char>, ResolveError> {
    match r {
        Ok(a) => Ok(a@),
        Err(e) => Err(e),
    }
}

/// Whether `entries` holds an authoritative answer for `q`: one that is
/// present and is not the placeholder.
pub open spec fn authoritative(entries: Map<Seq<char>, Seq<char>>, q: Seq<char>) -> bool {
    entries.contains_key(q) && entries[q] != placeholder()
}

/// How one successful resolution of `q` relates the store's contents before
/// (`pre`) and after (`post`) the call to the returned answer: either the
/// store already held an authoritative (non-placeholder) answer, which is
/// returned with the store untouched, or a fresh answer was generated and is
/// now the stored entry for `q`. A failed resolution promises nothing of the
/// store's contents.
pub open spec fn resolve_post(
    pre: Map<Seq<char>, Seq<char>>,
    q: Seq<char>,
    r: Result<Seq<char>, ResolveError>,
    post: Map<Seq<char>, Seq<char>>,
) -> bool {
    match r {
        Ok(a) => if authoritative(pre, q) {
            a == pre[q] && post == pre
        } else {
            post == pre.insert(q, a)
        },
        Err(_) => true,
    }
}

/// The cache policy over an injected store and generator.
pub struct OracleCache<S: AnswerStore, G: AnswerGenerator> {
    /// The persistence backend.
    pub store: S,
    /// The answer-generation strategy.
    pub generator: G,
}

impl<S: AnswerStore, G: AnswerGenerator> OracleCache<S, G> {
    /// A cache over the given store and generator.
    pub fn new(store: S, generator: G) -> (r: Self)
        ensures
            r.store == store,
            r.generator == generator,
    {
        OracleCache { store, generator }
    }

    /// Generate a fresh answer for `question` and persist it; the answer is
    /// returned only if the write succeeded.
    fn generate_and_store(&mut self, question: &str) -> (r: Result<String, ResolveError>)
        requires
            question@.len() > 0,
        ensures
            final(self).store.may_fail() == old(self).store.may_fail(),
            final(self).store.always_fails_get() == old(self).store.always_fails_get(),
            final(self).store.always_fails_set() == old(self).store.always_fails_set(),
            final(self).generator.may_fail() == old(self).generator.may_fail(),
            final(self).generator.always_fails() == old(self).generator.always_fails(),
            match answer_view(r) {
                Ok(a) => final(self).store.entries() == old(self).store.entries().insert(
                    question@,
                    a,
                ) && old(self).generator.admissible_answer(a),
                Err(_) => old(self).store.may_fail() || old(self).generator.may_fail(),
            },
            r matches Err(ResolveError::InferenceFailure(_)) ==> final(self).store.entries()
                == old(self).store.entries(),
            !old(self).store.may_fail() && !old(self).generator.may_fail() ==> r is Ok,
            old(self).generator.always_fails() ==> r matches Err(
                ResolveError::InferenceFailure(_),
            ),
            old(self).store.always_fails_set() ==> r is Err,
            old(self).store.always_fails_set() && !old(self).generator.may_fail() ==> r matches Err(
                ResolveError::StoreFailure(_),
            ),
    {
        match self.generator.generate(Some(question)) {
            Err(e) => Err(ResolveError::InferenceFailure(e)),
            Ok(answer) => match self.store.set(question, answer.as_str()) {
                Ok(()) => Ok(answer),
                Err(f) => Err(ResolveError::StoreFailure(f)),
            },
        }
    }

    /// Resolve `question`: look it up; propagate a store failure; return a
    /// stored non-placeholder answer unchanged; on a stored placeholder or on
    /// absence, generate one fresh answer, persist it, and return it only if
    /// the write succeeded. Exactly one lookup and at most one generation and
    /// one write happen per call.
    pub fn resolve(&mut self, question: &str) -> (r: Result<String, ResolveError>)
        requires
            question@.len() > 0,
        ensures
            final(self).store.may_fail() == old(self).store.may_fail(),
            final(self).store.always_fails_get() == old(self).store.always_fails_get(),
            final(self).store.always_fails_set() == old(self).store.always_fails_set(),
            final(self).generator.may_fail() == old(self).generator.may_fail(),
            final(self).generator.always_fails() == old(self).generator.always_fails(),
            resolve_post(
                old(self).store.entries(),
                question@,
                answer_view(r),
                final(self).store.entries(),
            ),
            // a generated answer is one the generator admits
            answer_view(r) matches Ok(a) ==> authoritative(old(self).store.entries(), question@)
                || old(self).generator.admissible_answer(a),
            r is Err ==> old(self).store.may_fail() || old(self).generator.may_fail(),
            r matches Err(ResolveError::InferenceFailure(_)) ==> final(self).store.entries()
                == old(self).store.entries(),
            !old(self).store.may_fail() && !old(self).generator.may_fail() ==> r is Ok,
            // failure propagation: a store whose lookups fail makes every
            // resolution fail, with nothing generated and nothing written
            old(self).store.always_fails_get() ==> (r matches Err(ResolveError::StoreFailure(_)))
                && final(self).store.entries() == old(self).store.entries() && final(self).generator
                == old(self).generator,
            // an authoritative hit needs no write: a reliable store answers it
            !old(self).store.may_fail() && authoritative(old(self).store.entries(), question@)
                ==> r is Ok,
            // a generator that always fails fails every resolution that needs it
            !old(self).store.may_fail() && !authoritative(old(self).store.entries(), question@)
                && old(self).generator.always_fails() ==> r matches Err(
                ResolveError::InferenceFailure(_),
            ),
            // a store whose writes fail withholds every freshly generated answer
            old(self).store.always_fails_set() && !old(self).generator.may_fail()
                && !authoritative(old(self).store.entries(), question@) ==> r matches Err(
                ResolveError::StoreFailure(_),
            ),
    {
        match self.store.get(question) {
            Lookup::Failed(f) => Err(ResolveError::StoreFailure(f)),
            Lookup::NotFound => self.generate_and_store(question),
            Lookup::Found(value) => {
                let ph = crate::placeholder_text();
                if value == ph {
                    self.generate_and_store(question)
                } else {
                    Ok(value)
                }
            },
        }
    }
}

} // verus!
