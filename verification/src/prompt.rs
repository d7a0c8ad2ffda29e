//! The prompted inference generator: builds a constrained prompt around the
//! caller's question, invokes an injected text-inference capability, and
//! normalizes the raw model output by trimming whitespace and repeatedly
//! stripping the fixed marker prefix the prompt asks the model to emit.
use vstd::prelude::*;
use vstd::string::StrSliceExecFns;
use vstd::string::StringExecFns;
use crate::generator::AnswerGenerator;
use crate::generator::InferenceFailure;

verus! {

/// A blank character for the purpose of trimming model output.
pub open spec fn is_blank(c: char) -> bool {
    c == ' ' || c == '\t' || c == '\n' || c == '\r'
}

/// `s` without its leading blanks.
pub open spec fn trim_front(s: Seq<char>) -> Seq<char>
    decreases s.len(),
{
    if s.len() > 0 && is_blank(s[0]) {
        trim_front(s.drop_first())
    } else {
        s
    }
}

/// `s` without its trailing blanks.
pub open spec fn trim_back(s: Seq<char>) -> Seq<char>
    decreases s.len(),
{
    if s.len() > 0 && is_blank(s.last()) {
        trim_back(s.drop_last())
    } else {
        s
    }
}

/// `s` without leading and trailing blanks.
pub open spec fn trimmed(s: Seq<char>) -> Seq<char> {
    trim_back(trim_front(s))
}

proof fn lemma_trim_front_len(s: Seq<char>)
    ensures
        trim_front(s).len() <= s.len(),
    decreases s.len(),
{
    if s.len() > 0 && is_blank(s[0]) {
        lemma_trim_front_len(s.drop_first());
    }
}

proof fn lemma_trim_back_len(s: Seq<char>)
    ensures
        trim_back(s).len() <= s.len(),
    decreases s.len(),
{
    if s.len() > 0 && is_blank(s.last()) {
        lemma_trim_back_len(s.drop_last());
    }
}

/// Trimming never lengthens a text.
pub proof fn lemma_trimmed_len(s: Seq<char>)
    ensures
        trimmed(s).len() <= s.len(),
{
    lemma_trim_front_len(s);
    lemma_trim_back_len(trim_front(s));
}

/// When the first `a` characters are blank and the one after them (if any)
/// is not, trimming the front is skipping those `a` characters.
proof fn lemma_trim_front_is_skip(s: Seq<char>, a: int)
    requires
        0 <= a <= s.len(),
        forall|j: int| 0 <= j < a ==> is_blank(s[j]),
        a < s.len() ==> !is_blank(s[a]),
    ensures
        trim_front(s) == s.skip(a),
    decreases a,
{
    if a == 0 {
        assert(s.skip(0) =~= s);
    } else {
        lemma_trim_front_is_skip(s.drop_first(), a - 1);
        assert(s.drop_first().skip(a - 1) =~= s.skip(a));
    }
}

/// When the characters from `b` on are blank and the one before them (if
/// any) is not, trimming the back is keeping the first `b` characters.
proof fn lemma_trim_back_is_take(s: Seq<char>, b: int)
    requires
        0 <= b <= s.len(),
        forall|j: int| b <= j < s.len() ==> is_blank(s[j]),
        b > 0 ==> !is_blank(s[b - 1]),
    ensures
        trim_back(s) == s.take(b),
    decreases s.len() - b,
{
    if b == s.len() {
        assert(s.take(b) =~= s);
    } else {
        lemma_trim_back_is_take(s.drop_last(), b);
        assert(s.drop_last().take(b) =~= s.take(b));
    }
}

/// Whether `c` is a blank for trimming.
pub fn is_blank_char(c: char) -> (r: bool)
    ensures
        r == is_blank(c),
{
    c == ' ' || c == '\t' || c == '\n' || c == '\r'
}

/// `s` without leading and trailing blanks, as an owned string.
pub fn trim_text(s: &str) -> (r: String)
    ensures
        r@ == trimmed(s@),
{
    let len = s.unicode_len();
    let mut a: usize = 0;
    while a < len && is_blank_char(s.get_char(a))
        invariant
            a <= len,
            len == s@.len(),
            forall|j: int| 0 <= j < a ==> is_blank(s@[j]),
        decreases len - a,
    {
        a = a + 1;
    }
    proof {
        lemma_trim_front_is_skip(s@, a as int);
    }
    if a == len {
        proof {
            assert(s@.skip(a as int) =~= Seq::<char>::empty());
            assert(trim_back(Seq::<char>::empty()) =~= Seq::<char>::empty());
        }
        return String::new();
    }
    let mut b: usize = len;
    while b > a && is_blank_char(s.get_char(b - 1))
        invariant
            a <= b <= len,
            len == s@.len(),
            forall|j: int| b <= j < len ==> is_blank(s@[j]),
        decreases b,
    {
        b = b - 1;
    }
    proof {
        let tail = s@.skip(a as int);
        lemma_trim_back_is_take(tail, b - a);
        assert(tail.take(b - a) =~= s@.subrange(a as int, b as int));
    }
    s.substring_char(a, b).to_owned()
}

/// The marker the prompt asks the model to prefix its reply with.
pub open spec fn marker() -> Seq<char> {
    seq!['A', 'n', 's', 'w', 'e', 'r', ':']
}

/// Whether `s` starts with the marker.
pub open spec fn has_marker(s: Seq<char>) -> bool {
    s.len() >= 7 && s.take(7) == marker()
}

/// The text after every round of stripping the marker prefix and trimming
/// again, as the raw output of a model that repeats the marker needs.
pub open spec fn stripped(s: Seq<char>) -> Seq<char>
    decreases s.len(),
        via stripped_decreases
{
    if has_marker(s) {
        stripped(trimmed(s.skip(7)))
    } else {
        s
    }
}

#[via_fn]
proof fn stripped_decreases(s: Seq<char>) {
    if has_marker(s) {
        lemma_trimmed_len(s.skip(7));
    }
}

/// The fully post-processed model output: trimmed, then the marker prefix
/// stripped and trimmed again as often as it recurs.
pub open spec fn cleaned(s: Seq<char>) -> Seq<char> {
    stripped(trimmed(s))
}

/// Whether `s` starts with the marker.
pub fn starts_with_marker(s: &str) -> (r: bool)
    ensures
        r == has_marker(s@),
{
    let len = s.unicode_len();
    if len < 7 {
        return false;
    }
    let head = s.substring_char(0, 7).to_owned();
    let mark = "Answer:";
    proof {
        reveal_strlit("Answer:");
        assert(mark@ =~= marker());
        assert(s@.subrange(0, 7) =~= s@.take(7));
    }
    head == mark.to_owned()
}

/// Post-process raw model output: trim blanks, then repeatedly strip the
/// marker prefix and trim again. A marker embedded mid-text is left alone.
pub fn clean_answer(raw: &str) -> (r: String)
    ensures
        r@ == cleaned(raw@),
{
    let mut cur: String = trim_text(raw);
    while starts_with_marker(cur.as_str())
        invariant
            stripped(cur@) == cleaned(raw@),
        decreases cur@.len(),
    {
        let len = cur.as_str().unicode_len();
        let rest = cur.as_str().substring_char(7, len).to_owned();
        proof {
            assert(cur@.subrange(7, cur@.len() as int) =~= cur@.skip(7));
            lemma_trimmed_len(cur@.skip(7));
        }
        cur = trim_text(rest.as_str());
    }
    cur
}

/// The question as it is put to the model: ending in a question mark.
pub open spec fn normalized(q: Seq<char>) -> Seq<char> {
    if q.len() > 0 && q.last() == '?' {
        q
    } else {
        q.push('?')
    }
}

/// Append a question mark unless the question already ends with one.
pub fn normalize_question(q: &str) -> (r: String)
    ensures
        r@ == normalized(q@),
{
    let len = q.unicode_len();
    if len > 0 && q.get_char(len - 1) == '?' {
        q.to_owned()
    } else {
        let mut s = q.to_owned();
        s.append("?");
        proof {
            reveal_strlit("?");
            assert(s@ =~= q@.push('?'));
        }
        s
    }
}

/// The constrained prompt around a (normalized) question: the system
/// instruction fixes the persona, the marker prefix, the ten-word bound, the
/// redirect for questions that are not yes/no, and forbids fabricating a
/// further user turn; the question follows as the one user turn.
pub open spec fn prompt_text(q: Seq<char>) -> Seq<char> {
    "<<SYS>>You are acting as an omniscient Magic 8 Ball that answers users' yes or no questions.<</SYS>>\n[INST]Answer the question that follows the 'User:' prompt with a short response. Prefix your response with 'Answer:'. If the question is not a yes or no question, reply with 'I can only answer yes or no questions'. Your tone should be expressive yet polite. Always restrict your answers to 10 words or less. NEVER continue a prompt by generating a user question.[/INST]\nUser: "@
        + q
}

/// Build the full prompt for `question`, normalizing it first. An absent
/// question is put to the model as a bare question mark.
pub fn build_prompt(question: &str) -> (r: String)
    ensures
        r@ == prompt_text(normalized(question@)),
{
    let nq = normalize_question(question);
    let pre =
        "<<SYS>>You are acting as an omniscient Magic 8 Ball that answers users' yes or no questions.<</SYS>>\n[INST]Answer the question that follows the 'User:' prompt with a short response. Prefix your response with 'Answer:'. If the question is not a yes or no question, reply with 'I can only answer yes or no questions'. Your tone should be expressive yet polite. Always restrict your answers to 10 words or less. NEVER continue a prompt by generating a user question.[/INST]\nUser: ";
    pre.to_owned().concat(nq.as_str())
}

/// A text-inference capability: runs a prompt and returns the raw model
/// output. An implementation applies its own fixed, bounded sampling
/// parameters; nothing is promised of the text that comes back, but each
/// call is recorded in `prompts_seen`, so a caller can state exactly what it
/// put to the model and how often.
pub trait Inference: Sized {
    /// Whether inference may signal `InferenceFailure`. The default claims
    /// nothing: any call may fail.
    open spec fn may_fail(&self) -> bool {
        true
    }

    /// Whether every call of this capability fails. The default claims
    /// nothing of the kind.
    open spec fn always_fails(&self) -> bool {
        false
    }

    /// The prompts this capability has been invoked with, oldest first. The
    /// default, for capabilities that do not record them, holds nothing.
    open spec fn prompts_seen(&self) -> Seq<Seq<char>> {
        Seq::empty()
    }

    /// Run inference on `prompt` and return the raw output text.
    fn infer(&mut self, prompt: &str) -> (r: Result<String, InferenceFailure>)
        ensures
            final(self).may_fail() == old(self).may_fail(),
            final(self).always_fails() == old(self).always_fails(),
            final(self).prompts_seen() == old(self).prompts_seen().push(prompt@),
            r is Err ==> old(self).may_fail(),
            old(self).always_fails() ==> r is Err,
    ;
}

/// A scripted inference capability that replies with one fixed text, for
/// deterministic exercise of the prompted generator.
pub struct FixedInference {
    /// The raw output every call returns.
    pub reply: String,
    /// The prompts put to this capability so far.
    pub seen: Ghost<Seq<Seq<char>>>,
}

impl FixedInference {
    /// A capability whose every call returns `reply`.
    pub fn new(reply: String) -> (r: Self)
        ensures
            r.reply == reply,
            r.prompts_seen() == Seq::<Seq<char>>::empty(),
    {
        FixedInference { reply, seen: Ghost(Seq::empty()) }
    }
}

impl Inference for FixedInference {
    open spec fn may_fail(&self) -> bool {
        false
    }

    open spec fn prompts_seen(&self) -> Seq<Seq<char>> {
        self.seen@
    }

    fn infer(&mut self, prompt: &str) -> (r: Result<String, InferenceFailure>) {
        self.seen = Ghost(self.seen@.push(prompt@));
        Ok(self.reply.clone())
    }
}

/// A scripted inference capability that always signals a transport failure.
pub struct FailingInference {
    /// The prompts put to this capability so far.
    pub seen: Ghost<Seq<Seq<char>>>,
}

impl FailingInference {
    /// A capability whose every call fails.
    pub fn new() -> (r: Self)
        ensures
            r.prompts_seen() == Seq::<Seq<char>>::empty(),
    {
        FailingInference { seen: Ghost(Seq::empty()) }
    }
}

impl Inference for FailingInference {
    open spec fn may_fail(&self) -> bool {
        true
    }

    open spec fn always_fails(&self) -> bool {
        true
    }

    open spec fn prompts_seen(&self) -> Seq<Seq<char>> {
        self.seen@
    }

    fn infer(&mut self, prompt: &str) -> (r: Result<String, InferenceFailure>) {
        self.seen = Ghost(self.seen@.push(prompt@));
        Err(InferenceFailure)
    }
}

/// Answers by prompting a text-inference capability and post-processing the
/// raw output. A transport or model failure propagates; no default answer is
/// ever substituted for one.
pub struct PromptedInferenceGenerator<I: Inference> {
    /// The injected inference capability.
    pub engine: I,
}

impl<I: Inference> PromptedInferenceGenerator<I> {
    /// A generator over the given inference capability.
    pub fn new(engine: I) -> (r: Self)
        ensures
            r.engine == engine,
    {
        PromptedInferenceGenerator { engine }
    }

    /// Put `question` to the model: invoke the capability exactly once, with
    /// exactly the constrained prompt around the normalized question, and
    /// return the post-processed output. A transport or model failure
    /// propagates unchanged; no default answer is substituted.
    pub fn ask(&mut self, question: &str) -> (r: Result<String, InferenceFailure>)
        ensures
            final(self).engine.prompts_seen() == old(self).engine.prompts_seen().push(
                prompt_text(normalized(question@)),
            ),
            final(self).engine.may_fail() == old(self).engine.may_fail(),
            final(self).engine.always_fails() == old(self).engine.always_fails(),
            r matches Ok(a) ==> exists|t: Seq<char>| a@ == #[trigger] cleaned(t),
            r is Err ==> old(self).engine.may_fail(),
            old(self).engine.always_fails() ==> r is Err,
    {
        let prompt = build_prompt(question);
        match self.engine.infer(prompt.as_str()) {
            Ok(text) => {
                let answer = clean_answer(text.as_str());
                proof {
                    assert(answer@ == cleaned(text@));
                }
                Ok(answer)
            },
            Err(e) => Err(e),
        }
    }
}

impl<I: Inference> AnswerGenerator for PromptedInferenceGenerator<I> {
    open spec fn may_fail(&self) -> bool {
        self.engine.may_fail()
    }

    open spec fn always_fails(&self) -> bool {
        self.engine.always_fails()
    }

    /// Every answer is post-processed model output: trimmed, with no marker
    /// prefix left.
    open spec fn admissible_answer(&self, a: Seq<char>) -> bool {
        exists|t: Seq<char>| a == #[trigger] cleaned(t)
    }

    fn generate(&mut self, question: Option<&str>) -> (r: Result<String, InferenceFailure>) {
        match question {
            Some(q) => self.ask(q),
            None => self.ask(""),
        }
    }
}

} // verus!
