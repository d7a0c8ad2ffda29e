//! Answer generators: the pluggable strategies that produce a fresh answer
//! for a question. The enumerated generator draws uniformly from a fixed
//! candidate list through an injectable random source; stub generators give
//! deterministic or failing behaviour for callers that need it.
use vstd::prelude::*;
use crate::placeholder;
use crate::placeholder_text;

verus! {

/// A transport or model failure while generating an answer.
#[derive(Clone, Copy, PartialEq, Eq, Structural, Debug)]
pub struct InferenceFailure;

/// Produces an answer for an optional question. A generator holds no answer
/// state across calls; only its randomness or transport may advance.
pub trait AnswerGenerator: Sized {
    /// Whether generation may signal `InferenceFailure`. The default claims
    /// nothing: any call may fail.
    open spec fn may_fail(&self) -> bool {
        true
    }

    /// Whether every call of this generator fails. The default claims
    /// nothing of the kind.
    open spec fn always_fails(&self) -> bool {
        false
    }

    /// Which answers this generator can produce: the enumerated generator
    /// only members of its candidate list, a stub only its fixed answer. The
    /// default admits any answer.
    open spec fn admissible_answer(&self, a: Seq<char>) -> bool {
        true
    }

    /// Produce one answer, always one the generator admits. Questions are
    /// never empty (an empty input is rejected before any generator is
    /// reached).
    fn generate(&mut self, question: Option<&str>) -> (r: Result<String, InferenceFailure>)
        requires
            match question {
                Some(q) => q@.len() > 0,
                None => true,
            },
        ensures
            final(self).may_fail() == old(self).may_fail(),
            final(self).always_fails() == old(self).always_fails(),
            forall|a: Seq<char>|
                #[trigger] final(self).admissible_answer(a) == old(self).admissible_answer(a),
            r is Err ==> old(self).may_fail(),
            old(self).always_fails() ==> r is Err,
            r matches Ok(a) ==> old(self).admissible_answer(a@),
    ;
}

/// A source of random bytes. Nothing is promised of the bytes drawn, so an
/// implementation may be a real generator or a scripted one.
pub trait RandomSource: Sized {
    /// Draw the next byte.
    fn next_byte(&mut self) -> u8;
}

/// Relies on rand::random::<u8>: draws one byte from the thread-local
/// generator. Nothing is stated of the value; a single draw promises nothing.
#[verifier::external_body]
fn random_byte() -> u8 {
    rand::random::<u8>()
}

/// The process-wide random source.
pub struct SystemRandom;

impl RandomSource for SystemRandom {
    fn next_byte(&mut self) -> u8 {
        random_byte()
    }
}

/// A scripted random source that cycles through a fixed byte sequence, for
/// deterministic branch selection.
pub struct CycleRandom {
    /// The bytes handed out, in order, repeating from the start; when empty,
    /// every draw is zero.
    pub bytes: Vec<u8>,
    /// The position of the next byte to hand out.
    pub at: usize,
}

impl CycleRandom {
    /// A source that repeats `bytes` forever.
    pub fn new(bytes: Vec<u8>) -> (r: Self) {
        CycleRandom { bytes, at: 0 }
    }
}

impl RandomSource for CycleRandom {
    fn next_byte(&mut self) -> u8 {
        if self.bytes.len() == 0 {
            return 0;
        }
        let i = self.at % self.bytes.len();
        let b = self.bytes[i];
        self.at = (i + 1) % self.bytes.len();
        b
    }
}

/// The bucket a full-range byte falls into when `0..256` is split into `len`
/// equal parts: an index below `len`, and equally likely for each index up to
/// the rounding of `256 / len`.
pub open spec fn byte_bucket(x: u8, len: nat) -> int {
    (x as int) * (len as int) / 256
}

/// Split the full byte range into `len` equal buckets and return the bucket
/// `x` falls into.
pub fn pick_index(x: u8, len: usize) -> (r: usize)
    requires
        0 < len <= 256,
    ensures
        r == byte_bucket(x, len as nat),
        r < len,
{
    proof {
        assert(0 <= (x as int) * (len as int) <= 255 * 256 && (x as int) * (len as int) < 256 * (
        len as int)) by (nonlinear_arith)
            requires
                x <= 255,
                0 < len <= 256,
        ;
        assert(((x as int) * (len as int)) / 256 < len) by (nonlinear_arith)
            requires
                0 <= (x as int) * (len as int) < 256 * (len as int),
        ;
    }
    (x as usize) * len / 256
}

/// Draws uniformly from a fixed, ordered list of candidate answers.
pub struct EnumeratedRandomGenerator<R: RandomSource> {
    answers: Vec<String>,
    rng: R,
}

impl<R: RandomSource> EnumeratedRandomGenerator<R> {
    /// The candidate answers, in order.
    pub closed spec fn candidates(&self) -> Seq<Seq<char>> {
        self.answers@.map(|i: int, s: String| s@)
    }

    /// A generator drawing from `answers` with the source `rng`. The list is
    /// bounded by the range of one random byte.
    pub fn new(answers: Vec<String>, rng: R) -> (r: Self)
        requires
            0 < answers@.len() <= 256,
        ensures
            r.candidates() == answers@.map(|i: int, s: String| s@),
    {
        EnumeratedRandomGenerator { answers, rng }
    }

    /// A generator over the classic candidate list: the placeholder and three
    /// definite answers.
    pub fn with_standard_answers(rng: R) -> (r: Self)
        ensures
            r.candidates().len() == 4,
            r.candidates()[0] == placeholder(),
            r.candidates()[1] == "Absolutely!"@,
            r.candidates()[2] == "Unlikely"@,
            r.candidates()[3] == "Simply put, no"@,
    {
        let mut answers: Vec<String> = Vec::new();
        answers.push(placeholder_text());
        answers.push("Absolutely!".to_owned());
        answers.push("Unlikely".to_owned());
        answers.push("Simply put, no".to_owned());
        let r = EnumeratedRandomGenerator { answers, rng };
        proof {
            assert(r.candidates() =~= seq![
                placeholder(),
                "Absolutely!"@,
                "Unlikely"@,
                "Simply put, no"@,
            ]);
        }
        r
    }

    /// Draw one answer: one uniform byte, bucketed over the candidate list.
    pub fn draw(&mut self) -> (r: String)
        requires
            0 < old(self).candidates().len() <= 256,
        ensures
            final(self).candidates() == old(self).candidates(),
            old(self).candidates().contains(r@),
    {
        let x = self.rng.next_byte();
        let idx = pick_index(x, self.answers.len());
        let r = self.answers[idx].clone();
        proof {
            assert(old(self).candidates()[idx as int] == r@);
        }
        r
    }
}

impl<R: RandomSource> AnswerGenerator for EnumeratedRandomGenerator<R> {
    /// Drawing from the list cannot fail; a list outside the range of one
    /// random byte cannot be constructed.
    open spec fn may_fail(&self) -> bool {
        !(0 < self.candidates().len() <= 256)
    }

    /// Every answer is a member of the candidate list.
    open spec fn admissible_answer(&self, a: Seq<char>) -> bool {
        self.candidates().contains(a)
    }

    fn generate(&mut self, question: Option<&str>) -> (r: Result<String, InferenceFailure>) {
        let len = self.answers.len();
        if len == 0 || len > 256 {
            Err(InferenceFailure)
        } else {
            Ok(self.draw())
        }
    }
}

/// A stub generator that always returns one fixed answer.
pub struct FixedAnswerGenerator {
    /// The answer every call returns.
    pub answer: String,
}

impl FixedAnswerGenerator {
    /// A generator that always answers `answer`.
    pub fn new(answer: String) -> (r: Self)
        ensures
            r.answer == answer,
    {
        FixedAnswerGenerator { answer }
    }
}

impl AnswerGenerator for FixedAnswerGenerator {
    open spec fn may_fail(&self) -> bool {
        false
    }

    /// The one fixed answer is the only answer this stub can produce.
    open spec fn admissible_answer(&self, a: Seq<char>) -> bool {
        a == self.answer@
    }

    fn generate(&mut self, question: Option<&str>) -> (r: Result<String, InferenceFailure>) {
        Ok(self.answer.clone())
    }
}

/// A stub generator that always signals `InferenceFailure`.
pub struct FailingGenerator;

impl AnswerGenerator for FailingGenerator {
    open spec fn may_fail(&self) -> bool {
        true
    }

    open spec fn always_fails(&self) -> bool {
        true
    }

    /// This stub never produces an answer at all.
    open spec fn admissible_answer(&self, a: Seq<char>) -> bool {
        false
    }

    fn generate(&mut self, question: Option<&str>) -> (r: Result<String, InferenceFailure>) {
        Err(InferenceFailure)
    }
}

} // verus!
