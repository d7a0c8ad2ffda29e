//! The request boundary: decode the question from the raw request body,
//! reject an empty question, resolve through the cache, and wrap the answer
//! as a JSON object. Answer text is escaped before interpolation, so the
//! body is well-formed JSON whatever the answer holds.
use vstd::prelude::*;
use vstd::string::StrSliceExecFns;
use vstd::string::StringExecFns;
use vstd::utf8::decode_utf8;
use vstd::utf8::valid_utf8;
use crate::cache::OracleCache;
use crate::cache::authoritative;
use crate::cache::resolve_post;
use crate::generator::AnswerGenerator;
use crate::store::AnswerStore;

verus! {

/// The hexadecimal digit for a nibble.
pub open spec fn hex_digit(d: int) -> char {
    if d == 0 {
        '0'
    } else if d == 1 {
        '1'
    } else if d == 2 {
        '2'
    } else if d == 3 {
        '3'
    } else if d == 4 {
        '4'
    } else if d == 5 {
        '5'
    } else if d == 6 {
        '6'
    } else if d == 7 {
        '7'
    } else if d == 8 {
        '8'
    } else if d == 9 {
        '9'
    } else if d == 10 {
        'a'
    } else if d == 11 {
        'b'
    } else if d == 12 {
        'c'
    } else if d == 13 {
        'd'
    } else if d == 14 {
        'e'
    } else {
        'f'
    }
}

/// How one character appears inside a JSON string: quotes and backslashes
/// are escaped, control characters become a `\u00..` escape, and every other
/// character stands as itself.
pub open spec fn escaped_char(c: char) -> Seq<char> {
    if c == '"' {
        seq!['\\', '"']
    } else if c == '\\' {
        seq!['\\', '\\']
    } else if (c as u32) < 32 {
        seq!['\\', 'u', '0', '0', hex_digit((c as u32) as int / 16), hex_digit(
            (c as u32) as int % 16,
        )]
    } else {
        seq![c]
    }
}

/// The text as it appears inside a JSON string literal.
pub open spec fn json_escaped(s: Seq<char>) -> Seq<char>
    decreases s.len(),
{
    if s.len() == 0 {
        Seq::empty()
    } else {
        escaped_char(s[0]) + json_escaped(s.drop_first())
    }
}

proof fn lemma_json_escaped_push(s: Seq<char>, c: char)
    ensures
        json_escaped(s.push(c)) == json_escaped(s) + escaped_char(c),
    decreases s.len(),
{
    if s.len() == 0 {
        assert(s.push(c)[0] == c);
        assert(s.push(c).drop_first() =~= Seq::<char>::empty());
        assert(escaped_char(c) + json_escaped(Seq::<char>::empty()) =~= escaped_char(c));
        assert(json_escaped(s) + escaped_char(c) =~= escaped_char(c));
    } else {
        assert(s.push(c)[0] == s[0]);
        assert(s.push(c).drop_first() =~= s.drop_first().push(c));
        lemma_json_escaped_push(s.drop_first(), c);
        assert(escaped_char(s[0]) + (json_escaped(s.drop_first()) + escaped_char(c)) =~= (
        escaped_char(s[0]) + json_escaped(s.drop_first())) + escaped_char(c));
    }
}

/// Relies on String::from_iter over characters: collects exactly the given
/// characters, in order, into a string.
#[verifier::external_body]
fn string_of_chars(chars: &Vec<char>) -> (r: String)
    ensures
        r@ == chars@,
{
    String::from_iter(chars.iter().copied())
}

/// The hexadecimal digit character for a nibble.
fn hex_digit_char(d: u32) -> (r: char)
    requires
        d < 16,
    ensures
        r == hex_digit(d as int),
{
    if d == 0 {
        '0'
    } else if d == 1 {
        '1'
    } else if d == 2 {
        '2'
    } else if d == 3 {
        '3'
    } else if d == 4 {
        '4'
    } else if d == 5 {
        '5'
    } else if d == 6 {
        '6'
    } else if d == 7 {
        '7'
    } else if d == 8 {
        '8'
    } else if d == 9 {
        '9'
    } else if d == 10 {
        'a'
    } else if d == 11 {
        'b'
    } else if d == 12 {
        'c'
    } else if d == 13 {
        'd'
    } else if d == 14 {
        'e'
    } else {
        'f'
    }
}

/// Escape `s` for interpolation into a JSON string literal.
pub fn json_escape(s: &str) -> (r: String)
    ensures
        r@ == json_escaped(s@),
{
    let len = s.unicode_len();
    let mut out: Vec<char> = Vec::new();
    let mut i: usize = 0;
    while i < len
        invariant
            i <= len,
            len == s@.len(),
            out@ == json_escaped(s@.take(i as int)),
        decreases len - i,
    {
        let c = s.get_char(i);
        proof {
            lemma_json_escaped_push(s@.take(i as int), c);
            assert(s@.take(i as int).push(c) =~= s@.take(i as int + 1));
        }
        if c == '"' {
            out.push('\\');
            out.push('"');
        } else if c == '\\' {
            out.push('\\');
            out.push('\\');
        } else if (c as u32) < 32 {
            out.push('\\');
            out.push('u');
            out.push('0');
            out.push('0');
            out.push(hex_digit_char((c as u32) / 16));
            out.push(hex_digit_char((c as u32) % 16));
        } else {
            out.push(c);
        }
        proof {
            assert(out@ =~= json_escaped(s@.take(i as int)) + escaped_char(c));
        }
        i = i + 1;
    }
    proof {
        assert(s@.take(len as int) =~= s@);
    }
    string_of_chars(&out)
}

/// The JSON response body that carries an answer.
pub open spec fn answer_json(a: Seq<char>) -> Seq<char> {
    "{\"answer\": \""@ + json_escaped(a) + "\"}"@
}

/// Wrap an answer as the JSON response body, escaping it.
pub fn answer_json_body(answer: &str) -> (r: String)
    ensures
        r@ == answer_json(answer@),
{
    let open = "{\"answer\": \"";
    let close = "\"}";
    open.to_owned().concat(json_escape(answer).as_str()).concat(close)
}

/// What the boundary sends back: a status code, whether the body is JSON,
/// and the body text.
pub struct HttpReply {
    /// The response status code.
    pub status: u16,
    /// Whether the body is JSON (and the content type should say so).
    pub is_json: bool,
    /// The response body.
    pub body: String,
}

/// Relies on std::str::from_utf8: succeeds exactly on valid UTF-8 and
/// decodes the bytes to their character sequence.
#[verifier::external_body]
fn decode_utf8_text(bytes: &Vec<u8>) -> (r: Option<String>)
    ensures
        match r {
            Some(s) => valid_utf8(bytes@) && s@ == decode_utf8(bytes@),
            None => !valid_utf8(bytes@),
        },
{
    match std::str::from_utf8(bytes.as_slice()) {
        Ok(s) => Some(s.to_owned()),
        Err(_) => None,
    }
}

/// Serve one question request from the raw request body. A body that is not
/// UTF-8 is a hard failure; an empty question is rejected with the fixed
/// validation message and status 400, without touching the cache; otherwise
/// the question is resolved and the answer is wrapped as JSON with status
/// 200. A store or generator failure surfaces as status 500 and is never
/// masked by a default answer.
pub fn handle_question_request<S: AnswerStore, G: AnswerGenerator>(
    cache: &mut OracleCache<S, G>,
    body: &Vec<u8>,
) -> (r: HttpReply)
    ensures
        final(cache).store.may_fail() == old(cache).store.may_fail(),
        final(cache).generator.may_fail() == old(cache).generator.may_fail(),
        !valid_utf8(body@) ==> r.status == 500 && !r.is_json && r.body@
            == "The request body is not valid text"@ && final(cache).store.entries() == old(
            cache,
        ).store.entries(),
        valid_utf8(body@) && decode_utf8(body@).len() == 0 ==> r.status == 400 && !r.is_json
            && r.body@ == "Please ask a question."@ && final(cache).store.entries() == old(
            cache,
        ).store.entries(),
        valid_utf8(body@) && decode_utf8(body@).len() > 0 ==> {
            ||| (r.status == 200 && r.is_json && exists|a: Seq<char>|
                resolve_post(
                    old(cache).store.entries(),
                    decode_utf8(body@),
                    Ok(a),
                    final(cache).store.entries(),
                ) && (authoritative(old(cache).store.entries(), decode_utf8(body@)) || old(
                    cache,
                ).generator.admissible_answer(a)) && r.body@ == answer_json(a))
            ||| (r.status == 500 && !r.is_json && r.body@ == "The oracle could not answer"@ && (old(
                cache,
            ).store.may_fail() || old(cache).generator.may_fail()))
        },
        valid_utf8(body@) && decode_utf8(body@).len() > 0 && !old(cache).store.may_fail() && !old(
            cache,
        ).generator.may_fail() ==> r.status == 200,
        // a store whose lookups fail makes every resolution a server error,
        // with the store untouched
        valid_utf8(body@) && decode_utf8(body@).len() > 0 && old(cache).store.always_fails_get()
            ==> r.status == 500 && !r.is_json && r.body@ == "The oracle could not answer"@
            && final(cache).store.entries() == old(cache).store.entries(),
{
    let question = match decode_utf8_text(body) {
        None => {
            return HttpReply {
                status: 500,
                is_json: false,
                body: "The request body is not valid text".to_owned(),
            };
        },
        Some(q) => q,
    };
    if question.as_str().unicode_len() == 0 {
        return HttpReply { status: 400, is_json: false, body: "Please ask a question.".to_owned() };
    }
    match cache.resolve(question.as_str()) {
        Ok(answer) => {
            let reply = HttpReply {
                status: 200,
                is_json: true,
                body: answer_json_body(answer.as_str()),
            };
            proof {
                assert(resolve_post(
                    old(cache).store.entries(),
                    decode_utf8(body@),
                    Ok(answer@),
                    final(cache).store.entries(),
                ) && reply.body@ == answer_json(answer@));
            }
            reply
        },
        Err(_) => HttpReply {
            status: 500,
            is_json: false,
            body: "The oracle could not answer".to_owned(),
        },
    }
}

/// Serve one question request without a store: decode and validate the
/// question as `handle_question_request` does, hand it to the generator, and
/// wrap the generated answer as JSON. A generator failure surfaces as status
/// 500 and is never masked by a default answer.
pub fn handle_direct_request<G: AnswerGenerator>(generator: &mut G, body: &Vec<u8>) -> (r:
    HttpReply)
    ensures
        final(generator).may_fail() == old(generator).may_fail(),
        final(generator).always_fails() == old(generator).always_fails(),
        !valid_utf8(body@) ==> r.status == 500 && !r.is_json && r.body@
            == "The request body is not valid text"@,
        valid_utf8(body@) && decode_utf8(body@).len() == 0 ==> r.status == 400 && !r.is_json
            && r.body@ == "Please ask a question."@,
        valid_utf8(body@) && decode_utf8(body@).len() > 0 ==> {
            ||| (r.status == 200 && r.is_json && exists|a: Seq<char>|
                old(generator).admissible_answer(a) && r.body@ == answer_json(a))
            ||| (r.status == 500 && !r.is_json && r.body@ == "The oracle could not answer"@ && old(
                generator,
            ).may_fail())
        },
        valid_utf8(body@) && decode_utf8(body@).len() > 0 && !old(generator).may_fail()
            ==> r.status == 200,
        // a generator that always fails makes every answered request a
        // server error
        valid_utf8(body@) && decode_utf8(body@).len() > 0 && old(generator).always_fails()
            ==> r.status == 500,
{
    let question = match decode_utf8_text(body) {
        None => {
            return HttpReply {
                status: 500,
                is_json: false,
                body: "The request body is not valid text".to_owned(),
            };
        },
        Some(q) => q,
    };
    if question.as_str().unicode_len() == 0 {
        return HttpReply { status: 400, is_json: false, body: "Please ask a question.".to_owned() };
    }
    match generator.generate(Some(question.as_str())) {
        Ok(answer) => {
            let reply = HttpReply {
                status: 200,
                is_json: true,
                body: answer_json_body(answer.as_str()),
            };
            proof {
                assert(reply.body@ == answer_json(answer@));
            }
            reply
        },
        Err(_) => HttpReply {
            status: 500,
            is_json: false,
            body: "The oracle could not answer".to_owned(),
        },
    }
}

/// Serve one request of the stateless variants: ignore the body, draw one
/// answer from the generator, and wrap it as JSON. A generator failure
/// surfaces as status 500.
pub fn handle_uncached_request<G: AnswerGenerator>(generator: &mut G) -> (r: HttpReply)
    ensures
        final(generator).may_fail() == old(generator).may_fail(),
        final(generator).always_fails() == old(generator).always_fails(),
        r.status == 200 || r.status == 500,
        r.status == 200 ==> r.is_json && exists|a: Seq<char>|
            old(generator).admissible_answer(a) && r.body@ == answer_json(a),
        r.status == 500 ==> !r.is_json && r.body@ == "The oracle could not answer"@ && old(
            generator,
        ).may_fail(),
        !old(generator).may_fail() ==> r.status == 200,
        old(generator).always_fails() ==> r.status == 500,
{
    match generator.generate(None) {
        Ok(answer) => {
            let reply = HttpReply {
                status: 200,
                is_json: true,
                body: answer_json_body(answer.as_str()),
            };
            proof {
                assert(reply.body@ == answer_json(answer@));
            }
            reply
        },
        Err(_) => HttpReply {
            status: 500,
            is_json: false,
            body: "The oracle could not answer".to_owned(),
        },
    }
}

} // verus!
