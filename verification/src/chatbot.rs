//! The completion side of the bot: the response shape the completion
//! endpoint returns, extraction of the first candidate's text (with the
//! "No response" sentinel for an empty candidate list), the two fixed
//! prompts, and the exact JSON request body, with its string content
//! escaped by a verified escaper.

use vstd::prelude::*;
use vstd::string::*;
use crate::numfmt::{dec_str, digit_char, u64_str};

verus! {

/// How a completion call can fail; the variants mirror the weather
/// client's.
pub enum CompletionError {
    Transport,
    HttpStatus(u16),
    Decode,
}

/// One message of a chat exchange.
pub struct Message {
    pub role: String,
    pub content: String,
}

/// One candidate completion.
pub struct Choice {
    pub index: u64,
    pub message: Message,
    pub finish_reason: String,
}

/// The completion endpoint's response payload.
pub struct OpenAIResponse {
    pub id: String,
    pub object: String,
    pub created: u64,
    pub model: String,
    pub choices: Vec<Choice>,
}

/// The sentinel reply for a response with no candidates.
pub open spec fn spec_no_response() -> Seq<char> {
    "No response"@
}

/// The text of the first candidate completion, or the sentinel when the
/// candidate list is empty. An empty list is a valid outcome, not an
/// error.
pub fn extract_completion(resp: &OpenAIResponse) -> (r: String)
    ensures
        resp.choices@.len() > 0 ==> r@ == resp.choices@[0].message.content@,
        resp.choices@.len() == 0 ==> r@ == spec_no_response(),
{
    if resp.choices.len() > 0 {
        resp.choices[0].message.content.clone()
    } else {
        String::from_str("No response")
    }
}

/// The fixed joke prompt.
pub open spec fn spec_joke_prompt() -> Seq<char> {
    "tell me a joke about the weather or jokes about meteorologists"@
}

/// The fixed joke prompt.
pub fn joke_prompt() -> (r: &'static str)
    ensures
        r@ == spec_joke_prompt(),
{
    "tell me a joke about the weather or jokes about meteorologists"
}

/// The weather-fact prompt for a city.
pub open spec fn spec_fact_prompt(city: Seq<char>) -> Seq<char> {
    "what is a different crazy historical weather fact for the city of "@ + city
        + " in only 2 sentences"@
}

/// The weather-fact prompt for a city.
pub fn fact_prompt(city: &str) -> (r: String)
    ensures
        r@ == spec_fact_prompt(city@),
{
    let mut r = String::new();
    r.append("what is a different crazy historical weather fact for the city of ");
    r.append(city);
    r.append(" in only 2 sentences");
    proof {
        assert(r@ =~= spec_fact_prompt(city@));
    }
    r
}

/// The hexadecimal digit character for a value in 0..=15.
pub open spec fn hex_char(d: int) -> char {
    if d < 10 {
        digit_char(d)
    } else if d == 10 {
        'a'
    } else if d == 11 {
        'b'
    } else if d == 12 {
        'c'
    } else if d == 13 {
        'd'
    } else if d == 14 {
        'e'
    } else {
        'f'
    }
}

/// How one character appears inside a JSON string literal: quote and
/// backslash are escaped, the named control characters use their short
/// escapes, any other control character uses a `\u00XX` escape, and
/// everything else stands for itself.
pub open spec fn esc_char(c: char) -> Seq<char> {
    if c == '"' {
        seq!['\\', '"']
    } else if c == '\\' {
        seq!['\\', '\\']
    } else if c == '\n' {
        seq!['\\', 'n']
    } else if c == '\r' {
        seq!['\\', 'r']
    } else if c == '\t' {
        seq!['\\', 't']
    } else if c == '\u{8}' {
        seq!['\\', 'b']
    } else if c == '\u{c}' {
        seq!['\\', 'f']
    } else if (c as int) < 0x20 {
        seq!['\\', 'u', '0', '0', hex_char(c as int / 16), hex_char(c as int % 16)]
    } else {
        seq![c]
    }
}

/// The body of a JSON string literal holding the given text.
pub open spec fn json_escaped(s: Seq<char>) -> Seq<char>
    decreases s.len(),
{
    if s.len() == 0 {
        Seq::empty()
    } else {
        json_escaped(s.drop_last()) + esc_char(s.last())
    }
}

/// Relies on `String::push`: appends exactly the one character.
#[verifier::external_body]
fn push_char(s: &mut String, c: char)
    ensures
        final(s)@ == old(s)@.push(c),
{
    s.push(c)
}

/// The one-character string for a hexadecimal digit.
fn hex_str(d: u32) -> (r: &'static str)
    requires
        d < 16,
    ensures
        r@ == seq![hex_char(d as int)],
{
    proof {
        reveal_strlit("a");
        reveal_strlit("b");
        reveal_strlit("c");
        reveal_strlit("d");
        reveal_strlit("e");
        reveal_strlit("f");
        reveal_strlit("0");
        reveal_strlit("1");
        reveal_strlit("2");
        reveal_strlit("3");
        reveal_strlit("4");
        reveal_strlit("5");
        reveal_strlit("6");
        reveal_strlit("7");
        reveal_strlit("8");
        reveal_strlit("9");
    }
    let r = if d == 0 {
        "0"
    } else if d == 1 {
        "1"
    } else if d == 2 {
        "2"
    } else if d == 3 {
        "3"
    } else if d == 4 {
        "4"
    } else if d == 5 {
        "5"
    } else if d == 6 {
        "6"
    } else if d == 7 {
        "7"
    } else if d == 8 {
        "8"
    } else if d == 9 {
        "9"
    } else if d == 10 {
        "a"
    } else if d == 11 {
        "b"
    } else if d == 12 {
        "c"
    } else if d == 13 {
        "d"
    } else if d == 14 {
        "e"
    } else {
        "f"
    };
    proof {
        assert(r@ =~= seq![hex_char(d as int)]);
    }
    r
}

/// Appends the JSON-escaped form of one character.
fn append_escaped(out: &mut String, c: char)
    ensures
        final(out)@ == old(out)@ + esc_char(c),
{
    if c == '"' {
        out.append("\\\"");
        proof {
            reveal_strlit("\\\"");
            assert(final(out)@ =~= old(out)@ + esc_char(c));
        }
    } else if c == '\\' {
        out.append("\\\\");
        proof {
            reveal_strlit("\\\\");
            assert(final(out)@ =~= old(out)@ + esc_char(c));
        }
    } else if c == '\n' {
        out.append("\\n");
        proof {
            reveal_strlit("\\n");
            assert(final(out)@ =~= old(out)@ + esc_char(c));
        }
    } else if c == '\r' {
        out.append("\\r");
        proof {
            reveal_strlit("\\r");
            assert(final(out)@ =~= old(out)@ + esc_char(c));
        }
    } else if c == '\t' {
        out.append("\\t");
        proof {
            reveal_strlit("\\t");
            assert(final(out)@ =~= old(out)@ + esc_char(c));
        }
    } else if c == '\u{8}' {
        out.append("\\b");
        proof {
            reveal_strlit("\\b");
            assert(final(out)@ =~= old(out)@ + esc_char(c));
        }
    } else if c == '\u{c}' {
        out.append("\\f");
        proof {
            reveal_strlit("\\f");
            assert(final(out)@ =~= old(out)@ + esc_char(c));
        }
    } else if (c as u32) < 0x20 {
        let n = c as u32;
        out.append("\\u00");
        out.append(hex_str(n / 16));
        out.append(hex_str(n % 16));
        proof {
            reveal_strlit("\\u00");
            assert(final(out)@ =~= old(out)@ + esc_char(c));
        }
    } else {
        push_char(out, c);
        proof {
            assert(final(out)@ =~= old(out)@ + esc_char(c));
        }
    }
}

/// JSON-escapes a text for use inside a string literal.
pub fn json_escape(s: &str) -> (r: String)
    ensures
        r@ == json_escaped(s@),
{
    let len = s.unicode_len();
    let mut r = String::new();
    let mut i: usize = 0;
    while i < len
        invariant
            len == s@.len(),
            i <= len,
            r@ == json_escaped(s@.subrange(0, i as int)),
        decreases len - i,
    {
        let c = s.get_char(i);
        append_escaped(&mut r, c);
        proof {
            let t = s@.subrange(0, i + 1 as int);
            assert(t.drop_last() =~= s@.subrange(0, i as int));
            assert(t.last() == s@[i as int]);
        }
        i = i + 1;
    }
    proof {
        assert(s@.subrange(0, len as int) =~= s@);
    }
    r
}

/// The JSON request body for a completion call: the fixed model, one user
/// message holding the prompt, and the token limit, with the object keys
/// in sorted order as the canonical serialization.
pub open spec fn spec_completion_request_body(prompt: Seq<char>, max_tokens: int) -> Seq<char> {
    "{\"max_tokens\":"@ + dec_str(max_tokens as nat)
        + ",\"messages\":[{\"content\":\""@ + json_escaped(prompt)
        + "\",\"role\":\"user\"}],\"model\":\"gpt-3.5-turbo\"}"@
}

/// Builds the JSON request body for a completion call.
pub fn completion_request_body(prompt: &str, max_tokens: u32) -> (r: String)
    ensures
        r@ == spec_completion_request_body(prompt@, max_tokens as int),
{
    let mut r = String::new();
    r.append("{\"max_tokens\":");
    r.append(u64_str(max_tokens as u64).as_str());
    r.append(",\"messages\":[{\"content\":\"");
    r.append(json_escape(prompt).as_str());
    r.append("\",\"role\":\"user\"}],\"model\":\"gpt-3.5-turbo\"}");
    proof {
        assert(r@ =~= spec_completion_request_body(prompt@, max_tokens as int));
    }
    r
}

} // verus!
