use vstd::prelude::*;
use crate::glossary::GlossaryEntry;
use crate::text::{chars_of, string_of, push_decimal, decimal};

verus! {

/// System prompt of every translation request.
pub const SYSTEM_PROMPT: &'static str = "You are a translator. Output only the translation, nothing else.";

/// Model identifier sent to the translation API.
pub const MODEL: &'static str = "deepseek-chat";

/// Unicode general category Cc: U+0000..U+001F and U+007F..U+009F.
pub open spec fn is_control(c: char) -> bool {
    (c as u32) < 0x20 || (0x7f <= (c as u32) && (c as u32) <= 0x9f)
}

pub open spec fn hex_digit(d: nat) -> char {
    if d < 10 {
        crate::text::digit_char(d)
    } else if d == 10 {
        'a'
    } else if d == 11 {
        'b'
    } else if d == 12 {
        'c'
    } else if d == 13 {
        'd'
    } else if d == 14 {
        'e'
    } else {
        'f'
    }
}

/// Four lower-case hex digits of `n`.
pub open spec fn hex4(n: nat) -> Seq<char> {
    seq![hex_digit((n / 4096) % 16), hex_digit((n / 256) % 16), hex_digit((n / 16) % 16), hex_digit(n % 16)]
}

/// How one character is written inside a JSON string.
pub open spec fn escape_char(c: char) -> Seq<char> {
    if c == '"' {
        seq!['\\', '"']
    } else if c == '\\' {
        seq!['\\', '\\']
    } else if c == '\n' {
        seq!['\\', 'n']
    } else if c == '\r' {
        seq!['\\', 'r']
    } else if c == '\t' {
        seq!['\\', 't']
    } else if is_control(c) {
        seq!['\\', 'u'] + hex4(c as u32 as nat)
    } else {
        seq![c]
    }
}

/// `s` escaped for the inside of a JSON string.
pub open spec fn escape_json(s: Seq<char>) -> Seq<char>
    decreases s.len(),
{
    if s.len() == 0 {
        Seq::empty()
    } else {
        escape_json(s.drop_last()) + escape_char(s.last())
    }
}

fn hex_digit_of(d: u32) -> (r: char)
    requires
        d < 16,
    ensures
        r == hex_digit(d as nat),
{
    if d < 10 {
        crate::text::digit_of(d as u64)
    } else if d == 10 {
        'a'
    } else if d == 11 {
        'b'
    } else if d == 12 {
        'c'
    } else if d == 13 {
        'd'
    } else if d == 14 {
        'e'
    } else {
        'f'
    }
}

fn push_escaped(out: &mut Vec<char>, c: char)
    ensures
        final(out)@ == old(out)@ + escape_char(c),
{
    let ghost start = out@;
    if c == '"' {
        out.push('\\');
        out.push('"');
    } else if c == '\\' {
        out.push('\\');
        out.push('\\');
    } else if c == '\n' {
        out.push('\\');
        out.push('n');
    } else if c == '\r' {
        out.push('\\');
        out.push('r');
    } else if c == '\t' {
        out.push('\\');
        out.push('t');
    } else {
        let n = c as u32;
        if n < 0x20 || (0x7f <= n && n <= 0x9f) {
            out.push('\\');
            out.push('u');
            out.push(hex_digit_of((n / 4096) % 16));
            out.push(hex_digit_of((n / 256) % 16));
            out.push(hex_digit_of((n / 16) % 16));
            out.push(hex_digit_of(n % 16));
        } else {
            out.push(c);
        }
    }
    assert(out@ =~= start + escape_char(c));
}

fn push_escaped_all(out: &mut Vec<char>, s: &str)
    ensures
        final(out)@ == old(out)@ + escape_json(s@),
{
    let cs = chars_of(s);
    let mut i: usize = 0;
    while i < cs.len()
        invariant
            i <= cs@.len(),
            cs@ == s@,
            out@ == old(out)@ + escape_json(cs@.subrange(0, i as int)),
        decreases cs.len() - i,
    {
        let ghost before = out@;
        push_escaped(out, cs[i]);
        proof {
            let pre = cs@.subrange(0, i + 1);
            assert(pre.drop_last() =~= cs@.subrange(0, i as int));
            assert(escape_json(pre) == escape_json(pre.drop_last()) + escape_char(cs@[i as int]));
            assert(out@ =~= old(out)@ + escape_json(pre));
        }
        i = i + 1;
    }
    proof {
        assert(cs@.subrange(0, cs@.len() as int) =~= s@);
    }
}

/// Escapes quote, backslash, CR, LF and tab with a backslash, and every
/// other control character as `\uXXXX`.
pub fn escape_json_string(s: &str) -> (r: String)
    ensures
        r@ == escape_json(s@),
{
    let mut out: Vec<char> = Vec::new();
    push_escaped_all(&mut out, s);
    assert(out@ =~= escape_json(s@));
    string_of(out.as_slice())
}

/// `"source":"target"` pairs joined by commas.
pub open spec fn glossary_pairs(entries: Seq<GlossaryEntry>) -> Seq<char>
    decreases entries.len(),
{
    if entries.len() == 0 {
        Seq::empty()
    } else {
        let pair = "\""@ + escape_json(entries.last().source@) + "\":\""@ + escape_json(
            entries.last().target@,
        ) + "\""@;
        if entries.len() == 1 {
            pair
        } else {
            glossary_pairs(entries.drop_last()) + ","@ + pair
        }
    }
}

/// The compact user prompt `{"t":text,"l":lang}`, with `"g":{...}` added
/// when glossary entries matched.
pub open spec fn user_prompt(text: Seq<char>, lang: Seq<char>, glossary: Seq<GlossaryEntry>) -> Seq<
    char,
> {
    "{\"t\":\""@ + escape_json(text) + "\",\"l\":\""@ + escape_json(lang) + "\""@ + if glossary.len()
        == 0 {
        "}"@
    } else {
        ",\"g\":{"@ + glossary_pairs(glossary) + "}}"@
    }
}

fn push_str(out: &mut Vec<char>, s: &str)
    ensures
        final(out)@ == old(out)@ + s@,
{
    let cs = chars_of(s);
    let mut i: usize = 0;
    while i < cs.len()
        invariant
            i <= cs@.len(),
            cs@ == s@,
            out@ == old(out)@ + cs@.subrange(0, i as int),
        decreases cs.len() - i,
    {
        out.push(cs[i]);
        proof {
            assert(cs@.subrange(0, i + 1) =~= cs@.subrange(0, i as int).push(cs@[i as int]));
        }
        i = i + 1;
    }
    proof {
        assert(cs@.subrange(0, cs@.len() as int) =~= s@);
    }
}

/// Builds the user prompt for `text`, `target_lang` and the matched
/// glossary entries.
pub fn build_user_prompt(text: &str, target_lang: &str, glossary: &[GlossaryEntry]) -> (r: String)
    ensures
        r@ == user_prompt(text@, target_lang@, glossary@),
{
    proof {
        reveal_strlit("{\"t\":\"");
        reveal_strlit("\",\"l\":\"");
        reveal_strlit("\"");
        reveal_strlit("}");
        reveal_strlit(",\"g\":{");
        reveal_strlit("}}");
        reveal_strlit("\":\"");
        reveal_strlit(",");
    }
    let mut out: Vec<char> = Vec::new();
    push_str(&mut out, "{\"t\":\"");
    push_escaped_all(&mut out, text);
    push_str(&mut out, "\",\"l\":\"");
    push_escaped_all(&mut out, target_lang);
    push_str(&mut out, "\"");
    let ghost head = out@;
    if glossary.len() == 0 {
        push_str(&mut out, "}");
    } else {
        push_str(&mut out, ",\"g\":{");
        let ghost gstart = out@;
        let mut i: usize = 0;
        while i < glossary.len()
            invariant
                i <= glossary@.len(),
                out@ == gstart + glossary_pairs(glossary@.subrange(0, i as int)),
            decreases glossary.len() - i,
        {
            let ghost before = out@;
            if i > 0 {
                push_str(&mut out, ",");
            }
            push_str(&mut out, "\"");
            push_escaped_all(&mut out, glossary[i].source.as_str());
            push_str(&mut out, "\":\"");
            push_escaped_all(&mut out, glossary[i].target.as_str());
            push_str(&mut out, "\"");
            proof {
                let pre = glossary@.subrange(0, i + 1);
                assert(pre.drop_last() =~= glossary@.subrange(0, i as int));
                assert(pre.last() == glossary@[i as int]);
                assert(out@ =~= gstart + glossary_pairs(pre));
            }
            i = i + 1;
        }
        proof {
            assert(glossary@.subrange(0, glossary@.len() as int) =~= glossary@);
        }
        push_str(&mut out, "}}");
    }
    assert(out@ =~= user_prompt(text@, target_lang@, glossary@));
    string_of(out.as_slice())
}

/// `clamp(chars / 3 * 1.15 + 32, 64, 768)`, computed exactly and rounded
/// down: `chars * 23 / 60 + 32`.
pub open spec fn max_tokens_for(chars: nat) -> nat {
    let raw = chars * 23 / 60 + 32;
    if raw < 64 {
        64
    } else if raw > 768 {
        768
    } else {
        raw
    }
}

/// Output budget for a request whose text has `text@.len()` characters.
pub fn estimate_max_tokens(text: &str) -> (r: u32)
    ensures
        r == max_tokens_for(text@.len()),
{
    let n = chars_of(text).len() as u64;
    let raw: u64 = if n > 60_000 {
        1000
    } else {
        n * 23 / 60 + 32
    };
    proof {
        if n > 60_000 {
            assert(n * 23 / 60 + 32 > 768) by (nonlinear_arith)
                requires
                    n > 60_000,
            ;
        }
    }
    if raw < 64 {
        64
    } else if raw > 768 {
        768
    } else {
        raw as u32
    }
}

/// The request body: model, system and user messages, token budget,
/// streaming on, temperature 0.1.
pub open spec fn request_body(user: Seq<char>, max_tokens: nat) -> Seq<char> {
    "{\"model\":\""@ + MODEL@ + "\",\"messages\":[{\"role\":\"system\",\"content\":\""@
        + escape_json(SYSTEM_PROMPT@) + "\"},{\"role\":\"user\",\"content\":\""@ + escape_json(user)
        + "\"}],\"max_tokens\":"@ + decimal(max_tokens) + ",\"stream\":true,\"temperature\":0.1}"@
}

/// Serialises the chat-completion request for `user_prompt`.
pub fn build_request_body(user_prompt: &str, max_tokens: u32) -> (r: String)
    ensures
        r@ == request_body(user_prompt@, max_tokens as nat),
{
    proof {
        reveal_strlit("{\"model\":\"");
        reveal_strlit("\",\"messages\":[{\"role\":\"system\",\"content\":\"");
        reveal_strlit("\"},{\"role\":\"user\",\"content\":\"");
        reveal_strlit("\"}],\"max_tokens\":");
        reveal_strlit(",\"stream\":true,\"temperature\":0.1}");
    }
    let mut out: Vec<char> = Vec::new();
    push_str(&mut out, "{\"model\":\"");
    push_str(&mut out, MODEL);
    push_str(&mut out, "\",\"messages\":[{\"role\":\"system\",\"content\":\"");
    push_escaped_all(&mut out, SYSTEM_PROMPT);
    push_str(&mut out, "\"},{\"role\":\"user\",\"content\":\"");
    push_escaped_all(&mut out, user_prompt);
    push_str(&mut out, "\"}],\"max_tokens\":");
    push_decimal(&mut out, max_tokens as u64);
    push_str(&mut out, ",\"stream\":true,\"temperature\":0.1}");
    assert(out@ =~= request_body(user_prompt@, max_tokens as nat));
    string_of(out.as_slice())
}

} // verus!
