//! Relevance codes found in document text, and text taken out of markup.
use crate::text::{contains_seq, push_char, str_contains, trim_seq, trim_str};
use vstd::prelude::*;

verus! {

/// The codes of `codes`, in order, that occur in `text`.
pub open spec fn codes_found(text: Seq<char>, codes: Seq<Seq<char>>) -> Seq<Seq<char>>
    decreases codes.len(),
{
    if codes.len() == 0 {
        Seq::empty()
    } else {
        let rest = codes_found(text, codes.drop_last());
        if contains_seq(text, codes.last()) {
            rest.push(codes.last())
        } else {
            rest
        }
    }
}

/// The codes, in their order, that occur somewhere in `text`.
pub fn extract_codes(text: &str, codes: &[String]) -> (r: Vec<String>)
    ensures
        r@.map_values(|c: String| c@) == codes_found(text@, codes@.map_values(|c: String| c@)),
{
    let mut found: Vec<String> = Vec::new();
    let ghost all = codes@.map_values(|c: String| c@);
    let mut i: usize = 0;
    while i < codes.len()
        invariant
            i <= codes@.len(),
            all == codes@.map_values(|c: String| c@),
            found@.map_values(|c: String| c@) == codes_found(text@, all.subrange(0, i as int)),
        decreases codes.len() - i,
    {
        let ghost pre = all.subrange(0, i as int + 1);
        assert(pre.drop_last() == all.subrange(0, i as int));
        assert(pre.last() == codes@[i as int]@);
        if str_contains(text, codes[i].as_str()) {
            let c = codes[i].clone();
            found.push(c);
            assert(found@.map_values(|c: String| c@) =~= codes_found(text@, pre));
        }
        i = i + 1;
    }
    assert(all.subrange(0, i as int) == all);
    found
}

/// The characters of `s` outside markup tags: a `<` opens a tag, a `>`
/// closes it, and neither is kept.
pub open spec fn untagged(s: Seq<char>) -> (Seq<char>, bool)
    decreases s.len(),
{
    if s.len() == 0 {
        (Seq::empty(), false)
    } else {
        let (out, in_tag) = untagged(s.drop_last());
        let c = s.last();
        if c == '<' {
            (out, true)
        } else if c == '>' {
            (out, false)
        } else if !in_tag {
            (out.push(c), in_tag)
        } else {
            (out, in_tag)
        }
    }
}

/// `input` with markup tags removed and surrounding whitespace trimmed.
pub fn strip_html(input: &str) -> (r: String)
    ensures
        r@ == trim_seq(untagged(input@).0),
{
    let mut out = String::new();
    let mut in_tag: bool = false;
    let ghost mut seen: Seq<char> = Seq::empty();
    for c in it: input.chars()
        invariant
            it.seq() == input@,
            seen == it.seq().subrange(0, it.index() as int),
            untagged(seen) == (out@, in_tag),
    {
        proof {
            let s2 = seen.push(c);
            assert(s2.drop_last() == seen);
        }
        if c == '<' {
            in_tag = true;
        } else if c == '>' {
            in_tag = false;
        } else if !in_tag {
            push_char(&mut out, c);
        }
        proof {
            seen = seen.push(c);
        }
    }
    assert(seen == input@);
    let t = trim_str(out.as_str());
    String::from_str(t)
}

/// `codes` with the trimmed `field` added when it is not empty.
pub open spec fn add_code(codes: Seq<Seq<char>>, field: Seq<char>) -> Seq<Seq<char>> {
    if trim_seq(field).len() > 0 {
        codes.push(trim_seq(field))
    } else {
        codes
    }
}

/// State of reading a list of codes, one per line with anything after a
/// comma ignored: the codes of the finished lines, the current line's text
/// before its first comma, and whether that comma has been seen.
pub open spec fn code_scan(s: Seq<char>) -> (Seq<Seq<char>>, Seq<char>, bool)
    decreases s.len(),
{
    if s.len() == 0 {
        (Seq::empty(), Seq::empty(), false)
    } else {
        let (codes, field, comma) = code_scan(s.drop_last());
        let c = s.last();
        if c == '\n' {
            (add_code(codes, field), Seq::empty(), false)
        } else if comma || c == ',' {
            (codes, field, true)
        } else {
            (codes, field.push(c), false)
        }
    }
}

/// The codes listed in `text`: the first comma-separated field of each
/// line, trimmed, skipping lines where it is empty.
pub open spec fn codes_listed(text: Seq<char>) -> Seq<Seq<char>> {
    add_code(code_scan(text).0, code_scan(text).1)
}

fn push_code(codes: &mut Vec<String>, field: &String)
    ensures
        final(codes)@.map_values(|c: String| c@) == add_code(
            old(codes)@.map_values(|c: String| c@),
            field@,
        ),
{
    let t = trim_str(field.as_str());
    if t.unicode_len() > 0 {
        codes.push(String::from_str(t));
        assert(final(codes)@.map_values(|c: String| c@) =~= old(codes)@.map_values(|c: String| c@).push(
            trim_seq(field@),
        ));
    }
}

/// The codes listed in a codes file: one per line, the first
/// comma-separated field, trimmed, with empty ones skipped.
pub fn parse_codes(text: &str) -> (r: Vec<String>)
    ensures
        r@.map_values(|c: String| c@) == codes_listed(text@),
{
    let mut codes: Vec<String> = Vec::new();
    let mut field = String::new();
    let mut comma: bool = false;
    let ghost mut seen: Seq<char> = Seq::empty();
    for c in it: text.chars()
        invariant
            it.seq() == text@,
            seen == it.seq().subrange(0, it.index() as int),
            code_scan(seen) == (codes@.map_values(|c: String| c@), field@, comma),
    {
        proof {
            let s2 = seen.push(c);
            assert(s2.drop_last() == seen);
        }
        if c == '\n' {
            push_code(&mut codes, &field);
            field = String::new();
            comma = false;
        } else if comma || c == ',' {
            comma = true;
        } else {
            push_char(&mut field, c);
        }
        proof {
            seen = seen.push(c);
        }
    }
    assert(seen == text@);
    push_code(&mut codes, &field);
    codes
}

} // verus!
