//! The summary stage's own logic: reading a recommendation out of a reply.
use crate::text::{
    chars_of, contains_seq, find_chars, find_from, lower_of, skip_white, skip_whitespace,
    str_contains, string_of, to_lower, trim_seq, trim_str,
};
use vstd::prelude::*;
use vstd::string::StringSliceAdditionalSpecFns;
use vstd::utf8::{
    decode_utf8, encode_utf8_decode_utf8, encode_utf8_valid_utf8, is_char_boundary,
    is_char_boundary_start_end_of_seq,
};

verus! {

/// Settings of the summary stage.
pub struct Config {
    pub database_url: String,
    pub anthropic_api_key: String,
    pub sns_queue_url: String,
}

/// Outcome of a summarizing pass. The creation time is carried as text.
pub struct AISummaryResult {
    pub resource_id: i64,
    /// `TITLE_ONLY` or `FULL_PDF`.
    pub summary_type: String,
    pub ai_summary: String,
    pub key_points: Vec<String>,
    pub recommendation: String,
    pub confidence_assessment: String,
    pub processing_notes: Vec<String>,
    pub created_at: String,
}

/// Client settings of the summarizing service.
pub struct AIService {
    api_key: String,
}

/// Reasoning recorded when a prediction carries none.
pub fn default_reasoning() -> (r: String)
    ensures
        r@ == "No reasoning provided"@,
{
    String::from_str("No reasoning provided")
}

/// Recommendation read from an already lowercased reply.
pub open spec fn recommendation_of(l: Seq<char>) -> Seq<char> {
    if contains_seq(l, "recommend bid"@) || contains_seq(l, "should bid"@) {
        "BID"@
    } else if contains_seq(l, "no bid"@) || contains_seq(l, "don't bid"@) || contains_seq(
        l,
        "do not bid"@,
    ) {
        "NO BID"@
    } else if contains_seq(l, "legitimate it"@) || contains_seq(l, "genuine it opportunity"@)
        || contains_seq(l, "clear it consultancy"@) || contains_seq(l, "this is an it"@)
        || contains_seq(l, "solid it opportunity"@) || contains_seq(l, "technical opportunity"@) {
        "BID - IT opportunity identified"@
    } else {
        "Review the summary for recommendations"@
    }
}

impl AIService {
    /// The key the service authenticates with.
    pub closed spec fn key(&self) -> Seq<char> {
        self.api_key@
    }

    /// A service that authenticates with `api_key`.
    pub fn new(api_key: String) -> (r: Self)
        ensures
            r.key() == api_key@,
    {
        AIService { api_key }
    }

    /// Recommendation read from an already lowercased reply: an explicit bid
    /// or no-bid phrase first, then phrases that name an IT opportunity.
    pub fn recommendation_from_lowered(l: &str) -> (r: String)
        ensures
            r@ == recommendation_of(l@),
    {
        if str_contains(l, "recommend bid") || str_contains(l, "should bid") {
            return String::from_str("BID");
        }
        if str_contains(l, "no bid") || str_contains(l, "don't bid") || str_contains(l, "do not bid") {
            return String::from_str("NO BID");
        }
        if str_contains(l, "legitimate it") || str_contains(l, "genuine it opportunity")
            || str_contains(l, "clear it consultancy") || str_contains(l, "this is an it")
            || str_contains(l, "solid it opportunity") || str_contains(l, "technical opportunity") {
            return String::from_str("BID - IT opportunity identified");
        }
        String::from_str("Review the summary for recommendations")
    }

    /// Recommendation read from a plain-text reply, in any case.
    pub fn extract_recommendation_from_text(text: &str) -> (r: String)
        ensures
            r@ == recommendation_of(lower_of(text@)),
    {
        let l = to_lower(text);
        AIService::recommendation_from_lowered(l.as_str())
    }
}

/// Position of the brace that closes the block open at depth `d` before
/// position `i`, scanning forward and counting `{` and `}`.
pub open spec fn closing_brace(s: Seq<char>, i: int, d: int) -> Option<int>
    decreases s.len() - i,
{
    if i < 0 || i >= s.len() {
        None
    } else if s[i] == '{' {
        closing_brace(s, i + 1, d + 1)
    } else if s[i] == '}' {
        if d - 1 == 0 {
            Some(i)
        } else {
            closing_brace(s, i + 1, d - 1)
        }
    } else {
        closing_brace(s, i + 1, d)
    }
}

/// The trimmed body of the first block fenced by three backquotes and
/// `json`, when it is closed.
pub open spec fn fenced_json(r: Seq<char>) -> Option<Seq<char>> {
    match find_from(r, "```json"@, 0) {
        Some(p) => {
            let cs = skip_white(r, p + "```json"@.len());
            match find_from(r, "```"@, cs) {
                Some(q) => Some(trim_seq(r.subrange(cs, q))),
                None => None,
            }
        },
        None => None,
    }
}

/// The block from the first `{` to the brace that closes it.
pub open spec fn braced_json(r: Seq<char>) -> Option<Seq<char>> {
    match find_from(r, seq!['{'], 0) {
        Some(b) => match closing_brace(r, b, 0) {
            Some(e) => Some(r.subrange(b, e + 1)),
            None => None,
        },
        None => None,
    }
}

/// The JSON object in a reply: the whole trimmed reply when it is braced,
/// else a fenced `json` block, else the first balanced brace block, else
/// the reply unchanged.
pub open spec fn json_in_reply(r: Seq<char>) -> Seq<char> {
    let t = trim_seq(r);
    if t.len() > 0 && t[0] == '{' && t.last() == '}' {
        t
    } else if fenced_json(r) is Some {
        fenced_json(r)->Some_0
    } else if braced_json(r) is Some {
        braced_json(r)->Some_0
    } else {
        r
    }
}

fn find_closing_brace(s: &Vec<char>, start: usize) -> (r: Option<usize>)
    ensures
        r matches Some(e) ==> closing_brace(s@, start as int, 0) == Some(e as int) && start <= e
            < s.len(),
        r is None ==> closing_brace(s@, start as int, 0) is None,
{
    let mut depth: i128 = 0;
    let mut i: usize = start;
    while i < s.len()
        invariant
            start <= i,
            -(i as int) <= depth <= i,
            s.len() <= usize::MAX,
            closing_brace(s@, start as int, 0) == closing_brace(s@, i as int, depth as int),
        decreases s.len() - i,
    {
        if s[i] == '{' {
            depth = depth + 1;
        } else if s[i] == '}' {
            depth = depth - 1;
            if depth == 0 {
                return Some(i);
            }
        }
        i = i + 1;
    }
    None
}

impl AIService {
    /// The JSON object in a reply that may wrap it in other text.
    pub fn extract_json_from_response(response: &str) -> (r: String)
        ensures
            r@ == json_in_reply(response@),
    {
        let trimmed = trim_str(response);
        let t = chars_of(trimmed);
        if t.len() > 0 && t[0] == '{' && t[t.len() - 1] == '}' {
            return String::from_str(trimmed);
        }
        let chars = chars_of(response);
        let fence_open = chars_of("```json");
        let fence = chars_of("```");
        if let Some(p) = find_chars(&chars, &fence_open, 0) {
            let content_start = skip_whitespace(&chars, p + fence_open.len());
            if let Some(q) = find_chars(&chars, &fence, content_start) {
                let body = string_of(&chars, content_start, q);
                let trimmed_body = trim_str(body.as_str());
                return String::from_str(trimmed_body);
            }
        }
        let open = chars_of("{");
        proof {
            reveal_strlit("{");
        }
        assert(open@ == seq!['{']);
        if let Some(b) = find_chars(&chars, &open, 0) {
            if let Some(e) = find_closing_brace(&chars, b) {
                return string_of(&chars, b, e + 1);
            }
        }
        String::from_str(response)
    }
}

/// The largest character boundary of `bytes` at or below `i`.
pub open spec fn boundary_at_most(bytes: Seq<u8>, i: int) -> int
    decreases i,
{
    if i <= 0 {
        0
    } else if is_char_boundary(bytes, i) {
        i
    } else {
        boundary_at_most(bytes, i - 1)
    }
}

impl AIService {
    /// `text` when it fits in `max_bytes` bytes of UTF-8; otherwise its
    /// longest prefix of whole characters within `max_bytes` bytes, then `...`.
    pub fn safe_truncate(text: &str, max_bytes: usize) -> (r: String)
        ensures
            text.len() <= max_bytes ==> r@ == text@,
            text.len() > max_bytes ==> r@ == decode_utf8(
                text.spec_bytes().subrange(0, boundary_at_most(text.spec_bytes(), max_bytes as int)),
            ) + "..."@,
    {
        if text.len() <= max_bytes {
            return String::from_str(text);
        }
        let ghost bytes = text.spec_bytes();
        proof {
            encode_utf8_valid_utf8(text@);
            is_char_boundary_start_end_of_seq(bytes);
        }
        let mut end: usize = max_bytes;
        while !text.is_char_boundary(end) && end > 0
            invariant
                end <= max_bytes,
                bytes == text.spec_bytes(),
                boundary_at_most(bytes, max_bytes as int) == boundary_at_most(bytes, end as int),
            decreases end,
        {
            end = end - 1;
        }
        assert(boundary_at_most(bytes, end as int) == end as int);
        let (head, _tail) = text.split_at(end);
        proof {
            encode_utf8_decode_utf8(head@);
            assert(head.spec_bytes() == bytes.subrange(0, end as int));
        }
        let out = String::from_str(head);
        out.concat("...")
    }
}

} // verus!
