//! Feature extraction: from a tender and its document text to a numeric
//! feature vector, including the exclusion score for out-of-scope sectors.
use crate::fixed::SCALE;
use crate::tender::{codes_of, content_of, TenderRecord};
use crate::text::{
    contains_seq, str_contains, count_words, default_hash, phrase_occurrences, regex_phrase_count, regex_word_count,
    string_hash, word_count, word_occurrences,
};
use vstd::prelude::*;

verus! {

/// Largest exclusion score, in millionths.
pub const EXCLUSION_CEILING: u64 = 15_000_000;

/// Largest number of entries in any term list or in the authority table.
pub const MAX_TABLE_LEN: usize = 1000;

/// Largest number of key terms.
pub const MAX_KEY_TERMS: usize = 64;

/// Largest weight of a key term, in millionths.
pub const MAX_TERM_WEIGHT: u64 = 10_000_000;

/// Smallest code given to an authority outside the curated table.
pub const FIRST_HASHED_CODE: u64 = 11;

/// Number of codes given to authorities outside the curated table.
pub const HASHED_CODE_RANGE: u64 = 90;

/// Weight of a high-weight exclusion term, in half-units.
pub const HIGH_WEIGHT_HALVES: u128 = 4;

/// Weight of a baseline exclusion term, in half-units.
pub const BASE_WEIGHT_HALVES: u128 = 2;

/// Weight of an exclusion phrase, in half-units.
pub const PHRASE_WEIGHT_HALVES: u128 = 3;

/// A domain keyword and its importance weight (millionths).
pub struct KeyTerm {
    pub term: String,
    pub weight: u64,
}

/// A curated contracting authority and its code.
pub struct AuthorityCode {
    pub name: String,
    pub code: u64,
}

/// The versioned tables that feature extraction reads.
pub struct FeatureExtractor {
    /// Domain keywords, in the order of the term-frequency scores.
    pub key_terms: Vec<KeyTerm>,
    /// Baseline exclusion terms (weight 1), matched as whole words.
    pub exclusion_terms: Vec<String>,
    /// High-weight exclusion terms (weight 2), matched as whole words.
    pub high_weight_terms: Vec<String>,
    /// Exclusion phrases (weight 1.5), matched anywhere.
    pub exclusion_phrases: Vec<String>,
    /// Curated authorities with their codes.
    pub authorities: Vec<AuthorityCode>,
}

/// Numeric features of one tender. Counts and lengths are plain integers;
/// scores are in millionths.
pub struct FeatureVector {
    pub codes_count: u64,
    pub has_codes: u64,
    pub title_length: u64,
    pub ca_encoded: u64,
    pub exclusion_score: u64,
    /// One term-frequency score per key term, each at most `SCALE`.
    pub term_scores: Vec<u64>,
}

pub open spec fn strings_view(v: Seq<String>) -> Seq<Seq<char>> {
    v.map_values(|s: String| s@)
}

pub open spec fn key_terms_view(v: Seq<KeyTerm>) -> Seq<Seq<char>> {
    v.map_values(|k: KeyTerm| k.term@)
}

pub open spec fn authority_view(v: Seq<AuthorityCode>) -> Seq<(Seq<char>, u64)> {
    v.map_values(|a: AuthorityCode| (a.name@, a.code))
}

/// Sum of the whole-word occurrences in `text` of each of `terms`.
pub open spec fn word_total(terms: Seq<Seq<char>>, text: Seq<char>) -> nat
    decreases terms.len(),
{
    if terms.len() == 0 {
        0
    } else {
        word_total(terms.drop_last(), text) + word_occurrences(terms.last(), text)
    }
}

/// Sum of the occurrences anywhere in `text` of each of `phrases`.
pub open spec fn phrase_total(phrases: Seq<Seq<char>>, text: Seq<char>) -> nat
    decreases phrases.len(),
{
    if phrases.len() == 0 {
        0
    } else {
        phrase_total(phrases.drop_last(), text) + phrase_occurrences(phrases.last(), text)
    }
}

/// Exclusion score (millionths) of weighted matches `halves` (in half-units)
/// over `words` words: matches per 50 words, capped at the ceiling.
pub open spec fn exclusion_value(halves: int, words: int) -> int {
    if words == 0 {
        0
    } else {
        let d: int = halves * 25 * SCALE / words;
        if d > EXCLUSION_CEILING {
            EXCLUSION_CEILING as int
        } else {
            d
        }
    }
}

/// Term-frequency score (millionths): `count / words` times `weight`,
/// capped at one.
pub open spec fn term_value(count: int, weight: int, words: int) -> int {
    if words == 0 {
        0
    } else {
        let v: int = count * weight / words;
        if v > SCALE {
            SCALE as int
        } else {
            v
        }
    }
}

/// First code in `table` whose name is `ca`.
pub open spec fn lookup(table: Seq<(Seq<char>, u64)>, ca: Seq<char>) -> Option<u64>
    decreases table.len(),
{
    if table.len() == 0 {
        None
    } else if table[0].0 == ca {
        Some(table[0].1)
    } else {
        lookup(table.drop_first(), ca)
    }
}

/// The code of an authority: its curated code, or its hash folded into
/// `[FIRST_HASHED_CODE, FIRST_HASHED_CODE + HASHED_CODE_RANGE)`.
pub open spec fn authority_code(table: Seq<(Seq<char>, u64)>, ca: Seq<char>) -> u64 {
    match lookup(table, ca) {
        Some(c) => c,
        None => (default_hash(ca) % HASHED_CODE_RANGE + FIRST_HASHED_CODE) as u64,
    }
}

/// The text that terms are counted in: the title, a space, and the content.
pub open spec fn combined_text(title: Seq<char>, content: Seq<char>) -> Seq<char> {
    title + seq![' '] + content
}

impl FeatureExtractor {
    pub open spec fn wf(&self) -> bool {
        &&& self.key_terms.len() <= MAX_KEY_TERMS
        &&& self.exclusion_terms.len() <= MAX_TABLE_LEN
        &&& self.high_weight_terms.len() <= MAX_TABLE_LEN
        &&& self.exclusion_phrases.len() <= MAX_TABLE_LEN
        &&& self.authorities.len() <= MAX_TABLE_LEN
        &&& forall|i: int|
            0 <= i < self.key_terms.len() ==> self.key_terms@[i].weight <= MAX_TERM_WEIGHT
        &&& forall|i: int|
            0 <= i < self.authorities.len() ==> self.authorities@[i].code < FIRST_HASHED_CODE
        &&& forall|i: int, j: int|
            0 <= i < j < self.authorities.len() ==> #[trigger] self.authorities@[i].name@
                != #[trigger] self.authorities@[j].name@
    }

    /// Weighted exclusion matches in `text`, in half-units.
    pub open spec fn exclusion_halves(&self, text: Seq<char>) -> int {
        HIGH_WEIGHT_HALVES * word_total(strings_view(self.high_weight_terms@), text)
            + BASE_WEIGHT_HALVES * word_total(strings_view(self.exclusion_terms@), text)
            + PHRASE_WEIGHT_HALVES * phrase_total(strings_view(self.exclusion_phrases@), text)
    }

    /// Exclusion score of `text`, in millionths.
    pub open spec fn exclusion_spec(&self, text: Seq<char>) -> int {
        if word_count(text) == 0 {
            0
        } else {
            exclusion_value(self.exclusion_halves(text), word_count(text) as int)
        }
    }

    /// Term-frequency score of key term `i` in `text`.
    pub open spec fn term_spec(&self, i: int, text: Seq<char>) -> int {
        if word_count(text) == 0 {
            0
        } else {
            term_value(
                word_occurrences(self.key_terms@[i].term@, text) as int,
                self.key_terms@[i].weight as int,
                word_count(text) as int,
            )
        }
    }

    /// Code of the contracting authority `ca`.
    pub open spec fn authority_spec(&self, ca: Seq<char>) -> u64 {
        authority_code(authority_view(self.authorities@), ca)
    }

    /// The term-frequency scores of `text` are those of the key terms, in order.
    pub open spec fn term_scores_of(&self, text: Seq<char>, scores: Seq<u64>) -> bool {
        &&& scores.len() == self.key_terms.len()
        &&& forall|i: int| 0 <= i < scores.len() ==> scores[i] == self.term_spec(i, text)
    }

    /// `f` is the feature vector of `tender`.
    pub open spec fn features_of(&self, tender: TenderRecord, f: FeatureVector) -> bool {
        let text = combined_text(tender.title@, content_of(tender.pdf_content));
        &&& f.codes_count == codes_of(tender.codes_count)
        &&& f.has_codes == (if codes_of(tender.codes_count) > 0 {
            1u64
        } else {
            0u64
        })
        &&& f.title_length == tender.title@.len()
        &&& f.ca_encoded == self.authority_spec(tender.contracting_authority@)
        &&& f.exclusion_score == self.exclusion_spec(text)
        &&& self.term_scores_of(text, f.term_scores@)
    }
}

proof fn lemma_partial_bound(i: int)
    requires
        0 <= i <= MAX_TABLE_LEN,
    ensures
        (i + 1) * usize::MAX == i * usize::MAX + usize::MAX,
        i * usize::MAX <= MAX_TABLE_LEN * usize::MAX,
        0 <= i * usize::MAX,
{
    assert((i + 1) * usize::MAX == i * usize::MAX + usize::MAX) by (nonlinear_arith);
    assert(i * usize::MAX <= MAX_TABLE_LEN * usize::MAX) by (nonlinear_arith)
        requires
            0 <= i <= MAX_TABLE_LEN,
    ;
    assert(0 <= i * usize::MAX) by (nonlinear_arith)
        requires
            0 <= i,
    ;
}

/// Exclusion score (millionths) of `halves` weighted matches (in half-units)
/// over `words` words: matches per 50 words, capped at the ceiling.
pub fn exclusion_density(halves: u128, words: usize) -> (r: u64)
    requires
        halves <= 9 * MAX_TABLE_LEN * usize::MAX,
    ensures
        r == exclusion_value(halves as int, words as int),
        r <= EXCLUSION_CEILING,
{
    if words == 0 {
        return 0;
    }
    assert(halves * 25 <= 9 * MAX_TABLE_LEN * usize::MAX * 25) by (nonlinear_arith)
        requires
            halves <= 9 * MAX_TABLE_LEN * usize::MAX,
    ;
    assert(halves * 25 * SCALE <= 9 * MAX_TABLE_LEN * usize::MAX * 25 * SCALE) by (nonlinear_arith)
        requires
            halves <= 9 * MAX_TABLE_LEN * usize::MAX,
    ;
    assert(usize::MAX <= u64::MAX);
    assert(9 * MAX_TABLE_LEN * usize::MAX * 25 * SCALE <= 9 * MAX_TABLE_LEN * u64::MAX * 25 * SCALE)
        by (nonlinear_arith)
        requires
            usize::MAX <= u64::MAX,
    ;
    let d: u128 = halves * 25 * (SCALE as u128) / (words as u128);
    if d > EXCLUSION_CEILING as u128 {
        EXCLUSION_CEILING
    } else {
        d as u64
    }
}

/// Term-frequency score (millionths) of `count` matches over `words` words
/// for a term of weight `weight` (millionths), capped at one.
pub fn term_frequency_score(count: usize, weight: u64, words: usize) -> (r: u64)
    requires
        weight <= MAX_TERM_WEIGHT,
    ensures
        r == term_value(count as int, weight as int, words as int),
        r <= SCALE,
{
    if words == 0 {
        return 0;
    }
    assert(count as u128 * weight as u128 <= usize::MAX * MAX_TERM_WEIGHT) by (nonlinear_arith)
        requires
            count <= usize::MAX,
            weight <= MAX_TERM_WEIGHT,
    ;
    let v: u128 = count as u128 * weight as u128 / words as u128;
    if v > SCALE as u128 {
        SCALE
    } else {
        v as u64
    }
}

/// Code of an authority outside the curated table, from its string hash.
pub fn fold_hash(h: u64) -> (r: u64)
    ensures
        r == h % HASHED_CODE_RANGE + FIRST_HASHED_CODE,
        FIRST_HASHED_CODE <= r < FIRST_HASHED_CODE + HASHED_CODE_RANGE,
{
    h % HASHED_CODE_RANGE + FIRST_HASHED_CODE
}

/// Sums the whole-word occurrences in `text` of each of `terms`.
fn sum_word_matches(terms: &Vec<String>, text: &str) -> (r: u128)
    requires
        terms.len() <= MAX_TABLE_LEN,
    ensures
        r == word_total(strings_view(terms@), text@),
        r <= MAX_TABLE_LEN * usize::MAX,
{
    let mut total: u128 = 0;
    let mut i: usize = 0;
    while i < terms.len()
        invariant
            i <= terms.len() <= MAX_TABLE_LEN,
            total == word_total(strings_view(terms@.subrange(0, i as int)), text@),
            total <= i * usize::MAX,
        decreases terms.len() - i,
    {
        let n = regex_word_count(terms[i].as_str(), text);
        proof {
            let pre = terms@.subrange(0, i as int + 1);
            assert(strings_view(pre).drop_last() == strings_view(terms@.subrange(0, i as int)));
            assert(strings_view(pre).last() == terms@[i as int]@);
        }
        proof {
            lemma_partial_bound(i as int);
        }
        total = total + n as u128;
        i = i + 1;
    }
    assert(terms@.subrange(0, i as int) == terms@);
    proof {
        lemma_partial_bound(i as int);
    }
    total
}

/// Sums the occurrences anywhere in `text` of each of `phrases`.
fn sum_phrase_matches(phrases: &Vec<String>, text: &str) -> (r: u128)
    requires
        phrases.len() <= MAX_TABLE_LEN,
    ensures
        r == phrase_total(strings_view(phrases@), text@),
        r <= MAX_TABLE_LEN * usize::MAX,
{
    let mut total: u128 = 0;
    let mut i: usize = 0;
    while i < phrases.len()
        invariant
            i <= phrases.len() <= MAX_TABLE_LEN,
            total == phrase_total(strings_view(phrases@.subrange(0, i as int)), text@),
            total <= i * usize::MAX,
        decreases phrases.len() - i,
    {
        let n = regex_phrase_count(phrases[i].as_str(), text);
        proof {
            let pre = phrases@.subrange(0, i as int + 1);
            assert(strings_view(pre).drop_last() == strings_view(phrases@.subrange(0, i as int)));
            assert(strings_view(pre).last() == phrases@[i as int]@);
        }
        proof {
            lemma_partial_bound(i as int);
        }
        total = total + n as u128;
        i = i + 1;
    }
    assert(phrases@.subrange(0, i as int) == phrases@);
    proof {
        lemma_partial_bound(i as int);
    }
    total
}

impl FeatureExtractor {
    /// Exclusion score of `text`, in millionths: weighted matches of the
    /// exclusion terms and phrases per 50 words, capped at the ceiling.
    pub fn calculate_exclusion_score(&self, text: &str) -> (r: u64)
        requires
            self.wf(),
        ensures
            r == self.exclusion_spec(text@),
            r <= EXCLUSION_CEILING,
            word_count(text@) == 0 ==> r == 0,
    {
        let words = count_words(text);
        if words == 0 {
            return 0;
        }
        let high = sum_word_matches(&self.high_weight_terms, text);
        let base = sum_word_matches(&self.exclusion_terms, text);
        let phrases = sum_phrase_matches(&self.exclusion_phrases, text);
        let halves: u128 = HIGH_WEIGHT_HALVES * high + BASE_WEIGHT_HALVES * base
            + PHRASE_WEIGHT_HALVES * phrases;
        exclusion_density(halves, words)
    }

    /// Term-frequency scores of `text`, one per key term in order: the
    /// term's whole-word matches per word, times its weight, capped at one.
    pub fn calculate_tfidf_features(&self, text: &str) -> (r: Vec<u64>)
        requires
            self.wf(),
        ensures
            self.term_scores_of(text@, r@),
            forall|i: int| 0 <= i < r.len() ==> r@[i] <= SCALE,
            word_count(text@) == 0 ==> forall|i: int| 0 <= i < r.len() ==> r@[i] == 0,
    {
        let words = count_words(text);
        let mut scores: Vec<u64> = Vec::new();
        let n = self.key_terms.len();
        for i in 0..n
            invariant
                n == self.key_terms.len(),
                self.wf(),
                words == word_count(text@),
                scores.len() == i,
                forall|j: int| 0 <= j < i ==> scores@[j] == self.term_spec(j, text@),
                forall|j: int| 0 <= j < i ==> scores@[j] <= SCALE,
        {
            if words == 0 {
                scores.push(0);
            } else {
                let c = regex_word_count(self.key_terms[i].term.as_str(), text);
                scores.push(term_frequency_score(c, self.key_terms[i].weight, words));
            }
        }
        scores
    }

    /// Code of the contracting authority `ca`: the code of the first curated
    /// entry with exactly that name, else its hash folded into the range of
    /// codes that no curated entry uses.
    pub fn encode_contracting_authority(&self, ca: &str) -> (r: u64)
        requires
            self.wf(),
        ensures
            r == self.authority_spec(ca@),
            r < FIRST_HASHED_CODE + HASHED_CODE_RANGE,
            (lookup(authority_view(self.authorities@), ca@) is None) ==> r >= FIRST_HASHED_CODE,
    {
        let owned = ca.to_owned();
        let ghost table = authority_view(self.authorities@);
        let mut i: usize = 0;
        assert(table.subrange(0, table.len() as int) == table);
        while i < self.authorities.len()
            invariant
                self.wf(),
                table == authority_view(self.authorities@),
                owned@ == ca@,
                i <= self.authorities.len(),
                lookup(table, ca@) == lookup(table.subrange(i as int, table.len() as int), ca@),
            decreases self.authorities.len() - i,
        {
            let ghost rest = table.subrange(i as int, table.len() as int);
            assert(rest.drop_first() == table.subrange(i as int + 1, table.len() as int));
            if self.authorities[i].name == owned {
                return self.authorities[i].code;
            }
            i = i + 1;
        }
        assert(table.subrange(i as int, table.len() as int).len() == 0);
        let h = string_hash(ca);
        fold_hash(h)
    }
}

/// The title, a space, and the document text (empty when there is none).
pub fn combine_text(title: &String, content: &Option<String>) -> (r: String)
    ensures
        r@ == combined_text(title@, content_of(*content)),
{
    let mut text = title.clone();
    let sep = " ";
    proof {
        reveal_strlit(" ");
    }
    text.append(sep);
    match content {
        Some(c) => {
            text.append(c.as_str());
        },
        None => {
            assert(text@ + Seq::<char>::empty() == text@);
        },
    }
    text
}

impl FeatureExtractor {
    /// Feature vector of `tender`: its relevance-code count (a missing or
    /// negative count reads as zero) and whether it is positive, the title's
    /// length in characters, the authority's code, and the exclusion and
    /// term-frequency scores of the title and document text together.
    pub fn extract_features(&self, tender: &TenderRecord) -> (f: FeatureVector)
        requires
            self.wf(),
        ensures
            self.features_of(*tender, f),
            f.wf(self.key_terms.len() as nat),
    {
        let codes_count: u64 = match tender.codes_count {
            Some(c) => if c > 0 {
                c as u64
            } else {
                0
            },
            None => 0,
        };
        let has_codes: u64 = if codes_count > 0 {
            1
        } else {
            0
        };
        let title_length = tender.title.as_str().unicode_len() as u64;
        let ca_encoded = self.encode_contracting_authority(tender.contracting_authority.as_str());
        let text = combine_text(&tender.title, &tender.pdf_content);
        let exclusion_score = self.calculate_exclusion_score(text.as_str());
        let term_scores = self.calculate_tfidf_features(text.as_str());
        FeatureVector {
            codes_count,
            has_codes,
            title_length,
            ca_encoded,
            exclusion_score,
            term_scores,
        }
    }
}

impl FeatureVector {
    /// Every score is in range and there are `n` term-frequency scores.
    pub open spec fn wf(&self, n: nat) -> bool {
        &&& self.has_codes <= 1
        &&& self.codes_count <= i32::MAX
        &&& self.ca_encoded <= FIRST_HASHED_CODE + HASHED_CODE_RANGE
        &&& self.exclusion_score <= EXCLUSION_CEILING
        &&& self.term_scores.len() == n
        &&& forall|i: int| 0 <= i < n ==> self.term_scores@[i] <= SCALE
    }
}

/// Importance weight (millionths) of a key term, by the first of
/// `software`, `support`, `computer`, `technical`, `services`, `systems` that
/// it contains; one for any other term.
pub open spec fn idf_weight(term: Seq<char>) -> u64 {
    if contains_seq(term, "software"@) {
        2_500_000
    } else if contains_seq(term, "support"@) {
        2_000_000
    } else if contains_seq(term, "computer"@) {
        1_800_000
    } else if contains_seq(term, "technical"@) {
        1_500_000
    } else if contains_seq(term, "services"@) {
        1_300_000
    } else if contains_seq(term, "systems"@) {
        1_200_000
    } else {
        1_000_000
    }
}

impl FeatureExtractor {
    /// Importance weight (millionths) of a key term.
    pub fn get_term_idf_weight(term: &str) -> (r: u64)
        ensures
            r == idf_weight(term@),
            r <= MAX_TERM_WEIGHT,
    {
        if str_contains(term, "software") {
            2_500_000
        } else if str_contains(term, "support") {
            2_000_000
        } else if str_contains(term, "computer") {
            1_800_000
        } else if str_contains(term, "technical") {
            1_500_000
        } else if str_contains(term, "services") {
            1_300_000
        } else if str_contains(term, "systems") {
            1_200_000
        } else {
            1_000_000
        }
    }
}

/// A key term with the weight that its text gives it.
fn key_term(term: &str) -> (r: KeyTerm)
    ensures
        r.term@ == term@,
        r.weight == idf_weight(term@),
        r.weight <= MAX_TERM_WEIGHT,
{
    KeyTerm { term: owned(term), weight: FeatureExtractor::get_term_idf_weight(term) }
}

/// Builds an owned string from a literal.
fn owned(s: &str) -> (r: String)
    ensures
        r@ == s@,
{
    String::from_str(s)
}

/// The current key terms, in score order.
pub open spec fn current_key_terms() -> Seq<Seq<char>> {
    seq![
        "software"@,
        "support"@,
        "provision"@,
        "computer"@,
        "services"@,
        "systems"@,
        "management"@,
        "works"@,
        "package"@,
        "technical"@,
    ]
}

/// The current baseline exclusion terms.
pub open spec fn current_exclusion_terms() -> Seq<Seq<char>> {
    seq![
        "ground"@,
        "investigation"@,
        "construction"@,
        "building"@,
        "road"@,
        "bridge"@,
        "excavation"@,
        "concrete"@,
        "steel"@,
        "infrastructure"@,
        "landscaping"@,
        "drainage"@,
        "utilities"@,
        "geotechnical"@,
        "earthworks"@,
        "paving"@,
        "demolition"@,
        "refurbishment"@,
        "renovation"@,
        "roofing"@,
        "flooring"@,
        "mechanical"@,
        "electrical"@,
        "plumbing"@,
        "hvac"@,
        "heating"@,
        "ventilation"@,
        "air conditioning"@,
        "boiler"@,
        "pump"@,
        "pipe"@,
        "wiring"@,
        "circuit"@,
        "site"@,
        "contractor"@,
        "materials"@,
        "equipment"@,
        "machinery"@,
        "civil"@,
        "structural"@,
        "architectural"@,
        "survey"@,
        "planning"@,
        "medical"@,
        "healthcare"@,
        "nursing"@,
        "clinical"@,
        "pharmaceutical"@,
        "therapy"@,
        "treatment"@,
        "patient"@,
        "hospital"@,
        "clinic"@,
        "catering"@,
        "food"@,
        "kitchen"@,
        "dining"@,
        "restaurant"@,
        "meal"@,
        "cooking"@,
        "chef"@,
        "menu"@,
        "nutrition"@,
        "cleaning"@,
        "maintenance"@,
        "janitorial"@,
        "waste"@,
        "refuse"@,
        "hygiene"@,
        "sanitization"@,
        "pest control"@,
        "transport"@,
        "logistics"@,
        "delivery"@,
        "freight"@,
        "shipping"@,
        "warehouse"@,
        "storage"@,
        "fleet"@,
        "vehicle"@,
        "truck"@,
        "legal"@,
        "solicitor"@,
        "barrister"@,
        "audit"@,
        "accounting"@,
        "insurance"@,
        "pension"@,
        "investment"@,
        "banking"@,
        "security"@,
        "guard"@,
        "surveillance"@,
        "alarm"@,
        "cctv"@,
        "monitoring"@,
        "energy"@,
        "renewable"@,
        "solar"@,
        "wind"@,
        "environmental"@,
        "waste management"@,
        "recycling"@,
        "sustainability"@,
    ]
}

/// The current high-weight exclusion terms.
pub open spec fn current_high_weight_terms() -> Seq<Seq<char>> {
    seq![
        "construction"@,
        "building"@,
        "road"@,
        "bridge"@,
        "civil engineering"@,
        "mechanical"@,
        "electrical"@,
        "plumbing"@,
        "hvac"@,
        "infrastructure"@,
        "excavation"@,
        "concrete"@,
        "steel"@,
        "demolition"@,
        "refurbishment"@,
    ]
}

/// The current exclusion phrases.
pub open spec fn current_exclusion_phrases() -> Seq<Seq<char>> {
    seq![
        "ground investigation"@,
        "site investigation"@,
        "civil works"@,
        "building works"@,
        "construction works"@,
        "mechanical works"@,
        "electrical works"@,
        "infrastructure works"@,
        "road works"@,
        "maintenance works"@,
        "repair works"@,
        "cleaning services"@,
        "security services"@,
        "catering services"@,
        "transport services"@,
    ]
}

/// The current curated authorities with their codes.
pub open spec fn current_authorities() -> Seq<(Seq<char>, u64)> {
    seq![
        ("Health Service Executive"@, 1u64),
        ("Dublin City Council"@, 2u64),
        ("Cork City Council"@, 3u64),
        ("Galway City Council"@, 4u64),
        ("Department of Education"@, 5u64),
        ("Department of Health"@, 6u64),
        ("Office of Public Works"@, 7u64),
        ("Transport Infrastructure Ireland"@, 8u64),
        ("Irish Water"@, 9u64),
        ("Revenue Commissioners"@, 10u64),
    ]
}

proof fn lemma_current_authorities_distinct()
    ensures
        forall|i: int, j: int|
            0 <= i < j < current_authorities().len() ==> #[trigger] current_authorities()[i].0
                != #[trigger] current_authorities()[j].0,
{
    reveal_strlit("Health Service Executive");
    reveal_strlit("Dublin City Council");
    reveal_strlit("Cork City Council");
    reveal_strlit("Galway City Council");
    reveal_strlit("Department of Education");
    reveal_strlit("Department of Health");
    reveal_strlit("Office of Public Works");
    reveal_strlit("Transport Infrastructure Ireland");
    reveal_strlit("Irish Water");
    reveal_strlit("Revenue Commissioners");
    let t = current_authorities();
    assert(t[0].0.len() == 24);
    assert(t[1].0.len() == 19);
    assert(t[2].0.len() == 17);
    assert(t[3].0.len() == 19);
    assert(t[4].0.len() == 23);
    assert(t[5].0.len() == 20);
    assert(t[6].0.len() == 22);
    assert(t[7].0.len() == 32);
    assert(t[8].0.len() == 11);
    assert(t[9].0.len() == 21);
    assert(t[1].0[0] != t[3].0[0]);
    assert forall|i: int, j: int|
        0 <= i < j < t.len() implies #[trigger] t[i].0 != #[trigger] t[j].0 by {
        if t[i].0 == t[j].0 {
            assert(t[i].0.len() == t[j].0.len());
            if i == 1 && j == 3 {
                assert(t[i].0[0] == t[j].0[0]);
            }
        }
    }
}

impl FeatureExtractor {
    /// The extractor holds the current tables, each key term weighted by
    /// its text.
    pub open spec fn is_current(&self) -> bool {
        &&& key_terms_view(self.key_terms@) == current_key_terms()
        &&& forall|i: int|
            0 <= i < self.key_terms.len() ==> #[trigger] self.key_terms@[i].weight == idf_weight(
                self.key_terms@[i].term@,
            )
        &&& strings_view(self.exclusion_terms@) == current_exclusion_terms()
        &&& strings_view(self.high_weight_terms@) == current_high_weight_terms()
        &&& strings_view(self.exclusion_phrases@) == current_exclusion_phrases()
        &&& authority_view(self.authorities@) == current_authorities()
    }
}

impl FeatureExtractor {
    /// The current keyword, exclusion and authority tables.
    pub fn new() -> (r: Self)
        ensures
            r.wf(),
            r.is_current(),
            r.key_terms.len() == 10,
    {
        let key_terms = vec![
            key_term("software"),
            key_term("support"),
            key_term("provision"),
            key_term("computer"),
            key_term("services"),
            key_term("systems"),
            key_term("management"),
            key_term("works"),
            key_term("package"),
            key_term("technical"),
        ];
        let exclusion_terms = vec![
            owned("ground"),
            owned("investigation"),
            owned("construction"),
            owned("building"),
            owned("road"),
            owned("bridge"),
            owned("excavation"),
            owned("concrete"),
            owned("steel"),
            owned("infrastructure"),
            owned("landscaping"),
            owned("drainage"),
            owned("utilities"),
            owned("geotechnical"),
            owned("earthworks"),
            owned("paving"),
            owned("demolition"),
            owned("refurbishment"),
            owned("renovation"),
            owned("roofing"),
            owned("flooring"),
            owned("mechanical"),
            owned("electrical"),
            owned("plumbing"),
            owned("hvac"),
            owned("heating"),
            owned("ventilation"),
            owned("air conditioning"),
            owned("boiler"),
            owned("pump"),
            owned("pipe"),
            owned("wiring"),
            owned("circuit"),
            owned("site"),
            owned("contractor"),
            owned("materials"),
            owned("equipment"),
            owned("machinery"),
            owned("civil"),
            owned("structural"),
            owned("architectural"),
            owned("survey"),
            owned("planning"),
            owned("medical"),
            owned("healthcare"),
            owned("nursing"),
            owned("clinical"),
            owned("pharmaceutical"),
            owned("therapy"),
            owned("treatment"),
            owned("patient"),
            owned("hospital"),
            owned("clinic"),
            owned("catering"),
            owned("food"),
            owned("kitchen"),
            owned("dining"),
            owned("restaurant"),
            owned("meal"),
            owned("cooking"),
            owned("chef"),
            owned("menu"),
            owned("nutrition"),
            owned("cleaning"),
            owned("maintenance"),
            owned("janitorial"),
            owned("waste"),
            owned("refuse"),
            owned("hygiene"),
            owned("sanitization"),
            owned("pest control"),
            owned("transport"),
            owned("logistics"),
            owned("delivery"),
            owned("freight"),
            owned("shipping"),
            owned("warehouse"),
            owned("storage"),
            owned("fleet"),
            owned("vehicle"),
            owned("truck"),
            owned("legal"),
            owned("solicitor"),
            owned("barrister"),
            owned("audit"),
            owned("accounting"),
            owned("insurance"),
            owned("pension"),
            owned("investment"),
            owned("banking"),
            owned("security"),
            owned("guard"),
            owned("surveillance"),
            owned("alarm"),
            owned("cctv"),
            owned("monitoring"),
            owned("energy"),
            owned("renewable"),
            owned("solar"),
            owned("wind"),
            owned("environmental"),
            owned("waste management"),
            owned("recycling"),
            owned("sustainability"),
        ];
        let high_weight_terms = vec![
            owned("construction"),
            owned("building"),
            owned("road"),
            owned("bridge"),
            owned("civil engineering"),
            owned("mechanical"),
            owned("electrical"),
            owned("plumbing"),
            owned("hvac"),
            owned("infrastructure"),
            owned("excavation"),
            owned("concrete"),
            owned("steel"),
            owned("demolition"),
            owned("refurbishment"),
        ];
        let exclusion_phrases = vec![
            owned("ground investigation"),
            owned("site investigation"),
            owned("civil works"),
            owned("building works"),
            owned("construction works"),
            owned("mechanical works"),
            owned("electrical works"),
            owned("infrastructure works"),
            owned("road works"),
            owned("maintenance works"),
            owned("repair works"),
            owned("cleaning services"),
            owned("security services"),
            owned("catering services"),
            owned("transport services"),
        ];
        let authorities = vec![
            AuthorityCode { name: owned("Health Service Executive"), code: 1 },
            AuthorityCode { name: owned("Dublin City Council"), code: 2 },
            AuthorityCode { name: owned("Cork City Council"), code: 3 },
            AuthorityCode { name: owned("Galway City Council"), code: 4 },
            AuthorityCode { name: owned("Department of Education"), code: 5 },
            AuthorityCode { name: owned("Department of Health"), code: 6 },
            AuthorityCode { name: owned("Office of Public Works"), code: 7 },
            AuthorityCode { name: owned("Transport Infrastructure Ireland"), code: 8 },
            AuthorityCode { name: owned("Irish Water"), code: 9 },
            AuthorityCode { name: owned("Revenue Commissioners"), code: 10 },
        ];
        proof {
            reveal_strlit("Health Service Executive");
            reveal_strlit("Dublin City Council");
            reveal_strlit("Cork City Council");
            reveal_strlit("Galway City Council");
            reveal_strlit("Department of Education");
            reveal_strlit("Department of Health");
            reveal_strlit("Office of Public Works");
            reveal_strlit("Transport Infrastructure Ireland");
            reveal_strlit("Irish Water");
            reveal_strlit("Revenue Commissioners");
        }
        assert(key_terms_view(key_terms@) =~= current_key_terms());
        assert(strings_view(exclusion_terms@) =~= current_exclusion_terms());
        assert(strings_view(high_weight_terms@) =~= current_high_weight_terms());
        assert(strings_view(exclusion_phrases@) =~= current_exclusion_phrases());
        assert(authority_view(authorities@) =~= current_authorities());
        proof {
            lemma_current_authorities_distinct();
            assert forall|i: int, j: int| 0 <= i < j < authorities.len() implies #[trigger] authorities@[i].name@
                != #[trigger] authorities@[j].name@ by {
                assert(authorities@[i].name@ == current_authorities()[i].0);
                assert(authorities@[j].name@ == current_authorities()[j].0);
            }
        }
        FeatureExtractor {
            key_terms,
            exclusion_terms,
            high_weight_terms,
            exclusion_phrases,
            authorities,
        }
    }
}

/// Text without words (empty, or whitespace only) has every term-frequency
/// score and the exclusion score at zero, with no division by zero.
pub proof fn lemma_wordless_text_scores_zero(x: FeatureExtractor, text: Seq<char>)
    requires
        word_count(text) == 0,
    ensures
        x.exclusion_spec(text) == 0,
        forall|i: int| 0 <= i < x.key_terms.len() ==> #[trigger] x.term_spec(i, text) == 0,
{
}

/// The exclusion score always lies between zero and the ceiling.
pub proof fn lemma_exclusion_in_range(x: FeatureExtractor, text: Seq<char>)
    ensures
        0 <= x.exclusion_spec(text) <= EXCLUSION_CEILING,
{
    if word_count(text) > 0 {
        let h = x.exclusion_halves(text);
        assert(h >= 0);
        assert(h * 25 * SCALE >= 0) by (nonlinear_arith)
            requires
                h >= 0,
        ;
        vstd::arithmetic::div_mod::lemma_div_pos_is_pos(h * 25 * SCALE, word_count(text) as int);
    }
}

impl FeatureVector {
    /// The features in model order: the five scalar features, then the
    /// term-frequency scores.
    pub fn to_array(&self) -> (r: Vec<u64>)
        ensures
            r@ == seq![
                self.codes_count,
                self.has_codes,
                self.title_length,
                self.ca_encoded,
                self.exclusion_score,
            ] + self.term_scores@,
    {
        let mut r: Vec<u64> = vec![
            self.codes_count,
            self.has_codes,
            self.title_length,
            self.ca_encoded,
            self.exclusion_score,
        ];
        let ghost head = r@;
        let n = self.term_scores.len();
        for i in 0..n
            invariant
                n == self.term_scores.len(),
                r@ == head + self.term_scores@.subrange(0, i as int),
        {
            r.push(self.term_scores[i]);
            assert(r@ =~= head + self.term_scores@.subrange(0, i as int + 1));
        }
        assert(self.term_scores@.subrange(0, n as int) == self.term_scores@);
        r
    }
}

impl Default for FeatureExtractor {
    fn default() -> (r: Self)
        ensures
            r.wf(),
            r.is_current(),
            r.key_terms.len() == 10,
    {
        FeatureExtractor::new()
    }
}

} // verus!
