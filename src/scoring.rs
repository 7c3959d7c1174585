//! The scoring engine: normalized features, a weighted linear score squashed
//! by the logistic curve, hard and soft exclusion, and a bid threshold that
//! rises with the exclusion score.
use crate::features::{
    FeatureExtractor, FeatureVector, EXCLUSION_CEILING, MAX_KEY_TERMS,
};
use crate::fixed::{lemma_logistic_bounds, lemma_logistic_monotone, logistic, squash, SCALE};
use crate::tender::{content_of, TenderRecord};
use crate::text::{count_words, decimal, push_decimal, word_count};
use vstd::prelude::*;

verus! {

/// Number of features before the term-frequency scores.
pub const SCALAR_FEATURES: usize = 5;

/// Relevance-code count that normalizes to one.
pub const CODES_DIVISOR: u64 = 20;

/// Title length that normalizes to one.
pub const TITLE_DIVISOR: u64 = 200;

/// Authority code that normalizes to one.
pub const AUTHORITY_DIVISOR: u64 = 100;

/// Divisor of the exclusion score (millionths) in normalization.
pub const EXCLUSION_DIVISOR: u64 = 10;

/// Largest steepness of the logistic curve.
pub const MAX_STEEPNESS: u64 = 100;

/// Largest exclusion adjustment factor, in millionths.
pub const MAX_ADJUSTMENT: u64 = 10_000_000;

/// `SCALE * SCALE`: the unit of a weight times a normalized feature.
pub const SCALE_SQUARED: u128 = 1_000_000_000_000;

/// Per-group contributions to the linear score, in millionths.
pub struct FeatureScores {
    pub codes_count_score: i64,
    pub has_codes_score: i64,
    pub title_length_score: i64,
    pub ca_score: i64,
    /// Exclusion score and term-frequency scores together.
    pub text_features_score: i64,
    pub total_score: i64,
}

/// Outcome of one scoring pass.
pub struct MLPredictionResult {
    pub should_bid: bool,
    /// Confidence in millionths, in `[0, SCALE]`.
    pub confidence: u64,
    pub reasoning: String,
    pub feature_scores: FeatureScores,
}

/// Why a tender cannot be scored.
#[derive(Debug, PartialEq, Eq, Structural)]
pub enum PredictError {
    /// The tender has no document text, or only whitespace.
    MissingContent,
}

/// The scoring model: its tunable constants (in millionths unless noted),
/// the feature tables, and one weight per feature.
pub struct OptimizedBidPredictor {
    /// Confidence needed to bid when the exclusion score is at most the floor.
    pub threshold: u64,
    /// How fast the threshold rises with the exclusion score.
    pub exclusion_adjustment: u64,
    /// Exclusion score above which the threshold rises.
    pub adjustment_floor: u64,
    /// Exclusion score above which a tender is excluded outright.
    pub hard_exclusion: u64,
    /// Exclusion score above which a tender without codes is excluded.
    pub soft_exclusion: u64,
    /// Confidence reported for a soft exclusion.
    pub soft_confidence: u64,
    /// Steepness of the logistic curve (a plain multiplier).
    pub steepness: u64,
    pub feature_extractor: FeatureExtractor,
    /// Weights of the normalized features: codes, has-codes, title length,
    /// authority, exclusion score, then one per key term.
    pub feature_weights: Vec<i64>,
}

/// `x` capped at one.
pub open spec fn cap(x: int) -> int {
    if x > SCALE {
        SCALE as int
    } else {
        x
    }
}

/// Feature `i` of `f` normalized into `[0, SCALE]`.
pub open spec fn normalized(f: FeatureVector, i: int) -> int {
    if i == 0 {
        cap(f.codes_count as int * SCALE / CODES_DIVISOR as int)
    } else if i == 1 {
        f.has_codes as int * SCALE
    } else if i == 2 {
        cap(f.title_length as int * SCALE / TITLE_DIVISOR as int)
    } else if i == 3 {
        cap(f.ca_encoded as int * SCALE / AUTHORITY_DIVISOR as int)
    } else if i == 4 {
        cap(f.exclusion_score as int / EXCLUSION_DIVISOR as int)
    } else {
        f.term_scores@[i - SCALAR_FEATURES] as int
    }
}

/// Sum of the first `k` weighted normalized features (unit `SCALE * SCALE`).
pub open spec fn weighted_sum(w: Seq<i64>, f: FeatureVector, k: int) -> int
    decreases k,
{
    if k <= 0 {
        0
    } else {
        weighted_sum(w, f, k - 1) + w[k - 1] * normalized(f, k - 1)
    }
}

/// `x / SCALE`, rounded toward zero.
pub open spec fn unscale(x: int) -> int {
    if x >= 0 {
        x / SCALE as int
    } else {
        -((-x) / SCALE as int)
    }
}

/// Contribution of feature `i`, in millionths.
pub open spec fn contribution(w: Seq<i64>, f: FeatureVector, i: int) -> int {
    unscale(w[i] * normalized(f, i))
}

/// Sum of the contributions of features `lo .. k`.
pub open spec fn contribution_sum(w: Seq<i64>, f: FeatureVector, lo: int, k: int) -> int
    decreases k - lo,
{
    if k <= lo {
        0
    } else {
        contribution_sum(w, f, lo, k - 1) + contribution(w, f, k - 1)
    }
}

impl OptimizedBidPredictor {
    pub open spec fn wf(&self) -> bool {
        &&& self.feature_extractor.wf()
        &&& self.feature_weights.len() == SCALAR_FEATURES
            + self.feature_extractor.key_terms.len()
        &&& forall|i: int|
            0 <= i < self.feature_weights.len() ==> -(SCALE as int) <= #[trigger] self.feature_weights@[i]
                <= SCALE
        &&& self.threshold <= SCALE
        &&& self.soft_confidence <= SCALE
        &&& self.steepness <= MAX_STEEPNESS
        &&& self.exclusion_adjustment <= MAX_ADJUSTMENT
    }

    /// Features that this model can score.
    pub open spec fn accepts(&self, f: FeatureVector) -> bool {
        f.wf(self.feature_extractor.key_terms.len() as nat)
    }

    /// The linear score of `f` (unit `SCALE * SCALE`).
    pub open spec fn raw_score(&self, f: FeatureVector) -> int {
        weighted_sum(self.feature_weights@, f, self.feature_weights.len() as int)
    }

    /// The input of the logistic curve for `f`, in millionths.
    pub open spec fn logit(&self, f: FeatureVector) -> int {
        unscale(self.steepness * self.raw_score(f))
    }

    /// Confidence of the weighted model alone.
    pub open spec fn model_confidence(&self, f: FeatureVector) -> int {
        logistic(self.logit(f))
    }

    pub open spec fn hard_excluded(&self, f: FeatureVector) -> bool {
        f.exclusion_score > self.hard_exclusion
    }

    pub open spec fn soft_excluded(&self, f: FeatureVector) -> bool {
        !self.hard_excluded(f) && f.exclusion_score > self.soft_exclusion && f.codes_count == 0
    }

    /// Confidence reported for `f`.
    pub open spec fn confidence_spec(&self, f: FeatureVector) -> int {
        if self.hard_excluded(f) {
            0
        } else if self.soft_excluded(f) {
            self.soft_confidence as int
        } else {
            self.model_confidence(f)
        }
    }

    /// `conf` reaches the threshold for exclusion score `e`: the base
    /// threshold, times `1 + e * adjustment` when `e` exceeds the floor.
    pub open spec fn clears_threshold(&self, conf: int, e: int) -> bool {
        if e > self.adjustment_floor {
            conf * SCALE_SQUARED >= self.threshold * (SCALE_SQUARED + e
                * self.exclusion_adjustment)
        } else {
            conf >= self.threshold
        }
    }

    /// The threshold for exclusion score `e`, rounded down to a millionth.
    pub open spec fn effective_threshold(&self, e: int) -> int {
        if e > self.adjustment_floor {
            self.threshold * (SCALE_SQUARED + e * self.exclusion_adjustment) / SCALE_SQUARED as int
        } else {
            self.threshold as int
        }
    }

    /// Bid decision for `f`.
    pub open spec fn should_bid_spec(&self, f: FeatureVector) -> bool {
        !self.hard_excluded(f) && !self.soft_excluded(f) && self.clears_threshold(
            self.model_confidence(f),
            f.exclusion_score as int,
        )
    }
}

proof fn lemma_term_bound(w: int, n: int)
    requires
        -1_000_000 <= w <= 1_000_000,
        0 <= n <= 1_000_000,
    ensures
        -1_000_000_000_000 <= w * n <= 1_000_000_000_000,
{
    assert(-1_000_000_000_000 <= w * n <= 1_000_000_000_000) by (nonlinear_arith)
        requires
            -1_000_000 <= w <= 1_000_000,
            0 <= n <= 1_000_000,
    ;
}

proof fn lemma_sum_bound(k: int)
    requires
        0 <= k,
    ensures
        (k + 1) * SCALE_SQUARED == k * SCALE_SQUARED + SCALE_SQUARED,
        0 <= k * SCALE_SQUARED,
{
    assert((k + 1) * SCALE_SQUARED == k * SCALE_SQUARED + SCALE_SQUARED) by (nonlinear_arith);
    assert(0 <= k * SCALE_SQUARED) by (nonlinear_arith)
        requires
            0 <= k,
    ;
}

/// Bounds of the raised threshold's terms, for `e` within the exclusion
/// ceiling and a model's threshold and adjustment within their limits.
proof fn lemma_grown_threshold_bound(t: int, e: int, a: int)
    requires
        0 <= t <= SCALE,
        0 <= e <= EXCLUSION_CEILING,
        0 <= a <= MAX_ADJUSTMENT,
    ensures
        0 <= e * a <= EXCLUSION_CEILING * MAX_ADJUSTMENT,
        0 <= t * (SCALE_SQUARED + e * a) <= SCALE * (SCALE_SQUARED + EXCLUSION_CEILING
            * MAX_ADJUSTMENT),
{
    assert(0 <= e * a <= EXCLUSION_CEILING * MAX_ADJUSTMENT) by (nonlinear_arith)
        requires
            0 <= e <= EXCLUSION_CEILING,
            0 <= a <= MAX_ADJUSTMENT,
    ;
    let g: int = SCALE_SQUARED + e * a;
    assert(0 <= t * g <= SCALE * (SCALE_SQUARED + EXCLUSION_CEILING * MAX_ADJUSTMENT))
        by (nonlinear_arith)
        requires
            0 <= t <= SCALE,
            0 <= g <= SCALE_SQUARED + EXCLUSION_CEILING * MAX_ADJUSTMENT,
    ;
}

/// `x / SCALE`, rounded toward zero.
pub fn unscale_exec(x: i64) -> (r: i64)
    requires
        x > i64::MIN,
    ensures
        r == unscale(x as int),
{
    if x >= 0 {
        x / (SCALE as i64)
    } else {
        -((-x) / (SCALE as i64))
    }
}

impl OptimizedBidPredictor {
    /// Each feature of `f` normalized into `[0, SCALE]`: counts and codes
    /// divided by their expected maximum and capped, the exclusion score
    /// divided by ten and capped, term-frequency scores unchanged.
    pub fn normalize_features(&self, f: &FeatureVector) -> (r: Vec<u64>)
        requires
            self.wf(),
            self.accepts(*f),
        ensures
            r.len() == self.feature_weights.len(),
            forall|i: int| 0 <= i < r.len() ==> r@[i] == normalized(*f, i),
            forall|i: int| 0 <= i < r.len() ==> r@[i] <= SCALE,
    {
        let mut r: Vec<u64> = Vec::new();
        let c: u128 = f.codes_count as u128 * SCALE as u128 / CODES_DIVISOR as u128;
        r.push(if c > SCALE as u128 {
            SCALE
        } else {
            c as u64
        });
        r.push(f.has_codes * SCALE);
        let t: u128 = f.title_length as u128 * SCALE as u128 / TITLE_DIVISOR as u128;
        r.push(if t > SCALE as u128 {
            SCALE
        } else {
            t as u64
        });
        let a: u64 = f.ca_encoded * SCALE / AUTHORITY_DIVISOR;
        r.push(if a > SCALE {
            SCALE
        } else {
            a
        });
        let e: u64 = f.exclusion_score / EXCLUSION_DIVISOR;
        r.push(if e > SCALE {
            SCALE
        } else {
            e
        });
        let n = f.term_scores.len();
        for j in 0..n
            invariant
                self.wf(),
                self.accepts(*f),
                n == f.term_scores.len(),
                r.len() == SCALAR_FEATURES + j,
                forall|i: int| 0 <= i < r.len() ==> r@[i] == normalized(*f, i),
                forall|i: int| 0 <= i < r.len() ==> r@[i] <= SCALE,
        {
            r.push(f.term_scores[j]);
        }
        r
    }

    /// The linear score of `f`: the weighted sum of its normalized features
    /// (unit `SCALE * SCALE`).
    fn weighted_score(&self, f: &FeatureVector) -> (r: i64)
        requires
            self.wf(),
            self.accepts(*f),
        ensures
            r == self.raw_score(*f),
            -((MAX_KEY_TERMS + SCALAR_FEATURES) * SCALE_SQUARED) <= r <= (MAX_KEY_TERMS
                + SCALAR_FEATURES) * SCALE_SQUARED,
    {
        let normalized_features = self.normalize_features(f);
        let mut score: i64 = 0;
        let n = self.feature_weights.len();
        for i in 0..n
            invariant
                self.wf(),
                n == self.feature_weights.len(),
                n <= MAX_KEY_TERMS + SCALAR_FEATURES,
                normalized_features.len() == n,
                forall|j: int| 0 <= j < n ==> normalized_features@[j] == normalized(*f, j),
                forall|j: int| 0 <= j < n ==> normalized_features@[j] <= SCALE,
                score == weighted_sum(self.feature_weights@, *f, i as int),
                -(i * SCALE_SQUARED) <= score <= i * SCALE_SQUARED,
        {
            let w = self.feature_weights[i];
            let v = normalized_features[i];
            proof {
                lemma_term_bound(w as int, v as int);
                lemma_sum_bound(i as int);
                assert((i + 1) * SCALE_SQUARED <= (MAX_KEY_TERMS + SCALAR_FEATURES)
                    * SCALE_SQUARED) by (nonlinear_arith)
                    requires
                        i + 1 <= MAX_KEY_TERMS + SCALAR_FEATURES,
                ;
            }
            score = score + w * (v as i64);
        }
        proof {
            lemma_sum_bound(n as int);
            assert(n * SCALE_SQUARED <= (MAX_KEY_TERMS + SCALAR_FEATURES) * SCALE_SQUARED)
                by (nonlinear_arith)
                requires
                    n <= MAX_KEY_TERMS + SCALAR_FEATURES,
            ;
        }
        score
    }

    /// Confidence of the weighted model for `f`: the linear score, times
    /// the steepness, through the logistic curve.
    pub fn calculate_prediction_score(&self, f: &FeatureVector) -> (r: u64)
        requires
            self.wf(),
            self.accepts(*f),
        ensures
            r == self.model_confidence(*f),
            r <= SCALE,
    {
        let raw = self.weighted_score(f);
        assert(self.steepness * raw <= MAX_STEEPNESS * ((MAX_KEY_TERMS + SCALAR_FEATURES)
            * SCALE_SQUARED)) by (nonlinear_arith)
            requires
                0 <= self.steepness <= MAX_STEEPNESS,
                -((MAX_KEY_TERMS + SCALAR_FEATURES) * SCALE_SQUARED) <= raw <= (MAX_KEY_TERMS
                    + SCALAR_FEATURES) * SCALE_SQUARED,
        ;
        assert(self.steepness * raw >= -(MAX_STEEPNESS * ((MAX_KEY_TERMS + SCALAR_FEATURES)
            * SCALE_SQUARED))) by (nonlinear_arith)
            requires
                0 <= self.steepness <= MAX_STEEPNESS,
                -((MAX_KEY_TERMS + SCALAR_FEATURES) * SCALE_SQUARED) <= raw <= (MAX_KEY_TERMS
                    + SCALAR_FEATURES) * SCALE_SQUARED,
        ;
        let z = unscale_exec(self.steepness as i64 * raw);
        squash(z)
    }

    /// Whether `conf` reaches the threshold for exclusion score `e`.
    pub fn passes_threshold(&self, conf: u64, e: u64) -> (r: bool)
        requires
            self.wf(),
            conf <= SCALE,
            e <= EXCLUSION_CEILING,
        ensures
            r == self.clears_threshold(conf as int, e as int),
    {
        if e > self.adjustment_floor {
            proof {
                lemma_grown_threshold_bound(self.threshold as int, e as int, self.exclusion_adjustment as int);
            }
            let grown: u128 = SCALE_SQUARED + e as u128 * self.exclusion_adjustment as u128;
            assert(conf * SCALE_SQUARED <= SCALE * SCALE_SQUARED) by (nonlinear_arith)
                requires
                    conf <= SCALE,
            ;
            conf as u128 * SCALE_SQUARED >= self.threshold as u128 * grown
        } else {
            conf >= self.threshold
        }
    }

    /// The threshold for exclusion score `e`, rounded down to a millionth.
    pub fn adjusted_threshold(&self, e: u64) -> (r: u64)
        requires
            self.wf(),
            e <= EXCLUSION_CEILING,
        ensures
            r == self.effective_threshold(e as int),
            r <= 1_000_000_000,
    {
        if e > self.adjustment_floor {
            proof {
                lemma_grown_threshold_bound(self.threshold as int, e as int, self.exclusion_adjustment as int);
            }
            let grown: u128 = SCALE_SQUARED + e as u128 * self.exclusion_adjustment as u128;
            let t: u128 = self.threshold as u128 * grown / SCALE_SQUARED;
            assert(t <= SCALE * (SCALE_SQUARED + EXCLUSION_CEILING * MAX_ADJUSTMENT)
                / SCALE_SQUARED as int) by {
                vstd::arithmetic::div_mod::lemma_div_is_ordered(
                    self.threshold * grown,
                    SCALE * (SCALE_SQUARED + EXCLUSION_CEILING * MAX_ADJUSTMENT) as int,
                    SCALE_SQUARED as int,
                );
            }
            t as u64
        } else {
            self.threshold
        }
    }
}

/// Exclusion score above which the reasoning calls it very high.
pub const VERY_HIGH_EXCLUSION: u64 = 3_000_000;

/// Exclusion score above which the reasoning calls it high.
pub const HIGH_EXCLUSION: u64 = 2_000_000;

/// Exclusion score above which the reasoning calls it medium.
pub const MEDIUM_EXCLUSION: u64 = 1_000_000;

/// Term-frequency score above which the reasoning names the term.
pub const TERM_NOTE_LEVEL: u64 = 100_000;

/// Title length above which the reasoning calls the title detailed.
pub const DETAILED_TITLE: u64 = 100;

/// Confidence above which a bid is of high confidence.
pub const HIGH_CONFIDENCE: u64 = 200_000;

/// Confidence above which a bid is of medium confidence.
pub const MEDIUM_CONFIDENCE: u64 = 100_000;

/// A score in millionths, rounded to one decimal place.
pub open spec fn tenths_text(e: int) -> Seq<char> {
    let t = (e + 50_000) / 100_000;
    decimal((t / 10) as nat) + "."@ + decimal((t % 10) as nat)
}

/// A value in millionths as a rounded percentage.
pub open spec fn percent(c: int) -> int {
    (c + 5_000) / 10_000
}

pub open spec fn exclusion_note(e: int) -> Seq<char> {
    if e > VERY_HIGH_EXCLUSION {
        "VERY HIGH EXCLUSION: "@ + tenths_text(e) + " - strong non-IT project indicators, "@
    } else if e > HIGH_EXCLUSION {
        "High exclusion score: "@ + tenths_text(e) + " - contains non-IT terms, "@
    } else if e > MEDIUM_EXCLUSION {
        "Medium exclusion score: "@ + tenths_text(e) + " - some non-IT terms, "@
    } else {
        Seq::empty()
    }
}

pub open spec fn codes_note(c: int) -> Seq<char> {
    if c > 0 {
        decimal(c as nat) + " relevant codes detected"@
    } else {
        "No relevant codes detected"@
    }
}

/// Notes on the first two key terms (software and support in the current
/// tables), each when its score exceeds the note level.
pub open spec fn term_notes(scores: Seq<u64>) -> Seq<char> {
    (if scores.len() > 0 && scores[0] > TERM_NOTE_LEVEL {
        ", software-related terms found"@
    } else {
        Seq::empty()
    }) + (if scores.len() > 1 && scores[1] > TERM_NOTE_LEVEL {
        ", support service terms found"@
    } else {
        Seq::empty()
    })
}

pub open spec fn title_note(len: int) -> Seq<char> {
    if len > DETAILED_TITLE {
        ", detailed title indicates complex requirements"@
    } else {
        Seq::empty()
    }
}

pub open spec fn category(bid: bool, conf: int, e: int) -> Seq<char> {
    if bid {
        if conf > HIGH_CONFIDENCE {
            "HIGH_CONFIDENCE_BID"@
        } else if conf > MEDIUM_CONFIDENCE {
            "MEDIUM_CONFIDENCE_BID"@
        } else {
            "LOW_CONFIDENCE_BID"@
        }
    } else if e > HIGH_EXCLUSION {
        "EXCLUDED_NON_IT"@
    } else {
        "NO_BID_RECOMMENDED"@
    }
}

pub open spec fn hard_exclusion_text(e: int) -> Seq<char> {
    "HARD_EXCLUSION: Score "@ + tenths_text(e)
        + " - strong non-IT indicators (construction/infrastructure/civil engineering). Automatically excluded."@
}

pub open spec fn soft_exclusion_text(e: int) -> Seq<char> {
    "SOFT_EXCLUSION: Score "@ + tenths_text(e)
        + " with no relevant codes - likely non-IT project without relevant codes."@
}

fn push_tenths(s: &mut String, e: u64)
    requires
        e <= EXCLUSION_CEILING,
    ensures
        final(s)@ == old(s)@ + tenths_text(e as int),
{
    let t: u64 = (e + 50_000) / 100_000;
    push_decimal(s, t / 10);
    s.append(".");
    push_decimal(s, t % 10);
    assert(final(s)@ =~= old(s)@ + tenths_text(e as int));
}

fn push_exclusion_note(s: &mut String, e: u64)
    requires
        e <= EXCLUSION_CEILING,
    ensures
        final(s)@ == old(s)@ + exclusion_note(e as int),
{
    if e > VERY_HIGH_EXCLUSION {
        s.append("VERY HIGH EXCLUSION: ");
        push_tenths(s, e);
        s.append(" - strong non-IT project indicators, ");
    } else if e > HIGH_EXCLUSION {
        s.append("High exclusion score: ");
        push_tenths(s, e);
        s.append(" - contains non-IT terms, ");
    } else if e > MEDIUM_EXCLUSION {
        s.append("Medium exclusion score: ");
        push_tenths(s, e);
        s.append(" - some non-IT terms, ");
    } else {
        assert(old(s)@ + Seq::<char>::empty() == old(s)@);
    }
    assert(final(s)@ =~= old(s)@ + exclusion_note(e as int));
}

fn push_codes_note(s: &mut String, c: u64)
    ensures
        final(s)@ == old(s)@ + codes_note(c as int),
{
    if c > 0 {
        push_decimal(s, c);
        s.append(" relevant codes detected");
    } else {
        s.append("No relevant codes detected");
    }
    assert(final(s)@ =~= old(s)@ + codes_note(c as int));
}

fn push_category(s: &mut String, bid: bool, conf: u64, e: u64)
    ensures
        final(s)@ == old(s)@ + category(bid, conf as int, e as int),
{
    if bid {
        if conf > HIGH_CONFIDENCE {
            s.append("HIGH_CONFIDENCE_BID");
        } else if conf > MEDIUM_CONFIDENCE {
            s.append("MEDIUM_CONFIDENCE_BID");
        } else {
            s.append("LOW_CONFIDENCE_BID");
        }
    } else if e > HIGH_EXCLUSION {
        s.append("EXCLUDED_NON_IT");
    } else {
        s.append("NO_BID_RECOMMENDED");
    }
}

impl OptimizedBidPredictor {
    /// Reasoning of a pass of the weighted model: the category, the notes on
    /// exclusion, codes, key terms and title, then score and threshold.
    pub open spec fn reasoning_spec(&self, f: FeatureVector, conf: int, bid: bool, thr: int) -> Seq<char> {
        category(bid, conf, f.exclusion_score as int) + ": "@ + exclusion_note(f.exclusion_score as int)
            + codes_note(f.codes_count as int) + term_notes(f.term_scores@) + title_note(f.title_length as int) + " (Score: "@ + decimal(percent(conf) as nat)
            + "%, threshold: "@ + decimal(percent(thr) as nat) + "%)"@
    }

    /// Reasoning reported for `f`.
    pub open spec fn reasoning_for(&self, f: FeatureVector) -> Seq<char> {
        if self.hard_excluded(f) {
            hard_exclusion_text(f.exclusion_score as int)
        } else if self.soft_excluded(f) {
            soft_exclusion_text(f.exclusion_score as int)
        } else {
            self.reasoning_spec(
                f,
                self.model_confidence(f),
                self.should_bid_spec(f),
                self.effective_threshold(f.exclusion_score as int),
            )
        }
    }

    /// Human-readable reasoning for a pass of the weighted model.
    pub fn generate_reasoning(&self, f: &FeatureVector, score: u64, should_bid: bool, threshold: u64) -> (r: String)
        requires
            self.wf(),
            self.accepts(*f),
            score <= SCALE,
            threshold <= 1_000_000_000,
        ensures
            r@ == self.reasoning_spec(*f, score as int, should_bid, threshold as int),
    {
        let mut s = String::new();
        push_category(&mut s, should_bid, score, f.exclusion_score);
        s.append(": ");
        push_exclusion_note(&mut s, f.exclusion_score);
        push_codes_note(&mut s, f.codes_count);
        let ghost base = s@;
        if f.term_scores.len() > 0 && f.term_scores[0] > TERM_NOTE_LEVEL {
            s.append(", software-related terms found");
        }
        if f.term_scores.len() > 1 && f.term_scores[1] > TERM_NOTE_LEVEL {
            s.append(", support service terms found");
        }
        if f.title_length > DETAILED_TITLE {
            s.append(", detailed title indicates complex requirements");
        }
        assert(s@ =~= base + term_notes(f.term_scores@) + title_note(f.title_length as int));
        s.append(" (Score: ");
        push_decimal(&mut s, (score + 5_000) / 10_000);
        s.append("%, threshold: ");
        push_decimal(&mut s, (threshold + 5_000) / 10_000);
        s.append("%)");
        s
    }
}

proof fn lemma_contribution_bound(w: Seq<i64>, f: FeatureVector, i: int)
    requires
        -1_000_000 <= w[i] <= 1_000_000,
        0 <= normalized(f, i) <= 1_000_000,
    ensures
        -1_000_000 <= contribution(w, f, i) <= 1_000_000,
{
    lemma_term_bound(w[i] as int, normalized(f, i));
    let x: int = w[i] * normalized(f, i);
    if x >= 0 {
        vstd::arithmetic::div_mod::lemma_div_is_ordered(x, 1_000_000_000_000, 1_000_000);
        vstd::arithmetic::div_mod::lemma_div_is_ordered(0, x, 1_000_000);
    } else {
        vstd::arithmetic::div_mod::lemma_div_is_ordered(-x, 1_000_000_000_000, 1_000_000);
        vstd::arithmetic::div_mod::lemma_div_is_ordered(0, -x, 1_000_000);
    }
}

impl OptimizedBidPredictor {
    /// Contributions of `f` by group: each of the first four features, the
    /// text features (exclusion and key terms) together, and all together.
    pub open spec fn feature_scores_of(&self, f: FeatureVector, s: FeatureScores) -> bool {
        let w = self.feature_weights@;
        let n = self.feature_weights.len() as int;
        &&& s.codes_count_score == contribution(w, f, 0)
        &&& s.has_codes_score == contribution(w, f, 1)
        &&& s.title_length_score == contribution(w, f, 2)
        &&& s.ca_score == contribution(w, f, 3)
        &&& s.text_features_score == contribution_sum(w, f, 4, n)
        &&& s.total_score == contribution_sum(w, f, 0, n)
    }

    /// Per-group contributions of `f` to the linear score, in millionths.
    pub fn calculate_feature_scores(&self, f: &FeatureVector) -> (r: FeatureScores)
        requires
            self.wf(),
            self.accepts(*f),
        ensures
            self.feature_scores_of(*f, r),
    {
        let normalized_features = self.normalize_features(f);
        let ghost w = self.feature_weights@;
        let n = self.feature_weights.len();
        let mut parts: Vec<i64> = Vec::new();
        for i in 0..n
            invariant
                self.wf(),
                w == self.feature_weights@,
                n == self.feature_weights.len(),
                normalized_features.len() == n,
                forall|j: int| 0 <= j < n ==> normalized_features@[j] == normalized(*f, j),
                forall|j: int| 0 <= j < n ==> normalized_features@[j] <= SCALE,
                parts.len() == i,
                forall|j: int| 0 <= j < i ==> parts@[j] == contribution(w, *f, j),
                forall|j: int| 0 <= j < i ==> -1_000_000 <= #[trigger] parts@[j] <= 1_000_000,
        {
            let wi = self.feature_weights[i];
            let v = normalized_features[i];
            proof {
                lemma_term_bound(wi as int, v as int);
                lemma_contribution_bound(w, *f, i as int);
            }
            parts.push(unscale_exec(wi * (v as i64)));
        }
        let mut total: i64 = 0;
        let mut text: i64 = 0;
        for i in 0..n
            invariant
                n == self.feature_weights.len(),
                n <= MAX_KEY_TERMS + SCALAR_FEATURES,
                parts.len() == n,
                forall|j: int| 0 <= j < n ==> parts@[j] == contribution(w, *f, j),
                forall|j: int| 0 <= j < n ==> -1_000_000 <= #[trigger] parts@[j] <= 1_000_000,
                total == contribution_sum(w, *f, 0, i as int),
                -(i * 1_000_000) <= total <= i * 1_000_000,
                i <= 4 ==> text == 0,
                i > 4 ==> text == contribution_sum(w, *f, 4, i as int),
                -(i * 1_000_000) <= text <= i * 1_000_000,
        {
            proof {
                assert(contribution_sum(w, *f, 0, i as int + 1) == contribution_sum(w, *f, 0, i as int)
                    + contribution(w, *f, i as int));
                if i >= 4 {
                    assert(contribution_sum(w, *f, 4, i as int + 1) == contribution_sum(
                        w,
                        *f,
                        4,
                        i as int,
                    ) + contribution(w, *f, i as int));
                    assert(contribution_sum(w, *f, 4, 4) == 0);
                }
            }
            total = total + parts[i];
            if i >= 4 {
                text = text + parts[i];
            }
        }
        assert(n > 4);
        FeatureScores {
            codes_count_score: parts[0],
            has_codes_score: parts[1],
            title_length_score: parts[2],
            ca_score: parts[3],
            text_features_score: text,
            total_score: total,
        }
    }
}

/// The current weights: codes, has-codes, title length, authority,
/// exclusion score, then the ten key terms in order.
pub open spec fn current_weights() -> Seq<i64> {
    seq![
        250_000i64,
        100_000,
        20_000,
        30_000,
        -800_000i64,
        80_000,
        50_000,
        30_000,
        20_000,
        20_000,
        10_000,
        10_000,
        5_000,
        3_000,
        3_000,
    ]
}

impl OptimizedBidPredictor {
    /// The model holds the current settings, weights and tables.
    pub open spec fn is_current(&self) -> bool {
        &&& self.threshold == 54_000
        &&& self.exclusion_adjustment == 500_000
        &&& self.adjustment_floor == 1_000_000
        &&& self.hard_exclusion == 4_000_000
        &&& self.soft_exclusion == 2_000_000
        &&& self.soft_confidence == 10_000
        &&& self.steepness == 6
        &&& self.feature_weights@ == current_weights()
        &&& self.feature_extractor.is_current()
    }
}

impl OptimizedBidPredictor {
    /// The current model: base threshold 0.054, threshold rising by half the
    /// exclusion score above 1.0, hard exclusion above 4.0, soft exclusion
    /// above 2.0 (confidence 0.01), steepness 6, and the current weights.
    pub fn new() -> (r: Self)
        ensures
            r.wf(),
            r.is_current(),
            r.rewards_codes(),
    {
        let feature_extractor = FeatureExtractor::new();
        let feature_weights: Vec<i64> = vec![
            250_000,
            100_000,
            20_000,
            30_000,
            -800_000,
            80_000,
            50_000,
            30_000,
            20_000,
            20_000,
            10_000,
            10_000,
            5_000,
            3_000,
            3_000,
        ];
        assert(logistic(-1_920_000) == 129_319) by {
            assert(1_920_000int / 500_000int == 3);
            assert(1_920_000int % 500_000int == 420_000);
            assert((880797int - 817574int) * 420_000int / 500_000int == 53107);
        }
        assert(unscale(6 * (-800_000 * 400_000)) == -1_920_000) by {
            assert(1_920_000_000_000int / 1_000_000int == 1_920_000);
        }
        assert(cap(4_000_000int / 10int) == 400_000);
        OptimizedBidPredictor {
            threshold: 54_000,
            exclusion_adjustment: 500_000,
            adjustment_floor: 1_000_000,
            hard_exclusion: 4_000_000,
            soft_exclusion: 2_000_000,
            soft_confidence: 10_000,
            steepness: 6,
            feature_extractor,
            feature_weights,
        }
    }

    /// The base threshold, in millionths.
    pub fn get_threshold(&self) -> (r: u64)
        ensures
            r == self.threshold,
    {
        self.threshold
    }

    /// `r` is the outcome of scoring `f`.
    pub open spec fn result_of(&self, f: FeatureVector, r: MLPredictionResult) -> bool {
        &&& r.should_bid == self.should_bid_spec(f)
        &&& r.confidence == self.confidence_spec(f)
        &&& r.reasoning@ == self.reasoning_for(f)
        &&& self.feature_scores_of(f, r.feature_scores)
    }

    /// Scores a feature vector. Above the hard exclusion level: no bid at
    /// confidence zero. Above the soft level with no relevance codes: no bid
    /// at the soft confidence. Otherwise the weighted model's confidence,
    /// compared with the threshold for the exclusion score.
    pub fn score(&self, f: &FeatureVector) -> (r: MLPredictionResult)
        requires
            self.wf(),
            self.accepts(*f),
        ensures
            self.result_of(*f, r),
            r.confidence <= SCALE,
    {
        let feature_scores = self.calculate_feature_scores(f);
        if f.exclusion_score > self.hard_exclusion {
            let mut reasoning = String::new();
            reasoning.append("HARD_EXCLUSION: Score ");
            push_tenths(&mut reasoning, f.exclusion_score);
            reasoning.append(
                " - strong non-IT indicators (construction/infrastructure/civil engineering). Automatically excluded.",
            );
            return MLPredictionResult { should_bid: false, confidence: 0, reasoning, feature_scores };
        }
        if f.exclusion_score > self.soft_exclusion && f.codes_count == 0 {
            let mut reasoning = String::new();
            reasoning.append("SOFT_EXCLUSION: Score ");
            push_tenths(&mut reasoning, f.exclusion_score);
            reasoning.append(" with no relevant codes - likely non-IT project without relevant codes.");
            return MLPredictionResult {
                should_bid: false,
                confidence: self.soft_confidence,
                reasoning,
                feature_scores,
            };
        }
        let confidence = self.calculate_prediction_score(f);
        let threshold = self.adjusted_threshold(f.exclusion_score);
        let should_bid = self.passes_threshold(confidence, f.exclusion_score);
        let reasoning = self.generate_reasoning(f, confidence, should_bid, threshold);
        MLPredictionResult { should_bid, confidence, reasoning, feature_scores }
    }

    /// Scores a tender that has document text: extracts its features and
    /// scores them. A tender without text, or with whitespace only, is refused.
    pub fn predict(&self, tender: &TenderRecord) -> (r: Result<MLPredictionResult, PredictError>)
        requires
            self.wf(),
        ensures
            (word_count(content_of(tender.pdf_content)) == 0) <==> (r is Err),
            r is Ok ==> exists|f: FeatureVector|
                #[trigger] self.feature_extractor.features_of(*tender, f) && self.result_of(f, r->Ok_0),
    {
        let has_text = match &tender.pdf_content {
            Some(c) => count_words(c.as_str()) > 0,
            None => false,
        };
        if !has_text {
            return Err(PredictError::MissingContent);
        }
        let features = self.feature_extractor.extract_features(tender);
        let result = self.score(&features);
        assert(self.feature_extractor.features_of(*tender, features) && self.result_of(features, result));
        Ok(result)
    }
}

/// `f` and `g` differ at most in their relevance-code features.
pub open spec fn same_but_codes(f: FeatureVector, g: FeatureVector) -> bool {
    &&& f.title_length == g.title_length
    &&& f.ca_encoded == g.ca_encoded
    &&& f.exclusion_score == g.exclusion_score
    &&& f.term_scores@ == g.term_scores@
}

/// `f` and `g` have the same features.
pub open spec fn same_features(f: FeatureVector, g: FeatureVector) -> bool {
    &&& same_but_codes(f, g)
    &&& f.codes_count == g.codes_count
    &&& f.has_codes == g.has_codes
}

proof fn lemma_weighted_sum_same(w: Seq<i64>, f: FeatureVector, g: FeatureVector, k: int)
    requires
        same_features(f, g),
    ensures
        weighted_sum(w, f, k) == weighted_sum(w, g, k),
    decreases k,
{
    if k > 0 {
        lemma_weighted_sum_same(w, f, g, k - 1);
        assert(normalized(f, k - 1) == normalized(g, k - 1));
    }
}

proof fn lemma_contribution_sum_same(w: Seq<i64>, f: FeatureVector, g: FeatureVector, lo: int, k: int)
    requires
        same_features(f, g),
    ensures
        contribution_sum(w, f, lo, k) == contribution_sum(w, g, lo, k),
    decreases k - lo,
{
    if k > lo {
        lemma_contribution_sum_same(w, f, g, lo, k - 1);
        assert(normalized(f, k - 1) == normalized(g, k - 1));
    }
}

proof fn lemma_features_determined(x: FeatureExtractor, t: TenderRecord, f: FeatureVector, g: FeatureVector)
    requires
        x.features_of(t, f),
        x.features_of(t, g),
    ensures
        same_features(f, g),
{
    assert(f.term_scores@ =~= g.term_scores@);
}

/// Scoring is a function of the tender alone: two scoring passes over the
/// same tender give the same decision, confidence, reasoning and breakdown.
pub proof fn lemma_scoring_idempotent(
    m: OptimizedBidPredictor,
    t: TenderRecord,
    r1: MLPredictionResult,
    r2: MLPredictionResult,
)
    requires
        exists|f: FeatureVector| #[trigger]
            m.feature_extractor.features_of(t, f) && m.result_of(f, r1),
        exists|f: FeatureVector| #[trigger]
            m.feature_extractor.features_of(t, f) && m.result_of(f, r2),
    ensures
        r1.should_bid == r2.should_bid,
        r1.confidence == r2.confidence,
        r1.reasoning@ == r2.reasoning@,
        r1.feature_scores.codes_count_score == r2.feature_scores.codes_count_score,
        r1.feature_scores.has_codes_score == r2.feature_scores.has_codes_score,
        r1.feature_scores.title_length_score == r2.feature_scores.title_length_score,
        r1.feature_scores.ca_score == r2.feature_scores.ca_score,
        r1.feature_scores.text_features_score == r2.feature_scores.text_features_score,
        r1.feature_scores.total_score == r2.feature_scores.total_score,
{
    let f = choose|f: FeatureVector| #[trigger]
        m.feature_extractor.features_of(t, f) && m.result_of(f, r1);
    let g = choose|f: FeatureVector| #[trigger]
        m.feature_extractor.features_of(t, f) && m.result_of(f, r2);
    lemma_features_determined(m.feature_extractor, t, f, g);
    let w = m.feature_weights@;
    let n = m.feature_weights.len() as int;
    lemma_weighted_sum_same(w, f, g, n);
    lemma_contribution_sum_same(w, f, g, 4, n);
    lemma_contribution_sum_same(w, f, g, 0, n);
    assert(normalized(f, 0) == normalized(g, 0));
    assert(normalized(f, 1) == normalized(g, 1));
    assert(normalized(f, 2) == normalized(g, 2));
    assert(normalized(f, 3) == normalized(g, 3));
}

/// The reported confidence always lies in `[0, SCALE]`.
pub proof fn lemma_confidence_in_range(m: OptimizedBidPredictor, f: FeatureVector)
    requires
        m.wf(),
    ensures
        0 <= m.confidence_spec(f) <= SCALE,
{
    lemma_logistic_bounds(m.logit(f));
}

/// Above the hard exclusion level the decision is no bid at confidence
/// zero, whatever the other features are.
pub proof fn lemma_hard_exclusion(m: OptimizedBidPredictor, f: FeatureVector)
    requires
        f.exclusion_score > m.hard_exclusion,
    ensures
        !m.should_bid_spec(f),
        m.confidence_spec(f) == 0,
{
}

/// An exclusion score above the floor raises the bar: any confidence that
/// bids there also bids at a score at or below the floor, and the base
/// threshold itself bids below the floor but not above it.
pub proof fn lemma_threshold_scaling(m: OptimizedBidPredictor, conf: int, low: int, high: int)
    requires
        m.threshold > 0,
        m.exclusion_adjustment > 0,
        low <= m.adjustment_floor < high,
    ensures
        m.clears_threshold(conf, high) ==> m.clears_threshold(conf, low),
        m.clears_threshold(m.threshold as int, low),
        !m.clears_threshold(m.threshold as int, high),
        m.effective_threshold(high) >= m.effective_threshold(low),
{
    let t = m.threshold as int;
    let a = m.exclusion_adjustment as int;
    let q = SCALE_SQUARED as int;
    assert(high * a > 0) by (nonlinear_arith)
        requires
            high > 0,
            a > 0,
    ;
    assert(t * (q + high * a) > t * q) by (nonlinear_arith)
        requires
            t > 0,
            high * a > 0,
    ;
    if m.clears_threshold(conf, high) {
        assert(conf > t) by (nonlinear_arith)
            requires
                conf * q >= t * (q + high * a),
                t * (q + high * a) > t * q,
                q > 0,
        ;
    }
    assert(t * q / q == t) by (nonlinear_arith)
        requires
            q > 0,
    ;
    vstd::arithmetic::div_mod::lemma_div_is_ordered(t * q, t * (q + high * a), q);
}

impl OptimizedBidPredictor {
    /// Smallest linear score that the exclusion feature can pull a
    /// non-excluded tender down to, when every other weight is non-negative.
    pub open spec fn exclusion_pull(&self) -> int {
        if self.feature_weights@[4] < 0 {
            self.feature_weights@[4] * cap(self.hard_exclusion as int / EXCLUSION_DIVISOR as int)
        } else {
            0
        }
    }

    /// The model rewards relevance codes: every weight but the exclusion
    /// weight is non-negative, and the soft-exclusion confidence is no higher
    /// than the weighted model can give a tender that is not excluded.
    pub open spec fn rewards_codes(&self) -> bool {
        &&& forall|i: int|
            0 <= i < self.feature_weights.len() && i != 4 ==> #[trigger] self.feature_weights@[i]
                >= 0
        &&& self.soft_confidence <= logistic(unscale(self.steepness * self.exclusion_pull()))
    }
}

/// The has-codes flag of `f` agrees with its code count.
pub open spec fn codes_consistent(f: FeatureVector) -> bool {
    f.has_codes == (if f.codes_count > 0 {
        1u64
    } else {
        0u64
    })
}

proof fn lemma_unscale_monotone(a: int, b: int)
    requires
        a <= b,
    ensures
        unscale(a) <= unscale(b),
{
    let s = SCALE as int;
    if a >= 0 {
        vstd::arithmetic::div_mod::lemma_div_is_ordered(a, b, s);
    } else if b < 0 {
        vstd::arithmetic::div_mod::lemma_div_is_ordered(-b, -a, s);
    } else {
        vstd::arithmetic::div_mod::lemma_div_pos_is_pos(-a, s);
        vstd::arithmetic::div_mod::lemma_div_pos_is_pos(b, s);
    }
}

proof fn lemma_normalized_nonneg(f: FeatureVector, i: int)
    requires
        0 <= i,
    ensures
        normalized(f, i) >= 0,
{
    let s = SCALE as int;
    if i == 0 {
        vstd::arithmetic::div_mod::lemma_div_pos_is_pos(f.codes_count * s, CODES_DIVISOR as int);
    } else if i == 2 {
        vstd::arithmetic::div_mod::lemma_div_pos_is_pos(f.title_length * s, TITLE_DIVISOR as int);
    } else if i == 3 {
        vstd::arithmetic::div_mod::lemma_div_pos_is_pos(f.ca_encoded * s, AUTHORITY_DIVISOR as int);
    } else if i == 4 {
        vstd::arithmetic::div_mod::lemma_div_pos_is_pos(f.exclusion_score as int, EXCLUSION_DIVISOR as int);
    }
}

proof fn lemma_weighted_sum_floor(w: Seq<i64>, f: FeatureVector, k: int)
    requires
        k <= w.len(),
        forall|i: int| 0 <= i < w.len() && i != 4 ==> #[trigger] w[i] >= 0,
    ensures
        weighted_sum(w, f, k) >= (if k > 4 && w[4] < 0 {
            w[4] * normalized(f, 4)
        } else {
            0
        }),
    decreases k,
{
    if k > 0 {
        lemma_weighted_sum_floor(w, f, k - 1);
        let x = w[k - 1] as int;
        let n = normalized(f, k - 1);
        lemma_normalized_nonneg(f, k - 1);
        if k - 1 != 4 {
            assert(x >= 0);
            assert(x * n >= 0) by (nonlinear_arith)
                requires
                    x >= 0,
                    n >= 0,
            ;
        } else if x >= 0 {
            assert(x * n >= 0) by (nonlinear_arith)
                requires
                    x >= 0,
                    n >= 0,
            ;
        }
    }
}

proof fn lemma_weighted_sum_codes(w: Seq<i64>, f: FeatureVector, g: FeatureVector, k: int)
    requires
        k <= w.len(),
        w.len() >= 2,
        w[0] >= 0,
        w[1] >= 0,
        same_but_codes(f, g),
        normalized(f, 0) <= normalized(g, 0),
        normalized(f, 1) <= normalized(g, 1),
    ensures
        weighted_sum(w, f, k) <= weighted_sum(w, g, k),
    decreases k,
{
    if k > 0 {
        lemma_weighted_sum_codes(w, f, g, k - 1);
        let x = w[k - 1] as int;
        if k - 1 <= 1 {
            let a = normalized(f, k - 1);
            let b = normalized(g, k - 1);
            assert(x * a <= x * b) by (nonlinear_arith)
                requires
                    x >= 0,
                    a <= b,
            ;
        } else {
            assert(normalized(f, k - 1) == normalized(g, k - 1));
        }
    }
}

/// More relevance codes, with every other feature the same, never lower
/// the confidence, for a model that rewards codes.
pub proof fn lemma_confidence_monotone_in_codes(m: OptimizedBidPredictor, f: FeatureVector, g: FeatureVector)
    requires
        m.wf(),
        m.rewards_codes(),
        same_but_codes(f, g),
        codes_consistent(f),
        codes_consistent(g),
        f.codes_count <= g.codes_count,
    ensures
        m.confidence_spec(f) <= m.confidence_spec(g),
{
    let w = m.feature_weights@;
    let s = SCALE as int;
    let st = m.steepness as int;
    assert(w[0] >= 0 && w[1] >= 0) by {
        assert(w[0] == m.feature_weights@[0]);
        assert(w[1] == m.feature_weights@[1]);
    }
    assert(f.codes_count * s <= g.codes_count * s) by (nonlinear_arith)
        requires
            f.codes_count <= g.codes_count,
            s > 0,
    ;
    vstd::arithmetic::div_mod::lemma_div_is_ordered(f.codes_count * s, g.codes_count * s, CODES_DIVISOR as int);
    lemma_weighted_sum_codes(w, f, g, w.len() as int);
    let ra = m.raw_score(f);
    let rb = m.raw_score(g);
    assert(st * ra <= st * rb) by (nonlinear_arith)
        requires
            st >= 0,
            ra <= rb,
    ;
    lemma_unscale_monotone(st * ra, st * rb);
    lemma_logistic_monotone(m.logit(f), m.logit(g));
    lemma_logistic_bounds(m.logit(g));
    if !m.hard_excluded(g) && m.soft_excluded(f) && !m.soft_excluded(g) {
        lemma_weighted_sum_floor(w, g, w.len() as int);
        let n4 = normalized(g, 4);
        let cap4 = cap(m.hard_exclusion as int / EXCLUSION_DIVISOR as int);
        vstd::arithmetic::div_mod::lemma_div_is_ordered(
            g.exclusion_score as int,
            m.hard_exclusion as int,
            EXCLUSION_DIVISOR as int,
        );
        assert(n4 <= cap4);
        if w[4] < 0 {
            let x = w[4] as int;
            assert(x * n4 >= x * cap4) by (nonlinear_arith)
                requires
                    x < 0,
                    n4 <= cap4,
            ;
        }
        assert(rb >= m.exclusion_pull());
        assert(st * rb >= st * m.exclusion_pull()) by (nonlinear_arith)
            requires
                st >= 0,
                rb >= m.exclusion_pull(),
        ;
        lemma_unscale_monotone(st * m.exclusion_pull(), st * rb);
        lemma_logistic_monotone(unscale(st * m.exclusion_pull()), m.logit(g));
    }
}

/// `f` and `g` differ at most in their exclusion score.
pub open spec fn same_but_exclusion(f: FeatureVector, g: FeatureVector) -> bool {
    &&& f.codes_count == g.codes_count
    &&& f.has_codes == g.has_codes
    &&& f.title_length == g.title_length
    &&& f.ca_encoded == g.ca_encoded
    &&& f.term_scores@ == g.term_scores@
}

proof fn lemma_weighted_sum_exclusion(w: Seq<i64>, f: FeatureVector, g: FeatureVector, k: int)
    requires
        k <= w.len(),
        w.len() > 4,
        w[4] <= 0,
        same_but_exclusion(f, g),
        normalized(f, 4) <= normalized(g, 4),
    ensures
        weighted_sum(w, g, k) <= weighted_sum(w, f, k),
    decreases k,
{
    if k > 0 {
        lemma_weighted_sum_exclusion(w, f, g, k - 1);
        if k - 1 == 4 {
            let x = w[4] as int;
            let a = normalized(f, 4);
            let b = normalized(g, 4);
            assert(x * b <= x * a) by (nonlinear_arith)
                requires
                    x <= 0,
                    a <= b,
            ;
        } else {
            assert(normalized(f, k - 1) == normalized(g, k - 1));
        }
    }
}

/// The model's confidence on a tender that is not excluded is at least
/// what the exclusion weight can pull it down to.
proof fn lemma_model_confidence_floor(m: OptimizedBidPredictor, f: FeatureVector)
    requires
        m.wf(),
        m.rewards_codes(),
        !m.hard_excluded(f),
    ensures
        m.soft_confidence <= m.model_confidence(f),
{
    let w = m.feature_weights@;
    let st = m.steepness as int;
    lemma_weighted_sum_floor(w, f, w.len() as int);
    let n4 = normalized(f, 4);
    let cap4 = cap(m.hard_exclusion as int / EXCLUSION_DIVISOR as int);
    vstd::arithmetic::div_mod::lemma_div_is_ordered(
        f.exclusion_score as int,
        m.hard_exclusion as int,
        EXCLUSION_DIVISOR as int,
    );
    if w[4] < 0 {
        let x = w[4] as int;
        assert(x * n4 >= x * cap4) by (nonlinear_arith)
            requires
                x < 0,
                n4 <= cap4,
        ;
    }
    let rb = m.raw_score(f);
    assert(rb >= m.exclusion_pull());
    assert(st * rb >= st * m.exclusion_pull()) by (nonlinear_arith)
        requires
            st >= 0,
            rb >= m.exclusion_pull(),
    ;
    lemma_unscale_monotone(st * m.exclusion_pull(), st * rb);
    lemma_logistic_monotone(unscale(st * m.exclusion_pull()), m.logit(f));
}

/// A higher exclusion score, with every other feature the same, never
/// raises the confidence, for a model that rewards codes and weighs the
/// exclusion score against the bid.
pub proof fn lemma_confidence_antitone_in_exclusion(m: OptimizedBidPredictor, f: FeatureVector, g: FeatureVector)
    requires
        m.wf(),
        m.rewards_codes(),
        m.feature_weights@[4] <= 0,
        same_but_exclusion(f, g),
        f.exclusion_score <= g.exclusion_score,
    ensures
        m.confidence_spec(g) <= m.confidence_spec(f),
{
    lemma_confidence_in_range(m, f);
    if !m.hard_excluded(g) {
        if m.soft_excluded(g) {
            if !m.soft_excluded(f) {
                lemma_model_confidence_floor(m, f);
            }
        } else {
            let w = m.feature_weights@;
            let st = m.steepness as int;
            vstd::arithmetic::div_mod::lemma_div_is_ordered(
                f.exclusion_score as int,
                g.exclusion_score as int,
                EXCLUSION_DIVISOR as int,
            );
            lemma_weighted_sum_exclusion(w, f, g, w.len() as int);
            let ra = m.raw_score(g);
            let rb = m.raw_score(f);
            assert(st * ra <= st * rb) by (nonlinear_arith)
                requires
                    st >= 0,
                    ra <= rb,
            ;
            lemma_unscale_monotone(st * ra, st * rb);
            lemma_logistic_monotone(m.logit(g), m.logit(f));
        }
    }
}

impl Default for OptimizedBidPredictor {
    fn default() -> (r: Self)
        ensures
            r.wf(),
            r.is_current(),
            r.rewards_codes(),
    {
        OptimizedBidPredictor::new()
    }
}

} // verus!
