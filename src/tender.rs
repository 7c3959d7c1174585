//! The tender notice as the pipeline carries it.
use vstd::prelude::*;

verus! {

/// One procurement notice, with the fields that the scoring pipeline reads
/// and writes. Dates and the estimated value are carried as their text.
pub struct TenderRecord {
    pub resource_id: i64,
    pub title: String,
    pub contracting_authority: String,
    pub info: String,
    pub published: Option<String>,
    pub deadline: Option<String>,
    pub procedure: String,
    pub status: String,
    pub pdf_url: String,
    pub awarddate: Option<String>,
    pub value: Option<String>,
    pub cycle: String,
    /// 1 = bid, 0 = no bid, `None` = unlabeled.
    pub bid: Option<i32>,
    /// Text extracted from the notice's document, when there is one.
    pub pdf_content: Option<String>,
    /// Relevance codes found in the document.
    pub detected_codes: Option<Vec<String>>,
    /// Number of relevance codes found in the document.
    pub codes_count: Option<i32>,
    /// Stage tag, as stored.
    pub processing_stage: Option<String>,
    pub ml_bid: Option<bool>,
    /// Confidence of the last scoring pass, in millionths.
    pub ml_confidence: Option<u64>,
    pub ml_reasoning: Option<String>,
}

/// The relevance-code count that scoring uses: the stored count, with a
/// missing or negative count read as zero.
pub open spec fn codes_of(c: Option<i32>) -> nat {
    match c {
        Some(v) => if v > 0 {
            v as nat
        } else {
            0
        },
        None => 0,
    }
}

/// The document text that scoring uses: empty when there is none.
pub open spec fn content_of(c: Option<String>) -> Seq<char> {
    match c {
        Some(s) => s@,
        None => Seq::empty(),
    }
}

} // verus!
