//! Routing between analysis stages: which tenders are scored, which go to
//! title-only review, and the forward-only order of processing stages.
use crate::scoring::{FeatureScores, MLPredictionResult, OptimizedBidPredictor};
use crate::tender::{content_of, TenderRecord};
use crate::text::{is_white, starts_word, trim_seq, trim_start_seq, trim_end_seq, trim_str, word_count};
use vstd::string::StringSliceAdditionalSpecFns;
use vstd::utf8::encode_utf8;
use vstd::prelude::*;

verus! {

/// Processing stage of a tender. Stages only move forward.
#[derive(Debug, Clone, Copy, PartialEq, Eq, Structural)]
pub enum ProcessingStage {
    NewlyIngested,
    AwaitingContent,
    Scored,
    RoutedTitleOnly,
    RoutedFullContent,
    Rejected,
    Accepted,
}

/// Priority of a message to deep review.
#[derive(Debug, Clone, Copy, PartialEq, Eq, Structural)]
pub enum Priority {
    Urgent,
    Normal,
}

/// Position of a stage in the forward order.
pub open spec fn stage_rank(s: ProcessingStage) -> nat {
    match s {
        ProcessingStage::NewlyIngested => 0,
        ProcessingStage::AwaitingContent => 1,
        ProcessingStage::Scored => 2,
        ProcessingStage::RoutedTitleOnly => 3,
        ProcessingStage::RoutedFullContent => 3,
        ProcessingStage::Rejected => 4,
        ProcessingStage::Accepted => 4,
    }
}

/// The transitions of the stage machine.
pub open spec fn is_transition(from: ProcessingStage, to: ProcessingStage) -> bool {
    match (from, to) {
        (ProcessingStage::NewlyIngested, ProcessingStage::AwaitingContent) => true,
        (ProcessingStage::NewlyIngested, ProcessingStage::RoutedTitleOnly) => true,
        (ProcessingStage::NewlyIngested, ProcessingStage::Scored) => true,
        (ProcessingStage::AwaitingContent, ProcessingStage::RoutedTitleOnly) => true,
        (ProcessingStage::AwaitingContent, ProcessingStage::Scored) => true,
        (ProcessingStage::Scored, ProcessingStage::RoutedFullContent) => true,
        (ProcessingStage::RoutedTitleOnly, ProcessingStage::Rejected) => true,
        (ProcessingStage::RoutedTitleOnly, ProcessingStage::Accepted) => true,
        (ProcessingStage::RoutedFullContent, ProcessingStage::Rejected) => true,
        (ProcessingStage::RoutedFullContent, ProcessingStage::Accepted) => true,
        _ => false,
    }
}

/// Whether the stage machine allows moving from `from` to `to`.
pub fn can_advance(from: ProcessingStage, to: ProcessingStage) -> (r: bool)
    ensures
        r == is_transition(from, to),
{
    match (from, to) {
        (ProcessingStage::NewlyIngested, ProcessingStage::AwaitingContent) => true,
        (ProcessingStage::NewlyIngested, ProcessingStage::RoutedTitleOnly) => true,
        (ProcessingStage::NewlyIngested, ProcessingStage::Scored) => true,
        (ProcessingStage::AwaitingContent, ProcessingStage::RoutedTitleOnly) => true,
        (ProcessingStage::AwaitingContent, ProcessingStage::Scored) => true,
        (ProcessingStage::Scored, ProcessingStage::RoutedFullContent) => true,
        (ProcessingStage::RoutedTitleOnly, ProcessingStage::Rejected) => true,
        (ProcessingStage::RoutedTitleOnly, ProcessingStage::Accepted) => true,
        (ProcessingStage::RoutedFullContent, ProcessingStage::Rejected) => true,
        (ProcessingStage::RoutedFullContent, ProcessingStage::Accepted) => true,
        _ => false,
    }
}

/// Every transition moves strictly forward, so no stage is ever revisited.
pub proof fn lemma_transitions_move_forward(from: ProcessingStage, to: ProcessingStage)
    requires
        is_transition(from, to),
    ensures
        stage_rank(from) < stage_rank(to),
{
}

/// The terminal stages are set downstream; nothing leaves them.
pub proof fn lemma_terminal_stages_final(to: ProcessingStage)
    ensures
        !is_transition(ProcessingStage::Rejected, to),
        !is_transition(ProcessingStage::Accepted, to),
{
}

impl ProcessingStage {
    /// The stored tag of the stage.
    pub open spec fn tag_spec(self) -> Seq<char> {
        match self {
            ProcessingStage::NewlyIngested => "newly_ingested"@,
            ProcessingStage::AwaitingContent => "awaiting_content"@,
            ProcessingStage::Scored => "scored"@,
            ProcessingStage::RoutedTitleOnly => "ai_summary_title_only"@,
            ProcessingStage::RoutedFullContent => "ai_summary_full"@,
            ProcessingStage::Rejected => "rejected"@,
            ProcessingStage::Accepted => "accepted"@,
        }
    }

    /// The stored tag of the stage.
    pub fn tag(&self) -> (r: String)
        ensures
            r@ == self.tag_spec(),
    {
        match self {
            ProcessingStage::NewlyIngested => String::from_str("newly_ingested"),
            ProcessingStage::AwaitingContent => String::from_str("awaiting_content"),
            ProcessingStage::Scored => String::from_str("scored"),
            ProcessingStage::RoutedTitleOnly => String::from_str("ai_summary_title_only"),
            ProcessingStage::RoutedFullContent => String::from_str("ai_summary_full"),
            ProcessingStage::Rejected => String::from_str("rejected"),
            ProcessingStage::Accepted => String::from_str("accepted"),
        }
    }
}

impl ProcessingStage {
    /// The stage whose stored tag is `tag`, if any.
    pub fn from_tag(tag: &str) -> (r: Option<ProcessingStage>)
        ensures
            r matches Some(st) ==> st.tag_spec() == tag@,
            r is None ==> forall|st: ProcessingStage| #[trigger] st.tag_spec() != tag@,
    {
        let owned = tag.to_owned();
        let all = [
            ProcessingStage::NewlyIngested,
            ProcessingStage::AwaitingContent,
            ProcessingStage::Scored,
            ProcessingStage::RoutedTitleOnly,
            ProcessingStage::RoutedFullContent,
            ProcessingStage::Rejected,
            ProcessingStage::Accepted,
        ];
        let mut i: usize = 0;
        while i < 7
            invariant
                owned@ == tag@,
                all@ == seq![
                    ProcessingStage::NewlyIngested,
                    ProcessingStage::AwaitingContent,
                    ProcessingStage::Scored,
                    ProcessingStage::RoutedTitleOnly,
                    ProcessingStage::RoutedFullContent,
                    ProcessingStage::Rejected,
                    ProcessingStage::Accepted,
                ],
                i <= 7,
                forall|j: int| 0 <= j < i ==> all@[j].tag_spec() != tag@,
            decreases 7 - i,
        {
            let st = all[i];
            if st.tag() == owned {
                return Some(st);
            }
            i = i + 1;
        }
        proof {
            assert forall|st: ProcessingStage| #[trigger] st.tag_spec() != tag@ by {
                match st {
                    ProcessingStage::NewlyIngested => assert(all@[0] == st),
                    ProcessingStage::AwaitingContent => assert(all@[1] == st),
                    ProcessingStage::Scored => assert(all@[2] == st),
                    ProcessingStage::RoutedTitleOnly => assert(all@[3] == st),
                    ProcessingStage::RoutedFullContent => assert(all@[4] == st),
                    ProcessingStage::Rejected => assert(all@[5] == st),
                    ProcessingStage::Accepted => assert(all@[6] == st),
                }
            }
        }
        None
    }
}

impl Priority {
    pub open spec fn text_spec(self) -> Seq<char> {
        match self {
            Priority::Urgent => "URGENT"@,
            Priority::Normal => "NORMAL"@,
        }
    }

    /// The priority as carried in messages.
    pub fn as_text(&self) -> (r: String)
        ensures
            r@ == self.text_spec(),
    {
        match self {
            Priority::Urgent => String::from_str("URGENT"),
            Priority::Normal => String::from_str("NORMAL"),
        }
    }
}

/// Routing priority of a scored tender: urgent when the model bids.
pub fn priority_for(should_bid: bool) -> (r: Priority)
    ensures
        r == (if should_bid {
            Priority::Urgent
        } else {
            Priority::Normal
        }),
{
    if should_bid {
        Priority::Urgent
    } else {
        Priority::Normal
    }
}

/// Length in UTF-8 bytes of `s` once leading and trailing whitespace is removed.
pub open spec fn trimmed_bytes(s: Seq<char>) -> usize {
    encode_utf8(trim_seq(s)).len() as usize
}

proof fn lemma_trim_start_solid(s: Seq<char>)
    ensures
        trim_start_seq(s).len() > 0 ==> exists|i: int| 0 <= i < s.len() && !is_white(#[trigger] s[i]),
    decreases s.len(),
{
    if s.len() > 0 && is_white(s[0]) {
        let t = s.drop_first();
        lemma_trim_start_solid(t);
        if trim_start_seq(s).len() > 0 {
            let i = choose|i: int| 0 <= i < t.len() && !is_white(#[trigger] t[i]);
            assert(s[i + 1] == t[i]);
        }
    } else if s.len() > 0 {
        assert(!is_white(s[0]));
    }
}

proof fn lemma_solid_has_word(s: Seq<char>, i: int)
    requires
        0 <= i < s.len(),
        !is_white(s[i]),
    ensures
        word_count(s) > 0,
    decreases s.len(),
{
    let p = s.drop_last();
    if i == s.len() - 1 {
        if s.len() == 1 || is_white(s[s.len() - 2]) {
            assert(starts_word(s, s.len() - 1));
        } else {
            assert(p[i - 1] == s[i - 1]);
            lemma_solid_has_word(p, i - 1);
        }
    } else {
        assert(p[i] == s[i]);
        lemma_solid_has_word(p, i);
    }
}

/// Text whose trimmed form is not empty has a word.
pub proof fn lemma_trimmed_text_has_words(s: Seq<char>)
    requires
        trimmed_bytes(s) > 0,
    ensures
        word_count(s) > 0,
{
    let t = trim_start_seq(s);
    assert(trim_seq(s).len() > 0);
    if t.len() == 0 {
        assert(trim_end_seq(t) == t);
    }
    lemma_trim_start_solid(s);
    let i = choose|i: int| 0 <= i < s.len() && !is_white(#[trigger] s[i]);
    lemma_solid_has_word(s, i);
}

/// Length in UTF-8 bytes of `text` once leading and trailing whitespace is
/// removed.
pub fn trimmed_length(text: &str) -> (n: usize)
    ensures
        n == trimmed_bytes(text@),
        n > 0 ==> word_count(text@) > 0,
{
    let t = trim_str(text);
    let n = t.len();
    proof {
        if n > 0 {
            lemma_trimmed_text_has_words(text@);
        }
    }
    n
}

/// Addresses of the queues and topic that the routing step sends to.
pub struct Config {
    pub ai_summary_queue_url: String,
    pub sns_topic_arn: String,
    pub aws_region: String,
}

/// Settings of the routing step.
pub struct RoutingPolicy {
    /// Trimmed document length, in UTF-8 bytes, below which a tender is
    /// reviewed by title only.
    pub min_content_length: usize,
}

/// What the routing step decided for one tender.
pub struct RoutingDecision {
    pub stage: ProcessingStage,
    /// The scoring outcome, present exactly when the tender was scored.
    pub prediction: Option<MLPredictionResult>,
    pub priority: Priority,
}

impl RoutingPolicy {
    /// The current policy: at least 100 bytes of trimmed document text.
    pub fn new() -> (r: Self)
        ensures
            r.min_content_length == 100,
    {
        RoutingPolicy { min_content_length: 100 }
    }

    /// The tender has a document URL and its document text, trimmed, is at
    /// least the minimum length: it can be scored.
    pub open spec fn usable(&self, tender: TenderRecord) -> bool {
        &&& tender.pdf_url@.len() > 0
        &&& self.min_content_length > 0
        &&& trimmed_bytes(content_of(tender.pdf_content)) >= self.min_content_length
    }

    /// Routes a newly ingested tender. Without a document URL, or without
    /// enough document text, it goes
    /// to title-only review at normal priority, unscored. Otherwise it is
    /// scored and goes to full-content review with the score attached, at
    /// urgent priority when the model bids and normal priority otherwise.
    pub fn route(&self, model: &OptimizedBidPredictor, tender: &TenderRecord) -> (r: RoutingDecision)
        requires
            model.wf(),
        ensures
            !self.usable(*tender) ==> r.stage == ProcessingStage::RoutedTitleOnly
                && r.prediction is None && r.priority == Priority::Normal,
            self.usable(*tender) ==> r.stage == ProcessingStage::RoutedFullContent
                && r.prediction is Some,
            r.prediction matches Some(p) ==> (exists|f|
                #[trigger] model.feature_extractor.features_of(*tender, f) && model.result_of(f, p))
                && r.priority == (if p.should_bid {
                Priority::Urgent
            } else {
                Priority::Normal
            }),
    {
        let len = match &tender.pdf_content {
            Some(c) => trimmed_length(c.as_str()),
            None => 0,
        };
        if tender.pdf_url.as_str().is_empty() || self.min_content_length == 0 || len
            < self.min_content_length {
            return RoutingDecision {
                stage: ProcessingStage::RoutedTitleOnly,
                prediction: None,
                priority: Priority::Normal,
            };
        }
        match model.predict(tender) {
            Ok(p) => {
                let priority = priority_for(p.should_bid);
                RoutingDecision {
                    stage: ProcessingStage::RoutedFullContent,
                    prediction: Some(p),
                    priority,
                }
            },
            Err(_) => RoutingDecision {
                stage: ProcessingStage::RoutedTitleOnly,
                prediction: None,
                priority: Priority::Normal,
            },
        }
    }
}

/// What a handler does with an inbound message once it has processed it.
#[derive(Debug, Clone, Copy, PartialEq, Eq, Structural)]
pub enum MessageAction {
    /// Remove the message from its queue: its outcome is stored.
    Acknowledge,
    /// Leave the message for redelivery: nothing was committed.
    LeaveForRedelivery,
    /// Drop the message: it can never be processed.
    DeadLetter,
}

/// What happened to one inbound message.
#[derive(Debug, Clone, Copy, PartialEq, Eq, Structural)]
pub enum MessageOutcome {
    /// The message did not parse into a tender.
    Malformed,
    /// The message was processed; `stored` tells whether the durable write
    /// of its outcome succeeded.
    Processed { stored: bool },
}

/// A message is acknowledged only after its outcome is stored. A failed
/// write leaves it for redelivery; a message that cannot parse is dropped.
pub fn message_action(outcome: MessageOutcome) -> (r: MessageAction)
    ensures
        r == MessageAction::Acknowledge <==> outcome == (MessageOutcome::Processed { stored: true }),
        r == MessageAction::LeaveForRedelivery <==> outcome == (MessageOutcome::Processed {
            stored: false,
        }),
        r == MessageAction::DeadLetter <==> outcome == MessageOutcome::Malformed,
{
    match outcome {
        MessageOutcome::Malformed => MessageAction::DeadLetter,
        MessageOutcome::Processed { stored } => if stored {
            MessageAction::Acknowledge
        } else {
            MessageAction::LeaveForRedelivery
        },
    }
}

/// The placeholder prediction that a title-only review message carries: no
/// bid, confidence zero, every contribution zero.
pub fn title_only_prediction() -> (r: MLPredictionResult)
    ensures
        !r.should_bid,
        r.confidence == 0,
        r.reasoning@ == "Title-only analysis - no PDF content available"@,
        r.feature_scores.codes_count_score == 0,
        r.feature_scores.has_codes_score == 0,
        r.feature_scores.title_length_score == 0,
        r.feature_scores.ca_score == 0,
        r.feature_scores.text_features_score == 0,
        r.feature_scores.total_score == 0,
{
    MLPredictionResult {
        should_bid: false,
        confidence: 0,
        reasoning: String::from_str("Title-only analysis - no PDF content available"),
        feature_scores: FeatureScores {
            codes_count_score: 0,
            has_codes_score: 0,
            title_length_score: 0,
            ca_score: 0,
            text_features_score: 0,
            total_score: 0,
        },
    }
}

} // verus!
