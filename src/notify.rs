//! Settings and priorities of the notification step.
use crate::scoring::MLPredictionResult;
use crate::summary::AISummaryResult;
use crate::text::{contains_seq, lower_of, str_contains, to_lower, to_upper, upper_of};
use vstd::prelude::*;

verus! {

/// Settings of the notification step.
pub struct Config {
    pub notification_emails: Vec<String>,
    pub from_email: String,
    pub aws_region: String,
}

/// Priority of a notification.
#[derive(Debug, Clone, Copy, PartialEq, Eq, Structural)]
pub enum NotificationPriority {
    Urgent,
    High,
    Normal,
}

/// Priority named by an uppercase tag: `URGENT`, `HIGH`, anything else normal.
pub open spec fn priority_of_upper(u: Seq<char>) -> NotificationPriority {
    if u == "URGENT"@ {
        NotificationPriority::Urgent
    } else if u == "HIGH"@ {
        NotificationPriority::High
    } else {
        NotificationPriority::Normal
    }
}

impl NotificationPriority {
    /// Priority named by an already uppercased tag.
    pub fn from_upper(u: &str) -> (r: NotificationPriority)
        ensures
            r == priority_of_upper(u@),
    {
        let owned = u.to_owned();
        if owned == String::from_str("URGENT") {
            NotificationPriority::Urgent
        } else if owned == String::from_str("HIGH") {
            NotificationPriority::High
        } else {
            NotificationPriority::Normal
        }
    }

    /// Priority named by a tag, in any case.
    pub fn from(s: &str) -> (r: NotificationPriority)
        ensures
            r == priority_of_upper(upper_of(s@)),
    {
        let u = to_upper(s);
        NotificationPriority::from_upper(u.as_str())
    }
}

/// Sends the summary-complete notifications.
pub struct NotificationService {
    pub queue_url: String,
}

/// Some processing note says that the reply could not be parsed as JSON.
pub open spec fn notes_report_unparsed(notes: Seq<Seq<char>>) -> bool {
    exists|i: int| 0 <= i < notes.len() && contains_seq(#[trigger] notes[i], "could not be parsed as JSON"@)
}

/// Whether to notify: when the recommendation is the fallback for a reply
/// that could not be parsed, the model's decision; otherwise whether the
/// lowercased recommendation mentions `bid` but not `no bid`.
pub open spec fn notify_decision(
    recommendation: Seq<char>,
    lowered: Seq<char>,
    notes: Seq<Seq<char>>,
    model_bids: bool,
) -> bool {
    if recommendation == "Review the summary for recommendations"@ && notes_report_unparsed(notes) {
        model_bids
    } else {
        contains_seq(lowered, "bid"@) && !contains_seq(lowered, "no bid"@)
    }
}

fn any_note_unparsed(notes: &Vec<String>) -> (r: bool)
    ensures
        r == notes_report_unparsed(notes@.map_values(|n: String| n@)),
{
    let ghost view = notes@.map_values(|n: String| n@);
    let mut i: usize = 0;
    while i < notes.len()
        invariant
            i <= notes.len(),
            view == notes@.map_values(|n: String| n@),
            forall|j: int| 0 <= j < i ==> !contains_seq(#[trigger] view[j], "could not be parsed as JSON"@),
        decreases notes.len() - i,
    {
        if str_contains(notes[i].as_str(), "could not be parsed as JSON") {
            assert(contains_seq(view[i as int], "could not be parsed as JSON"@));
            return true;
        }
        i = i + 1;
    }
    false
}

impl NotificationService {
    /// The notification decision, given the recommendation already lowercased.
    pub fn notification_decision(
        recommendation: &str,
        lowered: &str,
        notes: &Vec<String>,
        model_bids: bool,
    ) -> (r: bool)
        ensures
            r == notify_decision(
                recommendation@,
                lowered@,
                notes@.map_values(|n: String| n@),
                model_bids,
            ),
    {
        let fallback_text = String::from_str("Review the summary for recommendations");
        let owned = recommendation.to_owned();
        if owned == fallback_text && any_note_unparsed(notes) {
            return model_bids;
        }
        str_contains(lowered, "bid") && !str_contains(lowered, "no bid")
    }

    /// Whether a finished summary is worth a notification: the summary's
    /// recommendation decides, and the model's decision stands in when the
    /// summary is only the fallback for an unparsed reply.
    pub fn should_send_notification(
        summary_result: &AISummaryResult,
        ml_prediction: &MLPredictionResult,
    ) -> (r: bool)
        ensures
            r == notify_decision(
                summary_result.recommendation@,
                lower_of(summary_result.recommendation@),
                summary_result.processing_notes@.map_values(|n: String| n@),
                ml_prediction.should_bid,
            ),
    {
        let lowered = to_lower(summary_result.recommendation.as_str());
        NotificationService::notification_decision(
            summary_result.recommendation.as_str(),
            lowered.as_str(),
            &summary_result.processing_notes,
            ml_prediction.should_bid,
        )
    }
}

} // verus!
