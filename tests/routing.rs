use tender_triage::codes::{extract_codes, strip_html};
use tender_triage::notify::NotificationPriority;
use tender_triage::routing::{
    can_advance, message_action, priority_for, title_only_prediction, trimmed_length,
    MessageAction, MessageOutcome, Priority, ProcessingStage, RoutingPolicy,
};
use tender_triage::scoring::OptimizedBidPredictor;
use tender_triage::summary::{default_reasoning, AIService};
use tender_triage::tender::TenderRecord;
use tender_triage::text::count_words;

fn tender(title: &str, content: Option<&str>, codes: Option<i32>) -> TenderRecord {
    TenderRecord {
        resource_id: 7,
        title: title.to_string(),
        contracting_authority: "Health Service Executive".to_string(),
        info: String::new(),
        published: None,
        deadline: None,
        procedure: "Open".to_string(),
        status: "Open".to_string(),
        pdf_url: "notice.pdf".to_string(),
        awarddate: None,
        value: None,
        cycle: "2024".to_string(),
        bid: None,
        pdf_content: content.map(|c| c.to_string()),
        detected_codes: None,
        codes_count: codes,
        processing_stage: None,
        ml_bid: None,
        ml_confidence: None,
        ml_reasoning: None,
    }
}

#[test]
fn test_ai_summary_message_creation() {
    let priority = priority_for(true);
    assert_eq!(priority.as_text(), "URGENT");
    assert_eq!(priority_for(false).as_text(), "NORMAL");
}

#[test]
fn test_code_extraction() {
    let text = "This document includes requirements for IT services (72000000) 
                including Software programming and consultancy services (72200000).
                We're looking for Internet services (72400000) as well.";
    let codes: Vec<String> = ["72000000", "72200000", "72400000", "45000000", "79000000"]
        .iter()
        .map(|c| c.to_string())
        .collect();
    let detected = extract_codes(text, &codes);
    assert!(!detected.is_empty(), "Should detect at least one code");
    assert!(detected.contains(&"72000000".to_string()), "Should detect 72000000");
    assert!(detected.contains(&"72200000".to_string()), "Should detect 72200000");
    assert!(detected.contains(&"72400000".to_string()), "Should detect 72400000");
    assert_eq!(detected.len(), 3, "Should detect exactly 3 codes");
}

#[test]
fn empty_tender_goes_to_title_review() {
    let model = OptimizedBidPredictor::new();
    let policy = RoutingPolicy::new();
    let d = policy.route(&model, &tender("", Some(""), None));
    assert_eq!(d.stage, ProcessingStage::RoutedTitleOnly);
    assert!(d.prediction.is_none());
    assert_eq!(d.priority, Priority::Normal);
    let e = policy.route(&model, &tender("", None, None));
    assert_eq!(e.stage, ProcessingStage::RoutedTitleOnly);
}

#[test]
fn stub_content_goes_to_title_review() {
    let model = OptimizedBidPredictor::new();
    let policy = RoutingPolicy::new();
    let stub = format!("   {}   ", "x".repeat(99));
    let d = policy.route(&model, &tender("Software support", Some(&stub), Some(3)));
    assert_eq!(d.stage, ProcessingStage::RoutedTitleOnly);
    assert!(d.prediction.is_none());
}

#[test]
fn substantial_content_is_scored_and_forwarded() {
    let model = OptimizedBidPredictor::new();
    let policy = RoutingPolicy::new();
    let content = "software development technical support computer systems ".repeat(3);
    let d = policy.route(&model, &tender("Software Development Services", Some(&content), Some(3)));
    assert_eq!(d.stage, ProcessingStage::RoutedFullContent);
    let p = d.prediction.unwrap();
    assert!(p.should_bid);
    assert_eq!(d.priority, Priority::Urgent);
}

#[test]
fn no_bid_is_still_forwarded_at_normal_priority() {
    let model = OptimizedBidPredictor::new();
    let policy = RoutingPolicy::new();
    let content = "construction works civil engineering excavation ".repeat(5);
    let d = policy.route(&model, &tender("Road works", Some(&content), Some(0)));
    assert_eq!(d.stage, ProcessingStage::RoutedFullContent);
    assert!(!d.prediction.unwrap().should_bid);
    assert_eq!(d.priority, Priority::Normal);
}

#[test]
fn stages_only_move_forward() {
    assert!(can_advance(ProcessingStage::NewlyIngested, ProcessingStage::RoutedTitleOnly));
    assert!(can_advance(ProcessingStage::NewlyIngested, ProcessingStage::Scored));
    assert!(can_advance(ProcessingStage::Scored, ProcessingStage::RoutedFullContent));
    assert!(can_advance(ProcessingStage::RoutedFullContent, ProcessingStage::Accepted));
    assert!(!can_advance(ProcessingStage::Scored, ProcessingStage::NewlyIngested));
    assert!(!can_advance(ProcessingStage::Rejected, ProcessingStage::Accepted));
    assert!(!can_advance(ProcessingStage::Accepted, ProcessingStage::RoutedTitleOnly));
    assert!(!can_advance(ProcessingStage::Scored, ProcessingStage::Scored));
    assert_eq!(ProcessingStage::RoutedTitleOnly.tag(), "ai_summary_title_only");
}

#[test]
fn trimmed_length_and_words() {
    assert_eq!(trimmed_length("  ab  c \n"), 5);
    assert_eq!(trimmed_length(" caf\u{e9} "), 5);
    assert_eq!(trimmed_length(" \t "), 0);
    assert_eq!(trimmed_length(""), 0);
    assert_eq!(count_words("  a  b\tc\n"), 3);
    assert_eq!(count_words("\u{3000}"), 0);
}

#[test]
fn strip_html_removes_tags_and_trims() {
    assert_eq!(strip_html("  <p>Hello <b>world</b></p>\n"), "Hello world");
    assert_eq!(strip_html("no tags"), "no tags");
    assert_eq!(strip_html("<br/>"), "");
}

#[test]
fn notification_priority_from_text() {
    assert_eq!(NotificationPriority::from("urgent"), NotificationPriority::Urgent);
    assert_eq!(NotificationPriority::from("High"), NotificationPriority::High);
    assert_eq!(NotificationPriority::from("low"), NotificationPriority::Normal);
    assert_eq!(NotificationPriority::from_upper("urgent"), NotificationPriority::Normal);
}

#[test]
fn recommendation_from_reply() {
    assert_eq!(AIService::extract_recommendation_from_text("We RECOMMEND BID here"), "BID");
    assert_eq!(AIService::extract_recommendation_from_text("Do Not Bid"), "NO BID");
    assert_eq!(
        AIService::extract_recommendation_from_text("This is an IT project"),
        "BID - IT opportunity identified"
    );
    assert_eq!(
        AIService::extract_recommendation_from_text("unclear"),
        "Review the summary for recommendations"
    );
    assert_eq!(AIService::recommendation_from_lowered("RECOMMEND BID"), "Review the summary for recommendations");
}

#[test]
fn service_and_default_reasoning() {
    let _service = AIService::new("SECRET-REDACTED".to_string());
    assert_eq!(default_reasoning(), "No reasoning provided");
}

#[test]
fn stage_tags_round_trip() {
    for st in [
        ProcessingStage::NewlyIngested,
        ProcessingStage::AwaitingContent,
        ProcessingStage::Scored,
        ProcessingStage::RoutedTitleOnly,
        ProcessingStage::RoutedFullContent,
        ProcessingStage::Rejected,
        ProcessingStage::Accepted,
    ] {
        assert_eq!(ProcessingStage::from_tag(&st.tag()), Some(st));
    }
    assert_eq!(ProcessingStage::from_tag("ml_prediction"), None);
}

#[test]
fn missing_document_url_goes_to_title_review() {
    let model = OptimizedBidPredictor::new();
    let policy = RoutingPolicy::new();
    let content = "software development technical support computer systems ".repeat(3);
    let mut t = tender("Software Development Services", Some(&content), Some(3));
    t.pdf_url = String::new();
    let d = policy.route(&model, &t);
    assert_eq!(d.stage, ProcessingStage::RoutedTitleOnly);
    assert!(d.prediction.is_none());
}

#[test]
fn minimum_length_counts_utf8_bytes() {
    let model = OptimizedBidPredictor::new();
    let policy = RoutingPolicy::new();
    // 60 characters, 120 bytes: long enough.
    let content = "\u{e9}".repeat(60);
    let d = policy.route(&model, &tender("Services", Some(&content), Some(1)));
    assert_eq!(d.stage, ProcessingStage::RoutedFullContent);
    // 99 bytes: too short.
    let d = policy.route(&model, &tender("Services", Some(&"y".repeat(99)), Some(1)));
    assert_eq!(d.stage, ProcessingStage::RoutedTitleOnly);
}

#[test]
fn messages_acknowledged_only_after_storage() {
    assert_eq!(message_action(MessageOutcome::Processed { stored: true }), MessageAction::Acknowledge);
    assert_eq!(
        message_action(MessageOutcome::Processed { stored: false }),
        MessageAction::LeaveForRedelivery
    );
    assert_eq!(message_action(MessageOutcome::Malformed), MessageAction::DeadLetter);
}

#[test]
fn title_only_placeholder_prediction() {
    let p = title_only_prediction();
    assert!(!p.should_bid);
    assert_eq!(p.confidence, 0);
    assert_eq!(p.reasoning, "Title-only analysis - no PDF content available");
    assert_eq!(p.feature_scores.total_score, 0);
}
