use tender_triage::codes::parse_codes;
use tender_triage::features::FeatureVector;
use tender_triage::notify::NotificationService;
use tender_triage::scoring::OptimizedBidPredictor;
use tender_triage::summary::AISummaryResult;

fn summary(recommendation: &str, notes: &[&str]) -> AISummaryResult {
    AISummaryResult {
        resource_id: 1,
        summary_type: "FULL_PDF".to_string(),
        ai_summary: String::new(),
        key_points: vec![],
        recommendation: recommendation.to_string(),
        confidence_assessment: String::new(),
        processing_notes: notes.iter().map(|n| n.to_string()).collect(),
        created_at: "2024-01-01T00:00:00Z".to_string(),
    }
}

fn prediction(codes: u64) -> tender_triage::scoring::MLPredictionResult {
    let model = OptimizedBidPredictor::new();
    model.score(&FeatureVector {
        codes_count: codes,
        has_codes: if codes > 0 { 1 } else { 0 },
        title_length: 10,
        ca_encoded: 1,
        exclusion_score: if codes > 0 { 0 } else { 4_500_000 },
        term_scores: vec![0; 10],
    })
}

#[test]
fn notifies_when_summary_recommends_bid() {
    assert!(NotificationService::should_send_notification(&summary("BID", &[]), &prediction(0)));
    assert!(NotificationService::should_send_notification(&summary("Recommend Bid", &[]), &prediction(0)));
}

#[test]
fn suppressed_when_summary_says_no_bid() {
    assert!(!NotificationService::should_send_notification(&summary("NO BID", &[]), &prediction(3)));
    assert!(!NotificationService::should_send_notification(&summary("Skip it", &[]), &prediction(3)));
}

#[test]
fn unparsed_reply_falls_back_to_model() {
    let notes = ["Summary reply could not be parsed as JSON"];
    let fallback = "Review the summary for recommendations";
    assert!(prediction(3).should_bid);
    assert!(NotificationService::should_send_notification(&summary(fallback, &notes), &prediction(3)));
    assert!(!NotificationService::should_send_notification(&summary(fallback, &notes), &prediction(0)));
    assert!(!NotificationService::should_send_notification(&summary(fallback, &[]), &prediction(3)));
}

#[test]
fn codes_file_parsing() {
    let text = "72000000,IT services\n 72200000 , Software\r\n\n,empty\n72400000";
    assert_eq!(parse_codes(text), vec!["72000000", "72200000", "72400000"]);
    assert!(parse_codes("").is_empty());
    assert!(parse_codes("\n\n").is_empty());
}
