use tender_triage::features::FeatureVector;
use tender_triage::fixed::squash;
use tender_triage::scoring::{OptimizedBidPredictor, PredictError};
use tender_triage::tender::TenderRecord;

fn tender(title: &str, authority: &str, content: Option<&str>, codes: Option<i32>) -> TenderRecord {
    TenderRecord {
        resource_id: 123567765,
        title: title.to_string(),
        contracting_authority: authority.to_string(),
        info: "Test info".to_string(),
        published: None,
        deadline: None,
        procedure: "Open".to_string(),
        status: "Open".to_string(),
        pdf_url: "test.pdf".to_string(),
        awarddate: None,
        value: Some("100000".to_string()),
        cycle: "2024".to_string(),
        bid: None,
        pdf_content: content.map(|c| c.to_string()),
        detected_codes: None,
        codes_count: codes,
        processing_stage: Some("ml_prediction".to_string()),
        ml_bid: None,
        ml_confidence: None,
        ml_reasoning: None,
    }
}

fn features(codes: u64, exclusion: u64, terms: Vec<u64>) -> FeatureVector {
    FeatureVector {
        codes_count: codes,
        has_codes: if codes > 0 { 1 } else { 0 },
        title_length: 51,
        ca_encoded: 1,
        exclusion_score: exclusion,
        term_scores: terms,
    }
}

#[test]
fn test_predictor_initialization() {
    let predictor = OptimizedBidPredictor::new();
    assert_eq!(predictor.get_threshold(), 54_000);
}

#[test]
fn test_prediction_with_software_tender() {
    let predictor = OptimizedBidPredictor::new();
    let t = tender(
        "Software Development Services",
        "Test Authority",
        Some("Software development and technical support services"),
        Some(3),
    );
    let result = predictor.predict(&t).unwrap();
    assert!(result.confidence > 0);
    assert!(result.reasoning.contains("software") || result.reasoning.contains("codes"));
}

#[test]
fn test_feature_normalization() {
    let predictor = OptimizedBidPredictor::new();
    let f = FeatureVector {
        codes_count: 5,
        has_codes: 1,
        title_length: 150,
        ca_encoded: 50,
        exclusion_score: 500_000,
        term_scores: vec![300_000, 0, 0, 0, 0, 0, 0, 0, 0, 0],
    };
    let normalized = predictor.normalize_features(&f);
    assert!(normalized[0] <= 1_000_000);
    assert_eq!(normalized[1], 1_000_000);
    assert!(normalized[2] <= 1_000_000);
    assert_eq!(normalized[..5], [250_000, 1_000_000, 750_000, 500_000, 50_000]);
}

#[test]
fn software_tender_bids_with_reasoning() {
    let predictor = OptimizedBidPredictor::new();
    let t = tender(
        "Software Development and Technical Support Services",
        "Health Service Executive",
        Some("software development technical support computer systems"),
        Some(3),
    );
    let result = predictor.predict(&t).unwrap();
    assert!(result.should_bid);
    assert!(result.confidence > predictor.get_threshold());
    assert_eq!(result.confidence, 765_474);
    assert!(result.reasoning.contains("relevant codes"));
    assert!(result.reasoning.contains("software-related terms"));
    assert_eq!(
        result.reasoning,
        "HIGH_CONFIDENCE_BID: 3 relevant codes detected, software-related terms found, \
         support service terms found (Score: 77%, threshold: 5%)"
    );
}

#[test]
fn construction_tender_hard_excluded() {
    let predictor = OptimizedBidPredictor::new();
    let content = "construction works civil engineering excavation ".repeat(20);
    let t = tender("Road Improvement Scheme", "Kerry County Council", Some(&content), Some(2));
    let result = predictor.predict(&t).unwrap();
    assert!(!result.should_bid);
    assert_eq!(result.confidence, 0);
    assert!(result.reasoning.starts_with("HARD_EXCLUSION: Score 15.0"));
}

#[test]
fn missing_content_is_refused() {
    let predictor = OptimizedBidPredictor::new();
    assert!(matches!(
        predictor.predict(&tender("", "", None, None)),
        Err(PredictError::MissingContent)
    ));
    assert!(matches!(
        predictor.predict(&tender("", "", Some("  \n\t "), None)),
        Err(PredictError::MissingContent)
    ));
}

#[test]
fn empty_features_score_is_defined() {
    let predictor = OptimizedBidPredictor::new();
    let f = FeatureVector {
        codes_count: 0,
        has_codes: 0,
        title_length: 0,
        ca_encoded: 0,
        exclusion_score: 0,
        term_scores: vec![0; 10],
    };
    let r = predictor.score(&f);
    assert_eq!(r.confidence, 500_000);
    assert_eq!(r.feature_scores.total_score, 0);
}

#[test]
fn confidence_stays_in_unit_range() {
    let predictor = OptimizedBidPredictor::new();
    for (codes, excl) in [(0u64, 0u64), (20, 0), (1000, 0), (0, 1_500_000), (5, 3_900_000), (0, 15_000_000)] {
        let r = predictor.score(&features(codes, excl, vec![1_000_000; 10]));
        assert!(r.confidence <= 1_000_000);
    }
}

#[test]
fn scoring_twice_is_identical() {
    let predictor = OptimizedBidPredictor::new();
    let t = tender(
        "Managed IT Services",
        "Unknown Authority",
        Some("Provision of managed computer systems and technical support for the site"),
        Some(1),
    );
    let a = predictor.predict(&t).unwrap();
    let b = predictor.predict(&t).unwrap();
    assert_eq!(a.should_bid, b.should_bid);
    assert_eq!(a.confidence, b.confidence);
    assert_eq!(a.reasoning, b.reasoning);
    assert_eq!(a.feature_scores.total_score, b.feature_scores.total_score);
    assert_eq!(a.feature_scores.text_features_score, b.feature_scores.text_features_score);
}

#[test]
fn more_codes_never_lower_confidence() {
    let predictor = OptimizedBidPredictor::new();
    let terms = vec![416_666, 333_333, 0, 150_000, 108_333, 100_000, 0, 0, 0, 250_000];
    let none = predictor.score(&features(0, 0, terms.clone()));
    let three = predictor.score(&features(3, 0, terms.clone()));
    assert_eq!(none.confidence, 591_574);
    assert_eq!(three.confidence, 765_474);
    let soft = predictor.score(&features(0, 3_000_000, terms.clone()));
    let coded = predictor.score(&features(1, 3_000_000, terms));
    assert_eq!(soft.confidence, 10_000);
    assert!(coded.confidence >= soft.confidence);
}

#[test]
fn hard_exclusion_overrides_everything() {
    let predictor = OptimizedBidPredictor::new();
    let r = predictor.score(&features(20, 4_000_001, vec![1_000_000; 10]));
    assert!(!r.should_bid);
    assert_eq!(r.confidence, 0);
    let s = predictor.score(&features(20, 4_000_000, vec![1_000_000; 10]));
    assert!(s.confidence > 0);
}

#[test]
fn soft_exclusion_without_codes() {
    let predictor = OptimizedBidPredictor::new();
    let r = predictor.score(&features(0, 2_500_000, vec![0; 10]));
    assert!(!r.should_bid);
    assert_eq!(r.confidence, 10_000);
    assert_eq!(
        r.reasoning,
        "SOFT_EXCLUSION: Score 2.5 with no relevant codes - likely non-IT project without relevant codes."
    );
}

#[test]
fn threshold_rises_above_floor() {
    let predictor = OptimizedBidPredictor::new();
    assert_eq!(predictor.adjusted_threshold(1_000_000), 54_000);
    assert_eq!(predictor.adjusted_threshold(2_000_000), 108_000);
    assert_eq!(predictor.adjusted_threshold(4_000_000), 162_000);
    assert!(predictor.passes_threshold(54_000, 1_000_000));
    assert!(!predictor.passes_threshold(54_000, 2_000_000));
    assert!(predictor.passes_threshold(108_000, 2_000_000));
    assert!(!predictor.passes_threshold(107_999, 2_000_000));
}

#[test]
fn squash_known_values() {
    assert_eq!(squash(0), 500_000);
    assert_eq!(squash(1_000_000), 731_059);
    assert_eq!(squash(-1_000_000), 268_941);
    assert_eq!(squash(-1_920_000), 129_319);
    assert_eq!(squash(100_000_000), 999_665);
    assert_eq!(squash(i64::MIN), 335);
}

#[test]
fn feature_breakdown_values() {
    let predictor = OptimizedBidPredictor::new();
    let r = predictor.score(&features(3, 0, vec![0; 10]));
    assert_eq!(r.feature_scores.codes_count_score, 37_500);
    assert_eq!(r.feature_scores.has_codes_score, 100_000);
    assert_eq!(r.feature_scores.title_length_score, 5_100);
    assert_eq!(r.feature_scores.ca_score, 300);
    assert_eq!(r.feature_scores.text_features_score, 0);
    assert_eq!(r.feature_scores.total_score, 142_900);
}

#[test]
fn current_model_settings() {
    let p = OptimizedBidPredictor::new();
    assert_eq!(p.threshold, 54_000);
    assert_eq!(p.exclusion_adjustment, 500_000);
    assert_eq!(p.adjustment_floor, 1_000_000);
    assert_eq!(p.hard_exclusion, 4_000_000);
    assert_eq!(p.soft_exclusion, 2_000_000);
    assert_eq!(p.soft_confidence, 10_000);
    assert_eq!(p.steepness, 6);
    assert_eq!(p.feature_weights.len(), 15);
    assert_eq!(p.feature_weights[4], -800_000);
    assert_eq!(p.feature_extractor.authorities.len(), 10);
}

#[test]
fn higher_exclusion_never_raises_confidence() {
    let p = OptimizedBidPredictor::new();
    let terms = vec![416_666, 333_333, 0, 150_000, 108_333, 100_000, 0, 0, 0, 250_000];
    let mut last = u64::MAX;
    for e in [0u64, 500_000, 1_000_000, 2_000_000, 3_500_000, 4_000_000, 4_000_001, 15_000_000] {
        let c = p.score(&features(0, e, terms.clone())).confidence;
        assert!(c <= last);
        last = c;
    }
}
