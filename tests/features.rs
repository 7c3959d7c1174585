use tender_triage::features::{
    exclusion_density, fold_hash, term_frequency_score, FeatureExtractor, FeatureVector,
    EXCLUSION_CEILING,
};
use tender_triage::tender::TenderRecord;

fn tender(title: &str, authority: &str, content: Option<&str>, codes: Option<i32>) -> TenderRecord {
    TenderRecord {
        resource_id: 123,
        title: title.to_string(),
        contracting_authority: authority.to_string(),
        info: "Test info".to_string(),
        published: None,
        deadline: None,
        procedure: "Open".to_string(),
        status: "Open".to_string(),
        pdf_url: "test.pdf".to_string(),
        awarddate: None,
        value: Some("100000".to_string()),
        cycle: "2024".to_string(),
        bid: None,
        pdf_content: content.map(|c| c.to_string()),
        detected_codes: None,
        codes_count: codes,
        processing_stage: Some("ml_prediction".to_string()),
        ml_bid: None,
        ml_confidence: None,
        ml_reasoning: None,
    }
}

#[test]
fn test_feature_extraction() {
    let extractor = FeatureExtractor::new();
    let t = tender(
        "Software Development and Technical Support Services",
        "Health Service Executive",
        Some("We require comprehensive software development services including technical support and computer systems management."),
        Some(3),
    );
    let features = extractor.extract_features(&t);
    assert_eq!(features.codes_count, 3);
    assert_eq!(features.has_codes, 1);
    assert!(features.title_length > 0);
    assert!(features.ca_encoded > 0);
    assert!(features.term_scores[0] > 0);
    assert!(features.term_scores[1] > 0);
    assert!(features.term_scores[9] > 0);
}

#[test]
fn test_ca_encoding() {
    let extractor = FeatureExtractor::new();
    let hse_code = extractor.encode_contracting_authority("Health Service Executive");
    assert_eq!(hse_code, 1);
    let unknown_code = extractor.encode_contracting_authority("Unknown Authority");
    assert!(unknown_code >= 11 && unknown_code <= 100);
}

#[test]
fn test_tfidf_calculation() {
    let extractor = FeatureExtractor::new();
    let text = "software development technical support computer systems";
    let features = extractor.calculate_tfidf_features(text);
    assert_eq!(features.len(), 10);
    assert!(features[0] > 0);
    assert!(features[1] > 0);
    assert!(features[3] > 0);
    assert!(features[5] > 0);
    assert!(features[9] > 0);
}

#[test]
fn test_empty_text_handling() {
    let extractor = FeatureExtractor::new();
    let features = extractor.calculate_tfidf_features("");
    assert_eq!(features.len(), 10);
    assert!(features.iter().all(|&f| f == 0));
}

#[test]
fn tfidf_exact_values() {
    let extractor = FeatureExtractor::new();
    let features =
        extractor.calculate_tfidf_features("software development technical support computer systems");
    assert_eq!(features, vec![416_666, 333_333, 0, 300_000, 0, 200_000, 0, 0, 0, 250_000]);
}

#[test]
fn tfidf_whole_words_only_and_case_insensitive() {
    let extractor = FeatureExtractor::new();
    let features = extractor.calculate_tfidf_features("SOFTWARE softwares alpha alpha alpha");
    assert_eq!(features[0], 500_000);
}

#[test]
fn tfidf_capped_at_one() {
    let extractor = FeatureExtractor::new();
    let features = extractor.calculate_tfidf_features("software");
    assert_eq!(features[0], 1_000_000);
}

#[test]
fn exclusion_exact_density() {
    let extractor = FeatureExtractor::new();
    let mut text = String::from("the construction");
    for _ in 0..48 {
        text.push_str(" alpha");
    }
    assert_eq!(extractor.calculate_exclusion_score(&text), 3_000_000);
}

#[test]
fn exclusion_capped_at_ceiling() {
    let extractor = FeatureExtractor::new();
    let score = extractor.calculate_exclusion_score("construction works civil engineering excavation");
    assert_eq!(score, EXCLUSION_CEILING);
}

#[test]
fn exclusion_phrase_weight() {
    let extractor = FeatureExtractor::new();
    let mut text = String::from("cleaning services");
    for _ in 0..98 {
        text.push_str(" alpha");
    }
    // "cleaning" (1) plus the phrase (1.5) over 100 words, per 50 words.
    assert_eq!(extractor.calculate_exclusion_score(&text), 1_250_000);
}

#[test]
fn empty_content_scores_zero() {
    let extractor = FeatureExtractor::new();
    assert_eq!(extractor.calculate_exclusion_score(""), 0);
    assert_eq!(extractor.calculate_exclusion_score("   \t\n"), 0);
    let features = extractor.calculate_tfidf_features("  \n ");
    assert!(features.iter().all(|&f| f == 0));
    let t = tender("", "", Some(""), None);
    let f = extractor.extract_features(&t);
    assert_eq!(f.exclusion_score, 0);
    assert!(f.term_scores.iter().all(|&s| s == 0));
}

#[test]
fn missing_or_negative_codes_read_as_zero() {
    let extractor = FeatureExtractor::new();
    let f = extractor.extract_features(&tender("Title", "Irish Water", None, Some(-4)));
    assert_eq!(f.codes_count, 0);
    assert_eq!(f.has_codes, 0);
    assert_eq!(f.ca_encoded, 9);
    let g = extractor.extract_features(&tender("Title", "Irish Water", None, None));
    assert_eq!(g.codes_count, 0);
}

#[test]
fn unknown_authority_hash_is_stable_and_in_range() {
    let extractor = FeatureExtractor::new();
    let a = extractor.encode_contracting_authority("Kildare County Council");
    let b = extractor.encode_contracting_authority("Kildare County Council");
    assert_eq!(a, b);
    assert!(a >= 11 && a <= 100);
}

#[test]
fn title_length_counts_characters() {
    let extractor = FeatureExtractor::new();
    let f = extractor.extract_features(&tender("Café", "x", None, None));
    assert_eq!(f.title_length, 4);
}

#[test]
fn feature_array_order() {
    let f = FeatureVector {
        codes_count: 2,
        has_codes: 1,
        title_length: 40,
        ca_encoded: 7,
        exclusion_score: 500_000,
        term_scores: vec![1, 2],
    };
    assert_eq!(f.to_array(), vec![2, 1, 40, 7, 500_000, 1, 2]);
}

#[test]
fn term_weights_follow_the_term() {
    assert_eq!(FeatureExtractor::get_term_idf_weight("software"), 2_500_000);
    assert_eq!(FeatureExtractor::get_term_idf_weight("support"), 2_000_000);
    assert_eq!(FeatureExtractor::get_term_idf_weight("computer"), 1_800_000);
    assert_eq!(FeatureExtractor::get_term_idf_weight("technical"), 1_500_000);
    assert_eq!(FeatureExtractor::get_term_idf_weight("services"), 1_300_000);
    assert_eq!(FeatureExtractor::get_term_idf_weight("systems"), 1_200_000);
    assert_eq!(FeatureExtractor::get_term_idf_weight("package"), 1_000_000);
    let x = FeatureExtractor::new();
    assert_eq!(x.key_terms[4].weight, 1_300_000);
}

#[test]
fn density_and_frequency_formulas() {
    assert_eq!(exclusion_density(6, 50), 3_000_000);
    assert_eq!(exclusion_density(5, 100), 1_250_000);
    assert_eq!(exclusion_density(1_000, 3), EXCLUSION_CEILING);
    assert_eq!(exclusion_density(7, 0), 0);
    assert_eq!(term_frequency_score(2, 2_500_000, 12), 416_666);
    assert_eq!(term_frequency_score(3, 2_500_000, 2), 1_000_000);
    assert_eq!(term_frequency_score(3, 2_500_000, 0), 0);
    assert_eq!(fold_hash(0), 11);
    assert_eq!(fold_hash(89), 100);
    assert_eq!(fold_hash(90), 11);
}
