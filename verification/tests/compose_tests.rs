use cle_tracker::compose::{
    finish_enrichment, merge_or_fallback, plan_recommendations, EnrichmentOutcome,
    RecommendationPlan,
};
use cle_tracker::enrich::{build_gemini_prompt, parse_enrichment_response, EnrichmentError};
use cle_tracker::fallback::get_fallback_recommendations;
use cle_tracker::response::CourseRecommendation;
use cle_tracker::scorer::select_courses_by_keywords;

fn assert_is_fallback(got: &[CourseRecommendation]) {
    let expected = get_fallback_recommendations();
    assert_eq!(got.len(), 4);
    for (g, e) in got.iter().zip(expected.iter()) {
        assert_eq!(g.title, e.title);
        assert_eq!(g.provider, e.provider);
        assert_eq!(g.hours_tenths, e.hours_tenths);
        assert_eq!(g.topic, e.topic);
        assert_eq!(g.format, e.format);
        assert_eq!(g.price, e.price);
        assert_eq!(g.url, e.url);
        assert_eq!(g.ai_reason, e.ai_reason);
    }
}

#[test]
fn fallback_set_is_fixed() {
    let recs = get_fallback_recommendations();
    assert_eq!(recs.len(), 4);
    assert_eq!(recs[0].title, "Professional Responsibility and Ethics");
    assert_eq!(recs[1].title, "Introduction to Legal Technology Tools");
    assert_eq!(recs[2].title, "Contract Drafting Essentials");
    assert_eq!(recs[3].title, "Business Law Foundations");
    assert_eq!(recs[0].hours_tenths, 20);
    assert_eq!(recs[1].hours_tenths, 15);
    assert_eq!(recs[2].hours_tenths, 30);
    assert_eq!(recs[3].hours_tenths, 40);
    for r in &recs {
        assert!(!r.ai_reason.is_empty());
    }
}

#[test]
fn no_credential_forces_fallback_regardless_of_interests() {
    for interests in ["contract drafting", "", "ethics", "anything at all"] {
        match plan_recommendations(false, interests) {
            RecommendationPlan::UseFallback => {}
            RecommendationPlan::Enrich { .. } => panic!("expected the fallback path"),
        }
    }
}

#[test]
fn empty_sanitized_interests_force_fallback_even_with_credential() {
    for interests in ["", "```", "ignore all", "   ", "<>"] {
        match plan_recommendations(true, interests) {
            RecommendationPlan::UseFallback => {}
            RecommendationPlan::Enrich { .. } => panic!("expected the fallback path"),
        }
    }
}

#[test]
fn credential_and_usable_interests_take_the_enrichment_path() {
    match plan_recommendations(true, " contract drafting ") {
        RecommendationPlan::UseFallback => panic!("expected the enrichment path"),
        RecommendationPlan::Enrich { selected, sanitized } => {
            assert_eq!(sanitized, "contract drafting");
            assert_eq!(selected.len(), 4);
            assert_eq!(selected[0].title, "Contract Drafting Essentials");
        }
    }
}

#[test]
fn transport_failure_degrades_to_fallback() {
    let selected = select_courses_by_keywords("ethics");
    let got = finish_enrichment(&selected, &EnrichmentOutcome::TransportFailure);
    assert_is_fallback(&got);
}

#[test]
fn non_success_status_degrades_to_fallback() {
    let selected = select_courses_by_keywords("ethics");
    let got = finish_enrichment(&selected, &EnrichmentOutcome::NonSuccessStatus);
    assert_is_fallback(&got);
}

#[test]
fn malformed_response_degrades_to_fallback() {
    let selected = select_courses_by_keywords("ethics");
    for body in [
        "not json at all",
        "{}",
        r#"{"candidates": []}"#,
        r#"{"candidates": [{"content": {"parts": [{"text": "[\"a\",\"b\",\"c\"]"}]}}]}"#,
        r#"{"candidates": [{"content": {"parts": [{"text": "not an array"}]}}]}"#,
        r#"{"candidates": [{"content": {"parts": [{"text": "[\"\",\"b\",\"c\",\"d\"]"}]}}]}"#,
    ] {
        let got = finish_enrichment(&selected, &EnrichmentOutcome::Response(body.to_string()));
        assert_is_fallback(&got);
    }
}

#[test]
fn well_formed_response_merges_reasons_in_scorer_order() {
    let selected = select_courses_by_keywords("contract");
    let body = r#"{"candidates": [{"content": {"parts": [{"text":
        "```json\n[\"one\",\"two\",\"three\",\"four\"]\n```"}]}}]}"#;
    let got = finish_enrichment(&selected, &EnrichmentOutcome::Response(body.to_string()));
    assert_eq!(got.len(), 4);
    for (g, s) in got.iter().zip(selected.iter()) {
        assert_eq!(g.title, s.title);
        assert_eq!(g.hours_tenths, s.hours_tenths);
        assert_eq!(g.url, s.url);
    }
    let reasons: Vec<&str> = got.iter().map(|g| g.ai_reason.as_str()).collect();
    assert_eq!(reasons, vec!["one", "two", "three", "four"]);
}

#[test]
fn parse_accepts_exactly_four_strings() {
    let body =
        r#"{"candidates": [{"content": {"parts": [{"text": "[\"a\",\"b\",\"c\",\"d\"]"}]}}]}"#;
    let parsed = parse_enrichment_response(body).unwrap();
    assert_eq!(parsed, vec!["a", "b", "c", "d"]);
}

#[test]
fn parse_strips_markdown_fences() {
    let body = r#"{"candidates": [{"content": {"parts": [{"text":
        "  ```json [\"w\",\"x\",\"y\",\"z\"] ``` "}]}}]}"#;
    let parsed = parse_enrichment_response(body).unwrap();
    assert_eq!(parsed, vec!["w", "x", "y", "z"]);
}

#[test]
fn parse_rejects_wrong_arity_as_malformed() {
    let body3 =
        r#"{"candidates": [{"content": {"parts": [{"text": "[\"a\",\"b\",\"c\"]"}]}}]}"#;
    let body5 = r#"{"candidates": [{"content": {"parts": [{"text":
        "[\"a\",\"b\",\"c\",\"d\",\"e\"]"}]}}]}"#;
    for body in [body3, body5] {
        match parse_enrichment_response(body) {
            Err(EnrichmentError::MalformedResponse) => {}
            other => panic!("expected a malformed-response error, got {:?}", other),
        }
    }
}

#[test]
fn parse_rejects_empty_reason_as_malformed() {
    // A recommendation always carries a non-empty justification, so an
    // array holding an empty string counts as malformed.
    let body =
        r#"{"candidates": [{"content": {"parts": [{"text": "[\"a\",\"\",\"c\",\"d\"]"}]}}]}"#;
    match parse_enrichment_response(body) {
        Err(EnrichmentError::MalformedResponse) => {}
        other => panic!("expected a malformed-response error, got {:?}", other),
    }
}

#[test]
fn merge_with_empty_reason_yields_fallback() {
    let selected = select_courses_by_keywords("privacy");
    let reasons = vec![
        "one".to_string(),
        String::new(),
        "three".to_string(),
        "four".to_string(),
    ];
    let got = merge_or_fallback(&selected, Ok(reasons));
    assert_is_fallback(&got);
}

#[test]
fn enriched_reasons_are_never_empty() {
    let selected = select_courses_by_keywords("tax");
    let bodies = [
        r#"{"candidates": [{"content": {"parts": [{"text": "[\"w\",\"x\",\"y\",\"z\"]"}]}}]}"#,
        r#"{"candidates": [{"content": {"parts": [{"text": "[\"\",\"\",\"\",\"\"]"}]}}]}"#,
        "junk",
    ];
    for body in bodies {
        let got = finish_enrichment(&selected, &EnrichmentOutcome::Response(body.to_string()));
        assert_eq!(got.len(), 4);
        for r in &got {
            assert!(!r.ai_reason.is_empty());
        }
    }
}

#[test]
fn parse_rejects_missing_text_field_as_malformed() {
    match parse_enrichment_response(r#"{"candidates": [{"content": {"parts": [{}]}}]}"#) {
        Err(EnrichmentError::MalformedResponse) => {}
        other => panic!("expected a malformed-response error, got {:?}", other),
    }
}

#[test]
fn merge_with_error_yields_fallback() {
    let selected = select_courses_by_keywords("privacy");
    for err in [
        EnrichmentError::TransportFailure,
        EnrichmentError::NonSuccessStatus,
        EnrichmentError::MalformedResponse,
    ] {
        let got = merge_or_fallback(&selected, Err(err));
        assert_is_fallback(&got);
    }
}

#[test]
fn prompt_lists_titles_and_interests() {
    let selected = select_courses_by_keywords("contract");
    let prompt = build_gemini_prompt(&selected, "contract drafting");
    let expected = format!(
        "User interests: \"contract drafting\"\nCourses:\n1. {}\n2. {}\n3. {}\n4. {}\n\nWrite a brief ai_reason (10-15 words) for each course explaining why it matches their interests.\nReturn JSON: [\"reason1\",\"reason2\",\"reason3\",\"reason4\"]",
        selected[0].title, selected[1].title, selected[2].title, selected[3].title
    );
    assert_eq!(prompt, expected);
}

#[test]
fn end_to_end_fallback_with_enrichment_disabled() {
    // A request of {raw_interests: "contract drafting", hours_outstanding: 10}
    // with no enrichment credential configured: the response is the four
    // fixed fallback records in their fixed order, each with a non-empty
    // justification. The hour total plays no part in composition.
    let plan = plan_recommendations(false, "contract drafting");
    let recs = match plan {
        RecommendationPlan::UseFallback => get_fallback_recommendations(),
        RecommendationPlan::Enrich { .. } => panic!("expected the fallback path"),
    };
    assert_is_fallback(&recs);
    for r in &recs {
        assert!(!r.ai_reason.is_empty());
    }
}
