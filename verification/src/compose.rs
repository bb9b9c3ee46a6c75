//! Recommendation composer: decides between the enrichment path and the
//! fallback path, and merges enrichment results into the final response.
//! Every reachable failure degrades to the fallback set; once composition
//! begins, the response always succeeds.

use vstd::prelude::*;
use crate::catalog::CourseRecord;
use crate::enrich::{parse_enrichment_response, spec_enrichment_reasons, EnrichmentError};
use crate::fallback::{get_fallback_recommendations, spec_fallback};
use crate::response::{rec_of, recommend_course, CourseRecommendation};
use crate::sanitize::{sanitize_input, spec_sanitize};
use crate::scorer::{select_courses_by_keywords, spec_select};
use crate::unicode::lower_of;
use vstd::string::StrSliceExecFns;

verus! {

/// What the composer decided after sanitizing: answer from the fixed
/// fallback set, or score the catalog and attempt enrichment.
pub enum RecommendationPlan {
    /// No credential is configured, or the sanitized interests are empty.
    UseFallback,
    /// Enrichment is eligible: the scorer's four selected courses and the
    /// sanitized interest text to put in the prompt.
    Enrich { selected: Vec<CourseRecord>, sanitized: String },
}

/// What the one outbound call produced: a success-status body, or one of
/// the two failures only the transport can observe.
pub enum EnrichmentOutcome {
    /// The service answered with a success status; the body is its text.
    Response(String),
    /// The request never produced a response.
    TransportFailure,
    /// The service answered with a non-success status.
    NonSuccessStatus,
}

/// The final response equals the fixed fallback set.
pub open spec fn is_fallback_response(r: Seq<CourseRecommendation>) -> bool {
    r.len() == spec_fallback().len() && forall|i: int|
        0 <= i < r.len() ==> (#[trigger] r[i])@ == spec_fallback()[i]
}

/// Sanitizes the raw interests and decides the path: the fallback set
/// whenever no credential is configured or nothing usable is left of the
/// interests, otherwise enrichment over the scorer's four selections.
pub fn plan_recommendations(credential_present: bool, raw_interests: &str) -> (p:
    RecommendationPlan)
    ensures
        (p is UseFallback) <==> (!credential_present || spec_sanitize(raw_interests@).len() == 0),
        p matches RecommendationPlan::Enrich { selected, sanitized } ==> {
            &&& sanitized@ == spec_sanitize(raw_interests@)
            &&& selected@.len() == 4
            &&& forall|i: int|
                0 <= i < 4 ==> (#[trigger] selected@[i])@ == spec_select(
                    lower_of(spec_sanitize(raw_interests@)),
                )[i]
        },
{
    let sanitized = sanitize_input(raw_interests);
    if !credential_present || sanitized.as_str().unicode_len() == 0 {
        RecommendationPlan::UseFallback
    } else {
        let selected = select_courses_by_keywords(sanitized.as_str());
        RecommendationPlan::Enrich { selected, sanitized }
    }
}

/// Merges the four selected courses with four justifications, in scorer
/// order; on any enrichment error, a justification list of the wrong
/// length, or an empty justification, substitutes the fallback set. Never
/// fails, always yields exactly four records, every justification
/// non-empty.
pub fn merge_or_fallback(
    selected: &Vec<CourseRecord>,
    enrichment: Result<Vec<String>, EnrichmentError>,
) -> (r: Vec<CourseRecommendation>)
    ensures
        match enrichment {
            Ok(reasons) => if reasons@.len() == 4 && selected@.len() == 4 && (forall|i: int|
                0 <= i < reasons@.len() ==> (#[trigger] reasons@[i])@.len() > 0) {
                r@.len() == 4 && forall|i: int|
                    0 <= i < 4 ==> (#[trigger] r@[i])@ == rec_of(
                        selected@[i]@,
                        reasons@[i]@,
                    )
            } else {
                is_fallback_response(r@)
            },
            Err(_) => is_fallback_response(r@),
        },
        r@.len() == 4,
        forall|i: int| 0 <= i < r@.len() ==> (#[trigger] r@[i])@.ai_reason.len() > 0,
{
    proof {
        crate::fallback::lemma_fallback_reasons_nonempty();
    }
    match enrichment {
        Ok(reasons) => {
            if reasons.len() == 4 && selected.len() == 4 {
                let any_empty = reasons[0].as_str().is_empty() || reasons[1].as_str().is_empty()
                    || reasons[2].as_str().is_empty() || reasons[3].as_str().is_empty();
                if any_empty {
                    get_fallback_recommendations()
                } else {
                    proof {
                        assert forall|i: int| 0 <= i < reasons@.len() implies (#[trigger] reasons@[i])@.len()
                            > 0 by {
                            if i == 0 {
                            } else if i == 1 {
                            } else if i == 2 {
                            } else {
                                assert(i == 3);
                            }
                        }
                    }
                    let mut r: Vec<CourseRecommendation> = Vec::new();
                    let mut i: usize = 0;
                    while i < 4
                        invariant
                            selected@.len() == 4,
                            reasons@.len() == 4,
                            forall|k: int|
                                0 <= k < reasons@.len() ==> (#[trigger] reasons@[k])@.len() > 0,
                            i <= 4,
                            r@.len() == i,
                            forall|k: int|
                                0 <= k < i ==> (#[trigger] r@[k])@ == rec_of(
                                    selected@[k]@,
                                    reasons@[k]@,
                                ),
                        decreases 4 - i,
                    {
                        r.push(recommend_course(&selected[i], reasons[i].clone()));
                        i = i + 1;
                    }
                    r
                }
            } else {
                get_fallback_recommendations()
            }
        },
        Err(_) => get_fallback_recommendations(),
    }
}

/// Finishes the enrichment path with whatever the one outbound call
/// produced: parses a success-status body and merges, and substitutes the
/// fallback set on a transport failure, a non-success status, or a
/// malformed body. No outcome is ever surfaced as a failure; the response
/// always holds exactly four records, each with a non-empty justification.
pub fn finish_enrichment(selected: &Vec<CourseRecord>, outcome: &EnrichmentOutcome) -> (r: Vec<
    CourseRecommendation,
>)
    requires
        selected@.len() == 4,
    ensures
        match outcome {
            EnrichmentOutcome::Response(body) => match spec_enrichment_reasons(body@) {
                Some(a) => r@.len() == 4 && forall|i: int|
                    0 <= i < 4 ==> (#[trigger] r@[i])@ == rec_of(selected@[i]@, a[i]),
                None => is_fallback_response(r@),
            },
            EnrichmentOutcome::TransportFailure => is_fallback_response(r@),
            EnrichmentOutcome::NonSuccessStatus => is_fallback_response(r@),
        },
        r@.len() == 4,
        forall|i: int| 0 <= i < r@.len() ==> (#[trigger] r@[i])@.ai_reason.len() > 0,
{
    proof {
        crate::fallback::lemma_fallback_reasons_nonempty();
    }
    match outcome {
        EnrichmentOutcome::Response(body) => {
            let parsed = parse_enrichment_response(body.as_str());
            proof {
                if parsed is Ok {
                    let v = parsed.unwrap();
                    assert(spec_enrichment_reasons(body@) == Some(v.deep_view()));
                    assert(forall|i: int| 0 <= i < 4 ==> v.deep_view()[i] == (#[trigger] v@[i])@);
                }
            }
            merge_or_fallback(selected, parsed)
        },
        EnrichmentOutcome::TransportFailure => get_fallback_recommendations(),
        EnrichmentOutcome::NonSuccessStatus => get_fallback_recommendations(),
    }
}

} // verus!
