//! Enrichment client, compute side: builds the one prompt sent to the
//! generative-text service and parses its response into exactly four
//! justification strings. The network call itself lives outside the
//! library; this module sees only the request text and the response body.

use vstd::prelude::*;
use vstd::string::StringExecFns;
use crate::catalog::CourseRecord;
use crate::text::{chars_of, remove_all, remove_all_exec, spec_trim, string_of, trim_chars};

verus! {

/// Why an enrichment attempt yielded nothing. Never surfaced to the caller:
/// the composer degrades every variant to the fallback set.
#[derive(Clone, Copy, Debug, PartialEq, Eq, Structural)]
pub enum EnrichmentError {
    /// The request never produced a response (network-level failure).
    TransportFailure,
    /// The service answered with a non-success status.
    NonSuccessStatus,
    /// The response carried no text field, or its text was not a JSON array
    /// of exactly four strings.
    MalformedResponse,
}

/// The prompt sent to the service for four selected titles and sanitized
/// interest text: it asks for one short justification per course, returned
/// as a JSON array of four strings.
pub open spec fn spec_prompt(
    t1: Seq<char>,
    t2: Seq<char>,
    t3: Seq<char>,
    t4: Seq<char>,
    interests: Seq<char>,
) -> Seq<char> {
    "User interests: \""@ + interests + "\"\nCourses:\n1. "@ + t1 + "\n2. "@ + t2 + "\n3. "@ + t3
        + "\n4. "@ + t4
        + "\n\nWrite a brief ai_reason (10-15 words) for each course explaining why it matches their interests.\nReturn JSON: [\"reason1\",\"reason2\",\"reason3\",\"reason4\"]"@
}

/// Builds the enrichment prompt from the four selected courses and the
/// sanitized interest text.
pub fn build_gemini_prompt(selected: &Vec<CourseRecord>, interests: &str) -> (p: String)
    requires
        selected@.len() == 4,
    ensures
        p@ == spec_prompt(
            selected@[0]@.title,
            selected@[1]@.title,
            selected@[2]@.title,
            selected@[3]@.title,
            interests@,
        ),
{
    let mut p = String::new();
    p.append("User interests: \"");
    p.append(interests);
    p.append("\"\nCourses:\n1. ");
    p.append(selected[0].title.as_str());
    p.append("\n2. ");
    p.append(selected[1].title.as_str());
    p.append("\n3. ");
    p.append(selected[2].title.as_str());
    p.append("\n4. ");
    p.append(selected[3].title.as_str());
    p.append(
        "\n\nWrite a brief ai_reason (10-15 words) for each course explaining why it matches their interests.\nReturn JSON: [\"reason1\",\"reason2\",\"reason3\",\"reason4\"]",
    );
    proof {
        assert(p@ =~= spec_prompt(
            selected@[0]@.title,
            selected@[1]@.title,
            selected@[2]@.title,
            selected@[3]@.title,
            interests@,
        ));
    }
    p
}

/// The text field a well-formed service response carries at
/// `candidates[0].content.parts[0].text`, when the body parses as JSON and
/// that field is a string: a function of the body alone.
pub uninterp spec fn candidate_text_of(body: Seq<char>) -> Option<Seq<char>>;

/// Relies on `serde_json::from_str` and `serde_json::Value`'s index and
/// `as_str` accessors: extracts the `candidates[0].content.parts[0].text`
/// string of the response body, all deterministic in the body text.
#[verifier::external_body]
fn extract_candidate_text(body: &str) -> (r: Option<String>)
    ensures
        r is Some <==> candidate_text_of(body@) is Some,
        r matches Some(t) ==> candidate_text_of(body@) == Some(t@),
{
    let parsed: serde_json::Value = match serde_json::from_str(body) {
        Ok(v) => v,
        Err(_) => return None,
    };
    parsed["candidates"][0]["content"]["parts"][0]["text"].as_str().map(|s| s.to_string())
}

/// The string array a text parses as under `serde_json`, when it is a JSON
/// array whose elements are all strings: a function of the text alone.
pub uninterp spec fn reason_array_of(s: Seq<char>) -> Option<Seq<Seq<char>>>;

/// Relies on `serde_json::from_str::<Vec<String>>`: parses the text as a
/// JSON array of strings, deterministic in the text.
#[verifier::external_body]
fn parse_reason_array(s: &str) -> (r: Option<Vec<String>>)
    ensures
        r is Some <==> reason_array_of(s@) is Some,
        r matches Some(v) ==> reason_array_of(s@) == Some(v.deep_view()),
{
    serde_json::from_str::<Vec<String>>(s).ok()
}

/// The extracted text after stripping markdown code-fence markers and
/// trimming whitespace, tolerating a common formatting quirk of generative
/// responses.
pub open spec fn cleaned_text(t: Seq<char>) -> Seq<char> {
    spec_trim(remove_all(remove_all(t, "```json"@), "```"@))
}

/// The four justifications a response body yields, if it is well-formed:
/// the text field must exist and, once cleaned, parse as a JSON array of
/// exactly four non-empty strings (a recommendation always carries a
/// non-empty justification, so an empty one counts as malformed).
pub open spec fn spec_enrichment_reasons(body: Seq<char>) -> Option<Seq<Seq<char>>> {
    match candidate_text_of(body) {
        Some(t) => match reason_array_of(cleaned_text(t)) {
            Some(a) => if a.len() == 4 && (forall|i: int|
                0 <= i < a.len() ==> (#[trigger] a[i]).len() > 0) {
                Some(a)
            } else {
                None
            },
            None => None,
        },
        None => None,
    }
}

/// Parses a success-status response body into exactly four non-empty
/// justification strings, or reports it malformed.
pub fn parse_enrichment_response(body: &str) -> (r: Result<Vec<String>, EnrichmentError>)
    ensures
        r matches Ok(v) ==> spec_enrichment_reasons(body@) == Some(v.deep_view()) && v@.len() == 4
            && forall|i: int| 0 <= i < v@.len() ==> (#[trigger] v@[i])@.len() > 0,
        r is Err <==> spec_enrichment_reasons(body@) is None,
        r matches Err(e) ==> e == EnrichmentError::MalformedResponse,
{
    let text = match extract_candidate_text(body) {
        Some(t) => t,
        None => {
            return Err(EnrichmentError::MalformedResponse);
        },
    };
    let tv = chars_of(text.as_str());
    let fence_json = chars_of("```json");
    let fence = chars_of("```");
    proof {
        reveal_strlit("```json");
        reveal_strlit("```");
    }
    let tv = remove_all_exec(&tv, &fence_json);
    let tv = remove_all_exec(&tv, &fence);
    let tv = trim_chars(&tv);
    let cleaned = string_of(&tv);
    let reasons = match parse_reason_array(cleaned.as_str()) {
        Some(v) => v,
        None => {
            return Err(EnrichmentError::MalformedResponse);
        },
    };
    proof {
        let a = reason_array_of(cleaned_text(candidate_text_of(body@).unwrap())).unwrap();
        assert(a.len() == reasons.deep_view().len());
        assert(reasons.deep_view().len() == reasons@.len());
        assert forall|i: int| 0 <= i < reasons@.len() implies reasons.deep_view()[i]
            == (#[trigger] reasons@[i])@ by {
            assert(reasons.deep_view()[i] =~= reasons@[i]@);
        }
    }
    if reasons.len() != 4 {
        return Err(EnrichmentError::MalformedResponse);
    }
    let any_empty = reasons[0].as_str().is_empty() || reasons[1].as_str().is_empty()
        || reasons[2].as_str().is_empty() || reasons[3].as_str().is_empty();
    if any_empty {
        return Err(EnrichmentError::MalformedResponse);
    }
    proof {
        let a = reasons.deep_view();
        assert forall|i: int| 0 <= i < a.len() implies (#[trigger] a[i]).len() > 0 by {
            if i == 0 {
            } else if i == 1 {
            } else if i == 2 {
            } else {
                assert(i == 3);
            }
        }
    }
    Ok(reasons)
}

} // verus!
