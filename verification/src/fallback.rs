//! Fallback provider: a fixed set of four recommendations with pre-written
//! justifications, returned whenever enrichment is skipped or fails. This
//! path never fails and depends on nothing in the request.

use vstd::prelude::*;
use vstd::string::StringExecFns;
use crate::response::{CourseRecommendation, RecView};

verus! {

/// A fallback entry, written out as a spec value.
pub open spec fn fallback_view(
    title: Seq<char>,
    provider: Seq<char>,
    hours_tenths: u32,
    topic: Seq<char>,
    format: Seq<char>,
    price: Seq<char>,
    url: Seq<char>,
    ai_reason: Seq<char>,
) -> RecView {
    RecView { title, provider, hours_tenths, topic, format, price, url, ai_reason }
}

/// The fixed fallback set, as spec values, in its fixed order.
pub open spec fn spec_fallback() -> Seq<RecView> {
    seq![
        fallback_view(
            "Professional Responsibility and Ethics"@,
            "Massachusetts CLE"@,
            20,
            "Ethics"@,
            "Online"@,
            "$50"@,
            "https://www.massbar.org/continuing-legal-education"@,
            "Essential ethics training for maintaining professional standards"@,
        ),
        fallback_view(
            "Introduction to Legal Technology Tools"@,
            "ABA Techshow"@,
            15,
            "Legal Tech"@,
            "Online"@,
            "Free"@,
            "https://www.techshow.com/education"@,
            "Learn practical technology tools for modern legal practice"@,
        ),
        fallback_view(
            "Contract Drafting Essentials"@,
            "Practising Law Institute"@,
            30,
            "Contract Law"@,
            "Self-Paced"@,
            "$99"@,
            "https://www.pli.edu/programs/contract-drafting"@,
            "Build strong foundation in contract drafting skills"@,
        ),
        fallback_view(
            "Business Law Foundations"@,
            "Coursera"@,
            40,
            "Business Law"@,
            "Self-Paced"@,
            "Free"@,
            "https://www.coursera.org/courses?query=business%20law"@,
            "Comprehensive overview of key business law concepts"@,
        ),
    ]
}

fn fallback_record(
    title: &str,
    provider: &str,
    hours_tenths: u32,
    topic: &str,
    format: &str,
    price: &str,
    url: &str,
    ai_reason: &str,
) -> (r: CourseRecommendation)
    ensures
        r@ == fallback_view(
            title@,
            provider@,
            hours_tenths,
            topic@,
            format@,
            price@,
            url@,
            ai_reason@,
        ),
{
    CourseRecommendation {
        title: String::from_str(title),
        provider: String::from_str(provider),
        hours_tenths,
        topic: String::from_str(topic),
        format: String::from_str(format),
        price: String::from_str(price),
        url: String::from_str(url),
        ai_reason: String::from_str(ai_reason),
    }
}

/// The fixed fallback recommendations: always the same four records, in the
/// same order, independent of the request.
pub fn get_fallback_recommendations() -> (r: Vec<CourseRecommendation>)
    ensures
        r@.len() == spec_fallback().len(),
        forall|i: int| 0 <= i < r@.len() ==> (#[trigger] r@[i])@ == spec_fallback()[i],
{
    let mut r: Vec<CourseRecommendation> = Vec::new();
    r.push(fallback_record(
        "Professional Responsibility and Ethics",
        "Massachusetts CLE",
        20,
        "Ethics",
        "Online",
        "$50",
        "https://www.massbar.org/continuing-legal-education",
        "Essential ethics training for maintaining professional standards",
    ));
    r.push(fallback_record(
        "Introduction to Legal Technology Tools",
        "ABA Techshow",
        15,
        "Legal Tech",
        "Online",
        "Free",
        "https://www.techshow.com/education",
        "Learn practical technology tools for modern legal practice",
    ));
    r.push(fallback_record(
        "Contract Drafting Essentials",
        "Practising Law Institute",
        30,
        "Contract Law",
        "Self-Paced",
        "$99",
        "https://www.pli.edu/programs/contract-drafting",
        "Build strong foundation in contract drafting skills",
    ));
    r.push(fallback_record(
        "Business Law Foundations",
        "Coursera",
        40,
        "Business Law",
        "Self-Paced",
        "Free",
        "https://www.coursera.org/courses?query=business%20law",
        "Comprehensive overview of key business law concepts",
    ));
    r
}

/// Every fallback justification is non-empty.
pub proof fn lemma_fallback_reasons_nonempty()
    ensures
        forall|i: int| 0 <= i < spec_fallback().len() ==> (#[trigger] spec_fallback()[i]).ai_reason.len()
            > 0,
{
    reveal_strlit("Essential ethics training for maintaining professional standards");
    reveal_strlit("Learn practical technology tools for modern legal practice");
    reveal_strlit("Build strong foundation in contract drafting skills");
    reveal_strlit("Comprehensive overview of key business law concepts");
    assert forall|i: int| 0 <= i < spec_fallback().len() implies (#[trigger] spec_fallback()[i]).ai_reason.len()
        > 0 by {
        if i == 0 {
        } else if i == 1 {
        } else if i == 2 {
        } else {
            assert(i == 3);
        }
    }
}

} // verus!
