//! The request and response records of the recommendation endpoint.
//! Credit hours are carried in tenths of an hour (15 stands for 1.5 hours).

use vstd::prelude::*;
use crate::catalog::{CourseRecord, CourseView};

verus! {

/// The caller's request: raw, untrusted interest text.
pub struct RecommendationsRequest {
    pub interests: String,
}

/// One recommendation returned to the caller: a catalog entry plus a short
/// justification. `ai_reason` is always non-empty and never derived from
/// unsanitized user input.
pub struct CourseRecommendation {
    pub title: String,
    pub provider: String,
    pub hours_tenths: u32,
    pub topic: String,
    pub format: String,
    pub price: String,
    pub url: String,
    pub ai_reason: String,
}

/// The mathematical image of a `CourseRecommendation`.
pub struct RecView {
    pub title: Seq<char>,
    pub provider: Seq<char>,
    pub hours_tenths: u32,
    pub topic: Seq<char>,
    pub format: Seq<char>,
    pub price: Seq<char>,
    pub url: Seq<char>,
    pub ai_reason: Seq<char>,
}

impl View for CourseRecommendation {
    type V = RecView;

    open spec fn view(&self) -> RecView {
        RecView {
            title: self.title@,
            provider: self.provider@,
            hours_tenths: self.hours_tenths,
            topic: self.topic@,
            format: self.format@,
            price: self.price@,
            url: self.url@,
            ai_reason: self.ai_reason@,
        }
    }
}

/// The full response: an ordered list of recommendations.
pub struct RecommendationsResponse {
    pub recommendations: Vec<CourseRecommendation>,
}

/// A catalog entry joined with a justification.
pub open spec fn rec_of(c: CourseView, reason: Seq<char>) -> RecView {
    RecView {
        title: c.title,
        provider: c.provider,
        hours_tenths: c.hours_tenths,
        topic: c.topic,
        format: c.format,
        price: c.price,
        url: c.url,
        ai_reason: reason,
    }
}

/// Pairs a catalog entry with its justification text.
pub fn recommend_course(course: &CourseRecord, reason: String) -> (r: CourseRecommendation)
    ensures
        r@ == rec_of(course@, reason@),
{
    CourseRecommendation {
        title: course.title.clone(),
        provider: course.provider.clone(),
        hours_tenths: course.hours_tenths,
        topic: course.topic.clone(),
        format: course.format.clone(),
        price: course.price.clone(),
        url: course.url.clone(),
        ai_reason: reason,
    }
}

} // verus!
