//! The course catalog: a fixed, read-only table of 24 candidate courses.
//! Credit hours are carried in tenths of an hour (15 stands for 1.5 hours)
//! so that every field is exact.

use vstd::prelude::*;
use vstd::string::StringExecFns;

verus! {

/// One catalog entry. Defined once, never mutated.
pub struct CourseRecord {
    pub title: String,
    pub provider: String,
    pub hours_tenths: u32,
    pub topic: String,
    pub format: String,
    pub price: String,
    pub url: String,
}

/// The mathematical image of a `CourseRecord`.
pub struct CourseView {
    pub title: Seq<char>,
    pub provider: Seq<char>,
    pub hours_tenths: u32,
    pub topic: Seq<char>,
    pub format: Seq<char>,
    pub price: Seq<char>,
    pub url: Seq<char>,
}

impl View for CourseRecord {
    type V = CourseView;

    open spec fn view(&self) -> CourseView {
        CourseView {
            title: self.title@,
            provider: self.provider@,
            hours_tenths: self.hours_tenths,
            topic: self.topic@,
            format: self.format@,
            price: self.price@,
            url: self.url@,
        }
    }
}

impl CourseRecord {
    /// A field-by-field copy.
    pub fn duplicate(&self) -> (r: CourseRecord)
        ensures
            r@ == self@,
    {
        CourseRecord {
            title: self.title.clone(),
            provider: self.provider.clone(),
            hours_tenths: self.hours_tenths,
            topic: self.topic.clone(),
            format: self.format.clone(),
            price: self.price.clone(),
            url: self.url.clone(),
        }
    }
}

/// A catalog entry, written out as a spec value.
pub open spec fn course_view(
    title: Seq<char>,
    provider: Seq<char>,
    hours_tenths: u32,
    topic: Seq<char>,
    format: Seq<char>,
    price: Seq<char>,
    url: Seq<char>,
) -> CourseView {
    CourseView { title, provider, hours_tenths, topic, format, price, url }
}

/// The fixed catalog, as spec values. Order is significant: it is the
/// tie-break used by the scorer.
pub open spec fn spec_catalog() -> Seq<CourseView> {
    seq![
        course_view("Professional Responsibility and Ethics"@, "Massachusetts CLE"@, 20, "Ethics"@, "Online"@, "$50"@, "https://www.massbar.org/continuing-legal-education"@),
        course_view("Contract Drafting Essentials"@, "Practising Law Institute"@, 30, "Contract Law"@, "Self-Paced"@, "$99"@, "https://www.pli.edu/programs/contract-drafting"@),
        course_view("Introduction to Legal Technology Tools"@, "ABA Techshow"@, 15, "Legal Tech"@, "Online"@, "Free"@, "https://www.techshow.com/education"@),
        course_view("Florida Bar Ethics Update 2024"@, "Florida Bar CLE"@, 25, "Ethics"@, "Live Webinar"@, "Free"@, "https://www.floridabar.org/cle/"@),
        course_view("AI for Legal Professionals"@, "Stanford CodeX"@, 20, "Legal Tech"@, "Online"@, "Free"@, "https://law.stanford.edu/codex-the-stanford-center-for-legal-informatics/"@),
        course_view("Advanced Contract Negotiation"@, "Harvard Law School"@, 35, "Contract Law"@, "Self-Paced"@, "$150"@, "https://online-learning.harvard.edu/catalog"@),
        course_view("Data Privacy and GDPR Compliance"@, "IAPP"@, 20, "Privacy Law"@, "Online"@, "$200"@, "https://iapp.org/store/courses/"@),
        course_view("Legal Writing for Clarity"@, "Legal Writing Institute"@, 15, "Legal Writing"@, "Self-Paced"@, "Free"@, "https://www.lwionline.org/"@),
        course_view("Business Law Foundations"@, "Coursera"@, 40, "Business Law"@, "Self-Paced"@, "Free"@, "https://www.coursera.org/courses?query=business%20law"@),
        course_view("Immigration Law Essentials"@, "AILA"@, 25, "Immigration"@, "Live Webinar"@, "$125"@, "https://www.aila.org/cle"@),
        course_view("Federal Taxation Fundamentals"@, "NYU School of Law"@, 30, "Tax Law"@, "Self-Paced"@, "$175"@, "https://www.law.nyu.edu/academics/cle"@),
        course_view("Real Estate Transactions"@, "California Lawyers Association"@, 25, "Real Estate Law"@, "Online"@, "$95"@, "https://calawyers.org/cle/"@),
        course_view("Divorce and Child Custody Essentials"@, "National Business Institute"@, 30, "Family Law"@, "Live Webinar"@, "$149"@, "https://www.nbi-sems.com/"@),
        course_view("Family Law Practice Fundamentals"@, "State Bar of Texas"@, 25, "Family Law"@, "Online"@, "$125"@, "https://www.texasbar.com/"@),
        course_view("Bankruptcy Law Basics"@, "American Bankruptcy Institute"@, 20, "Bankruptcy Law"@, "Self-Paced"@, "$150"@, "https://www.abi.org/"@),
        course_view("Personal Injury Litigation"@, "National Institute for Trial Advocacy"@, 35, "Personal Injury"@, "Online"@, "$200"@, "https://www.nita.org/"@),
        course_view("Criminal Defense Strategies"@, "NACDL"@, 30, "Criminal Law"@, "Live Webinar"@, "$150"@, "https://www.nacdl.org/cle/"@),
        course_view("Employment Discrimination Law"@, "Georgetown Law"@, 35, "Employment Law"@, "Self-Paced"@, "$200"@, "https://www.law.georgetown.edu/continuing-legal-education/"@),
        course_view("Civil Litigation Fundamentals"@, "American Bar Association"@, 25, "Civil Litigation"@, "Online"@, "$125"@, "https://www.americanbar.org/cle/"@),
        course_view("Intellectual Property Overview"@, "American Bar Association"@, 25, "IP Law"@, "Online"@, "$125"@, "https://www.americanbar.org/cle/"@),
        course_view("Estate Planning and Wills"@, "UC Berkeley Extension"@, 30, "Estate Planning"@, "Online"@, "$195"@, "https://extension.berkeley.edu/"@),
        course_view("Healthcare Compliance Essentials"@, "American Health Law Association"@, 20, "Healthcare Law"@, "Online"@, "$175"@, "https://www.americanbar.org/groups/health_law/"@),
        course_view("Environmental Law Basics"@, "Environmental Law Institute"@, 25, "Environmental Law"@, "Self-Paced"@, "$100"@, "https://www.eli.org/"@),
        course_view("Cybersecurity for Law Firms"@, "ILTA"@, 15, "Legal Tech"@, "Online"@, "Free"@, "https://www.iltanet.org/"@),
    ]
}

fn record(
    title: &str,
    provider: &str,
    hours_tenths: u32,
    topic: &str,
    format: &str,
    price: &str,
    url: &str,
) -> (r: CourseRecord)
    ensures
        r@ == course_view(title@, provider@, hours_tenths, topic@, format@, price@, url@),
{
    CourseRecord {
        title: String::from_str(title),
        provider: String::from_str(provider),
        hours_tenths,
        topic: String::from_str(topic),
        format: String::from_str(format),
        price: String::from_str(price),
        url: String::from_str(url),
    }
}

/// Builds the catalog. Always the same 24 entries, in the same order.
pub fn course_catalog() -> (v: Vec<CourseRecord>)
    ensures
        v@.len() == spec_catalog().len(),
        forall|i: int| 0 <= i < v@.len() ==> (#[trigger] v@[i])@ == spec_catalog()[i],
{
    let mut v: Vec<CourseRecord> = Vec::new();
    v.push(record("Professional Responsibility and Ethics", "Massachusetts CLE", 20, "Ethics", "Online", "$50", "https://www.massbar.org/continuing-legal-education"));
    v.push(record("Contract Drafting Essentials", "Practising Law Institute", 30, "Contract Law", "Self-Paced", "$99", "https://www.pli.edu/programs/contract-drafting"));
    v.push(record("Introduction to Legal Technology Tools", "ABA Techshow", 15, "Legal Tech", "Online", "Free", "https://www.techshow.com/education"));
    v.push(record("Florida Bar Ethics Update 2024", "Florida Bar CLE", 25, "Ethics", "Live Webinar", "Free", "https://www.floridabar.org/cle/"));
    v.push(record("AI for Legal Professionals", "Stanford CodeX", 20, "Legal Tech", "Online", "Free", "https://law.stanford.edu/codex-the-stanford-center-for-legal-informatics/"));
    v.push(record("Advanced Contract Negotiation", "Harvard Law School", 35, "Contract Law", "Self-Paced", "$150", "https://online-learning.harvard.edu/catalog"));
    v.push(record("Data Privacy and GDPR Compliance", "IAPP", 20, "Privacy Law", "Online", "$200", "https://iapp.org/store/courses/"));
    v.push(record("Legal Writing for Clarity", "Legal Writing Institute", 15, "Legal Writing", "Self-Paced", "Free", "https://www.lwionline.org/"));
    v.push(record("Business Law Foundations", "Coursera", 40, "Business Law", "Self-Paced", "Free", "https://www.coursera.org/courses?query=business%20law"));
    v.push(record("Immigration Law Essentials", "AILA", 25, "Immigration", "Live Webinar", "$125", "https://www.aila.org/cle"));
    v.push(record("Federal Taxation Fundamentals", "NYU School of Law", 30, "Tax Law", "Self-Paced", "$175", "https://www.law.nyu.edu/academics/cle"));
    v.push(record("Real Estate Transactions", "California Lawyers Association", 25, "Real Estate Law", "Online", "$95", "https://calawyers.org/cle/"));
    v.push(record("Divorce and Child Custody Essentials", "National Business Institute", 30, "Family Law", "Live Webinar", "$149", "https://www.nbi-sems.com/"));
    v.push(record("Family Law Practice Fundamentals", "State Bar of Texas", 25, "Family Law", "Online", "$125", "https://www.texasbar.com/"));
    v.push(record("Bankruptcy Law Basics", "American Bankruptcy Institute", 20, "Bankruptcy Law", "Self-Paced", "$150", "https://www.abi.org/"));
    v.push(record("Personal Injury Litigation", "National Institute for Trial Advocacy", 35, "Personal Injury", "Online", "$200", "https://www.nita.org/"));
    v.push(record("Criminal Defense Strategies", "NACDL", 30, "Criminal Law", "Live Webinar", "$150", "https://www.nacdl.org/cle/"));
    v.push(record("Employment Discrimination Law", "Georgetown Law", 35, "Employment Law", "Self-Paced", "$200", "https://www.law.georgetown.edu/continuing-legal-education/"));
    v.push(record("Civil Litigation Fundamentals", "American Bar Association", 25, "Civil Litigation", "Online", "$125", "https://www.americanbar.org/cle/"));
    v.push(record("Intellectual Property Overview", "American Bar Association", 25, "IP Law", "Online", "$125", "https://www.americanbar.org/cle/"));
    v.push(record("Estate Planning and Wills", "UC Berkeley Extension", 30, "Estate Planning", "Online", "$195", "https://extension.berkeley.edu/"));
    v.push(record("Healthcare Compliance Essentials", "American Health Law Association", 20, "Healthcare Law", "Online", "$175", "https://www.americanbar.org/groups/health_law/"));
    v.push(record("Environmental Law Basics", "Environmental Law Institute", 25, "Environmental Law", "Self-Paced", "$100", "https://www.eli.org/"));
    v.push(record("Cybersecurity for Law Firms", "ILTA", 15, "Legal Tech", "Online", "Free", "https://www.iltanet.org/"));
    v
}

} // verus!
