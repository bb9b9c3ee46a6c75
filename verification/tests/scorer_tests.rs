use cle_tracker::catalog::course_catalog;
use cle_tracker::scorer::select_courses_by_keywords;

fn titles(selection: &[cle_tracker::catalog::CourseRecord]) -> Vec<String> {
    selection.iter().map(|c| c.title.clone()).collect()
}

#[test]
fn always_returns_exactly_four() {
    for interests in ["", "zzz qqq", "law", "ethics contract privacy family tax"] {
        assert_eq!(select_courses_by_keywords(interests).len(), 4);
    }
}

#[test]
fn short_tokens_never_influence_scoring() {
    // "ai" is two characters: it is filtered before scoring, every course
    // scores zero, and the first four catalog entries come back in order.
    let catalog = course_catalog();
    let selected = select_courses_by_keywords("ai");
    assert_eq!(titles(&selected), titles(&catalog[..4]));
}

#[test]
fn empty_interests_yield_catalog_order() {
    let catalog = course_catalog();
    let selected = select_courses_by_keywords("");
    assert_eq!(
        titles(&selected),
        vec![
            catalog[0].title.clone(),
            catalog[1].title.clone(),
            catalog[2].title.clone(),
            catalog[3].title.clone(),
        ]
    );
}

#[test]
fn ethics_ai_ranks_ethics_courses_first() {
    // Of "ethics ai", only "ethics" survives the length filter. The two
    // ethics courses score 3 (title) + 2 (topic); everything else scores
    // zero and follows in catalog order.
    let selected = select_courses_by_keywords("ethics ai");
    let got = titles(&selected);
    assert_eq!(got[0], "Professional Responsibility and Ethics");
    assert_eq!(got[1], "Florida Bar Ethics Update 2024");
    assert_eq!(got[2], "Contract Drafting Essentials");
    assert_eq!(got[3], "Introduction to Legal Technology Tools");
    assert!(got.contains(&"Professional Responsibility and Ethics".to_string()));
}

#[test]
fn matching_is_case_insensitive() {
    let upper = select_courses_by_keywords("ETHICS");
    let lower = select_courses_by_keywords("ethics");
    assert_eq!(titles(&upper), titles(&lower));
    assert_eq!(upper[0].title, "Professional Responsibility and Ethics");
}

#[test]
fn title_match_outweighs_topic_match() {
    // "contract" hits two titles (3 + 2 with the Contract Law topic);
    // both contract courses outrank everything else.
    let selected = select_courses_by_keywords("contract");
    let got = titles(&selected);
    assert_eq!(got[0], "Contract Drafting Essentials");
    assert_eq!(got[1], "Advanced Contract Negotiation");
}

#[test]
fn substring_containment_favors_recall() {
    // "tech" is a substring of "Technology" and of the "Legal Tech" topic.
    let selected = select_courses_by_keywords("tech");
    assert_eq!(selected[0].title, "Introduction to Legal Technology Tools");
}

#[test]
fn catalog_has_24_fixed_entries() {
    let catalog = course_catalog();
    assert_eq!(catalog.len(), 24);
    assert_eq!(catalog[0].title, "Professional Responsibility and Ethics");
    assert_eq!(catalog[0].hours_tenths, 20);
    assert_eq!(catalog[23].title, "Cybersecurity for Law Firms");
    assert_eq!(catalog[23].provider, "ILTA");
}
