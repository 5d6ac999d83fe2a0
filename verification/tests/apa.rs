use hayagriva::apa::format_range;
use hayagriva::names::ampersand_list;
use hayagriva::types::Date;
use hayagriva::types::NumOrStr;
use hayagriva::types::QualifiedUrl;
use hayagriva::ApaBibliographyGenerator;
use hayagriva::Entry;
use hayagriva::EntryType;
use hayagriva::Person;

fn person(family: &str, given: &str) -> Person {
    Person::from_strings(&[family, given]).unwrap()
}

#[test]
fn name_list() {
    let p = vec![
        Person::from_strings(&["van de Graf", "Judith"]),
        Person::from_strings(&["Günther", "Hans-Joseph"]),
        Person::from_strings(&["Mädje", "Laurenz Elias"]),
    ]
    .into_iter()
    .map(|e| e.unwrap())
    .collect();
    let mut entry = Entry::new("test", EntryType::NewspaperIssue);
    entry.set_authors(p);
    let ets = vec![entry];

    let apa = ApaBibliographyGenerator::new(&ets);
    assert_eq!(
        "van de Graf, J., Günther, H.-J., & Mädje, L. E.",
        apa.get_author(0)
    );
}

#[test]
fn name_list_truncates_above_twenty() {
    let names: Vec<String> = (0..21).map(|i| format!("P{:02}", i)).collect();
    let rendered = ampersand_list(names);
    assert_eq!(
        "P00, P01, P02, P03, P04, P05, P06, P07, P08, P09, P10, P11, \
         P12, P13, P14, P15, P16, P17, P18, ... P20",
        rendered
    );
    assert!(!rendered.contains('&'));
}

#[test]
fn name_list_of_twenty_keeps_ampersand() {
    let names: Vec<String> = (0..20).map(|i| format!("P{:02}", i)).collect();
    let rendered = ampersand_list(names);
    assert!(rendered.ends_with("P18, & P19"));
    assert!(!rendered.contains("..."));
}

#[test]
fn name_list_of_two() {
    let names = vec!["Doe, J.".to_string(), "Roe, R.".to_string()];
    assert_eq!("Doe, J., & Roe, R.", ampersand_list(names));
}

#[test]
fn name_with_prefix_and_suffix() {
    let p = Person {
        name: "Graf".to_string(),
        given_name: Some("Judith".to_string()),
        prefix: Some("van de".to_string()),
        suffix: Some("Jr.".to_string()),
    };
    let mut entry = Entry::new("k", EntryType::Misc);
    entry.set_authors(vec![p]);
    let ets = vec![entry];
    let apa = ApaBibliographyGenerator::new(&ets);
    assert_eq!("van de Graf, J., Jr.", apa.get_author(0));
}

#[test]
fn empty_author_list() {
    let ets = vec![Entry::new("k", EntryType::Misc)];
    let apa = ApaBibliographyGenerator::new(&ets);
    assert_eq!("", apa.get_author(0));
}

#[test]
fn date_forms() {
    let mut year_only = Entry::new("a", EntryType::Misc);
    year_only.date = Some(Date { year: 2020, month: None, day: None });
    let mut year_month = Entry::new("b", EntryType::Misc);
    year_month.date = Some(Date { year: 2020, month: Some(3), day: None });
    let mut full = Entry::new("c", EntryType::Misc);
    full.date = Some(Date { year: 2020, month: Some(3), day: Some(5) });
    let absent = Entry::new("d", EntryType::Misc);
    let ets = vec![year_only, year_month, full, absent];
    let apa = ApaBibliographyGenerator::new(&ets);
    assert_eq!("(2020)", apa.get_date(0));
    assert_eq!("(2020, March)", apa.get_date(1));
    assert_eq!("(2020, March 5)", apa.get_date(2));
    assert_eq!("(n. d.)", apa.get_date(3));
}

#[test]
fn date_pads_year() {
    let mut e = Entry::new("a", EntryType::Misc);
    e.date = Some(Date { year: 5, month: None, day: None });
    let ets = vec![e];
    let apa = ApaBibliographyGenerator::new(&ets);
    assert_eq!("(0005)", apa.get_date(0));
}

#[test]
fn range_rule() {
    assert_eq!("Vol. 3", format_range("Vol.", "Vols.", &(3u64..3u64)));
    assert_eq!("Vols. 3–5", format_range("Vol.", "Vols.", &(3u64..5u64)));
    assert_eq!("7", format_range("", "", &(7u64..7u64)));
    assert_eq!("7–9", format_range("", "", &(7u64..9u64)));
}

#[test]
fn edition_and_volume_suffix() {
    let mut e = Entry::new("k", EntryType::Book);
    e.title = Some("Collected papers".to_string());
    e.edition = Some(NumOrStr::Number(2));
    e.volume = Some(4u64..4u64);
    let ets = vec![e];
    let apa = ApaBibliographyGenerator::new(&ets);
    let title = apa.get_title(0).unwrap();
    assert_eq!("Collected papers (2nd ed., Vol. 4).", title);
    assert!(title.ends_with(" (2nd ed., Vol. 4)."));
}

#[test]
fn edition_only_suffix() {
    let mut e = Entry::new("k", EntryType::Report);
    e.title = Some("Standards".to_string());
    e.edition = Some(NumOrStr::Number(3));
    let ets = vec![e];
    let apa = ApaBibliographyGenerator::new(&ets);
    assert_eq!("Standards (3rd ed.).", apa.get_title(0).unwrap());
}

#[test]
fn volume_only_suffix() {
    let mut e = Entry::new("k", EntryType::Anthology);
    e.title = Some("Stories".to_string());
    e.volume = Some(1u64..3u64);
    let ets = vec![e];
    let apa = ApaBibliographyGenerator::new(&ets);
    assert_eq!("Stories (Vols. 1–3).", apa.get_title(0).unwrap());
}

#[test]
fn title_terminal_period() {
    let mut plain = Entry::new("a", EntryType::Misc);
    plain.title = Some("A study".to_string());
    let mut question = Entry::new("b", EntryType::Misc);
    question.title = Some("Why?".to_string());
    let untitled = Entry::new("c", EntryType::Misc);
    let ets = vec![plain, question, untitled];
    let apa = ApaBibliographyGenerator::new(&ets);
    assert_eq!("A study.", apa.get_title(0).unwrap());
    assert_eq!("Why?", apa.get_title(1).unwrap());
    assert!(apa.get_title(2).is_none());
}

#[test]
fn multivolume_title() {
    let mut parent = Entry::new("p", EntryType::Book);
    parent.title = Some("Collected works".to_string());
    let mut e = Entry::new("k", EntryType::Book);
    e.title = Some("Novels".to_string());
    e.volume = Some(2u64..2u64);
    e.parents = vec![parent];
    let ets = vec![e];
    let apa = ApaBibliographyGenerator::new(&ets);
    assert_eq!("Collected works: Vol. 2 Novels.", apa.get_title(0).unwrap());
}

#[test]
fn retrieval_date_forms() {
    let mut bare = Entry::new("a", EntryType::WebItem);
    bare.url = Some(QualifiedUrl { value: "https://example.org/x".to_string(), visit_date: None });
    let mut year = Entry::new("b", EntryType::WebItem);
    year.url = Some(QualifiedUrl {
        value: "https://example.org/x".to_string(),
        visit_date: Some(Date { year: 2020, month: None, day: None }),
    });
    let mut month = Entry::new("c", EntryType::WebItem);
    month.url = Some(QualifiedUrl {
        value: "https://example.org/x".to_string(),
        visit_date: Some(Date { year: 2020, month: Some(3), day: None }),
    });
    let mut full = Entry::new("d", EntryType::WebItem);
    full.url = Some(QualifiedUrl {
        value: "https://example.org/x".to_string(),
        visit_date: Some(Date { year: 2020, month: Some(3), day: Some(5) }),
    });
    let no_url = Entry::new("e", EntryType::WebItem);
    let ets = vec![bare, year, month, full, no_url];
    let apa = ApaBibliographyGenerator::new(&ets);
    assert_eq!("https://example.org/x", apa.get_retreival_date(0).unwrap());
    assert_eq!(
        "Retrieved 2020, from https://example.org/x",
        apa.get_retreival_date(1).unwrap()
    );
    assert_eq!(
        "Retrieved March 2020, from https://example.org/x",
        apa.get_retreival_date(2).unwrap()
    );
    assert_eq!(
        "(Retrieved March 5, 2020, from https://example.org/x)",
        apa.get_retreival_date(3).unwrap()
    );
    assert!(apa.get_retreival_date(4).is_none());
}

#[test]
fn periodical_source() {
    let mut journal = Entry::new("j", EntryType::Periodical);
    journal.title = Some("Journal of tests".to_string());
    journal.volume = Some(3u64..3u64);
    journal.issue = Some(7);
    let mut article = Entry::new("a", EntryType::Article);
    article.serial_number = Some("e42".to_string());
    article.parents = vec![journal];
    let ets = vec![article];
    let apa = ApaBibliographyGenerator::new(&ets);
    assert_eq!("Journal of tests, 3(7), e42.", apa.get_source(0));
}

#[test]
fn periodical_source_pages_fallback() {
    let mut journal = Entry::new("j", EntryType::Periodical);
    journal.title = Some("Journal of tests".to_string());
    let mut article = Entry::new("a", EntryType::Article);
    article.page_range = Some(11u64..28u64);
    article.parents = vec![journal];
    let ets = vec![article];
    let apa = ApaBibliographyGenerator::new(&ets);
    assert_eq!("Journal of tests, 11–28.", apa.get_source(0));
}

#[test]
fn periodical_precedence_over_web() {
    let mut blog = Entry::new("b", EntryType::Blog);
    blog.title = Some("Blogname".to_string());
    let mut journal = Entry::new("j", EntryType::Periodical);
    journal.title = Some("Journal of tests".to_string());
    journal.volume = Some(3u64..3u64);
    journal.issue = Some(7);
    let mut article = Entry::new("a", EntryType::Article);
    article.serial_number = Some("e42".to_string());
    article.parents = vec![blog, journal];
    let ets = vec![article];
    let apa = ApaBibliographyGenerator::new(&ets);
    assert_eq!("Journal of tests, 3(7), e42.", apa.get_source(0));
}

#[test]
fn collection_source() {
    let mut anthology = Entry::new("p", EntryType::Anthology);
    anthology.title = Some("Modern stories".to_string());
    anthology.editors = Some(vec![person("Doe", "Jane")]);
    anthology.publisher = Some("Printing House".to_string());
    let mut chapter = Entry::new("c", EntryType::InAnthology);
    chapter.parents = vec![anthology];
    let ets = vec![chapter];
    let apa = ApaBibliographyGenerator::new(&ets);
    assert_eq!(
        "In Doe, J. (Ed.), Modern stories. Printing House.",
        apa.get_source(0)
    );
}

#[test]
fn collection_source_two_editors() {
    let mut anthology = Entry::new("p", EntryType::Anthology);
    anthology.title = Some("Modern stories".to_string());
    anthology.editors = Some(vec![person("Doe", "Jane"), person("Roe", "Richard")]);
    let mut chapter = Entry::new("c", EntryType::InAnthology);
    chapter.parents = vec![anthology];
    let ets = vec![chapter];
    let apa = ApaBibliographyGenerator::new(&ets);
    assert_eq!(
        "In Doe, J., & Roe, R. (Eds.), Modern stories.",
        apa.get_source(0)
    );
}

#[test]
fn collection_source_editors_without_title() {
    let mut anthology = Entry::new("p", EntryType::Anthology);
    anthology.editors = Some(vec![person("Doe", "Jane")]);
    let mut chapter = Entry::new("c", EntryType::InAnthology);
    chapter.parents = vec![anthology];
    let ets = vec![chapter];
    let apa = ApaBibliographyGenerator::new(&ets);
    assert_eq!("In Doe, J. (Ed.).", apa.get_source(0));
}

#[test]
fn collection_source_publisher_only() {
    let mut anthology = Entry::new("p", EntryType::Anthology);
    anthology.publisher = Some("Printing House".to_string());
    let mut chapter = Entry::new("c", EntryType::InAnthology);
    chapter.parents = vec![anthology];
    let ets = vec![chapter];
    let apa = ApaBibliographyGenerator::new(&ets);
    assert_eq!(" Printing House.", apa.get_source(0));
}

#[test]
fn thesis_source() {
    let mut with_archive = Entry::new("a", EntryType::Thesis);
    with_archive.archive = Some("University Archive".to_string());
    let mut with_org = Entry::new("b", EntryType::Thesis);
    with_org.organization = Some("Technical University".to_string());
    let bare = Entry::new("c", EntryType::Thesis);
    let ets = vec![with_archive, with_org, bare];
    let apa = ApaBibliographyGenerator::new(&ets);
    assert_eq!("University Archive.", apa.get_source(0));
    assert_eq!("Technical University.", apa.get_source(1));
    assert_eq!("", apa.get_source(2));
}

#[test]
fn manuscript_source() {
    let mut with_archive = Entry::new("a", EntryType::Manuscript);
    with_archive.archive = Some("Paper Box".to_string());
    let mut with_org = Entry::new("b", EntryType::Manuscript);
    with_org.organization = Some("Ignored".to_string());
    let ets = vec![with_archive, with_org];
    let apa = ApaBibliographyGenerator::new(&ets);
    assert_eq!("Paper Box.", apa.get_source(0));
    assert_eq!("", apa.get_source(1));
}

#[test]
fn generic_source() {
    let mut with_publisher = Entry::new("a", EntryType::Misc);
    with_publisher.publisher = Some("Printing House".to_string());
    with_publisher.organization = Some("Shadowed".to_string());
    let mut with_org = Entry::new("b", EntryType::Misc);
    with_org.organization = Some("Some Club".to_string());
    let bare = Entry::new("c", EntryType::Misc);
    let ets = vec![with_publisher, with_org, bare];
    let apa = ApaBibliographyGenerator::new(&ets);
    assert_eq!("Printing House.", apa.get_source(0));
    assert_eq!("Some Club.", apa.get_source(1));
    assert_eq!("", apa.get_source(2));
}

#[test]
fn formatting_is_idempotent() {
    let mut journal = Entry::new("j", EntryType::Periodical);
    journal.title = Some("Journal of tests".to_string());
    journal.volume = Some(3u64..3u64);
    let mut article = Entry::new("a", EntryType::Article);
    article.title = Some("On repetition".to_string());
    article.date = Some(Date { year: 2021, month: Some(6), day: None });
    article.set_authors(vec![person("Doe", "Jane")]);
    article.parents = vec![journal];
    let ets = vec![article];
    let apa = ApaBibliographyGenerator::new(&ets);
    let first = apa.get_reference(0);
    let second = apa.get_reference(0);
    assert_eq!(first, second);
    assert_eq!(apa.get_source(0), apa.get_source(0));
    assert_eq!(apa.get_title(0), apa.get_title(0));
}

#[test]
fn reference_assembly() {
    let mut e = Entry::new("a", EntryType::Misc);
    e.title = Some("A study".to_string());
    e.date = Some(Date { year: 2020, month: None, day: None });
    e.publisher = Some("Printing House".to_string());
    e.set_authors(vec![person("Doe", "Jane")]);
    let ets = vec![e];
    let apa = ApaBibliographyGenerator::new(&ets);
    assert_eq!(
        "Doe, J. (2020). A study. Printing House.",
        apa.get_reference(0)
    );
}

#[test]
fn reference_assembly_minimal_entry() {
    let ets = vec![Entry::new("a", EntryType::Misc)];
    let apa = ApaBibliographyGenerator::new(&ets);
    assert_eq!("(n. d.).", apa.get_reference(0));
}
