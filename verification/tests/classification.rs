use hayagriva::text::format_u64_pad4;
use hayagriva::text::get_month_name;
use hayagriva::text::get_ordinal;
use hayagriva::types::Affiliated;
use hayagriva::types::Date;
use hayagriva::types::PersonRole;
use hayagriva::ApaBibliographyGenerator;
use hayagriva::Entry;
use hayagriva::EntryType;
use hayagriva::Person;
use hayagriva::SourceType;

fn person(family: &str, given: &str) -> Person {
    Person::from_strings(&[family, given]).unwrap()
}

#[test]
fn classify_periodical_wins_over_later_tests() {
    let blog = Entry::new("b", EntryType::Blog);
    let journal = Entry::new("j", EntryType::Periodical);
    let mut article = Entry::new("a", EntryType::Article);
    article.parents = vec![blog, journal];
    assert_eq!(SourceType::PeriodicalItem(1), SourceType::for_entry(&article));
}

#[test]
fn classify_collection_pairings() {
    let mut chapter = Entry::new("c", EntryType::InAnthology);
    chapter.parents = vec![Entry::new("p", EntryType::Anthology)];
    assert_eq!(SourceType::CollectionItem(0), SourceType::for_entry(&chapter));

    let mut entry_item = Entry::new("e", EntryType::Entry);
    entry_item.parents = vec![Entry::new("p", EntryType::Book)];
    assert_eq!(SourceType::CollectionItem(0), SourceType::for_entry(&entry_item));

    let mut in_reference = Entry::new("r", EntryType::Misc);
    in_reference.parents = vec![Entry::new("p", EntryType::Reference)];
    assert_eq!(SourceType::CollectionItem(0), SourceType::for_entry(&in_reference));

    let mut paper = Entry::new("p", EntryType::Article);
    paper.parents = vec![Entry::new("p", EntryType::Proceedings)];
    assert_eq!(SourceType::CollectionItem(0), SourceType::for_entry(&paper));
}

#[test]
fn classify_tv_series_needs_issue_and_volume() {
    let mut episode = Entry::new("e", EntryType::Video);
    episode.parents = vec![Entry::new("s", EntryType::Video)];
    assert_eq!(SourceType::Generic, SourceType::for_entry(&episode));

    episode.issue = Some(3);
    episode.volume = Some(2u64..2u64);
    assert_eq!(SourceType::TvSeries(0), SourceType::for_entry(&episode));
}

#[test]
fn classify_shape_only_types() {
    assert_eq!(
        SourceType::Thesis,
        SourceType::for_entry(&Entry::new("a", EntryType::Thesis))
    );
    assert_eq!(
        SourceType::Manuscript,
        SourceType::for_entry(&Entry::new("b", EntryType::Manuscript))
    );
    assert_eq!(
        SourceType::StandaloneArt,
        SourceType::for_entry(&Entry::new("c", EntryType::Artwork))
    );
    assert_eq!(
        SourceType::StandaloneArt,
        SourceType::for_entry(&Entry::new("d", EntryType::Exhibition))
    );
    assert_eq!(
        SourceType::StandaloneWebItem,
        SourceType::for_entry(&Entry::new("e", EntryType::WebItem))
    );
    assert_eq!(
        SourceType::Generic,
        SourceType::for_entry(&Entry::new("f", EntryType::Misc))
    );
}

#[test]
fn classify_parent_shapes() {
    let mut in_art = Entry::new("a", EntryType::Misc);
    in_art.parents = vec![Entry::new("p", EntryType::Artwork)];
    assert_eq!(SourceType::ArtContainer(0), SourceType::for_entry(&in_art));

    let mut on_blog = Entry::new("b", EntryType::Misc);
    on_blog.parents = vec![Entry::new("p", EntryType::Blog)];
    assert_eq!(SourceType::WebItem(0), SourceType::for_entry(&on_blog));

    let mut talk = Entry::new("c", EntryType::Misc);
    talk.parents = vec![Entry::new("p", EntryType::Conference)];
    assert_eq!(SourceType::ConferenceTalk(0), SourceType::for_entry(&talk));
}

#[test]
fn classify_no_parents_never_yields_parent_shape() {
    let tags = [
        EntryType::Article,
        EntryType::InAnthology,
        EntryType::Entry,
        EntryType::Video,
        EntryType::Misc,
        EntryType::Blog,
        EntryType::Book,
        EntryType::Conference,
    ];
    for tag in tags {
        let st = SourceType::for_entry(&Entry::new("k", tag));
        assert!(matches!(
            st,
            SourceType::Thesis
                | SourceType::Manuscript
                | SourceType::StandaloneArt
                | SourceType::StandaloneWebItem
                | SourceType::Generic
        ));
    }
}

#[test]
fn tv_series_source_uses_producers() {
    let mut series = Entry::new("s", EntryType::Video);
    series.title = Some("A show".to_string());
    series.publisher = Some("Network".to_string());
    series.affiliated = vec![Affiliated {
        persons: vec![person("Prod", "Pat")],
        role: PersonRole::ExecutiveProducer,
    }];
    let mut episode = Entry::new("e", EntryType::Video);
    episode.issue = Some(3);
    episode.volume = Some(2u64..2u64);
    episode.parents = vec![series];
    let ets = vec![episode];
    let apa = ApaBibliographyGenerator::new(&ets);
    assert_eq!("In Prod, P. (Ed.), A show. Network.", apa.get_source(0));
}

#[test]
fn tv_series_source_falls_back_to_authors() {
    let mut series = Entry::new("s", EntryType::Video);
    series.title = Some("A show".to_string());
    series.affiliated = vec![Affiliated {
        persons: vec![person("Writer", "Wes")],
        role: PersonRole::Writer,
    }];
    let mut episode = Entry::new("e", EntryType::Video);
    episode.issue = Some(3);
    episode.volume = Some(2u64..2u64);
    episode.set_authors(vec![person("Auth", "Amy")]);
    episode.parents = vec![series];
    let ets = vec![episode];
    let apa = ApaBibliographyGenerator::new(&ets);
    assert_eq!("In Auth, A. (Ed.), A show.", apa.get_source(0));
}

#[test]
fn art_container_source() {
    let mut work = Entry::new("p", EntryType::Artwork);
    work.title = Some("Large canvas".to_string());
    work.organization = Some("City Museum".to_string());
    let mut detail = Entry::new("a", EntryType::Misc);
    detail.parents = vec![work];
    let ets = vec![detail];
    let apa = ApaBibliographyGenerator::new(&ets);
    assert_eq!("Large canvas, City Museum.", apa.get_source(0));
}

#[test]
fn ordinals() {
    assert_eq!("1st", get_ordinal(1));
    assert_eq!("2nd", get_ordinal(2));
    assert_eq!("3rd", get_ordinal(3));
    assert_eq!("4th", get_ordinal(4));
    assert_eq!("11th", get_ordinal(11));
    assert_eq!("12th", get_ordinal(12));
    assert_eq!("13th", get_ordinal(13));
    assert_eq!("21st", get_ordinal(21));
    assert_eq!("102nd", get_ordinal(102));
    assert_eq!("111th", get_ordinal(111));
}

#[test]
fn month_names() {
    assert_eq!(Some("January"), get_month_name(1));
    assert_eq!(Some("December"), get_month_name(12));
    assert_eq!(None, get_month_name(0));
    assert_eq!(None, get_month_name(13));
}

#[test]
fn year_padding() {
    assert_eq!("0005", format_u64_pad4(5));
    assert_eq!("0042", format_u64_pad4(42));
    assert_eq!("0987", format_u64_pad4(987));
    assert_eq!("2020", format_u64_pad4(2020));
    assert_eq!("12345", format_u64_pad4(12345));
}

#[test]
fn initials_keep_hyphens() {
    let p = person("Günther", "Hans-Joseph");
    assert_eq!("H.-J.", p.get_initials().unwrap());
    let q = person("Mädje", "Laurenz Elias");
    assert_eq!("L. E.", q.get_initials().unwrap());
    let no_given = Person::from_strings(&["Solo"]).unwrap();
    assert!(no_given.get_initials().is_none());
}

#[test]
fn dates_only_need_the_entry_itself() {
    let mut e = Entry::new("a", EntryType::Misc);
    e.date = Some(Date { year: 1999, month: Some(12), day: Some(31) });
    let ets = vec![e];
    let apa = ApaBibliographyGenerator::new(&ets);
    assert_eq!("(1999, December 31)", apa.get_date(0));
}
