//! The data model: bibliographic records, persons, dates and the small
//! value types the formatting rules read.

use vstd::prelude::*;
use vstd::string::StringExecFns;
use core::ops::Range;

verus! {

/// The closed set of type tags a record can carry.
#[derive(Clone, Copy, PartialEq, Eq, Structural, Debug)]
pub enum EntryType {
    Article,
    InAnthology,
    Anthology,
    Entry,
    Reference,
    Proceedings,
    Periodical,
    NewspaperIssue,
    Book,
    Report,
    Thesis,
    Manuscript,
    Video,
    Artwork,
    Exhibition,
    WebItem,
    Blog,
    Misc,
    Conference,
}

/// A person named on a record.
pub struct Person {
    /// The family name.
    pub name: String,
    /// Given name or names, from which initials are derived.
    pub given_name: Option<String>,
    /// A particle such as "van de", rendered before the family name.
    pub prefix: Option<String>,
    /// A suffix such as "Jr.", rendered after the initials.
    pub suffix: Option<String>,
}

impl Person {
    /// Builds a person from a family-name part and an optional given-name
    /// part, as record files commonly list them; `None` when no parts are
    /// given.
    pub fn from_strings(parts: &[&str]) -> (r: Option<Person>)
        ensures
            r is Some <==> parts@.len() > 0,
            r is Some ==> {
                &&& r->0.name@ == parts@[0]@
                &&& (parts@.len() > 1 ==> (r->0.given_name matches Some(g) && g@ == parts@[1]@))
                &&& (parts@.len() <= 1 ==> r->0.given_name is None)
                &&& r->0.prefix is None
                &&& r->0.suffix is None
            },
    {
        if parts.len() == 0 {
            return None;
        }
        let name = String::from_str(parts[0]);
        let given_name = if parts.len() > 1 {
            Some(String::from_str(parts[1]))
        } else {
            None
        };
        Some(Person { name, given_name, prefix: None, suffix: None })
    }

    /// A field-for-field copy of this person.
    pub fn duplicate(&self) -> (r: Person)
        ensures
            r == *self,
    {
        Person {
            name: self.name.clone(),
            given_name: match &self.given_name {
                Some(g) => Some(g.clone()),
                None => None,
            },
            prefix: match &self.prefix {
                Some(p) => Some(p.clone()),
                None => None,
            },
            suffix: match &self.suffix {
                Some(s) => Some(s.clone()),
                None => None,
            },
        }
    }
}

/// The role a person affiliated with a record played.
#[derive(Clone, Copy, PartialEq, Eq, Structural, Debug)]
pub enum PersonRole {
    Translator,
    Director,
    Writer,
    ExecutiveProducer,
    Narrator,
}

/// A group of persons credited on a record under one role.
pub struct Affiliated {
    pub persons: Vec<Person>,
    pub role: PersonRole,
}

/// A calendar date; the year is required, a day needs a month.
#[derive(Clone, Copy, PartialEq, Eq, Structural, Debug)]
pub struct Date {
    pub year: u16,
    /// Month number, January being 1.
    pub month: Option<u8>,
    pub day: Option<u8>,
}

/// A date carries a month only in 1 through 12, and a day only beside a
/// month.
pub open spec fn date_wf(d: Date) -> bool {
    &&& (d.month matches Some(m) ==> 1 <= m <= 12)
    &&& (d.day is Some ==> d.month is Some)
}

/// A number or a free-text label, as an edition can be either.
pub enum NumOrStr {
    Number(u64),
    Str(String),
}

/// A url together with the date the resource was last visited.
pub struct QualifiedUrl {
    pub value: String,
    pub visit_date: Option<Date>,
}

/// One bibliographic record.  Every attribute but the type tag is
/// optional; parents are the records that contain or publish this one, in
/// order.
pub struct Entry {
    /// The record's key in its store.
    pub key: String,
    pub entry_type: EntryType,
    pub parents: Vec<Entry>,
    /// The title, already in its display (sentence-cased) form; the casing
    /// transform itself lives with the record store, outside this crate.
    pub title: Option<String>,
    pub authors: Vec<Person>,
    pub editors: Option<Vec<Person>>,
    pub affiliated: Vec<Affiliated>,
    pub date: Option<Date>,
    pub volume: Option<Range<u64>>,
    pub issue: Option<u64>,
    pub edition: Option<NumOrStr>,
    pub page_range: Option<Range<u64>>,
    pub serial_number: Option<String>,
    pub url: Option<QualifiedUrl>,
    pub publisher: Option<String>,
    pub organization: Option<String>,
    pub archive: Option<String>,
}

impl Entry {
    /// A fresh record with the given key and type tag and every other
    /// attribute absent.
    pub fn new(key: &str, entry_type: EntryType) -> (r: Entry)
        ensures
            r.key@ == key@,
            r.entry_type == entry_type,
            r.parents@ == Seq::<Entry>::empty(),
            r.title is None,
            r.authors@ == Seq::<Person>::empty(),
            r.editors is None,
            r.affiliated@ == Seq::<Affiliated>::empty(),
            r.date is None,
            r.volume is None,
            r.issue is None,
            r.edition is None,
            r.page_range is None,
            r.serial_number is None,
            r.url is None,
            r.publisher is None,
            r.organization is None,
            r.archive is None,
    {
        Entry {
            key: String::from_str(key),
            entry_type,
            parents: Vec::new(),
            title: None,
            authors: Vec::new(),
            editors: None,
            affiliated: Vec::new(),
            date: None,
            volume: None,
            issue: None,
            edition: None,
            page_range: None,
            serial_number: None,
            url: None,
            publisher: None,
            organization: None,
            archive: None,
        }
    }

    /// Replaces the record's author list.
    pub fn set_authors(&mut self, authors: Vec<Person>)
        ensures
            final(self).authors == authors,
            final(self).key == old(self).key,
            final(self).entry_type == old(self).entry_type,
            final(self).parents == old(self).parents,
            final(self).title == old(self).title,
            final(self).editors == old(self).editors,
            final(self).affiliated == old(self).affiliated,
            final(self).date == old(self).date,
            final(self).volume == old(self).volume,
            final(self).issue == old(self).issue,
            final(self).edition == old(self).edition,
            final(self).page_range == old(self).page_range,
            final(self).serial_number == old(self).serial_number,
            final(self).url == old(self).url,
            final(self).publisher == old(self).publisher,
            final(self).organization == old(self).organization,
            final(self).archive == old(self).archive,
    {
        self.authors = authors;
    }
}

} // verus!
