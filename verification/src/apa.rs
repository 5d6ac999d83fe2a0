//! The APA reference generator: renders the author, date, title and source
//! segments of a record and assembles them into one reference line.

use vstd::prelude::*;
use vstd::string::StringExecFns;
use vstd::string::StrSliceExecFns;
use core::ops::Range;
use crate::classify::modality_matches;
use crate::classify::spec_classify;
use crate::classify::spec_first_match_by;
use crate::classify::lemma_first_match_by_bounds;
use crate::classify::lemma_first_match_by_congruence;
use crate::classify::EntryTypeModality;
use crate::classify::EntryTypeSpec;
use crate::classify::SourceType;
use crate::names::ampersand_list;
use crate::names::name_list;
use crate::names::spec_ampersand_list;
use crate::names::spec_name_strings;
use crate::text::append_terminal;
use crate::text::format_u64;
use crate::text::format_u64_pad4;
use crate::text::get_month_name;
use crate::text::get_ordinal;
use crate::text::spec_dec;
use crate::text::spec_dec4;
use crate::text::spec_month_name;
use crate::text::spec_ordinal;
use crate::text::spec_with_terminal;
use crate::types::Affiliated;
use crate::types::Date;
use crate::types::date_wf;
use crate::types::Entry;
use crate::types::EntryType;
use crate::types::NumOrStr;
use crate::types::Person;
use crate::types::PersonRole;
use crate::types::QualifiedUrl;

verus! {

/// The shared range rule: a collapsed range renders as
/// `"{singular} {low}"`, a proper one as `"{plural} {low}–{high}"`; the
/// space stands only when the singular prefix is nonempty.
pub open spec fn spec_format_range(prefix_s: Seq<char>, prefix_m: Seq<char>, r: Range<
    u64,
>) -> Seq<char> {
    let space = if prefix_s.len() == 0 {
        Seq::<char>::empty()
    } else {
        " "@
    };
    if r.start == r.end {
        prefix_s + space + spec_dec(r.start as int)
    } else {
        prefix_m + space + spec_dec(r.start as int) + "–"@ + spec_dec(r.end as int)
    }
}

/// Renders a numeric range under the shared range rule.
pub fn format_range(prefix_s: &str, prefix_m: &str, range: &Range<u64>) -> (r: String)
    ensures
        r@ == spec_format_range(prefix_s@, prefix_m@, *range),
{
    let mut s = String::new();
    if range.start == range.end {
        s.append(prefix_s);
        if !prefix_s.is_empty() {
            s.append(" ");
        }
        let low = format_u64(range.start);
        s.append(low.as_str());
    } else {
        s.append(prefix_m);
        if !prefix_s.is_empty() {
            s.append(" ");
        }
        let low = format_u64(range.start);
        s.append(low.as_str());
        s.append("–");
        let high = format_u64(range.end);
        s.append(high.as_str());
    }
    assert(s@ =~= spec_format_range(prefix_s@, prefix_m@, *range));
    s
}

/// An edition rendered as its ordinal word when numeric, or as its label.
pub open spec fn spec_edition_label(e: NumOrStr) -> Seq<char> {
    match e {
        NumOrStr::Number(n) => spec_ordinal(n as int),
        NumOrStr::Str(s) => s@,
    }
}

/// The parenthesized edition/volume title suffix, empty when the record
/// has neither an edition nor a volume.
pub open spec fn spec_ed_vol(e: Entry) -> Seq<char> {
    match (e.edition, e.volume) {
        (Option::None, Option::None) => Seq::<char>::empty(),
        (Option::Some(ed), Option::None) => " ("@ + spec_edition_label(ed) + " ed.)."@,
        (Option::None, Option::Some(v)) => " ("@ + spec_format_range("Vol."@, "Vols."@, v)
            + ")."@,
        (Option::Some(ed), Option::Some(v)) => " ("@ + spec_edition_label(ed) + " ed., "@
            + spec_format_range("Vol."@, "Vols."@, v) + ")."@,
    }
}

/// Renders the edition/volume parenthetical of a record.
pub fn ed_vol_str(entry: &Entry) -> (r: String)
    ensures
        r@ == spec_ed_vol(*entry),
{
    let mut s = String::new();
    match (&entry.edition, &entry.volume) {
        (None, None) => {},
        (Some(ed), None) => {
            s.append(" (");
            match ed {
                NumOrStr::Number(n) => {
                    let o = get_ordinal(*n);
                    s.append(o.as_str());
                },
                NumOrStr::Str(label) => {
                    s.append(label.as_str());
                },
            }
            s.append(" ed.).");
        },
        (None, Some(v)) => {
            s.append(" (");
            let rng = format_range("Vol.", "Vols.", v);
            s.append(rng.as_str());
            s.append(").");
        },
        (Some(ed), Some(v)) => {
            s.append(" (");
            match ed {
                NumOrStr::Number(n) => {
                    let o = get_ordinal(*n);
                    s.append(o.as_str());
                },
                NumOrStr::Str(label) => {
                    s.append(label.as_str());
                },
            }
            s.append(" ed., ");
            let rng = format_range("Vol.", "Vols.", v);
            s.append(rng.as_str());
            s.append(").");
        },
    }
    assert(s@ =~= spec_ed_vol(*entry));
    s
}

/// The record's date has a month only in 1 through 12 and a day only
/// beside a month.
pub open spec fn spec_date_ok(e: Entry) -> bool {
    e.date matches Some(d) ==> date_wf(d)
}

/// The visit date of the record's url, when both stand, is well formed.
pub open spec fn spec_url_ok(e: Entry) -> bool {
    e.url matches Some(u) ==> (u.visit_date matches Some(d) ==> date_wf(d))
}

/// The ampersand list over the record's authors.
pub open spec fn spec_get_author(e: Entry) -> Seq<char> {
    spec_ampersand_list(spec_name_strings(e.authors@))
}

/// A date as the APA date segment: `"(YYYY)"`, `"(YYYY, Month)"` or
/// `"(YYYY, Month D)"`.
pub open spec fn spec_format_date(d: Date) -> Seq<char> {
    match (d.month, d.day) {
        (Option::None, _) => "("@ + spec_dec4(d.year as int) + ")"@,
        (Option::Some(m), Option::None) => "("@ + spec_dec4(d.year as int) + ", "@
            + spec_month_name(m as int) + ")"@,
        (Option::Some(m), Option::Some(day)) => "("@ + spec_dec4(d.year as int) + ", "@
            + spec_month_name(m as int) + " "@ + spec_dec(day as int) + ")"@,
    }
}

/// The date segment of a record; `"(n. d.)"` when it has no date.
pub open spec fn spec_get_date(e: Entry) -> Seq<char> {
    match e.date {
        Some(d) => spec_format_date(d),
        None => "(n. d.)"@,
    }
}

/// The retrieval segment for a url: the bare url without a visit date;
/// with one, a "Retrieved ..., from ..." clause whose full-date form alone
/// is parenthesized.
pub open spec fn spec_retrieval(u: QualifiedUrl) -> Seq<char> {
    match u.visit_date {
        None => u.value@,
        Some(d) => match (d.month, d.day) {
            (Option::None, _) => "Retrieved "@ + spec_dec4(d.year as int) + ", from "@ + u.value@,
            (Option::Some(m), Option::None) => "Retrieved "@ + spec_month_name(m as int) + " "@
                + spec_dec4(d.year as int) + ", from "@ + u.value@,
            (Option::Some(m), Option::Some(day)) => "(Retrieved "@ + spec_month_name(m as int)
                + " "@ + spec_dec(day as int) + ", "@ + spec_dec4(d.year as int) + ", from "@
                + u.value@ + ")"@,
        },
    }
}

/// The retrieval segment of a record, absent without a url.
pub open spec fn spec_get_retrieval_date(e: Entry) -> Option<Seq<char>> {
    match e.url {
        Some(u) => Some(spec_retrieval(u)),
        None => None,
    }
}

/// Renders records of a slice as APA reference-list lines.
#[derive(Clone, Copy)]
pub struct ApaBibliographyGenerator<'s> {
    pub entries: &'s [Entry],
}

impl<'s> ApaBibliographyGenerator<'s> {
    /// A generator over the given records.
    pub fn new(entries: &'s [Entry]) -> (r: Self)
        ensures
            r.entries@ == entries@,
    {
        Self { entries }
    }

    /// The author segment of the record at `index`.
    pub fn get_author(&self, index: usize) -> (r: String)
        requires
            index < self.entries@.len(),
        ensures
            r@ == spec_get_author(self.entries@[index as int]),
    {
        let entry = &self.entries[index];
        let names = name_list(&entry.authors);
        proof {
            assert(names@.map_values(|s: String| s@) =~= spec_name_strings(entry.authors@));
        }
        ampersand_list(names)
    }

    /// The date segment of the record at `index`.
    pub fn get_date(&self, index: usize) -> (r: String)
        requires
            index < self.entries@.len(),
            spec_date_ok(self.entries@[index as int]),
        ensures
            r@ == spec_get_date(self.entries@[index as int]),
    {
        let entry = &self.entries[index];
        let mut s = String::new();
        match &entry.date {
            Some(d) => {
                match (d.month, d.day) {
                    (None, _) => {
                        s.append("(");
                        let y = format_u64_pad4(d.year as u64);
                        s.append(y.as_str());
                        s.append(")");
                    },
                    (Some(m), None) => {
                        s.append("(");
                        let y = format_u64_pad4(d.year as u64);
                        s.append(y.as_str());
                        s.append(", ");
                        s.append(get_month_name(m).unwrap());
                        s.append(")");
                    },
                    (Some(m), Some(day)) => {
                        s.append("(");
                        let y = format_u64_pad4(d.year as u64);
                        s.append(y.as_str());
                        s.append(", ");
                        s.append(get_month_name(m).unwrap());
                        s.append(" ");
                        let dd = format_u64(day as u64);
                        s.append(dd.as_str());
                        s.append(")");
                    },
                }
            },
            None => {
                s.append("(n. d.)");
            },
        }
        assert(s@ =~= spec_get_date(self.entries@[index as int]));
        s
    }

    /// The retrieval segment of the record at `index`, absent without a
    /// url.
    pub fn get_retreival_date(&self, index: usize) -> (r: Option<String>)
        requires
            index < self.entries@.len(),
            spec_url_ok(self.entries@[index as int]),
        ensures
            r is Some <==> spec_get_retrieval_date(self.entries@[index as int]) is Some,
            r matches Some(s) ==> s@ == spec_get_retrieval_date(self.entries@[index as int])->0,
    {
        let entry = &self.entries[index];
        match &entry.url {
            Some(qurl) => {
                let mut s = String::new();
                match &qurl.visit_date {
                    Some(d) => {
                        match (d.month, d.day) {
                            (None, _) => {
                                s.append("Retrieved ");
                                let y = format_u64_pad4(d.year as u64);
                                s.append(y.as_str());
                                s.append(", from ");
                                s.append(qurl.value.as_str());
                            },
                            (Some(m), None) => {
                                s.append("Retrieved ");
                                s.append(get_month_name(m).unwrap());
                                s.append(" ");
                                let y = format_u64_pad4(d.year as u64);
                                s.append(y.as_str());
                                s.append(", from ");
                                s.append(qurl.value.as_str());
                            },
                            (Some(m), Some(day)) => {
                                s.append("(Retrieved ");
                                s.append(get_month_name(m).unwrap());
                                s.append(" ");
                                let dd = format_u64(day as u64);
                                s.append(dd.as_str());
                                s.append(", ");
                                let y = format_u64_pad4(d.year as u64);
                                s.append(y.as_str());
                                s.append(", from ");
                                s.append(qurl.value.as_str());
                                s.append(")");
                            },
                        }
                    },
                    None => {
                        s.append(qurl.value.as_str());
                    },
                }
                assert(s@ =~= spec_retrieval(self.entries@[index as int].url->0));
                Some(s)
            },
            None => None,
        }
    }

    /// The title segment of the record at `index`: the display title with
    /// the multivolume prefix, the edition/volume parenthetical, or the
    /// terminal period, whichever of the three rules applies; absent when
    /// the record has no title.
    pub fn get_title(&self, index: usize) -> (r: Option<String>)
        requires
            index < self.entries@.len(),
            spec_title_ok(self.entries@[index as int]),
        ensures
            r is Some <==> spec_get_title(self.entries@[index as int]) is Some,
            r matches Some(s) ==> s@ == spec_get_title(self.entries@[index as int])->0,
    {
        let entry = &self.entries[index];
        let title: &String = match &entry.title {
            Some(t) => t,
            None => {
                return None;
            },
        };
        let multivol_spec = EntryTypeSpec::single_parent(
            EntryTypeModality::Specific(EntryType::Book),
            EntryTypeModality::Specific(EntryType::Book),
        );
        proof {
            lemma_first_match_by_congruence(
                entry.parents@,
                |x: EntryType| modality_matches(EntryTypeModality::Specific(EntryType::Book), x),
                |x: EntryType| x == EntryType::Book,
            );
            lemma_first_match_by_bounds(entry.parents@, |x: EntryType| x == EntryType::Book);
        }
        let mut multivolume_parent: Option<usize> = None;
        if let Some(i) = entry.check_with_spec(&multivol_spec) {
            if entry.volume.is_some() {
                multivolume_parent = Some(i[0]);
            }
        }
        let mut res = String::new();
        match multivolume_parent {
            Some(mv) => {
                assert(spec_multivol_parent(*entry) == Some(mv as int));
                let p = &entry.parents[mv];
                match &p.title {
                    Some(pt) => {
                        res.append(pt.as_str());
                    },
                    None => {
                        proof {
                            assert(false);
                        }
                    },
                }
                res.append(": ");
                match &entry.volume {
                    Some(v) => {
                        let rng = format_range("Vol.", "Vols.", v);
                        res.append(rng.as_str());
                    },
                    None => {
                        proof {
                            assert(false);
                        }
                    },
                }
                res.append(" ");
                res.append(title.as_str());
                res.append(".");
            },
            None => {
                let t = entry.entry_type;
                let book_like = t == EntryType::Book || t == EntryType::Report || t
                    == EntryType::Reference || t == EntryType::Anthology || t
                    == EntryType::Proceedings;
                res.append(title.as_str());
                if (entry.volume.is_some() || entry.edition.is_some()) && book_like {
                    let suffix = ed_vol_str(entry);
                    res.append(suffix.as_str());
                } else {
                    append_terminal(&mut res);
                }
            },
        }
        assert(res@ =~= spec_get_title(self.entries@[index as int])->0);
        Some(res)
    }

    /// The source (venue) clause of the record at `index`, assembled under
    /// the template its classified shape selects.
    pub fn get_source(&self, index: usize) -> (r: String)
        requires
            index < self.entries@.len(),
        ensures
            r@ == spec_get_source(self.entries@[index as int]),
    {
        let entry = &self.entries[index];
        let st = SourceType::for_entry(entry);
        match st {
            SourceType::PeriodicalItem(i) => source_periodical(entry, &entry.parents[i]),
            SourceType::CollectionItem(i) => {
                let parent = &entry.parents[i];
                match &parent.editors {
                    Some(eds) => in_container(eds, parent),
                    None => {
                        let no_eds: Vec<Person> = Vec::new();
                        in_container(&no_eds, parent)
                    },
                }
            },
            SourceType::TvSeries(i) => {
                let parent = &entry.parents[i];
                let prods = collect_producers(&parent.affiliated);
                if prods.len() > 0 {
                    in_container(&prods, parent)
                } else {
                    in_container(&entry.authors, parent)
                }
            },
            SourceType::Thesis => {
                let mut res = String::new();
                if let Some(a) = &entry.archive {
                    res.append(a.as_str());
                    res.append(".");
                } else if let Some(o) = &entry.organization {
                    res.append(o.as_str());
                    res.append(".");
                }
                assert(res@ =~= spec_get_source(self.entries@[index as int]));
                res
            },
            SourceType::Manuscript => {
                let mut res = String::new();
                if let Some(a) = &entry.archive {
                    res.append(a.as_str());
                    res.append(".");
                }
                assert(res@ =~= spec_get_source(self.entries@[index as int]));
                res
            },
            SourceType::ArtContainer(i) => source_container(&entry.parents[i]),
            SourceType::StandaloneArt => source_generic(entry),
            SourceType::StandaloneWebItem => source_generic(entry),
            SourceType::WebItem(i) => source_container(&entry.parents[i]),
            SourceType::NewsItem(i) => source_container(&entry.parents[i]),
            SourceType::ConferenceTalk(i) => source_container(&entry.parents[i]),
            SourceType::Generic => source_generic(entry),
        }
    }

    /// The full reference line: the nonempty segments of
    /// `"{author} {date}. {title} {source}"` joined by single spaces.
    pub fn get_reference(&self, index: usize) -> (r: String)
        requires
            index < self.entries@.len(),
            spec_date_ok(self.entries@[index as int]),
            spec_title_ok(self.entries@[index as int]),
        ensures
            r@ == spec_get_reference(self.entries@[index as int]),
    {
        let author = self.get_author(index);
        let date = self.get_date(index);
        let title = self.get_title(index);
        let source = self.get_source(index);
        let mut res = String::new();
        if !author.as_str().is_empty() {
            res.append(author.as_str());
            res.append(" ");
        }
        res.append(date.as_str());
        res.append(".");
        match &title {
            Some(t) => {
                if !t.as_str().is_empty() {
                    res.append(" ");
                    res.append(t.as_str());
                }
            },
            None => {},
        }
        if !source.as_str().is_empty() {
            res.append(" ");
            res.append(source.as_str());
        }
        assert(res@ =~= spec_get_reference(self.entries@[index as int]));
        res
    }
}

/// The tags whose records take the edition/volume title parenthetical.
pub open spec fn spec_is_book_like(t: EntryType) -> bool {
    t == EntryType::Book || t == EntryType::Report || t == EntryType::Reference || t
        == EntryType::Anthology || t == EntryType::Proceedings
}

/// The parent index of the multivolume (book-in-book) title rule: present
/// only for a Book record with a volume and a Book parent.
pub open spec fn spec_multivol_parent(e: Entry) -> Option<int> {
    if e.entry_type == EntryType::Book && e.volume is Some {
        spec_first_match_by(e.parents@, |x: EntryType| x == EntryType::Book)
    } else {
        None
    }
}

/// When the multivolume title rule applies, the parent it names must
/// carry a title.
pub open spec fn spec_title_ok(e: Entry) -> bool {
    spec_multivol_parent(e) matches Some(i) ==> e.parents@[i].title is Some
}

/// The record's title segment, under whichever of the three title rules
/// applies.
pub open spec fn spec_get_title(e: Entry) -> Option<Seq<char>> {
    match e.title {
        None => None,
        Some(t) => Some(
            if spec_multivol_parent(e) is Some {
                let p = e.parents@[spec_multivol_parent(e)->0];
                p.title->0@ + ": "@ + spec_format_range("Vol."@, "Vols."@, e.volume->0) + " "@
                    + t@ + "."@
            } else if (e.volume is Some || e.edition is Some) && spec_is_book_like(e.entry_type) {
                t@ + spec_ed_vol(e)
            } else {
                spec_with_terminal(t@)
            },
        ),
    }
}

/// The record's publisher, or failing that its organization.
pub open spec fn spec_pub_or_org(e: Entry) -> Option<Seq<char>> {
    match e.publisher {
        Some(p) => Some(p@),
        None => match e.organization {
            Some(o) => Some(o@),
            None => None,
        },
    }
}

/// The periodical source clause: parent title, volume and issue, then
/// serial number or page range, comma-separated as present, with a
/// terminal period once any clause was emitted.
pub open spec fn spec_source_periodical(e: Entry, p: Entry) -> Seq<char> {
    let c1 = p.title is Some;
    let c2 = p.volume is Some || p.issue is Some;
    let c3 = e.serial_number is Some || e.page_range is Some;
    let part1 = match p.title {
        Some(t) => t@,
        None => Seq::<char>::empty(),
    };
    let part2 = (if c1 && c2 {
        ", "@
    } else {
        Seq::<char>::empty()
    }) + (match p.volume {
        Some(v) => spec_format_range(""@, ""@, v),
        None => Seq::<char>::empty(),
    }) + (match p.issue {
        Some(n) => "("@ + spec_dec(n as int) + ")"@,
        None => Seq::<char>::empty(),
    });
    let part3 = (if (c1 || c2) && c3 {
        ", "@
    } else {
        Seq::<char>::empty()
    }) + (if c3 {
        match e.serial_number {
            Some(sn) => sn@,
            None => spec_format_range(""@, ""@, e.page_range->0),
        }
    } else {
        Seq::<char>::empty()
    });
    part1 + part2 + part3 + (if c1 || c2 || c3 {
        "."@
    } else {
        Seq::<char>::empty()
    })
}

/// Renders the periodical source clause.
#[verifier::rlimit(60)]
fn source_periodical(entry: &Entry, parent: &Entry) -> (r: String)
    ensures
        r@ == spec_source_periodical(*entry, *parent),
{
    let ghost c1 = parent.title is Some;
    let mut res = String::new();
    let mut comma = false;
    if let Some(t) = &parent.title {
        res.append(t.as_str());
        comma = true;
    }
    assert(comma == c1);
    assert(res@ =~= (match parent.title {
        Some(t) => t@,
        None => Seq::<char>::empty(),
    }));
    if parent.volume.is_some() || parent.issue.is_some() {
        if comma {
            res.append(", ");
        }
        if let Some(v) = &parent.volume {
            let rng = format_range("", "", v);
            res.append(rng.as_str());
        }
        if let Some(n) = &parent.issue {
            res.append("(");
            let d = format_u64(*n);
            res.append(d.as_str());
            res.append(")");
        }
        comma = true;
    }
    if entry.serial_number.is_some() || entry.page_range.is_some() {
        if comma {
            res.append(", ");
        }
        if let Some(sn) = &entry.serial_number {
            res.append(sn.as_str());
        } else if let Some(pg) = &entry.page_range {
            let rng = format_range("", "", pg);
            res.append(rng.as_str());
        }
        comma = true;
    }
    if comma {
        res.append(".");
    }
    assert(res@ =~= spec_source_periodical(*entry, *parent));
    res
}

/// The persons credited as executive producers, gathered over the
/// record's affiliations in order.
pub open spec fn spec_producers(affs: Seq<Affiliated>) -> Seq<Person>
    decreases affs.len(),
{
    if affs.len() == 0 {
        Seq::empty()
    } else {
        spec_producers(affs.drop_last()) + (if affs.last().role == PersonRole::ExecutiveProducer {
            affs.last().persons@
        } else {
            Seq::<Person>::empty()
        })
    }
}

/// The persons a series clause credits: the container's executive
/// producers, or the record's own authors when none carry that role.
pub open spec fn spec_tv_persons(e: Entry, p: Entry) -> Seq<Person> {
    if spec_producers(p.affiliated@).len() > 0 {
        spec_producers(p.affiliated@)
    } else {
        e.authors@
    }
}

/// Gathers the executive-producer persons of the affiliations.
fn collect_producers(affs: &Vec<Affiliated>) -> (r: Vec<Person>)
    ensures
        r@ == spec_producers(affs@),
{
    let mut out: Vec<Person> = Vec::new();
    let mut i: usize = 0;
    proof {
        assert(out@ =~= spec_producers(affs@.take(0)));
    }
    while i < affs.len()
        invariant
            0 <= i <= affs@.len(),
            out@ == spec_producers(affs@.take(i as int)),
        decreases affs@.len() - i,
    {
        let aff = &affs[i];
        if aff.role == PersonRole::ExecutiveProducer {
            let mut j: usize = 0;
            proof {
                assert(out@ =~= spec_producers(affs@.take(i as int)) + aff.persons@.take(0));
            }
            while j < aff.persons.len()
                invariant
                    i < affs@.len(),
                    *aff == affs@[i as int],
                    0 <= j <= aff.persons@.len(),
                    out@ == spec_producers(affs@.take(i as int)) + aff.persons@.take(j as int),
                decreases aff.persons@.len() - j,
            {
                out.push(aff.persons[j].duplicate());
                proof {
                    assert(aff.persons@.take(j as int + 1) =~= aff.persons@.take(j as int).push(
                        aff.persons@[j as int],
                    ));
                    assert(out@ =~= spec_producers(affs@.take(i as int)) + aff.persons@.take(
                        j as int + 1,
                    ));
                }
                j = j + 1;
            }
            proof {
                assert(aff.persons@.take(aff.persons@.len() as int) =~= aff.persons@);
            }
        }
        proof {
            assert(affs@.take(i as int + 1).drop_last() =~= affs@.take(i as int));
            assert(affs@.take(i as int + 1).last() == affs@[i as int]);
            assert(out@ =~= spec_producers(affs@.take(i as int + 1)));
        }
        i = i + 1;
    }
    proof {
        assert(affs@.take(affs@.len() as int) =~= affs@);
    }
    out
}

/// The editor clause: one person takes `"(Ed.)"`, several take
/// `"(Eds.)"` after the ampersand list; empty for no persons.
pub open spec fn spec_eds_clause(persons: Seq<Person>) -> Seq<char> {
    let names = spec_name_strings(persons);
    if names.len() == 0 {
        Seq::<char>::empty()
    } else if names.len() == 1 {
        names[0] + " (Ed.)"@
    } else {
        spec_ampersand_list(names) + " (Eds.)"@
    }
}

/// The "In ..." container clause shared by collection and series shapes:
/// editor clause, container title with its edition/volume suffix or
/// terminal period, and the publisher-or-organization clause.
pub open spec fn spec_in_container(persons: Seq<Person>, p: Entry) -> Seq<char> {
    let edpart = spec_eds_clause(persons);
    let body = match p.title {
        Some(t) => {
            let base = edpart + (if edpart.len() > 0 {
                ", "@
            } else {
                Seq::<char>::empty()
            }) + t@;
            if p.volume is Some || p.edition is Some {
                base + spec_ed_vol(p)
            } else {
                spec_with_terminal(base)
            }
        },
        None => edpart + (if edpart.len() > 0 {
            "."@
        } else {
            Seq::<char>::empty()
        }),
    };
    (if body.len() > 0 {
        "In "@ + body
    } else {
        Seq::<char>::empty()
    }) + (match spec_pub_or_org(p) {
        Some(s) => " "@ + s + "."@,
        None => Seq::<char>::empty(),
    })
}

/// Renders the "In ..." container clause for the given credited persons
/// and container record.
fn in_container(persons: &Vec<Person>, parent: &Entry) -> (r: String)
    ensures
        r@ == spec_in_container(persons@, *parent),
{
    proof {
        reveal_strlit(" (Ed.)");
        reveal_strlit(" (Eds.)");
    }
    let names = name_list(persons);
    proof {
        assert(names@.map_values(|s: String| s@) =~= spec_name_strings(persons@));
    }
    let mut res = String::new();
    let mut comma = false;
    if names.len() == 1 {
        res.append(names[0].as_str());
        res.append(" (Ed.)");
        comma = true;
    } else if names.len() > 1 {
        let joined = ampersand_list(names);
        res.append(joined.as_str());
        res.append(" (Eds.)");
        comma = true;
    }
    assert(res@ =~= spec_eds_clause(persons@));
    assert(comma == (spec_eds_clause(persons@).len() > 0));
    if let Some(t) = &parent.title {
        if comma {
            res.append(", ");
        }
        res.append(t.as_str());
        comma = false;
        if parent.volume.is_some() || parent.edition.is_some() {
            let suffix = ed_vol_str(parent);
            res.append(suffix.as_str());
        } else {
            append_terminal(&mut res);
        }
    }
    if comma {
        res.append(".");
    }
    let mut out = String::new();
    if !res.as_str().is_empty() {
        out.append("In ");
        out.append(res.as_str());
    }
    if parent.publisher.is_some() || parent.organization.is_some() {
        out.append(" ");
        if let Some(pb) = &parent.publisher {
            out.append(pb.as_str());
        } else if let Some(org) = &parent.organization {
            out.append(org.as_str());
        }
        out.append(".");
    }
    assert(out@ =~= spec_in_container(persons@, *parent));
    out
}

/// The plain container clause the remaining parent-carrying shapes share:
/// container title and publisher-or-organization, comma-separated as
/// present, period-terminated once either was emitted.
pub open spec fn spec_container_clause(p: Entry) -> Seq<char> {
    let c1 = p.title is Some;
    let c2 = spec_pub_or_org(p) is Some;
    (match p.title {
        Some(t) => t@,
        None => Seq::<char>::empty(),
    }) + (if c1 && c2 {
        ", "@
    } else {
        Seq::<char>::empty()
    }) + (match spec_pub_or_org(p) {
        Some(s) => s,
        None => Seq::<char>::empty(),
    }) + (if c1 || c2 {
        "."@
    } else {
        Seq::<char>::empty()
    })
}

/// Renders the plain container clause of a parent record.
fn source_container(parent: &Entry) -> (r: String)
    ensures
        r@ == spec_container_clause(*parent),
{
    let mut res = String::new();
    let mut comma = false;
    if let Some(t) = &parent.title {
        res.append(t.as_str());
        comma = true;
    }
    if parent.publisher.is_some() || parent.organization.is_some() {
        if comma {
            res.append(", ");
        }
        if let Some(pb) = &parent.publisher {
            res.append(pb.as_str());
        } else if let Some(org) = &parent.organization {
            res.append(org.as_str());
        }
        comma = true;
    }
    if comma {
        res.append(".");
    }
    assert(res@ =~= spec_container_clause(*parent));
    res
}

/// The fallback source clause: publisher or organization,
/// period-terminated; empty without either.
pub open spec fn spec_generic_source(e: Entry) -> Seq<char> {
    match spec_pub_or_org(e) {
        Some(s) => s + "."@,
        None => Seq::<char>::empty(),
    }
}

/// Renders the fallback source clause of a record.
fn source_generic(entry: &Entry) -> (r: String)
    ensures
        r@ == spec_generic_source(*entry),
{
    let mut res = String::new();
    if let Some(pb) = &entry.publisher {
        res.append(pb.as_str());
        res.append(".");
    } else if let Some(org) = &entry.organization {
        res.append(org.as_str());
        res.append(".");
    }
    assert(res@ =~= spec_generic_source(*entry));
    res
}

/// The record's source clause under the template its classified shape
/// selects.
pub open spec fn spec_get_source(e: Entry) -> Seq<char> {
    match spec_classify(e) {
        SourceType::PeriodicalItem(i) => spec_source_periodical(e, e.parents@[i as int]),
        SourceType::CollectionItem(i) => spec_in_container(
            match e.parents@[i as int].editors {
                Some(v) => v@,
                None => Seq::<Person>::empty(),
            },
            e.parents@[i as int],
        ),
        SourceType::TvSeries(i) => spec_in_container(
            spec_tv_persons(e, e.parents@[i as int]),
            e.parents@[i as int],
        ),
        SourceType::Thesis => match e.archive {
            Some(a) => a@ + "."@,
            None => match e.organization {
                Some(o) => o@ + "."@,
                None => Seq::<char>::empty(),
            },
        },
        SourceType::Manuscript => match e.archive {
            Some(a) => a@ + "."@,
            None => Seq::<char>::empty(),
        },
        SourceType::ArtContainer(i) => spec_container_clause(e.parents@[i as int]),
        SourceType::StandaloneArt => spec_generic_source(e),
        SourceType::StandaloneWebItem => spec_generic_source(e),
        SourceType::WebItem(i) => spec_container_clause(e.parents@[i as int]),
        SourceType::NewsItem(i) => spec_container_clause(e.parents@[i as int]),
        SourceType::ConferenceTalk(i) => spec_container_clause(e.parents@[i as int]),
        SourceType::Generic => spec_generic_source(e),
    }
}

/// The assembled reference line: author, date with its period, title and
/// source, each emitted only when nonempty, joined by single spaces.
pub open spec fn spec_get_reference(e: Entry) -> Seq<char> {
    let a = spec_get_author(e);
    let d = spec_get_date(e) + "."@;
    let t = match spec_get_title(e) {
        Some(t) => t,
        None => Seq::<char>::empty(),
    };
    let s = spec_get_source(e);
    (if a.len() > 0 {
        a + " "@
    } else {
        Seq::<char>::empty()
    }) + d + (if t.len() > 0 {
        " "@ + t
    } else {
        Seq::<char>::empty()
    }) + (if s.len() > 0 {
        " "@ + s
    } else {
        Seq::<char>::empty()
    })
}

/// Rendering reads the record alone: equal records render equal author,
/// date, retrieval, title, source and reference strings, so formatting a
/// record twice yields byte-identical output.
pub proof fn lemma_render_idempotent(e1: Entry, e2: Entry)
    requires
        e1 == e2,
    ensures
        spec_get_author(e1) == spec_get_author(e2),
        spec_get_date(e1) == spec_get_date(e2),
        spec_get_retrieval_date(e1) == spec_get_retrieval_date(e2),
        spec_get_title(e1) == spec_get_title(e2),
        spec_get_source(e1) == spec_get_source(e2),
        spec_get_reference(e1) == spec_get_reference(e2),
{
}

} // verus!
