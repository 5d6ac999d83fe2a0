//! Classification of a record into its source shape: an ordered cascade of
//! (own-type, parent-type) tests whose first match wins.

use vstd::prelude::*;
use crate::types::Entry;
use crate::types::EntryType;

verus! {

/// A predicate over a type tag: unconstrained, an exact tag, or membership
/// in a set of tags.
pub enum EntryTypeModality {
    Any,
    Specific(EntryType),
    Alternate(Vec<EntryType>),
}

/// What a modality accepts.
pub open spec fn modality_matches(m: EntryTypeModality, t: EntryType) -> bool {
    match m {
        EntryTypeModality::Any => true,
        EntryTypeModality::Specific(x) => x == t,
        EntryTypeModality::Alternate(xs) => xs@.contains(t),
    }
}

impl EntryTypeModality {
    /// Whether the modality accepts the tag `t`.
    pub fn matches(&self, t: EntryType) -> (b: bool)
        ensures
            b == modality_matches(*self, t),
    {
        match self {
            EntryTypeModality::Any => true,
            EntryTypeModality::Specific(x) => *x == t,
            EntryTypeModality::Alternate(xs) => {
                let mut i: usize = 0;
                while i < xs.len()
                    invariant
                        *self is Alternate && (*self)->Alternate_0 == *xs,
                        0 <= i <= xs@.len(),
                        forall|j: int| 0 <= j < i ==> #[trigger] xs@[j] != t,
                    decreases xs@.len() - i,
                {
                    if xs[i] == t {
                        proof {
                            assert(xs@[i as int] == t);
                            assert(xs@.contains(t));
                        }
                        return true;
                    }
                    i = i + 1;
                }
                assert(!xs@.contains(t));
                false
            },
        }
    }
}

/// A structural test on a record: its own tag must meet `own`, and, where
/// `parent` is given, some parent's tag must meet it.
pub struct EntryTypeSpec {
    pub own: EntryTypeModality,
    pub parent: Option<EntryTypeModality>,
}

impl EntryTypeSpec {
    pub fn new(own: EntryTypeModality, parent: Option<EntryTypeModality>) -> (r: EntryTypeSpec)
        ensures
            r.own == own,
            r.parent == parent,
    {
        EntryTypeSpec { own, parent }
    }

    /// A test on the record's own tag alone.
    pub fn with_single(t: EntryType) -> (r: EntryTypeSpec)
        ensures
            r.own == EntryTypeModality::Specific(t),
            r.parent is None,
    {
        EntryTypeSpec { own: EntryTypeModality::Specific(t), parent: None }
    }

    /// A test pairing an own-tag modality with one parent-tag modality.
    pub fn single_parent(own: EntryTypeModality, parent: EntryTypeModality) -> (r: EntryTypeSpec)
        ensures
            r.own == own,
            r.parent matches Some(p) && p == parent,
    {
        EntryTypeSpec { own, parent: Some(parent) }
    }
}

/// The index of the first parent whose tag satisfies `f`.
pub open spec fn spec_first_match_by(ps: Seq<Entry>, f: spec_fn(EntryType) -> bool) -> Option<
    int,
>
    decreases ps.len(),
{
    if ps.len() == 0 {
        None
    } else if f(ps[0].entry_type) {
        Some(0)
    } else {
        match spec_first_match_by(ps.drop_first(), f) {
            Some(i) => Some(i + 1),
            None => None,
        }
    }
}

/// A found index lies in bounds and satisfies the predicate.
pub proof fn lemma_first_match_by_bounds(ps: Seq<Entry>, f: spec_fn(EntryType) -> bool)
    ensures
        spec_first_match_by(ps, f) matches Some(i) ==> 0 <= i < ps.len() && f(ps[i].entry_type),
    decreases ps.len(),
{
    if ps.len() > 0 && !f(ps[0].entry_type) {
        lemma_first_match_by_bounds(ps.drop_first(), f);
    }
}

/// Scanning forward: once the first `i` parents fail the predicate, a hit
/// at `i` is the first match, and reaching the end means there is none.
pub proof fn lemma_first_match_by_prefix(ps: Seq<Entry>, f: spec_fn(EntryType) -> bool, i: int)
    requires
        0 <= i <= ps.len(),
        forall|j: int| 0 <= j < i ==> !f(#[trigger] ps[j].entry_type),
    ensures
        i < ps.len() && f(ps[i].entry_type) ==> spec_first_match_by(ps, f) == Some(i),
        i == ps.len() ==> spec_first_match_by(ps, f) is None,
    decreases i,
{
    if i > 0 && ps.len() > 0 {
        assert(!f(ps[0].entry_type));
        assert(forall|j: int|
            0 <= j < i - 1 ==> !f(#[trigger] ps.drop_first()[j].entry_type)) by {
            assert(forall|j: int|
                0 <= j < i - 1 ==> ps.drop_first()[j] == ps[j + 1]);
        }
        lemma_first_match_by_prefix(ps.drop_first(), f, i - 1);
        assert(i < ps.len() ==> ps.drop_first()[i - 1] == ps[i]);
    }
}

/// Pointwise equal predicates find the same first parent.
pub proof fn lemma_first_match_by_congruence(
    ps: Seq<Entry>,
    f: spec_fn(EntryType) -> bool,
    g: spec_fn(EntryType) -> bool,
)
    requires
        forall|x: EntryType| #[trigger] f(x) == g(x),
    ensures
        spec_first_match_by(ps, f) == spec_first_match_by(ps, g),
    decreases ps.len(),
{
    if ps.len() > 0 {
        lemma_first_match_by_congruence(ps.drop_first(), f, g);
    }
}

/// Scans the parents for the first one the modality accepts.
fn first_match(parents: &Vec<Entry>, m: &EntryTypeModality) -> (r: Option<usize>)
    ensures
        ({
            let fm = spec_first_match_by(parents@, |x: EntryType| modality_matches(*m, x));
            match r {
                Some(i) => fm == Some(i as int),
                None => fm is None,
            }
        }),
{
    let mut i: usize = 0;
    while i < parents.len()
        invariant
            0 <= i <= parents@.len(),
            forall|j: int| 0 <= j < i ==> !modality_matches(*m, #[trigger] parents@[j].entry_type),
        decreases parents@.len() - i,
    {
        if m.matches(parents[i].entry_type) {
            proof {
                lemma_first_match_by_prefix(
                    parents@,
                    |x: EntryType| modality_matches(*m, x),
                    i as int,
                );
            }
            return Some(i);
        }
        i = i + 1;
    }
    proof {
        lemma_first_match_by_prefix(
            parents@,
            |x: EntryType| modality_matches(*m, x),
            parents@.len() as int,
        );
    }
    None
}

impl Entry {
    /// Evaluates a structural test against this record: `None` on no
    /// match; on a match, the indices of the parents the test bound, one
    /// per parent slot of the test.
    pub fn check_with_spec(&self, pattern: &EntryTypeSpec) -> (r: Option<Vec<usize>>)
        ensures
            match pattern.parent {
                None => match r {
                    Some(v) => modality_matches(pattern.own, self.entry_type) && v@ =~= Seq::<
                        usize,
                    >::empty(),
                    None => !modality_matches(pattern.own, self.entry_type),
                },
                Some(pm) => match r {
                    Some(v) => modality_matches(pattern.own, self.entry_type) && v@.len() == 1
                        && spec_first_match_by(
                        self.parents@,
                        |x: EntryType| modality_matches(pm, x),
                    ) == Some(v@[0] as int),
                    None => !modality_matches(pattern.own, self.entry_type)
                        || spec_first_match_by(
                        self.parents@,
                        |x: EntryType| modality_matches(pm, x),
                    ) is None,
                },
            },
    {
        if !pattern.own.matches(self.entry_type) {
            return None;
        }
        match &pattern.parent {
            None => Some(Vec::new()),
            Some(pm) => match first_match(&self.parents, pm) {
                Some(i) => {
                    let mut v: Vec<usize> = Vec::new();
                    v.push(i);
                    Some(v)
                },
                None => None,
            },
        }
    }
}

/// The classification outcome: the shape of the source, with the index of
/// the disambiguating parent where the shape needs one.
#[derive(Clone, Copy, PartialEq, Eq, Structural, Debug)]
pub enum SourceType {
    PeriodicalItem(usize),
    CollectionItem(usize),
    TvSeries(usize),
    Thesis,
    Manuscript,
    ArtContainer(usize),
    StandaloneArt,
    StandaloneWebItem,
    WebItem(usize),
    NewsItem(usize),
    ConferenceTalk(usize),
    Generic,
}

/// Any parent index the shape carries lies within the record's parent
/// list.
pub open spec fn source_type_wf(st: SourceType, e: Entry) -> bool {
    match st {
        SourceType::PeriodicalItem(i) => i < e.parents@.len(),
        SourceType::CollectionItem(i) => i < e.parents@.len(),
        SourceType::TvSeries(i) => i < e.parents@.len(),
        SourceType::ArtContainer(i) => i < e.parents@.len(),
        SourceType::WebItem(i) => i < e.parents@.len(),
        SourceType::NewsItem(i) => i < e.parents@.len(),
        SourceType::ConferenceTalk(i) => i < e.parents@.len(),
        _ => true,
    }
}

/// The ordered cascade: the first test a record satisfies names its shape,
/// and `Generic` is the unconditional fallback.
pub open spec fn spec_classify(e: Entry) -> SourceType {
    let ps = e.parents@;
    let t = e.entry_type;
    if spec_first_match_by(ps, |x: EntryType| x == EntryType::Periodical) is Some {
        SourceType::PeriodicalItem(
            spec_first_match_by(ps, |x: EntryType| x == EntryType::Periodical)->0 as usize,
        )
    } else if t == EntryType::InAnthology && spec_first_match_by(
        ps,
        |x: EntryType| x == EntryType::Anthology,
    ) is Some {
        SourceType::CollectionItem(
            spec_first_match_by(ps, |x: EntryType| x == EntryType::Anthology)->0 as usize,
        )
    } else if t == EntryType::Entry && spec_first_match_by(ps, |x: EntryType| true) is Some {
        SourceType::CollectionItem(spec_first_match_by(ps, |x: EntryType| true)->0 as usize)
    } else if spec_first_match_by(ps, |x: EntryType| x == EntryType::Reference) is Some {
        SourceType::CollectionItem(
            spec_first_match_by(ps, |x: EntryType| x == EntryType::Reference)->0 as usize,
        )
    } else if t == EntryType::Article && spec_first_match_by(
        ps,
        |x: EntryType| x == EntryType::Proceedings,
    ) is Some {
        SourceType::CollectionItem(
            spec_first_match_by(ps, |x: EntryType| x == EntryType::Proceedings)->0 as usize,
        )
    } else if t == EntryType::Video && spec_first_match_by(
        ps,
        |x: EntryType| x == EntryType::Video,
    ) is Some && e.issue is Some && e.volume is Some {
        SourceType::TvSeries(
            spec_first_match_by(ps, |x: EntryType| x == EntryType::Video)->0 as usize,
        )
    } else if t == EntryType::Thesis {
        SourceType::Thesis
    } else if t == EntryType::Manuscript {
        SourceType::Manuscript
    } else if spec_first_match_by(ps, |x: EntryType| x == EntryType::Artwork) is Some {
        SourceType::ArtContainer(
            spec_first_match_by(ps, |x: EntryType| x == EntryType::Artwork)->0 as usize,
        )
    } else if t == EntryType::Artwork || t == EntryType::Exhibition {
        SourceType::StandaloneArt
    } else if t == EntryType::WebItem {
        SourceType::StandaloneWebItem
    } else if spec_first_match_by(
        ps,
        |x: EntryType| x == EntryType::Misc || x == EntryType::Blog || x == EntryType::WebItem,
    ) is Some {
        SourceType::WebItem(
            spec_first_match_by(
                ps,
                |x: EntryType| x == EntryType::Misc || x == EntryType::Blog || x
                    == EntryType::WebItem,
            )->0 as usize,
        )
    } else if spec_first_match_by(ps, |x: EntryType| x == EntryType::Conference) is Some {
        SourceType::ConferenceTalk(
            spec_first_match_by(ps, |x: EntryType| x == EntryType::Conference)->0 as usize,
        )
    } else {
        SourceType::Generic
    }
}

impl SourceType {
    /// Classifies a record: evaluates the cascade's tests in precedence
    /// order and returns the first shape whose test the record satisfies.
    pub fn for_entry(entry: &Entry) -> (r: SourceType)
        ensures
            r == spec_classify(*entry),
            source_type_wf(r, *entry),
    {
        let ghost ps = entry.parents@;
        let periodical = EntryTypeSpec::single_parent(
            EntryTypeModality::Any,
            EntryTypeModality::Specific(EntryType::Periodical),
        );
        proof {
            lemma_first_match_by_congruence(
                ps,
                |x: EntryType| modality_matches(
                    EntryTypeModality::Specific(EntryType::Periodical),
                    x,
                ),
                |x: EntryType| x == EntryType::Periodical,
            );
            lemma_first_match_by_bounds(ps, |x: EntryType| x == EntryType::Periodical);
        }
        if let Some(i) = entry.check_with_spec(&periodical) {
            return SourceType::PeriodicalItem(i[0]);
        }
        let collection_a = EntryTypeSpec::single_parent(
            EntryTypeModality::Specific(EntryType::InAnthology),
            EntryTypeModality::Specific(EntryType::Anthology),
        );
        proof {
            lemma_first_match_by_congruence(
                ps,
                |x: EntryType| modality_matches(
                    EntryTypeModality::Specific(EntryType::Anthology),
                    x,
                ),
                |x: EntryType| x == EntryType::Anthology,
            );
            lemma_first_match_by_bounds(ps, |x: EntryType| x == EntryType::Anthology);
        }
        if let Some(i) = entry.check_with_spec(&collection_a) {
            return SourceType::CollectionItem(i[0]);
        }
        let collection_b = EntryTypeSpec::single_parent(
            EntryTypeModality::Specific(EntryType::Entry),
            EntryTypeModality::Any,
        );
        proof {
            lemma_first_match_by_congruence(
                ps,
                |x: EntryType| modality_matches(EntryTypeModality::Any, x),
                |x: EntryType| true,
            );
            lemma_first_match_by_bounds(ps, |x: EntryType| true);
        }
        if let Some(i) = entry.check_with_spec(&collection_b) {
            return SourceType::CollectionItem(i[0]);
        }
        let collection_c = EntryTypeSpec::single_parent(
            EntryTypeModality::Any,
            EntryTypeModality::Specific(EntryType::Reference),
        );
        proof {
            lemma_first_match_by_congruence(
                ps,
                |x: EntryType| modality_matches(
                    EntryTypeModality::Specific(EntryType::Reference),
                    x,
                ),
                |x: EntryType| x == EntryType::Reference,
            );
            lemma_first_match_by_bounds(ps, |x: EntryType| x == EntryType::Reference);
        }
        if let Some(i) = entry.check_with_spec(&collection_c) {
            return SourceType::CollectionItem(i[0]);
        }
        let collection_d = EntryTypeSpec::single_parent(
            EntryTypeModality::Specific(EntryType::Article),
            EntryTypeModality::Specific(EntryType::Proceedings),
        );
        proof {
            lemma_first_match_by_congruence(
                ps,
                |x: EntryType| modality_matches(
                    EntryTypeModality::Specific(EntryType::Proceedings),
                    x,
                ),
                |x: EntryType| x == EntryType::Proceedings,
            );
            lemma_first_match_by_bounds(ps, |x: EntryType| x == EntryType::Proceedings);
        }
        if let Some(i) = entry.check_with_spec(&collection_d) {
            return SourceType::CollectionItem(i[0]);
        }
        let tv_series = EntryTypeSpec::single_parent(
            EntryTypeModality::Specific(EntryType::Video),
            EntryTypeModality::Specific(EntryType::Video),
        );
        proof {
            lemma_first_match_by_congruence(
                ps,
                |x: EntryType| modality_matches(EntryTypeModality::Specific(EntryType::Video), x),
                |x: EntryType| x == EntryType::Video,
            );
            lemma_first_match_by_bounds(ps, |x: EntryType| x == EntryType::Video);
        }
        if let Some(i) = entry.check_with_spec(&tv_series) {
            if entry.issue.is_some() && entry.volume.is_some() {
                return SourceType::TvSeries(i[0]);
            }
        }
        let thesis = EntryTypeSpec::with_single(EntryType::Thesis);
        if entry.check_with_spec(&thesis).is_some() {
            return SourceType::Thesis;
        }
        let manuscript = EntryTypeSpec::with_single(EntryType::Manuscript);
        if entry.check_with_spec(&manuscript).is_some() {
            return SourceType::Manuscript;
        }
        let art_container = EntryTypeSpec::single_parent(
            EntryTypeModality::Any,
            EntryTypeModality::Specific(EntryType::Artwork),
        );
        proof {
            lemma_first_match_by_congruence(
                ps,
                |x: EntryType| modality_matches(
                    EntryTypeModality::Specific(EntryType::Artwork),
                    x,
                ),
                |x: EntryType| x == EntryType::Artwork,
            );
            lemma_first_match_by_bounds(ps, |x: EntryType| x == EntryType::Artwork);
        }
        if let Some(i) = entry.check_with_spec(&art_container) {
            return SourceType::ArtContainer(i[0]);
        }
        let mut art_types: Vec<EntryType> = Vec::new();
        art_types.push(EntryType::Artwork);
        art_types.push(EntryType::Exhibition);
        let art = EntryTypeSpec::new(EntryTypeModality::Alternate(art_types), None);
        proof {
            let xs = art.own->Alternate_0;
            assert(xs@.len() == 2 && xs@[0] == EntryType::Artwork && xs@[1]
                == EntryType::Exhibition);
            assert(modality_matches(art.own, entry.entry_type) == (entry.entry_type
                == EntryType::Artwork || entry.entry_type == EntryType::Exhibition)) by {
                if xs@.contains(entry.entry_type) {
                    let j = choose|j: int| 0 <= j < xs@.len() && xs@[j] == entry.entry_type;
                }
                if entry.entry_type == EntryType::Artwork {
                    assert(xs@.contains(entry.entry_type)) by {
                        assert(xs@[0] == entry.entry_type);
                    }
                }
                if entry.entry_type == EntryType::Exhibition {
                    assert(xs@.contains(entry.entry_type)) by {
                        assert(xs@[1] == entry.entry_type);
                    }
                }
            }
        }
        if entry.check_with_spec(&art).is_some() {
            return SourceType::StandaloneArt;
        }
        let web_standalone = EntryTypeSpec::with_single(EntryType::WebItem);
        if entry.check_with_spec(&web_standalone).is_some() {
            return SourceType::StandaloneWebItem;
        }
        let mut web_types: Vec<EntryType> = Vec::new();
        web_types.push(EntryType::Misc);
        web_types.push(EntryType::Blog);
        web_types.push(EntryType::WebItem);
        let web_contained = EntryTypeSpec::single_parent(
            EntryTypeModality::Any,
            EntryTypeModality::Alternate(web_types),
        );
        proof {
            let pm = web_contained.parent->0;
            let xs = pm->Alternate_0;
            assert(xs@.len() == 3 && xs@[0] == EntryType::Misc && xs@[1] == EntryType::Blog
                && xs@[2] == EntryType::WebItem);
            assert forall|x: EntryType|
                #[trigger] modality_matches(pm, x) == (x == EntryType::Misc || x == EntryType::Blog
                || x == EntryType::WebItem) by {
                if xs@.contains(x) {
                    let j = choose|j: int| 0 <= j < xs@.len() && xs@[j] == x;
                }
                if x == EntryType::Misc {
                    assert(xs@.contains(x)) by {
                        assert(xs@[0] == x);
                    }
                }
                if x == EntryType::Blog {
                    assert(xs@.contains(x)) by {
                        assert(xs@[1] == x);
                    }
                }
                if x == EntryType::WebItem {
                    assert(xs@.contains(x)) by {
                        assert(xs@[2] == x);
                    }
                }
            }
            lemma_first_match_by_congruence(
                ps,
                |x: EntryType| modality_matches(web_contained.parent->0, x),
                |x: EntryType| x == EntryType::Misc || x == EntryType::Blog || x
                    == EntryType::WebItem,
            );
            lemma_first_match_by_bounds(
                ps,
                |x: EntryType| x == EntryType::Misc || x == EntryType::Blog || x
                    == EntryType::WebItem,
            );
        }
        if let Some(i) = entry.check_with_spec(&web_contained) {
            return SourceType::WebItem(i[0]);
        }
        let talk = EntryTypeSpec::single_parent(
            EntryTypeModality::Any,
            EntryTypeModality::Specific(EntryType::Conference),
        );
        proof {
            lemma_first_match_by_congruence(
                ps,
                |x: EntryType| modality_matches(
                    EntryTypeModality::Specific(EntryType::Conference),
                    x,
                ),
                |x: EntryType| x == EntryType::Conference,
            );
            lemma_first_match_by_bounds(ps, |x: EntryType| x == EntryType::Conference);
        }
        if let Some(i) = entry.check_with_spec(&talk) {
            return SourceType::ConferenceTalk(i[0]);
        }
        SourceType::Generic
    }
}

/// Precedence is load-bearing: a record with a periodical parent resolves
/// to `PeriodicalItem`, whatever later tests it would also satisfy.
pub proof fn lemma_periodical_precedence(e: Entry)
    requires
        spec_first_match_by(e.parents@, |x: EntryType| x == EntryType::Periodical) is Some,
    ensures
        spec_classify(e) is PeriodicalItem,
{
}

/// A record with no parents never classifies into a shape that carries a
/// parent index.
pub proof fn lemma_no_parents_no_parent_shape(e: Entry)
    requires
        e.parents@.len() == 0,
    ensures
        spec_classify(e) is Thesis || spec_classify(e) is Manuscript || spec_classify(e)
            is StandaloneArt || spec_classify(e) is StandaloneWebItem || spec_classify(e)
            is Generic,
{
}

} // verus!
