//! Person-name rendering: a single name as "family, initials, suffix", and
//! the ampersand-joined, possibly truncated, list of names.

use vstd::prelude::*;
use vstd::string::StringExecFns;
use vstd::string::StrSliceExecFns;
use crate::types::Person;

verus! {

/// Whether `c` separates two given-name tokens.
pub open spec fn spec_is_name_sep(c: char) -> bool {
    c == ' ' || c == '\t' || c == '\n' || c == '\r' || c == '-'
}

fn is_name_sep(c: char) -> (b: bool)
    ensures
        b == spec_is_name_sep(c),
{
    c == ' ' || c == '\t' || c == '\n' || c == '\r' || c == '-'
}

/// The first character of each separator-delimited token of `s`; `collect`
/// says whether a token may start at the front.
pub open spec fn initial_letters(s: Seq<char>, collect: bool) -> Seq<char>
    decreases s.len(),
{
    if s.len() == 0 {
        Seq::empty()
    } else if spec_is_name_sep(s[0]) {
        initial_letters(s.drop_first(), true)
    } else if collect {
        seq![s[0]] + initial_letters(s.drop_first(), false)
    } else {
        initial_letters(s.drop_first(), false)
    }
}

/// Every separator character of `s`, in order.
pub open spec fn sep_chars(s: Seq<char>) -> Seq<char>
    decreases s.len(),
{
    if s.len() == 0 {
        Seq::empty()
    } else if spec_is_name_sep(s[0]) {
        seq![s[0]] + sep_chars(s.drop_first())
    } else {
        sep_chars(s.drop_first())
    }
}

/// Joins the token initials: each letter is followed by a period, and from
/// the second letter on the matching separator character stands between
/// the initials.
pub open spec fn spec_render_initials(letters: Seq<char>, seps: Seq<char>) -> Seq<char>
    decreases letters.len(),
{
    if letters.len() == 0 {
        Seq::empty()
    } else {
        let k = letters.len() - 1;
        spec_render_initials(letters.drop_last(), seps) + (if k > 0 && k - 1 < seps.len() {
            seq![seps[k - 1]]
        } else {
            Seq::<char>::empty()
        }) + seq![letters[k]] + "."@
    }
}

/// The initials derived from the given name `s`: one letter per token,
/// periods after each, the separators kept between them.
pub open spec fn spec_initials(s: Seq<char>) -> Seq<char> {
    spec_render_initials(initial_letters(s, true), sep_chars(s))
}

/// A person rendered as `"{prefix }{family}, {initials}, {suffix}"`, the
/// initials segment standing only when a given name is present, the prefix
/// and suffix segments only when they are.
pub open spec fn spec_person_name(p: Person) -> Seq<char> {
    (match p.prefix {
        Some(pr) => pr@ + " "@,
        None => Seq::<char>::empty(),
    }) + p.name@ + (match p.given_name {
        Some(g) => ", "@ + spec_initials(g@),
        None => Seq::<char>::empty(),
    }) + (match p.suffix {
        Some(su) => ", "@ + su@,
        None => Seq::<char>::empty(),
    })
}

/// The rendered names of a list of persons.
pub open spec fn spec_name_strings(ps: Seq<Person>) -> Seq<Seq<char>> {
    ps.map_values(|p: Person| spec_person_name(p))
}

/// The names joined with `", "`.
pub open spec fn spec_comma_join(names: Seq<Seq<char>>) -> Seq<char>
    decreases names.len(),
{
    if names.len() == 0 {
        Seq::<char>::empty()
    } else if names.len() == 1 {
        names[0]
    } else {
        spec_comma_join(names.drop_last()) + ", "@ + names.last()
    }
}

/// The APA ampersand list: up to twenty names joined with `", "` and an
/// ampersand before the last; above twenty, the first nineteen, an
/// ellipsis, and the last, with no ampersand.
pub open spec fn spec_ampersand_list(names: Seq<Seq<char>>) -> Seq<char> {
    if names.len() == 0 {
        Seq::<char>::empty()
    } else if names.len() == 1 {
        names[0]
    } else if names.len() <= 20 {
        spec_comma_join(names.drop_last()) + ", & "@ + names.last()
    } else {
        spec_comma_join(names.take(19)) + ", "@ + "... "@ + names.last()
    }
}

impl Person {
    /// The person's initials with periods, such as "H.-J." for the given
    /// name "Hans-Joseph"; `None` when the person has no given name.
    pub fn get_initials(&self) -> (r: Option<String>)
        ensures
            r is Some <==> self.given_name is Some,
            r is Some ==> r->0@ == spec_initials(self.given_name->0@),
    {
        let gn: &String = match &self.given_name {
            Some(g) => g,
            None => {
                return None;
            },
        };
        let s: &str = gn.as_str();
        let n = s.unicode_len();
        let mut letters: Vec<&str> = Vec::new();
        let mut seps: Vec<&str> = Vec::new();
        let ghost mut glet: Seq<char> = Seq::empty();
        let ghost mut gsep: Seq<char> = Seq::empty();
        let mut collect = true;
        let mut i: usize = 0;
        proof {
            assert(s@.skip(0) =~= s@);
        }
        while i < n
            invariant
                n == s@.len(),
                0 <= i <= n,
                letters@.len() == glet.len(),
                forall|k: int| 0 <= k < glet.len() ==> #[trigger] letters@[k]@ == seq![glet[k]],
                seps@.len() == gsep.len(),
                forall|k: int| 0 <= k < gsep.len() ==> #[trigger] seps@[k]@ == seq![gsep[k]],
                initial_letters(s@, true) == glet + initial_letters(s@.skip(i as int), collect),
                sep_chars(s@) == gsep + sep_chars(s@.skip(i as int)),
            decreases n - i,
        {
            let c = s.get_char(i);
            proof {
                assert(s@.skip(i as int).drop_first() =~= s@.skip(i as int + 1));
                assert(s@.skip(i as int)[0] == s@[i as int]);
            }
            if is_name_sep(c) {
                let piece = s.substring_char(i, i + 1);
                proof {
                    assert(piece@ =~= seq![s@[i as int]]);
                }
                seps.push(piece);
                proof {
                    gsep = gsep.push(c);
                    assert(sep_chars(s@) =~= gsep + sep_chars(s@.skip(i as int + 1)));
                }
                collect = true;
            } else if collect {
                let piece = s.substring_char(i, i + 1);
                proof {
                    assert(piece@ =~= seq![s@[i as int]]);
                }
                letters.push(piece);
                proof {
                    glet = glet.push(c);
                    assert(initial_letters(s@, true) =~= glet + initial_letters(
                        s@.skip(i as int + 1),
                        false,
                    ));
                }
                collect = false;
            }
            i = i + 1;
        }
        proof {
            assert(s@.skip(n as int) =~= Seq::<char>::empty());
            assert(glet + initial_letters(Seq::empty(), collect) =~= glet);
            assert(gsep + sep_chars(Seq::empty()) =~= gsep);
        }
        let mut res = String::new();
        let mut k: usize = 0;
        while k < letters.len()
            invariant
                letters@.len() == glet.len(),
                forall|j: int| 0 <= j < glet.len() ==> #[trigger] letters@[j]@ == seq![glet[j]],
                seps@.len() == gsep.len(),
                forall|j: int| 0 <= j < gsep.len() ==> #[trigger] seps@[j]@ == seq![gsep[j]],
                0 <= k <= letters@.len(),
                res@ == spec_render_initials(glet.take(k as int), gsep),
            decreases letters@.len() - k,
        {
            if k > 0 && k - 1 < seps.len() {
                res.append(seps[k - 1]);
            }
            res.append(letters[k]);
            res.append(".");
            proof {
                assert(glet.take(k as int + 1).drop_last() =~= glet.take(k as int));
                assert(res@ =~= spec_render_initials(glet.take(k as int + 1), gsep));
            }
            k = k + 1;
        }
        proof {
            assert(glet.take(glet.len() as int) =~= glet);
        }
        Some(res)
    }
}

/// Renders one person per the APA name rule.
pub fn render_name(p: &Person) -> (r: String)
    ensures
        r@ == spec_person_name(*p),
{
    let mut s = String::new();
    match &p.prefix {
        Some(pr) => {
            s.append(pr.as_str());
            s.append(" ");
        },
        None => {},
    }
    s.append(p.name.as_str());
    match p.get_initials() {
        Some(ini) => {
            s.append(", ");
            s.append(ini.as_str());
        },
        None => {},
    }
    match &p.suffix {
        Some(su) => {
            s.append(", ");
            s.append(su.as_str());
        },
        None => {},
    }
    assert(s@ =~= spec_person_name(*p));
    s
}

/// Renders each person of the list.
pub fn name_list(persons: &Vec<Person>) -> (r: Vec<String>)
    ensures
        r@.len() == persons@.len(),
        forall|k: int| 0 <= k < r@.len() ==> #[trigger] r@[k]@ == spec_name_strings(persons@)[k],
{
    let mut out: Vec<String> = Vec::new();
    let mut i: usize = 0;
    while i < persons.len()
        invariant
            0 <= i <= persons@.len(),
            out@.len() == i,
            forall|k: int| 0 <= k < i ==> #[trigger] out@[k]@ == spec_person_name(persons@[k]),
        decreases persons@.len() - i,
    {
        out.push(render_name(&persons[i]));
        i = i + 1;
    }
    out
}

/// Joins rendered names into the APA ampersand list, truncating lists of
/// more than twenty names to the first nineteen, an ellipsis and the last.
pub fn ampersand_list(names: Vec<String>) -> (r: String)
    ensures
        r@ == spec_ampersand_list(names@.map_values(|s: String| s@)),
{
    let ghost gnames = names@.map_values(|s: String| s@);
    let n = names.len();
    if n == 0 {
        let r = String::new();
        assert(r@ =~= spec_ampersand_list(gnames));
        return r;
    }
    if n == 1 {
        let r = names[0].clone();
        return r;
    }
    let limit: usize = if n <= 20 {
        n - 1
    } else {
        19
    };
    let mut res = String::new();
    res.append(names[0].as_str());
    proof {
        assert(gnames.take(1) =~= seq![gnames[0]]);
        assert(res@ =~= spec_comma_join(gnames.take(1)));
    }
    let mut i: usize = 1;
    while i < limit
        invariant
            gnames == names@.map_values(|s: String| s@),
            gnames.len() == names@.len(),
            n == names@.len(),
            1 <= limit < n,
            1 <= i <= limit,
            res@ == spec_comma_join(gnames.take(i as int)),
        decreases limit - i,
    {
        res.append(", ");
        res.append(names[i].as_str());
        proof {
            assert(gnames.take(i as int + 1).drop_last() =~= gnames.take(i as int));
            assert(res@ =~= spec_comma_join(gnames.take(i as int + 1)));
        }
        i = i + 1;
    }
    if n <= 20 {
        res.append(", & ");
        res.append(names[n - 1].as_str());
        proof {
            assert(gnames.take(limit as int) =~= gnames.drop_last());
            assert(res@ =~= spec_ampersand_list(gnames));
        }
    } else {
        res.append(", ");
        res.append("... ");
        res.append(names[n - 1].as_str());
        proof {
            assert(res@ =~= spec_ampersand_list(gnames));
        }
    }
    res
}

} // verus!
