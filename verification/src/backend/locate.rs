//! Finding the terminal's own configuration files among prioritised
//! candidates.

use crate::host::expand;
use crate::host::expansion;
use crate::host::home_dir;
use crate::host::is_file;
use crate::host::is_plain_path;
use crate::host::var_texts;
use crate::host::Host;
use crate::text::opt_text;
use crate::text::texts;
use vstd::prelude::*;

verus! {

/// A candidate configuration path after expansion, with the result of
/// probing it.
#[derive(Debug)]
pub struct Candidate {
    pub path: String,
    pub is_file: bool,
}

impl View for Candidate {
    type V = (Seq<char>, bool);

    open spec fn view(&self) -> (Seq<char>, bool) {
        (self.path@, self.is_file)
    }
}

/// The candidates of a list, each as a path and whether it is a regular file.
pub open spec fn candidates(v: Seq<Candidate>) -> Seq<(Seq<char>, bool)> {
    Seq::new(v.len(), |i: int| v[i]@)
}

/// The paths of all candidates that are regular files, in listed order.
pub open spec fn all_existing(c: Seq<(Seq<char>, bool)>) -> Seq<Seq<char>>
    decreases c.len(),
{
    if c.len() == 0 {
        Seq::empty()
    } else if c.last().1 {
        all_existing(c.drop_last()).push(c.last().0)
    } else {
        all_existing(c.drop_last())
    }
}

/// The path of the first candidate that is a regular file, if there is one.
pub open spec fn first_existing(c: Seq<(Seq<char>, bool)>) -> Option<Seq<char>>
    decreases c.len(),
{
    if c.len() == 0 {
        None
    } else if c[0].1 {
        Some(c[0].0)
    } else {
        first_existing(c.drop_first())
    }
}

/// The configuration files to use: every existing base candidate, then the
/// first existing priority candidate.
pub open spec fn located(
    base: Seq<(Seq<char>, bool)>,
    priority: Seq<(Seq<char>, bool)>,
) -> Seq<Seq<char>> {
    match first_existing(priority) {
        Some(p) => all_existing(base).push(p),
        None => all_existing(base),
    }
}

/// Whether `probes` can come of probing `templates`: there is one probe for
/// each template, in order, under the path that the template expands to
/// with the given home directory and variables; a template that holds
/// nothing to expand is probed under its own name. Which paths exist, only
/// the machine can say.
pub open spec fn probes_of(
    templates: Seq<Seq<char>>,
    home: Option<Seq<char>>,
    vars: Seq<(Seq<char>, Seq<char>)>,
    probes: Seq<(Seq<char>, bool)>,
) -> bool {
    &&& probes.len() == templates.len()
    &&& forall|i: int|
        0 <= i < templates.len() ==> (#[trigger] probes[i]).0 == expansion(
            templates[i],
            home,
            vars,
        )
    &&& forall|i: int|
        0 <= i < templates.len() && is_plain_path(templates[i]) ==> (#[trigger] probes[i]).0
            == templates[i]
}

/// Whether `found` are the configuration files located among the given
/// templates on some state of the machine: the choice of `located` on some
/// probes of the base and of the priority templates, expanded with the
/// given variables and one home directory.
pub open spec fn found_among(
    base: Seq<Seq<char>>,
    priority: Seq<Seq<char>>,
    vars: Seq<(Seq<char>, Seq<char>)>,
    found: Seq<Seq<char>>,
) -> bool {
    exists|home: Option<Seq<char>>, b: Seq<(Seq<char>, bool)>, p: Seq<(Seq<char>, bool)>|
        #[trigger] probes_of(base, home, vars, b) && #[trigger] probes_of(
            priority,
            home,
            vars,
            p,
        ) && found == located(b, p)
}

/// Whether `found` is the first existing one among the given templates on
/// some state of the machine.
pub open spec fn first_found_among(
    priority: Seq<Seq<char>>,
    vars: Seq<(Seq<char>, Seq<char>)>,
    found: Option<Seq<char>>,
) -> bool {
    exists|home: Option<Seq<char>>, p: Seq<(Seq<char>, bool)>|
        #[trigger] probes_of(priority, home, vars, p) && found == first_existing(p)
}

/// Among priority candidates the first existing one wins: if candidate `k`
/// is a regular file and none before it is, it is the one chosen, whatever
/// follows it.
pub proof fn lemma_first_match_wins(priority: Seq<(Seq<char>, bool)>, k: int)
    requires
        0 <= k < priority.len(),
        priority[k].1,
        forall|j: int| 0 <= j < k ==> !priority[j].1,
    ensures
        first_existing(priority) == Some(priority[k].0),
        located(Seq::empty(), priority) == seq![priority[k].0],
    decreases k,
{
    if k > 0 {
        let rest = priority.drop_first();
        assert(rest[k - 1] == priority[k]);
        assert forall|j: int| 0 <= j < k - 1 implies !rest[j].1 by {
            assert(rest[j] == priority[j + 1]);
        }
        lemma_first_match_wins(rest, k - 1);
    }
    assert(all_existing(Seq::<(Seq<char>, bool)>::empty()) =~= Seq::<Seq<char>>::empty());
    assert(Seq::<Seq<char>>::empty().push(priority[k].0) =~= seq![priority[k].0]);
}

/// Where no priority candidate exists, only the base candidates count.
pub proof fn lemma_no_match(priority: Seq<(Seq<char>, bool)>)
    requires
        forall|j: int| 0 <= j < priority.len() ==> !priority[j].1,
    ensures
        first_existing(priority) is None,
    decreases priority.len(),
{
    if priority.len() > 0 {
        let rest = priority.drop_first();
        assert forall|j: int| 0 <= j < rest.len() implies !rest[j].1 by {
            assert(rest[j] == priority[j + 1]);
        }
        lemma_no_match(rest);
    }
}

/// Picks the configuration files among probed candidates: all existing base
/// candidates in listed order, then only the first existing priority
/// candidate.
pub fn select_conf_files(base: &Vec<Candidate>, priority: &Vec<Candidate>) -> (r: Vec<String>)
    ensures
        texts(r@) == located(candidates(base@), candidates(priority@)),
{
    let ghost b = candidates(base@);
    let ghost p = candidates(priority@);
    let mut ret: Vec<String> = Vec::new();
    let mut i: usize = 0;
    proof {
        assert(b.subrange(0, 0) =~= Seq::<(Seq<char>, bool)>::empty());
        assert(texts(ret@) =~= all_existing(b.subrange(0, 0)));
    }
    while i < base.len()
        invariant
            i <= base.len(),
            b == candidates(base@),
            texts(ret@) == all_existing(b.subrange(0, i as int)),
        decreases base.len() - i,
    {
        let ghost before = texts(ret@);
        if base[i].is_file {
            ret.push(base[i].path.clone());
        }
        proof {
            let next = b.subrange(0, i + 1);
            assert(next.drop_last() =~= b.subrange(0, i as int));
            assert(next.last() == base[i as int]@);
            if base[i as int].is_file {
                assert(texts(ret@) =~= before.push(base[i as int].path@));
            } else {
                assert(texts(ret@) =~= before);
            }
        }
        i += 1;
    }
    proof {
        assert(b.subrange(0, i as int) =~= b);
    }
    let ghost found = texts(ret@);
    let mut k: usize = 0;
    while k < priority.len()
        invariant
            k <= priority.len(),
            p == candidates(priority@),
            texts(ret@) == found,
            found == all_existing(candidates(base@)),
            forall|j: int| 0 <= j < k ==> !p[j].1,
        decreases priority.len() - k,
    {
        if priority[k].is_file {
            ret.push(priority[k].path.clone());
            proof {
                lemma_first_match_wins(p, k as int);
                assert(texts(ret@) =~= found.push(p[k as int].0));
            }
            return ret;
        }
        k += 1;
    }
    proof {
        lemma_no_match(p);
    }
    ret
}

/// Expands each candidate template and probes the result: one candidate
/// for each template, in order, under the path that the template expands
/// to with the given home directory and variables. An undefined variable
/// expands to the empty text, and the rest of the template is kept.
pub fn probe_conf_files(
    templates: &Vec<String>,
    home: &Option<String>,
    vars: &Vec<(String, String)>,
) -> (r: Vec<Candidate>)
    ensures
        r@.len() == templates@.len(),
        probes_of(texts(templates@), opt_text(*home), var_texts(vars@), candidates(r@)),
{
    let mut r: Vec<Candidate> = Vec::new();
    let mut i: usize = 0;
    while i < templates.len()
        invariant
            i <= templates.len(),
            r@.len() == i,
            forall|j: int|
                0 <= j < i ==> (#[trigger] r@[j]).path@ == expansion(
                    templates@[j]@,
                    opt_text(*home),
                    var_texts(vars@),
                ),
            forall|j: int|
                0 <= j < i && is_plain_path(templates@[j]@) ==> (#[trigger] r@[j]).path@
                    == templates@[j]@,
        decreases templates.len() - i,
    {
        let path = expand(templates[i].as_str(), home, vars);
        let found = is_file(path.as_str());
        r.push(Candidate { path, is_file: found });
        i += 1;
    }
    proof {
        let probes = candidates(r@);
        assert forall|j: int| 0 <= j < templates@.len() implies (#[trigger] probes[j]).0
            == expansion(texts(templates@)[j], opt_text(*home), var_texts(vars@)) by {
            assert(probes[j] == r@[j]@);
        }
        assert forall|j: int|
            0 <= j < templates@.len() && is_plain_path(texts(templates@)[j]) implies (
        #[trigger] probes[j]).0 == texts(templates@)[j] by {
            assert(probes[j] == r@[j]@);
        }
    }
    r
}

/// Locates the terminal's configuration files: expands every candidate
/// with the host's variables and the home directory, probes it, then keeps
/// all existing base candidates, in listed order, and after them the first
/// existing priority candidate. Which of the candidates exist is for the
/// machine to say; the result is the choice of `located` on its answers.
pub fn find_term_conf_files(
    base_confs: &Vec<String>,
    priority_confs: &Vec<String>,
    host: &Host,
) -> (r: Vec<String>)
    ensures
        found_among(
            texts(base_confs@),
            texts(priority_confs@),
            var_texts(host.vars@),
            texts(r@),
        ),
        r@.len() <= base_confs@.len() + 1,
        priority_confs@.len() == 0 ==> r@.len() <= base_confs@.len(),
{
    let home = home_dir();
    let base = probe_conf_files(base_confs, &home, &host.vars);
    let priority = probe_conf_files(priority_confs, &home, &host.vars);
    let r = select_conf_files(&base, &priority);
    proof {
        lemma_located_len(candidates(base@), candidates(priority@));
        assert(texts(r@).len() == r@.len());
        assert(texts(r@) == located(candidates(base@), candidates(priority@)));
    }
    r
}

/// What is located without base templates is the first existing priority
/// candidate, if there is one, and nothing else.
pub proof fn lemma_found_without_base(
    priority: Seq<Seq<char>>,
    vars: Seq<(Seq<char>, Seq<char>)>,
    found: Seq<Seq<char>>,
)
    requires
        found_among(Seq::empty(), priority, vars, found),
    ensures
        found.len() <= 1,
        first_found_among(
            priority,
            vars,
            if found.len() == 0 {
                None
            } else {
                Some(found[0])
            },
        ),
{
    let (home, b, p) = choose|
        home: Option<Seq<char>>,
        b: Seq<(Seq<char>, bool)>,
        p: Seq<(Seq<char>, bool)>,
    |
        #[trigger] probes_of(Seq::empty(), home, vars, b) && #[trigger] probes_of(
            priority,
            home,
            vars,
            p,
        ) && found == located(b, p);
    assert(b =~= Seq::empty());
    assert(all_existing(b) =~= Seq::empty());
    match first_existing(p) {
        Some(x) => {
            assert(found[0] == x);
        },
        None => {},
    }
}


/// At most one priority candidate is added to the existing base candidates.
pub proof fn lemma_located_len(base: Seq<(Seq<char>, bool)>, priority: Seq<(Seq<char>, bool)>)
    ensures
        all_existing(base).len() <= base.len(),
        located(base, priority).len() <= base.len() + 1,
        priority.len() == 0 ==> located(base, priority).len() <= base.len(),
    decreases base.len(),
{
    if base.len() > 0 {
        lemma_located_len(base.drop_last(), priority);
    }
}

} // verus!
