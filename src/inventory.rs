//! Filtering located paths down to one per physical executable, and assembling the inventory
//! of runtimes from the probes of those that remain.
use vstd::prelude::*;
use crate::probe::{java_info, java_info_spec, ProbeOutcome};

verus! {

/// A located path, with what the filesystem said of it.
pub struct Candidate {
    pub path: String,
    /// Whether the path names an existing regular file.
    pub is_file: bool,
    /// The canonical path, every link followed; the path itself where resolving failed.
    pub identity: String,
}

impl Candidate {
    /// A candidate whose identity is `canonical` when resolving succeeded, else its own path.
    pub fn new(path: String, is_file: bool, canonical: Option<String>) -> (r: Candidate)
        ensures
            r.path == path,
            r.is_file == is_file,
            r.identity@ == (match canonical {
                Some(c) => c@,
                None => path@,
            }),
    {
        let identity = match canonical {
            Some(c) => c,
            None => path.clone(),
        };
        Candidate { path, is_file, identity }
    }
}

/// Candidate `i` is kept: it is a regular file, and no earlier regular file has its identity.
pub open spec fn keeps(c: Seq<Candidate>, i: int) -> bool {
    &&& c[i].is_file
    &&& forall|j: int| 0 <= j < i ==> !(#[trigger] c[j].is_file && c[j].identity@ == c[i].identity@)
}

/// The indices below `n` of the kept candidates, in increasing order.
pub open spec fn kept_below(c: Seq<Candidate>, n: int) -> Seq<int>
    decreases n,
{
    if n <= 0 {
        Seq::empty()
    } else if keeps(c, n - 1) {
        kept_below(c, n - 1).push(n - 1)
    } else {
        kept_below(c, n - 1)
    }
}

/// The indices of the kept candidates, in the order in which they were located.
pub open spec fn kept(c: Seq<Candidate>) -> Seq<int> {
    kept_below(c, c.len() as int)
}

/// The kept indices below `n` are increasing, in range, kept, and all of them.
proof fn lemma_kept_below(c: Seq<Candidate>, n: int)
    requires
        0 <= n <= c.len(),
    ensures
        forall|k: int| 0 <= k < kept_below(c, n).len() ==> 0 <= #[trigger] kept_below(c, n)[k] < n
            && keeps(c, kept_below(c, n)[k]),
        forall|a: int, b: int|
            0 <= a < b < kept_below(c, n).len() ==> #[trigger] kept_below(c, n)[a]
                < #[trigger] kept_below(c, n)[b],
        forall|i: int| 0 <= i < n && keeps(c, i) ==> kept_below(c, n).contains(i),
    decreases n,
{
    if n > 0 {
        lemma_kept_below(c, n - 1);
        let prev = kept_below(c, n - 1);
        assert forall|i: int| 0 <= i < n && keeps(c, i) implies kept_below(c, n).contains(i) by {
            if i < n - 1 {
                let k = choose|k: int| 0 <= k < prev.len() && prev[k] == i;
                assert(kept_below(c, n)[k] == i);
            } else {
                assert(kept_below(c, n)[prev.len() as int] == i);
            }
        }
    }
}

/// Each identity of a regular-file candidate is kept exactly once, at the first regular file
/// that has it; so no two kept candidates share an identity.
pub proof fn lemma_first_of_identity_kept(c: Seq<Candidate>, j: int)
    requires
        0 <= j < c.len(),
        c[j].is_file,
    ensures
        exists|k: int|
            0 <= k < kept(c).len() && c[#[trigger] kept(c)[k]].identity@ == c[j].identity@,
        forall|k: int|
            0 <= k < kept(c).len() && c[#[trigger] kept(c)[k]].identity@ == c[j].identity@ ==> {
                let f = kept(c)[k];
                &&& f <= j
                &&& c[f].is_file
                &&& forall|i: int| 0 <= i < f ==> !(c[i].is_file && c[i].identity@ == c[j].identity@)
            },
        forall|a: int, b: int|
            0 <= a < b < kept(c).len() ==> c[#[trigger] kept(c)[a]].identity@ != c[#[trigger] kept(
                c,
            )[b]].identity@,
{
    lemma_kept_below(c, c.len() as int);
    let ks = kept(c);
    // The first regular file with this identity.
    let first = choose|f: int|
        0 <= f <= j && c[f].is_file && c[f].identity@ == c[j].identity@ && forall|i: int|
            0 <= i < f ==> !(#[trigger] c[i].is_file && c[i].identity@ == c[j].identity@);
    assert(exists|f: int|
        0 <= f <= j && c[f].is_file && c[f].identity@ == c[j].identity@ && forall|i: int|
            0 <= i < f ==> !(#[trigger] c[i].is_file && c[i].identity@ == c[j].identity@)) by {
        lemma_first_match(c, j, j);
    }
    assert(keeps(c, first));
    assert(ks.contains(first));
    assert forall|a: int, b: int|
        0 <= a < b < ks.len() implies c[#[trigger] ks[a]].identity@ != c[#[trigger] ks[b]].identity@ by {
        assert(ks[a] < ks[b]);
        assert(keeps(c, ks[b]));
        assert(c[ks[a]].is_file);
    }
    assert forall|k: int|
        0 <= k < ks.len() && c[#[trigger] ks[k]].identity@ == c[j].identity@ implies {
            let f = ks[k];
            &&& f <= j
            &&& c[f].is_file
            &&& forall|i: int| 0 <= i < f ==> !(c[i].is_file && c[i].identity@ == c[j].identity@)
        } by {
        let f = ks[k];
        assert(keeps(c, f));
        if f > j {
            assert(c[j].is_file && c[j].identity@ == c[f].identity@);
        }
    }
}

/// Some regular file at or before `m` shares `c[j]`'s identity with no earlier one doing so.
proof fn lemma_first_match(c: Seq<Candidate>, j: int, m: int)
    requires
        0 <= m <= j < c.len(),
        c[m].is_file,
        c[m].identity@ == c[j].identity@,
    ensures
        exists|f: int|
            0 <= f <= j && c[f].is_file && c[f].identity@ == c[j].identity@ && forall|i: int|
                0 <= i < f ==> !(#[trigger] c[i].is_file && c[i].identity@ == c[j].identity@),
    decreases m,
{
    if exists|i: int| 0 <= i < m && #[trigger] c[i].is_file && c[i].identity@ == c[j].identity@ {
        let i = choose|i: int| 0 <= i < m && #[trigger] c[i].is_file && c[i].identity@ == c[j].identity@;
        lemma_first_match(c, j, i);
    } else {
        assert(0 <= m <= j && c[m].is_file && c[m].identity@ == c[j].identity@ && forall|i: int|
            0 <= i < m ==> !(#[trigger] c[i].is_file && c[i].identity@ == c[j].identity@));
    }
}

/// With no regular file among the candidates, nothing is kept.
pub proof fn lemma_no_files_nothing_kept(c: Seq<Candidate>)
    requires
        forall|i: int| 0 <= i < c.len() ==> !(#[trigger] c[i]).is_file,
    ensures
        kept(c).len() == 0,
{
    lemma_kept_below(c, c.len() as int);
    if kept(c).len() > 0 {
        assert(keeps(c, kept(c)[0]));
    }
}

/// Whether some string of `seen` has the characters of `id`.
fn contains_string(seen: &Vec<String>, id: &String) -> (r: bool)
    ensures
        r == exists|m: int| 0 <= m < seen.len() && #[trigger] seen@[m]@ == id@,
{
    let mut k: usize = 0;
    while k < seen.len()
        invariant
            k <= seen.len(),
            forall|m: int| 0 <= m < k ==> seen@[m]@ != id@,
        decreases seen.len() - k,
    {
        if seen[k] == *id {
            return true;
        }
        k = k + 1;
    }
    false
}

/// Indices of the candidates to probe: each regular file whose identity no earlier regular
/// file has, in the order given.
pub fn select_candidates(cands: &Vec<Candidate>) -> (r: Vec<usize>)
    ensures
        r@.map_values(|k: usize| k as int) == kept(cands@),
{
    let mut r: Vec<usize> = Vec::new();
    let mut seen: Vec<String> = Vec::new();
    let mut i: usize = 0;
    while i < cands.len()
        invariant
            i <= cands.len(),
            r@.map_values(|k: usize| k as int) == kept_below(cands@, i as int),
            seen.len() == r.len(),
            forall|k: int|
                0 <= k < seen.len() ==> #[trigger] seen@[k]@ == cands@[r@[k] as int].identity@,
            forall|k: int| 0 <= k < r.len() ==> r@[k] < i && cands@[#[trigger] r@[k] as int].is_file,
            forall|j: int|
                0 <= j < i && #[trigger] cands@[j].is_file ==> exists|k: int|
                    0 <= k < seen.len() && #[trigger] seen@[k]@ == cands@[j].identity@,
        decreases cands.len() - i,
    {
        let c = &cands[i];
        let ghost old_seen = seen@;
        let ghost old_r = r@;
        if c.is_file && !contains_string(&seen, &c.identity) {
            proof {
                assert forall|j: int| 0 <= j < i implies !(#[trigger] cands@[j].is_file
                    && cands@[j].identity@ == cands@[i as int].identity@) by {
                    if cands@[j].is_file {
                        let m = choose|m: int|
                            0 <= m < seen.len() && #[trigger] seen@[m]@ == cands@[j].identity@;
                    }
                }
                assert(keeps(cands@, i as int));
            }
            r.push(i);
            seen.push(c.identity.clone());
            proof {
                assert(r@.map_values(|k: usize| k as int) =~= old_r.map_values(|k: usize| k as int).push(
                    i as int,
                ));
                assert forall|j: int| 0 <= j < i + 1 && #[trigger] cands@[j].is_file implies exists|k: int|
                    0 <= k < seen.len() && #[trigger] seen@[k]@ == cands@[j].identity@ by {
                    if j == i {
                        assert(seen@[seen.len() - 1]@ == cands@[j].identity@);
                    } else {
                        let k = choose|k: int|
                            0 <= k < old_seen.len() && #[trigger] old_seen[k]@ == cands@[j].identity@;
                        assert(seen@[k] == old_seen[k]);
                    }
                }
            }
        } else {
            proof {
                if c.is_file {
                    let m = choose|m: int| 0 <= m < seen.len() && #[trigger] seen@[m]@ == c.identity@;
                    assert(cands@[r@[m] as int].is_file);
                    assert(!keeps(cands@, i as int));
                }
            }
        }
        i = i + 1;
    }
    r
}

/// One runtime of the inventory: the located path, its version token and its vendor label.
pub struct DetectedJava {
    pub pathname: String,
    pub version: String,
    pub vendor: String,
}

impl View for DetectedJava {
    type V = (Seq<char>, Seq<char>, Seq<char>);

    open spec fn view(&self) -> (Seq<char>, Seq<char>, Seq<char>) {
        (self.pathname@, self.version@, self.vendor@)
    }
}

/// The inventory of the first `n` probed candidates: for each, in order, an entry with its path
/// when the strict probe of its outcome succeeded; nothing when it failed.
pub open spec fn inventory_below(
    c: Seq<Candidate>,
    sel: Seq<usize>,
    outs: Seq<ProbeOutcome>,
    n: int,
) -> Seq<(Seq<char>, Seq<char>, Seq<char>)>
    decreases n,
{
    if n <= 0 {
        Seq::empty()
    } else {
        let prev = inventory_below(c, sel, outs, n - 1);
        match java_info_spec(outs[n - 1]) {
            Some(info) => prev.push((c[sel[n - 1] as int].path@, info.0, info.1)),
            None => prev,
        }
    }
}

/// The inventory built from the probed candidates `sel` of `c` and their outcomes `outs`.
pub open spec fn inventory(c: Seq<Candidate>, sel: Seq<usize>, outs: Seq<ProbeOutcome>) -> Seq<
    (Seq<char>, Seq<char>, Seq<char>),
> {
    inventory_below(c, sel, outs, outs.len() as int)
}

/// The inventory of runtimes: for each probed candidate, in order, its path with the version
/// and vendor of its outcome; candidates whose strict probe failed are left out.
pub fn assemble_inventory(
    cands: &Vec<Candidate>,
    selected: &Vec<usize>,
    outcomes: &Vec<ProbeOutcome>,
) -> (r: Vec<DetectedJava>)
    requires
        selected.len() == outcomes.len(),
        forall|k: int| 0 <= k < selected.len() ==> #[trigger] selected@[k] < cands.len(),
    ensures
        r@.map_values(|d: DetectedJava| d@) == inventory(cands@, selected@, outcomes@),
{
    let mut r: Vec<DetectedJava> = Vec::new();
    let mut k: usize = 0;
    while k < outcomes.len()
        invariant
            k <= outcomes.len(),
            selected.len() == outcomes.len(),
            forall|m: int| 0 <= m < selected.len() ==> #[trigger] selected@[m] < cands.len(),
            r@.map_values(|d: DetectedJava| d@) == inventory_below(
                cands@,
                selected@,
                outcomes@,
                k as int,
            ),
        decreases outcomes.len() - k,
    {
        let ghost old_r = r@;
        match java_info(&outcomes[k]) {
            Some(info) => {
                let entry = DetectedJava {
                    pathname: cands[selected[k]].path.clone(),
                    version: info.version,
                    vendor: info.vendor,
                };
                r.push(entry);
                assert(r@.map_values(|d: DetectedJava| d@) =~= old_r.map_values(
                    |d: DetectedJava| d@,
                ).push(entry@));
            },
            None => {},
        }
        k = k + 1;
    }
    r
}

/// With no regular file among the candidates, the inventory is empty, not an error.
pub proof fn lemma_no_files_empty_inventory(
    c: Seq<Candidate>,
    sel: Seq<usize>,
    outs: Seq<ProbeOutcome>,
)
    requires
        forall|i: int| 0 <= i < c.len() ==> !(#[trigger] c[i]).is_file,
        sel.map_values(|k: usize| k as int) == kept(c),
        outs.len() == sel.len(),
    ensures
        inventory(c, sel, outs).len() == 0,
{
    lemma_no_files_nothing_kept(c);
    assert(sel.map_values(|k: usize| k as int).len() == sel.len());
}

/// The candidate indices behind the entries of the inventory of the first `n` probes.
pub open spec fn sources_below(sel: Seq<usize>, outs: Seq<ProbeOutcome>, n: int) -> Seq<int>
    decreases n,
{
    if n <= 0 {
        Seq::empty()
    } else {
        let prev = sources_below(sel, outs, n - 1);
        if java_info_spec(outs[n - 1]) is Some {
            prev.push(sel[n - 1] as int)
        } else {
            prev
        }
    }
}

/// The candidate index behind each entry of the inventory.
pub open spec fn entry_sources(sel: Seq<usize>, outs: Seq<ProbeOutcome>) -> Seq<int> {
    sources_below(sel, outs, outs.len() as int)
}

/// Each entry of the inventory carries the path of its source candidate; the sources are
/// probes that succeeded, in increasing order when the probed indices are, and every
/// successful probe is a source.
proof fn lemma_sources_below(c: Seq<Candidate>, sel: Seq<usize>, outs: Seq<ProbeOutcome>, n: int)
    requires
        0 <= n <= outs.len(),
        sel.len() == outs.len(),
        forall|a: int, b: int| 0 <= a < b < sel.len() ==> #[trigger] sel[a] < #[trigger] sel[b],
    ensures
        inventory_below(c, sel, outs, n).len() == sources_below(sel, outs, n).len(),
        forall|m: int|
            0 <= m < sources_below(sel, outs, n).len() ==> #[trigger] inventory_below(
                c,
                sel,
                outs,
                n,
            )[m].0 == c[sources_below(sel, outs, n)[m]].path@,
        forall|m: int|
            0 <= m < sources_below(sel, outs, n).len() ==> exists|k: int|
                0 <= k < n && sel[k] as int == #[trigger] sources_below(sel, outs, n)[m]
                    && java_info_spec(outs[k]) is Some,
        forall|a: int, b: int|
            0 <= a < b < sources_below(sel, outs, n).len() ==> #[trigger] sources_below(
                sel,
                outs,
                n,
            )[a] < #[trigger] sources_below(sel, outs, n)[b],
        forall|m: int|
            0 <= m < sources_below(sel, outs, n).len() ==> #[trigger] sources_below(sel, outs, n)[m]
                <= (if n > 0 {
                sel[n - 1] as int
            } else {
                -1
            }),
        forall|k: int|
            0 <= k < n && java_info_spec(#[trigger] outs[k]) is Some ==> sources_below(
                sel,
                outs,
                n,
            ).contains(sel[k] as int),
    decreases n,
{
    if n > 0 {
        lemma_sources_below(c, sel, outs, n - 1);
        let prev = sources_below(sel, outs, n - 1);
        let cur = sources_below(sel, outs, n);
        assert forall|m: int| 0 <= m < prev.len() implies #[trigger] prev[m] < sel[n - 1] as int by {
            if n > 1 {
                assert(sel[n - 2] < sel[n - 1]);
            }
        }
        assert forall|m: int| 0 <= m < cur.len() implies exists|k: int|
            0 <= k < n && sel[k] as int == #[trigger] cur[m] && java_info_spec(outs[k]) is Some by {
            if m < prev.len() {
                assert(cur[m] == prev[m]);
                let k = choose|k: int|
                    0 <= k < n - 1 && sel[k] as int == #[trigger] prev[m] && java_info_spec(outs[k]) is Some;
            } else {
                assert(sel[n - 1] as int == cur[m]);
            }
        }
        assert forall|k: int| 0 <= k < n && java_info_spec(#[trigger] outs[k]) is Some implies cur.contains(
            sel[k] as int,
        ) by {
            if k < n - 1 {
                let m = choose|m: int| 0 <= m < prev.len() && prev[m] == sel[k] as int;
                assert(cur[m] == prev[m]);
            } else {
                assert(cur[prev.len() as int] == sel[k] as int);
            }
        }
    }
}

/// Two located paths of one physical executable give at most one entry of the inventory, and
/// exactly one when the probe of the first of them succeeds: that entry bears the path of the
/// first regular file located with that identity.
pub proof fn lemma_one_entry_per_identity(
    c: Seq<Candidate>,
    sel: Seq<usize>,
    outs: Seq<ProbeOutcome>,
    j: int,
)
    requires
        sel.map_values(|k: usize| k as int) == kept(c),
        outs.len() == sel.len(),
        0 <= j < c.len(),
        c[j].is_file,
    ensures
        inventory(c, sel, outs).len() == entry_sources(sel, outs).len(),
        forall|m: int|
            0 <= m < entry_sources(sel, outs).len() ==> #[trigger] inventory(c, sel, outs)[m].0
                == c[entry_sources(sel, outs)[m]].path@,
        forall|m: int|
            0 <= m < entry_sources(sel, outs).len() && c[#[trigger] entry_sources(
                sel,
                outs,
            )[m]].identity@ == c[j].identity@ ==> {
                let f = entry_sources(sel, outs)[m];
                &&& f <= j
                &&& c[f].is_file
                &&& forall|i: int| 0 <= i < f ==> !(c[i].is_file && c[i].identity@ == c[j].identity@)
            },
        forall|a: int, b: int|
            0 <= a < b < entry_sources(sel, outs).len() ==> c[#[trigger] entry_sources(
                sel,
                outs,
            )[a]].identity@ != c[#[trigger] entry_sources(sel, outs)[b]].identity@,
        (forall|k: int|
            0 <= k < sel.len() && c[sel[k] as int].identity@ == c[j].identity@
                ==> java_info_spec(#[trigger] outs[k]) is Some) ==> exists|m: int|
            0 <= m < entry_sources(sel, outs).len() && c[#[trigger] entry_sources(
                sel,
                outs,
            )[m]].identity@ == c[j].identity@,
{
    let ks = kept(c);
    let src = entry_sources(sel, outs);
    lemma_kept_below(c, c.len() as int);
    lemma_first_of_identity_kept(c, j);
    assert forall|k: int| 0 <= k < sel.len() implies #[trigger] sel[k] as int == ks[k] by {
        assert(sel.map_values(|k: usize| k as int)[k] == sel[k] as int);
    }
    assert forall|a: int, b: int| 0 <= a < b < sel.len() implies #[trigger] sel[a] < #[trigger] sel[b] by {
        assert(sel[a] as int == ks[a] && sel[b] as int == ks[b]);
    }
    lemma_sources_below(c, sel, outs, outs.len() as int);
    // Each source is a kept index at some position of the selection.
    assert forall|a: int, b: int| 0 <= a < b < src.len() implies c[#[trigger] src[a]].identity@
        != c[#[trigger] src[b]].identity@ by {
        let ka = choose|k: int| 0 <= k < outs.len() && sel[k] as int == #[trigger] src[a] && java_info_spec(outs[k]) is Some;
        let kb = choose|k: int| 0 <= k < outs.len() && sel[k] as int == #[trigger] src[b] && java_info_spec(outs[k]) is Some;
        assert(src[a] < src[b]);
        if kb < ka {
            assert(sel[kb] < sel[ka]);
        }
        assert(ka != kb);
        if ka < kb {
            assert(ks[ka] != ks[kb]);
        }
    }
    assert forall|m: int|
        0 <= m < src.len() && c[#[trigger] src[m]].identity@ == c[j].identity@ implies {
            let f = src[m];
            &&& f <= j
            &&& c[f].is_file
            &&& forall|i: int| 0 <= i < f ==> !(c[i].is_file && c[i].identity@ == c[j].identity@)
        } by {
        let k = choose|k: int| 0 <= k < outs.len() && sel[k] as int == #[trigger] src[m] && java_info_spec(outs[k]) is Some;
        assert(ks[k] == src[m]);
    }
    if forall|k: int|
        0 <= k < sel.len() && c[sel[k] as int].identity@ == c[j].identity@
            ==> java_info_spec(#[trigger] outs[k]) is Some {
        let k = choose|k: int| 0 <= k < ks.len() && c[#[trigger] ks[k]].identity@ == c[j].identity@;
        assert(sel[k] as int == ks[k]);
        assert(java_info_spec(outs[k]) is Some);
        assert(src.contains(sel[k] as int));
    }
}

/// The wire shape of a runtime: its fields by their external names, in order.
pub open spec fn wire_spec(d: (Seq<char>, Seq<char>, Seq<char>)) -> Seq<(Seq<char>, Seq<char>)> {
    let (pathname, version, vendor) = d;
    seq![("pathname"@, pathname), ("version"@, version), ("vendor"@, vendor)]
}

/// The value of the first field of `f` at index `i` or later whose name is `key`.
pub open spec fn field_from(f: Seq<(Seq<char>, Seq<char>)>, key: Seq<char>, i: int) -> Option<
    Seq<char>,
>
    decreases f.len() - i,
{
    if i < 0 || i >= f.len() {
        None
    } else if f[i].0 == key {
        Some(f[i].1)
    } else {
        field_from(f, key, i + 1)
    }
}

/// The runtime that a wire shape describes, when it has all three fields.
pub open spec fn from_wire_spec(f: Seq<(Seq<char>, Seq<char>)>) -> Option<
    (Seq<char>, Seq<char>, Seq<char>),
> {
    match (field_from(f, "pathname"@, 0), field_from(f, "version"@, 0), field_from(f, "vendor"@, 0)) {
        (Some(p), Some(v), Some(n)) => Some((p, v, n)),
        _ => None,
    }
}

/// The characters of each name and value.
pub open spec fn field_views(v: Seq<(String, String)>) -> Seq<(Seq<char>, Seq<char>)> {
    v.map_values(|f: (String, String)| (f.0@, f.1@))
}

/// The value of the first field named `key`.
fn field_value(fields: &Vec<(String, String)>, key: &str) -> (r: Option<String>)
    ensures
        match r {
            Some(v) => field_from(field_views(fields@), key@, 0) == Some(v@),
            None => field_from(field_views(fields@), key@, 0) is None,
        },
{
    let wanted: String = key.to_owned();
    let mut i: usize = 0;
    while i < fields.len()
        invariant
            i <= fields.len(),
            wanted@ == key@,
            field_from(field_views(fields@), key@, i as int) == field_from(
                field_views(fields@),
                key@,
                0,
            ),
        decreases fields.len() - i,
    {
        assert(field_views(fields@)[i as int] == (fields@[i as int].0@, fields@[i as int].1@));
        let field = &fields[i];
        if field.0 == wanted {
            return Some(field.1.clone());
        }
        i = i + 1;
    }
    None
}

impl DetectedJava {
    /// The fields of the wire shape: `pathname`, `version`, `vendor`.
    pub fn wire_fields(&self) -> (r: Vec<(String, String)>)
        ensures
            field_views(r@) == wire_spec(self@),
    {
        let mut r: Vec<(String, String)> = Vec::new();
        r.push((String::from_str("pathname"), self.pathname.clone()));
        r.push((String::from_str("version"), self.version.clone()));
        r.push((String::from_str("vendor"), self.vendor.clone()));
        assert(field_views(r@) =~= wire_spec(self@));
        r
    }

    /// The runtime that the wire fields describe, or `None` if one of the three is missing.
    pub fn from_wire_fields(fields: &Vec<(String, String)>) -> (r: Option<DetectedJava>)
        ensures
            match r {
                Some(d) => from_wire_spec(field_views(fields@)) == Some(d@),
                None => from_wire_spec(field_views(fields@)) is None,
            },
    {
        let pathname = field_value(fields, "pathname");
        let version = field_value(fields, "version");
        let vendor = field_value(fields, "vendor");
        match (pathname, version, vendor) {
            (Some(pathname), Some(version), Some(vendor)) => Some(
                DetectedJava { pathname, version, vendor },
            ),
            _ => None,
        }
    }
}

/// Encoding a runtime to its wire shape and decoding it gives back all three fields exactly.
pub proof fn lemma_wire_round_trip(d: (Seq<char>, Seq<char>, Seq<char>))
    ensures
        from_wire_spec(wire_spec(d)) == Some(d),
{
    reveal_strlit("pathname");
    reveal_strlit("version");
    reveal_strlit("vendor");
    let f = wire_spec(d);
    assert("pathname"@.len() == 8 && "version"@.len() == 7 && "vendor"@.len() == 6);
    assert(f[1].0 != f[0].0);
    assert(f[2].0 != f[0].0 && f[2].0 != f[1].0);
    assert(field_from(f, "version"@, 1) == Some(f[1].1));
    assert(field_from(f, "vendor"@, 2) == Some(f[2].1));
    assert(field_from(f, "vendor"@, 1) == Some(f[2].1));
}

} // verus!
