//! The shape resolver: given a document's file name and an optional explicit
//! shape location, decides which shape descriptions apply. An explicit
//! location overrides the catalog entirely; otherwise catalog entries are
//! scanned in stored order, and within an entry its patterns in order, the
//! first matching pattern selecting the entry. Patterns are matched against
//! the file name exactly as the caller supplies it (one uniform convention).
//! An uncompilable pattern reached during the scan is a catalog defect and
//! aborts resolution.

use crate::LintError;
use crate::catalog::CatalogEntry;
use crate::catalog::EntryView;
use vstd::prelude::*;
use vstd::string::*;

verus! {

/// Whether a glob pattern compiles; the answer depends on the pattern string
/// alone.
pub uninterp spec fn pattern_compiles(pattern: Seq<char>) -> bool;

/// Whether a compiled glob pattern matches a name; the answer depends on the
/// two strings alone.
pub uninterp spec fn pattern_match_of(pattern: Seq<char>, name: Seq<char>) -> bool;

#[verifier::external_type_specification]
#[verifier::external_body]
pub struct ExPatternError(glob::PatternError);

/// Relies on glob::Pattern::new and glob::Pattern::matches: compiling a
/// pattern succeeds or fails on the pattern string alone, and a compiled
/// pattern matches a name as a function of the two strings alone.
#[verifier::external_body]
fn glob_match(pattern: &str, name: &str) -> (r: Result<bool, glob::PatternError>)
    ensures
        r is Ok <==> pattern_compiles(pattern@),
        r is Ok ==> r->Ok_0 == pattern_match_of(pattern@, name@),
{
    match glob::Pattern::new(pattern) {
        Ok(p) => Ok(p.matches(name)),
        Err(e) => Err(e),
    }
}

/// How one entry's pattern list reacts to a file name: selected by its first
/// matching pattern (`Ok(true)`), passed over (`Ok(false)`), or aborted by
/// the first uncompilable pattern reached (`Err(pattern)`).
pub open spec fn spec_scan(patterns: Seq<Seq<char>>, file: Seq<char>) -> Result<bool, Seq<char>>
    decreases patterns.len(),
{
    if patterns.len() == 0 {
        Ok(false)
    } else if !pattern_compiles(patterns[0]) {
        Err(patterns[0])
    } else if pattern_match_of(patterns[0], file) {
        Ok(true)
    } else {
        spec_scan(patterns.drop_first(), file)
    }
}

/// The entries the catalog selects for a file name, in catalog order, or the
/// (entry name, pattern) pair of the first uncompilable pattern reached.
pub open spec fn spec_selection(entries: Seq<EntryView>, file: Seq<char>) -> Result<
    Seq<EntryView>,
    (Seq<char>, Seq<char>),
>
    decreases entries.len(),
{
    if entries.len() == 0 {
        Ok(Seq::empty())
    } else {
        match spec_scan(entries[0].file_match, file) {
            Err(p) => Err((entries[0].name, p)),
            Ok(selected) => match spec_selection(entries.drop_first(), file) {
                Err(e) => Err(e),
                Ok(rest) => Ok(
                    if selected {
                        seq![entries[0]] + rest
                    } else {
                        rest
                    },
                ),
            },
        }
    }
}

/// A location with a recognized URL scheme prefix is retrieved over the
/// network; anything else is treated as a local file path.
pub open spec fn is_remote_location(s: Seq<char>) -> bool {
    s.len() >= 4 && s[0] == 'h' && s[1] == 't' && s[2] == 't' && s[3] == 'p'
}

/// Classifies a shape location as network or local.
pub fn classify_remote(location: &str) -> (r: bool)
    ensures
        r == is_remote_location(location@),
{
    let n = location.unicode_len();
    n >= 4 && location.get_char(0) == 'h' && location.get_char(1) == 't' && location.get_char(2)
        == 't' && location.get_char(3) == 'p'
}

/// One shape description to retrieve and check a document against.
pub struct ShapeRef {
    /// The catalog entry the shape came from; a shape supplied explicitly is
    /// anonymous with respect to the catalog.
    pub label: Option<String>,
    /// Where to retrieve the shape description from.
    pub location: String,
    /// Whether the location is a network endpoint.
    pub remote: bool,
}

/// The mathematical content of a `ShapeRef`.
pub ghost struct ShapeRefView {
    pub label: Option<Seq<char>>,
    pub location: Seq<char>,
    pub remote: bool,
}

impl View for ShapeRef {
    type V = ShapeRefView;

    open spec fn view(&self) -> ShapeRefView {
        ShapeRefView { label: self.label.deep_view(), location: self.location@, remote: self.remote }
    }
}

impl DeepView for ShapeRef {
    type V = ShapeRefView;

    open spec fn deep_view(&self) -> ShapeRefView {
        self.view()
    }
}

/// The shape reference a selected catalog entry contributes.
pub open spec fn spec_ref_of_entry(e: EntryView) -> ShapeRefView {
    ShapeRefView { label: Some(e.name), location: e.location, remote: is_remote_location(e.location) }
}

/// The whole resolution: an explicit location yields exactly one anonymous
/// shape reference and never consults the catalog; otherwise each selected
/// catalog entry contributes one labelled reference, in catalog order.
pub open spec fn spec_resolution(
    entries: Seq<EntryView>,
    file: Seq<char>,
    explicit: Option<Seq<char>>,
) -> Result<Seq<ShapeRefView>, (Seq<char>, Seq<char>)> {
    match explicit {
        Some(loc) => Ok(
            seq![ShapeRefView { label: None, location: loc, remote: is_remote_location(loc) }],
        ),
        None => match spec_selection(entries, file) {
            Err(e) => Err(e),
            Ok(sel) => Ok(sel.map_values(|e: EntryView| spec_ref_of_entry(e))),
        },
    }
}

/// Scans one entry's patterns in order. `Err(i)` names the position of the
/// first uncompilable pattern reached before any match.
fn scan_patterns(patterns: &Vec<String>, file: &str) -> (r: Result<bool, usize>)
    ensures
        r is Ok ==> spec_scan(patterns.deep_view(), file@) == Ok::<bool, Seq<char>>(r->Ok_0),
        r is Err ==> r->Err_0 < patterns.len() && spec_scan(patterns.deep_view(), file@) == Err::<
            bool,
            Seq<char>,
        >(patterns.deep_view()[r->Err_0 as int]),
{
    let n = patterns.len();
    let mut k: usize = 0;
    proof {
        assert(patterns.deep_view().skip(0) =~= patterns.deep_view());
    }
    while k < n
        invariant
            n == patterns.len(),
            k <= n,
            spec_scan(patterns.deep_view(), file@) == spec_scan(
                patterns.deep_view().skip(k as int),
                file@,
            ),
        decreases n - k,
    {
        let ghost pre = patterns.deep_view().skip(k as int);
        proof {
            assert(pre[0] == patterns.deep_view()[k as int]);
            assert(pre.drop_first() =~= patterns.deep_view().skip(k as int + 1));
        }
        match glob_match(patterns[k].as_str(), file) {
            Err(_) => {
                return Err(k);
            },
            Ok(true) => {
                return Ok(true);
            },
            Ok(false) => {
                k += 1;
            },
        }
    }
    proof {
        assert(patterns.deep_view().skip(k as int) =~= Seq::<Seq<char>>::empty());
    }
    Ok(false)
}

/// Resolves a file name against the catalog alone: the selected entries, in
/// catalog order, each contributing one labelled shape reference.
pub fn resolve_catalog(entries: &Vec<CatalogEntry>, file: &str) -> (r: Result<
    Vec<ShapeRef>,
    LintError,
>)
    ensures
        r is Ok <==> spec_selection(entries.deep_view(), file@) is Ok,
        r is Ok ==> r->Ok_0.deep_view() == spec_resolution(
            entries.deep_view(),
            file@,
            None,
        )->Ok_0,
        r is Err ==> (r->Err_0 matches LintError::BadPattern { entry, pattern } && spec_selection(
            entries.deep_view(),
            file@,
        ) == Err::<Seq<EntryView>, (Seq<char>, Seq<char>)>((entry@, pattern@))),
{
    let ghost all = entries.deep_view();
    let n = entries.len();
    let mut out: Vec<ShapeRef> = Vec::new();
    let ghost mut sel: Seq<EntryView> = Seq::empty();
    let mut k: usize = 0;
    proof {
        assert(all.skip(0) =~= all);
        let whole = spec_selection(all, file@);
        if whole is Ok {
            assert(sel + whole->Ok_0 =~= whole->Ok_0);
        }
        assert(out.deep_view() =~= sel.map_values(|e: EntryView| spec_ref_of_entry(e)));
    }
    while k < n
        invariant
            n == entries.len(),
            all == entries.deep_view(),
            k <= n,
            out.deep_view() == sel.map_values(|e: EntryView| spec_ref_of_entry(e)),
            spec_selection(all.skip(k as int), file@) matches Ok(rest) ==> spec_selection(
                all,
                file@,
            ) == Ok::<Seq<EntryView>, (Seq<char>, Seq<char>)>(sel + rest),
            spec_selection(all.skip(k as int), file@) is Err ==> spec_selection(all, file@)
                == spec_selection(all.skip(k as int), file@),
        decreases n - k,
    {
        let ghost suffix = all.skip(k as int);
        let ghost ev = all[k as int];
        proof {
            assert(suffix[0] == ev);
            assert(suffix.drop_first() =~= all.skip(k as int + 1));
        }
        let e = &entries[k];
        match scan_patterns(&e.file_match, file) {
            Err(i) => {
                proof {
                    assert(spec_selection(suffix, file@) == Err::<
                        Seq<EntryView>,
                        (Seq<char>, Seq<char>),
                    >((ev.name, e.file_match.deep_view()[i as int])));
                }
                return Err(
                    LintError::BadPattern {
                        entry: e.name.clone(),
                        pattern: e.file_match[i].clone(),
                    },
                );
            },
            Ok(true) => {
                let ghost old_out = out.deep_view();
                let ghost old_sel = sel;
                let r = ShapeRef {
                    label: Some(e.name.clone()),
                    location: e.location.clone(),
                    remote: classify_remote(e.location.as_str()),
                };
                proof {
                    assert(r@ == spec_ref_of_entry(ev));
                }
                out.push(r);
                proof {
                    sel = old_sel + seq![ev];
                    assert(out.deep_view() =~= old_out + seq![spec_ref_of_entry(ev)]);
                    assert(out.deep_view() =~= sel.map_values(
                        |e2: EntryView| spec_ref_of_entry(e2),
                    ));
                    let next = spec_selection(all.skip(k as int + 1), file@);
                    if next is Ok {
                        let rest = next->Ok_0;
                        assert(spec_selection(suffix, file@) == Ok::<
                            Seq<EntryView>,
                            (Seq<char>, Seq<char>),
                        >(seq![ev] + rest));
                        assert(old_sel + (seq![ev] + rest) =~= sel + rest);
                    } else {
                        assert(spec_selection(suffix, file@) == next);
                    }
                }
            },
            Ok(false) => {
                proof {
                    let next = spec_selection(all.skip(k as int + 1), file@);
                    if next is Ok {
                        assert(spec_selection(suffix, file@) == Ok::<
                            Seq<EntryView>,
                            (Seq<char>, Seq<char>),
                        >(next->Ok_0));
                    } else {
                        assert(spec_selection(suffix, file@) == next);
                    }
                }
            },
        }
        k += 1;
    }
    proof {
        assert(all.skip(n as int) =~= Seq::<EntryView>::empty());
        assert(spec_selection(Seq::<EntryView>::empty(), file@) == Ok::<
            Seq<EntryView>,
            (Seq<char>, Seq<char>),
        >(Seq::empty()));
        assert(sel + Seq::<EntryView>::empty() =~= sel);
    }
    Ok(out)
}

/// Resolves which shape descriptions apply to a file. The result is a
/// function of the catalog, the file name, and the explicit location alone,
/// so repeated resolutions agree.
pub fn resolve(entries: &Vec<CatalogEntry>, file: &str, explicit: &Option<String>) -> (r: Result<
    Vec<ShapeRef>,
    LintError,
>)
    ensures
        r is Ok <==> spec_resolution(entries.deep_view(), file@, explicit.deep_view()) is Ok,
        r is Ok ==> r->Ok_0.deep_view() == spec_resolution(
            entries.deep_view(),
            file@,
            explicit.deep_view(),
        )->Ok_0,
        r is Err ==> (r->Err_0 matches LintError::BadPattern { entry, pattern }
            && spec_resolution(entries.deep_view(), file@, explicit.deep_view()) == Err::<
            Seq<ShapeRefView>,
            (Seq<char>, Seq<char>),
        >((entry@, pattern@))),
{
    match explicit {
        Some(loc) => {
            let remote = classify_remote(loc.as_str());
            let mut v: Vec<ShapeRef> = Vec::new();
            v.push(ShapeRef { label: None, location: loc.clone(), remote });
            proof {
                assert(v.deep_view() =~= seq![
                    ShapeRefView {
                        label: None,
                        location: loc@,
                        remote: is_remote_location(loc@),
                    },
                ]);
            }
            Ok(v)
        },
        None => resolve_catalog(entries, file),
    }
}

/// Law: explicit override precedence. With an explicit shape location the
/// catalog is never consulted: any two catalogs resolve identically.
pub proof fn lemma_explicit_override(
    c1: Seq<EntryView>,
    c2: Seq<EntryView>,
    file: Seq<char>,
    loc: Seq<char>,
)
    ensures
        spec_resolution(c1, file, Some(loc)) == spec_resolution(c2, file, Some(loc)),
{
}

/// If every entry's scan passes the file over, the catalog selects nothing.
pub proof fn lemma_no_match_no_selection(entries: Seq<EntryView>, file: Seq<char>)
    requires
        forall|i: int| 0 <= i < entries.len() ==> spec_scan(#[trigger] entries[i].file_match, file)
            == Ok::<bool, Seq<char>>(false),
    ensures
        spec_selection(entries, file) == Ok::<Seq<EntryView>, (Seq<char>, Seq<char>)>(
            Seq::empty(),
        ),
    decreases entries.len(),
{
    if entries.len() > 0 {
        assert forall|i: int| 0 <= i < entries.drop_first().len() implies spec_scan(
            #[trigger] entries.drop_first()[i].file_match,
            file,
        ) == Ok::<bool, Seq<char>>(false) by {
            assert(entries.drop_first()[i] == entries[i + 1]);
        }
        lemma_no_match_no_selection(entries.drop_first(), file);
        assert(spec_scan(entries[0].file_match, file) == Ok::<bool, Seq<char>>(false));
    }
}

/// Law: deterministic matching. The resolution is a function of the catalog,
/// the file name, and the explicit location alone, so two resolutions of the
/// same inputs — in this run or any other — return the same shape references
/// in the same order.
pub proof fn lemma_deterministic_matching(
    entries: Seq<EntryView>,
    file: Seq<char>,
    explicit: Option<Seq<char>>,
    r1: Result<Seq<ShapeRefView>, (Seq<char>, Seq<char>)>,
    r2: Result<Seq<ShapeRefView>, (Seq<char>, Seq<char>)>,
)
    requires
        r1 == spec_resolution(entries, file, explicit),
        r2 == spec_resolution(entries, file, explicit),
    ensures
        r1 == r2,
{
}

/// Law: no match is a no-op. If every entry's scan passes the file over,
/// resolution yields no shape references, so nothing is retrieved and no
/// violation can arise for that file.
pub proof fn lemma_no_match_no_shapes(entries: Seq<EntryView>, file: Seq<char>)
    requires
        forall|i: int| 0 <= i < entries.len() ==> spec_scan(#[trigger] entries[i].file_match, file)
            == Ok::<bool, Seq<char>>(false),
    ensures
        spec_resolution(entries, file, None) == Ok::<Seq<ShapeRefView>, (Seq<char>, Seq<char>)>(
            Seq::empty(),
        ),
{
    lemma_no_match_no_selection(entries, file);
    assert(Seq::<EntryView>::empty().map_values(|e: EntryView| spec_ref_of_entry(e))
        =~= Seq::<ShapeRefView>::empty());
}

} // verus!
