//! The recent-files registry: a bounded, order-preserving list of file paths,
//! most-recently-used first.
//!
//! Touching a path removes any earlier occurrence, puts the path at the
//! front, and truncates the list to its capacity, so the list never holds a
//! duplicate it was given twice and never grows beyond [`MAX_RECENT_FILES`]
//! entries.  The registry is persisted after every mutation as a JSON array
//! of path strings; loading filters out entries whose file no longer exists
//! and degrades malformed persisted data to an empty list.

use vstd::prelude::*;

verus! {

/// Capacity of the recent-files list.
pub const MAX_RECENT_FILES: usize = 10;

/// Key under which the recent-files sequence is persisted.
pub const RECENT_FILES_KEY: &'static str = "recent_files";

/// Name of the store file holding the persisted sequence.
pub const STORE_FILE: &'static str = "app_data.bin";

/// `s` with every occurrence of `p` removed, order otherwise kept.
pub open spec fn without_path(s: Seq<Seq<char>>, p: Seq<char>) -> Seq<Seq<char>>
    decreases s.len(),
{
    if s.len() == 0 {
        Seq::empty()
    } else if s.last() == p {
        without_path(s.drop_last(), p)
    } else {
        without_path(s.drop_last(), p).push(s.last())
    }
}

/// How many entries of `s` equal `p`.
pub open spec fn count_of(s: Seq<Seq<char>>, p: Seq<char>) -> nat
    decreases s.len(),
{
    if s.len() == 0 {
        0
    } else {
        count_of(s.drop_last(), p) + (if s.last() == p {
            1nat
        } else {
            0nat
        })
    }
}

/// The first `n` entries of `s`, or all of `s` when it is shorter.
pub open spec fn truncated(s: Seq<Seq<char>>, n: int) -> Seq<Seq<char>> {
    if s.len() <= n {
        s
    } else {
        s.take(n)
    }
}

/// The list after touching `p`: earlier occurrences of `p` removed, `p` at
/// the front, and the result cut to capacity.
pub open spec fn recents_touch(s: Seq<Seq<char>>, p: Seq<char>) -> Seq<Seq<char>> {
    truncated(seq![p] + without_path(s, p), MAX_RECENT_FILES as int)
}

/// The list installed at startup from persisted entries: the entries whose
/// file still exists (`keep` true), in order, cut to capacity.
pub open spec fn load_selection(entries: Seq<Seq<char>>, keep: Seq<bool>) -> Seq<Seq<char>>
    recommends
        entries.len() == keep.len(),
    decreases entries.len(),
{
    if entries.len() == 0 || keep.len() == 0 {
        Seq::empty()
    } else {
        let rest = load_selection(entries.drop_last(), keep.drop_last());
        if keep.last() {
            rest.push(entries.last())
        } else {
            rest
        }
    }
}

/// In-memory cache of the recent-files list, most-recently-used first.
pub struct RecentFilesState {
    files: Vec<String>,
}

impl View for RecentFilesState {
    type V = Seq<Seq<char>>;

    closed spec fn view(&self) -> Seq<Seq<char>> {
        self.files.deep_view()
    }
}

impl RecentFilesState {
    /// An empty registry.
    pub fn new() -> (r: RecentFilesState)
        ensures
            r@ == Seq::<Seq<char>>::empty(),
    {
        let files: Vec<String> = Vec::new();
        proof {
            assert(files.deep_view() =~= Seq::<Seq<char>>::empty());
        }
        RecentFilesState { files }
    }

    /// Records an access of `path`: removes any existing occurrence, inserts
    /// it at the front, and truncates to capacity.
    pub fn touch(&mut self, path: String)
        ensures
            final(self)@ == recents_touch(old(self)@, path@),
    {
        let ghost orig: Seq<Seq<char>> = self.files.deep_view();
        let ghost p: Seq<char> = path@;
        let mut kept: Vec<String> = Vec::new();
        proof {
            assert(kept.deep_view() =~= without_path(orig.take(0), p));
        }
        let n = self.files.len();
        let mut i: usize = 0;
        while i < n
            invariant
                i <= n,
                n == self.files@.len(),
                self.files.deep_view() == orig,
                kept.deep_view() == without_path(orig.take(i as int), p),
                p == path@,
            decreases n - i,
        {
            let ghost pre = kept.deep_view();
            proof {
                assert(orig.take(i + 1).drop_last() =~= orig.take(i as int));
                assert(orig.take(i + 1).last() == orig[i as int]);
            }
            if !(self.files[i] == path) {
                kept.push(self.files[i].clone());
                proof {
                    assert(kept.deep_view() =~= pre.push(orig[i as int]));
                }
            }
            i += 1;
        }
        proof {
            assert(orig.take(n as int) =~= orig);
        }
        let mut out: Vec<String> = Vec::new();
        out.push(path);
        proof {
            assert(out.deep_view() =~= seq![p]);
        }
        let ghost filtered = kept.deep_view();
        out.append(&mut kept);
        let ghost joined = out.deep_view();
        proof {
            assert(joined =~= seq![p] + filtered);
        }
        if out.len() > MAX_RECENT_FILES {
            out.truncate(MAX_RECENT_FILES);
            proof {
                assert(out.deep_view() =~= joined.take(MAX_RECENT_FILES as int));
            }
        }
        self.files = out;
    }

    /// The current sequence, most-recent-first, without mutating it.
    pub fn list(&self) -> (r: Vec<String>)
        ensures
            r.deep_view() == self@,
    {
        let mut r: Vec<String> = Vec::new();
        let n = self.files.len();
        let mut i: usize = 0;
        while i < n
            invariant
                i <= n,
                n == self.files@.len(),
                r.deep_view() == self.files.deep_view().take(i as int),
            decreases n - i,
        {
            let ghost pre = r.deep_view();
            r.push(self.files[i].clone());
            proof {
                assert(r.deep_view() =~= pre.push(self.files.deep_view()[i as int]));
                assert(r.deep_view() =~= self.files.deep_view().take(i + 1));
            }
            i += 1;
        }
        proof {
            assert(self.files.deep_view().take(n as int) =~= self@);
        }
        r
    }

    /// Empties the registry.
    pub fn clear(&mut self)
        ensures
            final(self)@ == Seq::<Seq<char>>::empty(),
    {
        self.files.clear();
        proof {
            assert(self.files.deep_view() =~= Seq::<Seq<char>>::empty());
        }
    }

    /// Installs the registry from persisted entries.  `keep[i]` says whether
    /// the file named by `entries[i]` still exists; entries whose file is
    /// gone are dropped, and the result is cut to capacity.
    pub fn from_loaded(entries: Vec<String>, keep: &Vec<bool>) -> (r: RecentFilesState)
        requires
            entries@.len() == keep@.len(),
        ensures
            r@ == truncated(load_selection(entries.deep_view(), keep@), MAX_RECENT_FILES as int),
            r@.len() <= MAX_RECENT_FILES,
    {
        let ghost edv: Seq<Seq<char>> = entries.deep_view();
        let mut out: Vec<String> = Vec::new();
        proof {
            assert(out.deep_view() =~= load_selection(edv.take(0), keep@.take(0)));
        }
        let n = entries.len();
        let mut i: usize = 0;
        while i < n
            invariant
                i <= n,
                n == entries@.len(),
                n == keep@.len(),
                entries.deep_view() == edv,
                out.deep_view() == load_selection(edv.take(i as int), keep@.take(i as int)),
            decreases n - i,
        {
            let ghost pre = out.deep_view();
            proof {
                assert(edv.take(i + 1).drop_last() =~= edv.take(i as int));
                assert(keep@.take(i + 1).drop_last() =~= keep@.take(i as int));
                assert(edv.take(i + 1).last() == edv[i as int]);
                assert(keep@.take(i + 1).last() == keep@[i as int]);
            }
            if keep[i] {
                out.push(entries[i].clone());
                proof {
                    assert(out.deep_view() =~= pre.push(edv[i as int]));
                }
            }
            i += 1;
        }
        proof {
            assert(edv.take(n as int) =~= edv);
            assert(keep@.take(n as int) =~= keep@);
        }
        let ghost selected = out.deep_view();
        if out.len() > MAX_RECENT_FILES {
            out.truncate(MAX_RECENT_FILES);
            proof {
                assert(out.deep_view() =~= selected.take(MAX_RECENT_FILES as int));
            }
        }
        RecentFilesState { files: out }
    }

    /// What a file dialog's outcome does to the registry: a chosen path is
    /// touched and handed back for the caller to return and persist; no
    /// choice leaves the registry exactly as it was.
    pub fn touch_chosen(&mut self, chosen: Option<String>) -> (r: Option<String>)
        ensures
            chosen matches Some(p) ==> final(self)@ == recents_touch(old(self)@, p@) && r
                == Some(p),
            chosen is None ==> final(self)@ == old(self)@ && r is None,
    {
        match chosen {
            Option::Some(path) => {
                let out = path.clone();
                self.touch(path);
                Some(out)
            },
            Option::None => None,
        }
    }

    /// Serializes the current sequence for the persistent store: the JSON
    /// array of path strings, which parsing gives back unchanged.  Owed on
    /// every registry state, so a mutation can always be persisted at once.
    pub fn to_persist(&self) -> (r: String)
        ensures
            r@ == json_of_paths(self@),
            paths_of_json(r@) == Some(self@),
    {
        to_json_text(&self.files)
    }
}

/// The JSON text serde_json produces for a list of path strings.
pub uninterp spec fn json_of_paths(paths: Seq<Seq<char>>) -> Seq<char>;

/// The list of path strings serde_json parses out of a JSON text, `None`
/// when the text is not a JSON array of strings.
pub uninterp spec fn paths_of_json(text: Seq<char>) -> Option<Seq<Seq<char>>>;

/// Relies on serde_json::to_string: serializes a list of strings as a JSON
/// array of strings, and serde_json::from_str parses that array back to the
/// same list.  Serialization fails only for a failing `Serialize` impl or a
/// map with non-string keys, so on a vector of strings it always succeeds;
/// the fallback arm is never taken.
#[verifier::external_body]
fn to_json_text(paths: &Vec<String>) -> (r: String)
    ensures
        r@ == json_of_paths(paths.deep_view()),
        paths_of_json(r@) == Some(paths.deep_view()),
{
    serde_json::to_string(paths).unwrap_or_default()
}

/// Relies on serde_json::from_str: parses a JSON array of strings, failing
/// exactly when the text is not one.
#[verifier::external_body]
fn from_json_text(text: &str) -> (r: Option<Vec<String>>)
    ensures
        r matches Some(v) ==> paths_of_json(text@) == Some(v.deep_view()),
        r is None ==> paths_of_json(text@) is None,
{
    serde_json::from_str::<Vec<String>>(text).ok()
}

/// Removing every occurrence of a path leaves none of it, and never makes
/// the list longer.
pub proof fn lemma_without_path_count(s: Seq<Seq<char>>, p: Seq<char>)
    ensures
        count_of(without_path(s, p), p) == 0,
        without_path(s, p).len() <= s.len(),
    decreases s.len(),
{
    if s.len() > 0 {
        lemma_without_path_count(s.drop_last(), p);
        let w = without_path(s.drop_last(), p);
        if s.last() != p {
            assert(w.push(s.last()).drop_last() =~= w);
            assert(w.push(s.last()).last() == s.last());
        }
    }
}

/// Removing a path that does not occur changes nothing.
pub proof fn lemma_without_path_id(s: Seq<Seq<char>>, p: Seq<char>)
    requires
        count_of(s, p) == 0,
    ensures
        without_path(s, p) == s,
    decreases s.len(),
{
    if s.len() > 0 {
        lemma_without_path_id(s.drop_last(), p);
        assert(without_path(s, p) =~= s);
    }
}

/// Removing `p` from `[p] + s` is the same as removing it from `s`.
pub proof fn lemma_without_path_prepend(s: Seq<Seq<char>>, p: Seq<char>)
    ensures
        without_path(seq![p] + s, p) == without_path(s, p),
    decreases s.len(),
{
    let t = seq![p] + s;
    if s.len() == 0 {
        assert(t.last() == p);
        assert(t.drop_last() =~= s);
    } else {
        assert(t.drop_last() =~= seq![p] + s.drop_last());
        assert(t.last() == s.last());
        lemma_without_path_prepend(s.drop_last(), p);
    }
}

/// A prefix of a list holds no more occurrences of a path than the list.
pub proof fn lemma_count_take(s: Seq<Seq<char>>, p: Seq<char>, k: int)
    requires
        0 <= k <= s.len(),
    ensures
        count_of(s.take(k), p) <= count_of(s, p),
    decreases s.len(),
{
    if k < s.len() {
        assert(s.take(k) =~= s.drop_last().take(k));
        lemma_count_take(s.drop_last(), p, k);
    } else {
        assert(s.take(k) =~= s);
    }
}

/// Counting occurrences steps over a prepended element.
pub proof fn lemma_count_prepend(s: Seq<Seq<char>>, x: Seq<char>, p: Seq<char>)
    ensures
        count_of(seq![x] + s, p) == count_of(s, p) + (if x == p {
            1nat
        } else {
            0nat
        }),
    decreases s.len(),
{
    let t = seq![x] + s;
    if s.len() == 0 {
        assert(t.last() == x);
        assert(t.drop_last() =~= s);
    } else {
        assert(t.drop_last() =~= seq![x] + s.drop_last());
        assert(t.last() == s.last());
        lemma_count_prepend(s.drop_last(), x, p);
    }
}

/// A path occurs in none of the entries exactly when its count is zero.
pub proof fn lemma_count_zero(s: Seq<Seq<char>>, p: Seq<char>)
    requires
        forall|i: int| 0 <= i < s.len() ==> s[i] != p,
    ensures
        count_of(s, p) == 0,
    decreases s.len(),
{
    if s.len() > 0 {
        lemma_count_zero(s.drop_last(), p);
    }
}

/// Cutting to capacity commutes with prepending: one in front of a cut list,
/// cut again, is the cut of one in front of the whole list.
pub proof fn lemma_truncated_prepend(x: Seq<char>, t: Seq<Seq<char>>, n: int)
    requires
        n >= 1,
    ensures
        truncated(seq![x] + truncated(t, n), n) == truncated(seq![x] + t, n),
{
    assert(truncated(seq![x] + truncated(t, n), n) =~= truncated(seq![x] + t, n));
}

/// Cutting `[x] + t` to `n` entries keeps `x` and the first `n - 1` of `t`.
pub proof fn lemma_truncated_unfold(x: Seq<char>, t: Seq<Seq<char>>, n: int)
    requires
        n >= 1,
    ensures
        truncated(seq![x] + t, n) == seq![x] + truncated(t, n - 1),
{
    assert(truncated(seq![x] + t, n) =~= seq![x] + truncated(t, n - 1));
}

/// A touched path heads the list: after `touch(p)`, the list is nonempty,
/// its first element is `p`, and it is within capacity.
pub proof fn lemma_touch_front(s: Seq<Seq<char>>, p: Seq<char>)
    ensures
        recents_touch(s, p).len() >= 1,
        recents_touch(s, p)[0] == p,
        recents_touch(s, p).len() <= MAX_RECENT_FILES,
{
}

/// Touching a path twice is the same as touching it once, and leaves exactly
/// one occurrence of it, still at the front.
pub proof fn lemma_touch_idempotent(s: Seq<Seq<char>>, p: Seq<char>)
    ensures
        count_of(recents_touch(s, p), p) == 1,
        recents_touch(recents_touch(s, p), p) == recents_touch(s, p),
{
    let w = without_path(s, p);
    lemma_without_path_count(s, p);
    lemma_truncated_unfold(p, w, MAX_RECENT_FILES as int);
    let w9 = truncated(w, MAX_RECENT_FILES as int - 1);
    let touched = recents_touch(s, p);
    assert(touched == seq![p] + w9);
    if w.len() > MAX_RECENT_FILES as int - 1 {
        lemma_count_take(w, p, MAX_RECENT_FILES as int - 1);
    }
    assert(count_of(w9, p) == 0);
    lemma_count_prepend(w9, p, p);
    assert(count_of(touched, p) == 1);
    lemma_without_path_prepend(w9, p);
    lemma_without_path_id(w9, p);
    assert(without_path(touched, p) == w9);
    assert(recents_touch(touched, p) =~= touched);
}

/// Removing one path never adds occurrences of any other.
pub proof fn lemma_without_path_count_le(s: Seq<Seq<char>>, p: Seq<char>, q: Seq<char>)
    ensures
        count_of(without_path(s, p), q) <= count_of(s, q),
    decreases s.len(),
{
    if s.len() > 0 {
        lemma_without_path_count_le(s.drop_last(), p, q);
        let w = without_path(s.drop_last(), p);
        if s.last() != p {
            assert(w.push(s.last()).drop_last() =~= w);
            assert(w.push(s.last()).last() == s.last());
        }
    }
}

/// Touching preserves the registry's no-duplicates invariant: when no path
/// occurs twice, none does after a touch either.
pub proof fn lemma_touch_preserves_no_duplicates(s: Seq<Seq<char>>, p: Seq<char>)
    requires
        forall|q: Seq<char>| count_of(s, q) <= 1,
    ensures
        forall|q: Seq<char>| count_of(recents_touch(s, p), q) <= 1,
{
    let w = without_path(s, p);
    lemma_without_path_count(s, p);
    lemma_truncated_unfold(p, w, MAX_RECENT_FILES as int);
    let w9 = truncated(w, MAX_RECENT_FILES as int - 1);
    assert forall|q: Seq<char>| count_of(recents_touch(s, p), q) <= 1 by {
        lemma_count_prepend(w9, p, q);
        if w.len() > MAX_RECENT_FILES as int - 1 {
            lemma_count_take(w, q, MAX_RECENT_FILES as int - 1);
        }
        lemma_without_path_count_le(s, p, q);
    };
}

/// The list a run of touches leaves behind, first touch first.
pub open spec fn touch_all(s: Seq<Seq<char>>, ps: Seq<Seq<char>>) -> Seq<Seq<char>>
    decreases ps.len(),
{
    if ps.len() == 0 {
        s
    } else {
        touch_all(recents_touch(s, ps.first()), ps.drop_first())
    }
}

/// A run of touches can be peeled off at its end.
pub proof fn lemma_touch_all_snoc(s: Seq<Seq<char>>, ps: Seq<Seq<char>>, q: Seq<char>)
    ensures
        touch_all(s, ps.push(q)) == recents_touch(touch_all(s, ps), q),
    decreases ps.len(),
{
    if ps.len() == 0 {
        assert(ps.push(q).first() == q);
        assert(ps.push(q).drop_first() =~= Seq::<Seq<char>>::empty());
        assert(touch_all(recents_touch(s, q), Seq::<Seq<char>>::empty()) == recents_touch(s, q));
    } else {
        assert(ps.push(q).first() == ps.first());
        assert(ps.push(q).drop_first() =~= ps.drop_first().push(q));
        lemma_touch_all_snoc(recents_touch(s, ps.first()), ps.drop_first(), q);
    }
}

/// Touching pairwise-distinct paths, starting from an empty registry, leaves
/// the most recently touched paths, most-recent-first, cut to capacity: with
/// more than [`MAX_RECENT_FILES`] distinct touches, exactly the last
/// [`MAX_RECENT_FILES`] of them survive.
pub proof fn lemma_touch_all_distinct(ps: Seq<Seq<char>>)
    requires
        forall|i: int, j: int| 0 <= i < j < ps.len() ==> ps[i] != ps[j],
    ensures
        touch_all(Seq::empty(), ps) == truncated(ps.reverse(), MAX_RECENT_FILES as int),
    decreases ps.len(),
{
    if ps.len() == 0 {
        assert(ps.reverse() =~= Seq::<Seq<char>>::empty());
    } else {
        let ps0 = ps.drop_last();
        let q = ps.last();
        assert(ps =~= ps0.push(q));
        lemma_touch_all_distinct(ps0);
        lemma_touch_all_snoc(Seq::empty(), ps0, q);
        let rev0 = ps0.reverse();
        let cut0 = truncated(rev0, MAX_RECENT_FILES as int);
        assert(touch_all(Seq::empty(), ps) == recents_touch(cut0, q));
        assert(forall|i: int| 0 <= i < rev0.len() ==> rev0[i] != q);
        lemma_count_zero(rev0, q);
        if rev0.len() > MAX_RECENT_FILES as int {
            lemma_count_take(rev0, q, MAX_RECENT_FILES as int);
        }
        assert(count_of(cut0, q) == 0);
        lemma_without_path_id(cut0, q);
        assert(recents_touch(cut0, q) == truncated(seq![q] + cut0, MAX_RECENT_FILES as int));
        lemma_truncated_prepend(q, rev0, MAX_RECENT_FILES as int);
        assert(ps.reverse() =~= seq![q] + rev0);
    }
}

/// Reloading what an empty registry persisted yields an empty registry,
/// whatever the existence filter says: emptiness survives a restart.
pub proof fn lemma_reload_of_cleared(keep: Seq<bool>)
    ensures
        truncated(load_selection(Seq::empty(), keep), MAX_RECENT_FILES as int)
            == Seq::<Seq<char>>::empty(),
{
}

/// Parses a persisted recent-files entry.  Malformed or unreadable persisted
/// data degrades to an empty list rather than failing startup.
pub fn decode_recents(text: &str) -> (r: Vec<String>)
    ensures
        paths_of_json(text@) matches Some(ps) ==> r.deep_view() == ps,
        paths_of_json(text@) is None ==> r.deep_view() == Seq::<Seq<char>>::empty(),
{
    match from_json_text(text) {
        Option::Some(v) => v,
        Option::None => {
            let r: Vec<String> = Vec::new();
            proof {
                assert(r.deep_view() =~= Seq::<Seq<char>>::empty());
            }
            r
        },
    }
}

} // verus!
