use vstd::prelude::*;
use crate::imports::opt_view;

verus! {

/// One entry of a directory listing: its base name, and whether it is a
/// directory (after following links).
pub struct DirEntryInfo {
    pub name: String,
    pub is_dir: bool,
}

/// The position of the last `.` in `s`, or -1 where there is none.
pub open spec fn last_dot(s: Seq<char>) -> int
    decreases s.len(),
{
    if s.len() == 0 {
        -1
    } else if s.last() == '.' {
        s.len() - 1
    } else {
        last_dot(s.drop_last())
    }
}

/// The extension of a file name: what follows its last `.`, where that dot
/// is not the name's first character.
pub open spec fn extension_of(name: Seq<char>) -> Option<Seq<char>> {
    let i = last_dot(name);
    if i <= 0 {
        None
    } else {
        Some(name.subrange(i + 1, name.len() as int))
    }
}

/// A file named `name` is wanted when its extension is exactly one of `extensions`.
pub open spec fn wanted_file(name: Seq<char>, extensions: Seq<Seq<char>>) -> bool {
    match extension_of(name) {
        Some(e) => extensions.contains(e),
        None => false,
    }
}

/// No component of the path is an excluded directory name.
pub open spec fn excluded_free(path: Seq<Seq<char>>, excluded: Seq<Seq<char>>) -> bool {
    forall|i: int| 0 <= i < path.len() ==> !excluded.contains(#[trigger] path[i])
}

pub open spec fn names_view(v: Seq<String>) -> Seq<Seq<char>> {
    v.map_values(|s: String| s@)
}

pub open spec fn paths_view(v: Seq<Vec<String>>) -> Seq<Seq<Seq<char>>> {
    v.map_values(|p: Vec<String>| names_view(p@))
}

/// The files of a listing of `dir` that discovery keeps, in listing order.
pub open spec fn files_in(dir: Seq<Seq<char>>, entries: Seq<DirEntryInfo>, extensions: Seq<Seq<char>>) -> Seq<Seq<Seq<char>>>
    decreases entries.len(),
{
    if entries.len() == 0 {
        Seq::empty()
    } else {
        let e = entries.last();
        let rest = files_in(dir, entries.drop_last(), extensions);
        if !e.is_dir && wanted_file(e.name@, extensions) {
            rest.push(dir.push(e.name@))
        } else {
            rest
        }
    }
}

/// The subdirectories of a listing of `dir` that discovery descends into,
/// in listing order.
pub open spec fn dirs_in(dir: Seq<Seq<char>>, entries: Seq<DirEntryInfo>, excluded: Seq<Seq<char>>) -> Seq<Seq<Seq<char>>>
    decreases entries.len(),
{
    if entries.len() == 0 {
        Seq::empty()
    } else {
        let e = entries.last();
        let rest = dirs_in(dir, entries.drop_last(), excluded);
        if e.is_dir && !excluded.contains(e.name@) {
            rest.push(dir.push(e.name@))
        } else {
            rest
        }
    }
}

proof fn lemma_last_dot(s: Seq<char>)
    ensures
        -1 <= last_dot(s) < s.len(),
        last_dot(s) >= 0 ==> s[last_dot(s)] == '.',
        forall|j: int| last_dot(s) < j < s.len() ==> s[j] != '.',
    decreases s.len(),
{
    if s.len() > 0 {
        lemma_last_dot(s.drop_last());
        assert forall|j: int| 0 <= j < s.len() - 1 implies s.drop_last()[j] == s[j] by {}
    }
}

/// The extension of a file name, as `Path::extension` gives it for a name
/// that is neither `.` nor `..`.
pub fn extension(name: &str) -> (r: Option<String>)
    ensures
        opt_view(r) == extension_of(name@),
{
    let n = name.unicode_len();
    let mut i: usize = n;
    while i > 0 && name.get_char(i - 1) != '.'
        invariant
            i <= n,
            n == name@.len(),
            forall|j: int| i <= j < n ==> name@[j] != '.',
        decreases i,
    {
        i = i - 1;
    }
    proof {
        lemma_last_dot(name@);
    }
    if i <= 1 {
        assert(last_dot(name@) <= 0);
        None
    } else {
        assert(last_dot(name@) == i - 1);
        Some(String::from_str(name.substring_char(i, n)))
    }
}

/// Whether `needle` is one of `names`.
pub fn contains_name(names: &Vec<String>, needle: &String) -> (r: bool)
    ensures
        r == names_view(names@).contains(needle@),
{
    let mut i: usize = 0;
    while i < names.len()
        invariant
            i <= names@.len(),
            forall|j: int| 0 <= j < i ==> names@[j]@ != needle@,
        decreases names@.len() - i,
    {
        if names[i] == *needle {
            assert(names_view(names@)[i as int] == needle@);
            return true;
        }
        i = i + 1;
    }
    assert(!names_view(names@).contains(needle@)) by {
        if names_view(names@).contains(needle@) {
            let j = choose|j: int| 0 <= j < names_view(names@).len() && names_view(names@)[j] == needle@;
            assert(names@[j]@ == needle@);
        }
    }
    false
}

/// Whether a file named `name` has one of `extensions`, exactly.
pub fn is_wanted_file(name: &str, extensions: &Vec<String>) -> (r: bool)
    ensures
        r == wanted_file(name@, names_view(extensions@)),
{
    match extension(name) {
        Some(e) => contains_name(extensions, &e),
        None => false,
    }
}

fn clone_path(p: &Vec<String>) -> (r: Vec<String>)
    ensures
        names_view(r@) == names_view(p@),
{
    let mut out: Vec<String> = Vec::new();
    let mut i: usize = 0;
    while i < p.len()
        invariant
            i <= p@.len(),
            out@.len() == i,
            forall|j: int| 0 <= j < i ==> #[trigger] out@[j]@ == p@[j]@,
        decreases p@.len() - i,
    {
        out.push(p[i].clone());
        i = i + 1;
    }
    assert(names_view(out@) =~= names_view(p@));
    out
}

/// A depth-first walk of a directory tree, driven by whoever can list
/// directories. Paths are sequences of base names below the root.
pub struct FileDiscovery {
    extensions: Vec<String>,
    excluded: Vec<String>,
    pending: Vec<Vec<String>>,
    found: Vec<Vec<String>>,
}

impl FileDiscovery {
    pub closed spec fn spec_extensions(&self) -> Seq<Seq<char>> {
        names_view(self.extensions@)
    }

    pub closed spec fn spec_excluded(&self) -> Seq<Seq<char>> {
        names_view(self.excluded@)
    }

    /// The directories still to be listed; the last is listed next.
    pub closed spec fn spec_pending(&self) -> Seq<Seq<Seq<char>>> {
        paths_view(self.pending@)
    }

    /// The files found so far, in the order they were found.
    pub closed spec fn spec_found(&self) -> Seq<Seq<Seq<char>>> {
        paths_view(self.found@)
    }

    /// No pending directory lies below an excluded one, and every file found
    /// lies below none and has a wanted extension.
    pub open spec fn wf(&self) -> bool {
        &&& forall|i: int|
            0 <= i < self.spec_pending().len() ==> excluded_free(
                #[trigger] self.spec_pending()[i],
                self.spec_excluded(),
            )
        &&& forall|i: int|
            0 <= i < self.spec_found().len() ==> {
                let f = #[trigger] self.spec_found()[i];
                &&& f.len() > 0
                &&& excluded_free(f.drop_last(), self.spec_excluded())
                &&& wanted_file(f.last(), self.spec_extensions())
            }
    }

    /// A walk that has only the root left to list.
    pub fn new(extensions: Vec<String>, excluded: Vec<String>) -> (r: FileDiscovery)
        ensures
            r.wf(),
            r.spec_extensions() == names_view(extensions@),
            r.spec_excluded() == names_view(excluded@),
            r.spec_pending() == seq![Seq::<Seq<char>>::empty()],
            r.spec_found() == Seq::<Seq<Seq<char>>>::empty(),
    {
        let mut pending: Vec<Vec<String>> = Vec::new();
        pending.push(Vec::new());
        let r = FileDiscovery { extensions, excluded, pending, found: Vec::new() };
        assert(names_view(r.pending@[0]@) =~= Seq::<Seq<char>>::empty());
        assert(r.spec_pending() =~= seq![Seq::<Seq<char>>::empty()]);
        assert(r.spec_found() =~= Seq::<Seq<Seq<char>>>::empty());
        r
    }

    /// Takes the next directory to list, the one pushed last; `None` when the
    /// walk is over.
    pub fn next_directory(&mut self) -> (r: Option<Vec<String>>)
        requires
            old(self).wf(),
        ensures
            final(self).wf(),
            final(self).spec_extensions() == old(self).spec_extensions(),
            final(self).spec_excluded() == old(self).spec_excluded(),
            final(self).spec_found() == old(self).spec_found(),
            old(self).spec_pending().len() == 0 ==> r is None && final(self).spec_pending() == old(
                self,
            ).spec_pending(),
            old(self).spec_pending().len() > 0 ==> (r matches Some(d) && names_view(d@) == old(
                self,
            ).spec_pending().last() && final(self).spec_pending() == old(
                self,
            ).spec_pending().drop_last()),
            r matches Some(d) ==> excluded_free(names_view(d@), final(self).spec_excluded()),
    {
        let r = self.pending.pop();
        proof {
            if old(self).spec_pending().len() > 0 {
                assert(self.spec_pending() =~= old(self).spec_pending().drop_last());
                let last = old(self).spec_pending().len() - 1;
                assert(excluded_free(old(self).spec_pending()[last], self.spec_excluded()));
                assert forall|i: int| 0 <= i < self.spec_pending().len() implies excluded_free(
                    #[trigger] self.spec_pending()[i],
                    self.spec_excluded(),
                ) by {
                    assert(self.spec_pending()[i] == old(self).spec_pending()[i]);
                }
            } else {
                assert(self.spec_pending() =~= old(self).spec_pending());
            }
            assert(self.spec_found() == old(self).spec_found());
            assert(self.spec_excluded() == old(self).spec_excluded());
            assert(self.spec_extensions() == old(self).spec_extensions());
        }
        r
    }

    /// Records the listing of `dir`: wanted files are found, and
    /// subdirectories whose name is not excluded are to be listed, both in
    /// listing order.
    pub fn record_entries(&mut self, dir: &Vec<String>, entries: &Vec<DirEntryInfo>)
        requires
            old(self).wf(),
            excluded_free(names_view(dir@), old(self).spec_excluded()),
        ensures
            final(self).wf(),
            final(self).spec_extensions() == old(self).spec_extensions(),
            final(self).spec_excluded() == old(self).spec_excluded(),
            final(self).spec_found() == old(self).spec_found() + files_in(
                names_view(dir@),
                entries@,
                old(self).spec_extensions(),
            ),
            final(self).spec_pending() == old(self).spec_pending() + dirs_in(
                names_view(dir@),
                entries@,
                old(self).spec_excluded(),
            ),
    {
        let ghost d = names_view(dir@);
        let ghost found0 = self.spec_found();
        let ghost pending0 = self.spec_pending();
        let mut i: usize = 0;
        assert(entries@.take(0) =~= Seq::<DirEntryInfo>::empty());
        assert(found0 + Seq::<Seq<Seq<char>>>::empty() =~= found0);
        assert(pending0 + Seq::<Seq<Seq<char>>>::empty() =~= pending0);
        while i < entries.len()
            invariant
                i <= entries@.len(),
                self.wf(),
                excluded_free(d, self.spec_excluded()),
                d == names_view(dir@),
                self.spec_extensions() == old(self).spec_extensions(),
                self.spec_excluded() == old(self).spec_excluded(),
                self.spec_found() == found0 + files_in(d, entries@.take(i as int), self.spec_extensions()),
                self.spec_pending() == pending0 + dirs_in(d, entries@.take(i as int), self.spec_excluded()),
            decreases entries@.len() - i,
        {
            let e = &entries[i];
            let ghost f_before = self.spec_found();
            let ghost p_before = self.spec_pending();
            assert(entries@.take(i + 1).drop_last() =~= entries@.take(i as int));
            assert(entries@.take(i + 1).last() == *e);
            if e.is_dir {
                if !contains_name(&self.excluded, &e.name) {
                    let mut child = clone_path(dir);
                    child.push(e.name.clone());
                    assert(names_view(child@) =~= d.push(e.name@));
                    self.pending.push(child);
                    assert(self.spec_pending() =~= p_before.push(d.push(e.name@)));
                    assert(self.spec_found() =~= f_before);
                    assert(excluded_free(d.push(e.name@), self.spec_excluded()));
                }
            } else if is_wanted_file(e.name.as_str(), &self.extensions) {
                let mut child = clone_path(dir);
                child.push(e.name.clone());
                assert(names_view(child@) =~= d.push(e.name@));
                self.found.push(child);
                assert(self.spec_found() =~= f_before.push(d.push(e.name@)));
                assert(self.spec_pending() =~= p_before);
                assert(d.push(e.name@).drop_last() =~= d);
            }
            i = i + 1;
        }
        assert(entries@.take(entries@.len() as int) =~= entries@);
    }

    /// The files found so far, each below no excluded directory and with a
    /// wanted extension.
    pub fn found_paths(&self) -> (r: &Vec<Vec<String>>)
        requires
            self.wf(),
        ensures
            paths_view(r@) == self.spec_found(),
            forall|i: int|
                0 <= i < r@.len() ==> {
                    let f = #[trigger] paths_view(r@)[i];
                    &&& f.len() > 0
                    &&& excluded_free(f.drop_last(), self.spec_excluded())
                    &&& wanted_file(f.last(), self.spec_extensions())
                },
    {
        assert forall|i: int| 0 <= i < self.found@.len() implies #[trigger] paths_view(self.found@)[i]
            == self.spec_found()[i] by {}
        &self.found
    }
}

/// Discovery is deterministic: the same listing of the same directory, under
/// the same extensions and excluded names, adds the same files and the same
/// directories to list.
pub proof fn lemma_discovery_deterministic(
    dir: Seq<Seq<char>>,
    a: Seq<DirEntryInfo>,
    b: Seq<DirEntryInfo>,
    extensions: Seq<Seq<char>>,
    excluded: Seq<Seq<char>>,
)
    requires
        a.len() == b.len(),
        forall|i: int| 0 <= i < a.len() ==> a[i].name@ == b[i].name@ && a[i].is_dir == b[i].is_dir,
    ensures
        files_in(dir, a, extensions) == files_in(dir, b, extensions),
        dirs_in(dir, a, excluded) == dirs_in(dir, b, excluded),
    decreases a.len(),
{
    if a.len() > 0 {
        lemma_discovery_deterministic(dir, a.drop_last(), b.drop_last(), extensions, excluded);
    }
}

} // verus!
