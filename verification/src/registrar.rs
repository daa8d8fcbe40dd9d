//! The list of directories that is kept on the executable search path for
//! later sessions, and the one rule for adding to it: no directory twice.

use vstd::prelude::*;

verus! {

/// Why a directory is not on the search path of later sessions.
#[derive(Clone, Copy, Debug, PartialEq, Eq, Structural)]
pub enum RegistrarError {
    /// The registration could not be written to where it is kept.
    PersistFailed,
}

/// The entries after `dir` has been registered: `dir` is added at the end
/// unless it is an entry already.
pub open spec fn registered(entries: Seq<Seq<char>>, dir: Seq<char>) -> Seq<Seq<char>> {
    if entries.contains(dir) {
        entries
    } else {
        entries.push(dir)
    }
}

/// The entries after each of `dirs` has been registered in turn, starting
/// from none: each directory once, at the place of its first occurrence.
pub open spec fn collected(dirs: Seq<Seq<char>>) -> Seq<Seq<char>>
    decreases dirs.len(),
{
    if dirs.len() == 0 {
        Seq::empty()
    } else {
        registered(collected(dirs.drop_last()), dirs.last())
    }
}

/// How often `dir` occurs among `entries`.
pub open spec fn occurrences(entries: Seq<Seq<char>>, dir: Seq<char>) -> nat
    decreases entries.len(),
{
    if entries.len() == 0 {
        0
    } else {
        occurrences(entries.drop_last(), dir) + if entries.last() == dir {
            1nat
        } else {
            0nat
        }
    }
}

/// The texts of a list of strings.
pub open spec fn texts(strings: Seq<String>) -> Seq<Seq<char>> {
    strings.map_values(|s: String| s@)
}

/// The directories registered on the search path, in the order in which they
/// were registered.
#[derive(Debug)]
pub struct PathRegistry {
    entries: Vec<String>,
}

impl View for PathRegistry {
    type V = Seq<Seq<char>>;

    closed spec fn view(&self) -> Seq<Seq<char>> {
        texts(self.entries@)
    }
}

impl PathRegistry {
    /// No directory is registered twice.
    pub open spec fn wf(&self) -> bool {
        self@.no_duplicates()
    }

    /// A registry without entries.
    pub fn new() -> (r: PathRegistry)
        ensures
            r@ == Seq::<Seq<char>>::empty(),
            r.wf(),
    {
        let r = PathRegistry { entries: Vec::new() };
        assert(r@ =~= Seq::<Seq<char>>::empty());
        r
    }

    /// The registry that holds each of `dirs` once, in the order of their
    /// first occurrences.
    pub fn from_entries(dirs: &Vec<String>) -> (r: PathRegistry)
        ensures
            r@ == collected(texts(dirs@)),
            r.wf(),
    {
        let mut registry = PathRegistry::new();
        let mut i: usize = 0;
        while i < dirs.len()
            invariant
                i <= dirs.len(),
                registry.wf(),
                registry@ == collected(texts(dirs@).take(i as int)),
            decreases dirs.len() - i,
        {
            proof {
                let upto = texts(dirs@).take(i + 1);
                assert(upto.drop_last() =~= texts(dirs@).take(i as int));
                assert(upto.last() == dirs@[i as int]@);
            }
            registry.register(dirs[i].as_str());
            i += 1;
        }
        assert(texts(dirs@).take(i as int) =~= texts(dirs@));
        registry
    }

    /// The number of directories registered.
    pub fn len(&self) -> (n: usize)
        ensures
            n == self@.len(),
    {
        self.entries.len()
    }

    /// The directories registered, in order.
    pub fn entries(&self) -> (r: &Vec<String>)
        ensures
            texts(r@) == self@,
    {
        &self.entries
    }

    /// Whether `dir` is registered.
    pub fn contains(&self, dir: &str) -> (found: bool)
        ensures
            found == self@.contains(dir@),
    {
        let wanted = dir.to_owned();
        let mut i: usize = 0;
        while i < self.entries.len()
            invariant
                i <= self.entries.len(),
                wanted@ == dir@,
                forall|k: int| 0 <= k < i ==> self@[k] != dir@,
            decreases self.entries.len() - i,
        {
            if self.entries[i] == wanted {
                assert(self@[i as int] == dir@);
                return true;
            }
            i += 1;
        }
        false
    }

    /// Registers `dir`, and says whether it was added; it is not if it was
    /// registered before.
    pub fn register(&mut self, dir: &str) -> (added: bool)
        requires
            old(self).wf(),
        ensures
            final(self).wf(),
            final(self)@ == registered(old(self)@, dir@),
            final(self)@.contains(dir@),
            added == !old(self)@.contains(dir@),
    {
        if self.contains(dir) {
            false
        } else {
            let entry = dir.to_owned();
            self.entries.push(entry);
            assert(self@ =~= old(self)@.push(dir@));
            assert(self@[old(self)@.len() as int] == dir@);
            true
        }
    }
}

proof fn lemma_occurrences_absent(entries: Seq<Seq<char>>, dir: Seq<char>)
    requires
        !entries.contains(dir),
    ensures
        occurrences(entries, dir) == 0,
    decreases entries.len(),
{
    if entries.len() > 0 {
        assert(entries.last() == entries[entries.len() - 1]);
        assert forall|k: int| 0 <= k < entries.drop_last().len() implies entries.drop_last()[k]
            != dir by {
            assert(entries.drop_last()[k] == entries[k]);
        }
        lemma_occurrences_absent(entries.drop_last(), dir);
    }
}

proof fn lemma_occurrences_distinct(entries: Seq<Seq<char>>, dir: Seq<char>)
    requires
        entries.no_duplicates(),
        entries.contains(dir),
    ensures
        occurrences(entries, dir) == 1,
    decreases entries.len(),
{
    let front = entries.drop_last();
    let at = choose|k: int| 0 <= k < entries.len() && entries[k] == dir;
    assert forall|a: int, b: int| 0 <= a < front.len() && 0 <= b < front.len() && a != b implies front[a]
        != front[b] by {
        assert(front[a] == entries[a] && front[b] == entries[b]);
    }
    if entries.last() == dir {
        assert forall|k: int| 0 <= k < front.len() implies front[k] != dir by {
            assert(front[k] == entries[k]);
        }
        lemma_occurrences_absent(front, dir);
    } else {
        assert(front[at] == dir);
        lemma_occurrences_distinct(front, dir);
    }
}

/// Registering a directory a second time changes nothing.
pub proof fn law_register_is_idempotent(entries: Seq<Seq<char>>, dir: Seq<char>)
    ensures
        registered(registered(entries, dir), dir) == registered(entries, dir),
{
    let once = registered(entries, dir);
    if !entries.contains(dir) {
        assert(once[entries.len() as int] == dir);
    }
}

/// After a directory has been registered twice it is an entry exactly once,
/// and no entry has become a duplicate.
pub proof fn law_registered_twice_is_one_entry(entries: Seq<Seq<char>>, dir: Seq<char>)
    requires
        entries.no_duplicates(),
    ensures
        registered(registered(entries, dir), dir).no_duplicates(),
        occurrences(registered(registered(entries, dir), dir), dir) == 1,
{
    law_register_is_idempotent(entries, dir);
    let once = registered(entries, dir);
    if !entries.contains(dir) {
        assert(once[entries.len() as int] == dir);
    }
    assert(once.contains(dir));
    lemma_occurrences_distinct(once, dir);
}

} // verus!
