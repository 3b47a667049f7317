//! The runtime's table of the workspaces it knows, by id.

use vstd::prelude::*;
use crate::storage::process::Workspace;
use crate::utils::text::text_eq;

verus! {

/// The map that results from registering `ws`, in order, in `m`, each
/// workspace under its id: a later workspace with an id replaces an earlier
/// one with the same id.
pub open spec fn registered(m: Map<Seq<char>, Workspace>, ws: Seq<Workspace>) -> Map<Seq<char>, Workspace>
    decreases ws.len(),
{
    if ws.len() == 0 {
        m
    } else {
        registered(m, ws.drop_last()).insert(ws.last().id@, ws.last())
    }
}

/// Registering a list keeps the keys that were there and adds the id of
/// every workspace of the list.
pub proof fn lemma_registered_keys(m: Map<Seq<char>, Workspace>, ws: Seq<Workspace>)
    ensures
        forall|k: Seq<char>| m.contains_key(k) ==> #[trigger] registered(m, ws).contains_key(k),
        forall|i: int| 0 <= i < ws.len() ==> registered(m, ws).contains_key(#[trigger] ws[i].id@),
    decreases ws.len(),
{
    if ws.len() > 0 {
        lemma_registered_keys(m, ws.drop_last());
        assert forall|k: Seq<char>| m.contains_key(k) implies #[trigger] registered(m, ws).contains_key(k) by {
            assert(registered(m, ws.drop_last()).contains_key(k));
        }
        assert forall|i: int| 0 <= i < ws.len() implies registered(m, ws).contains_key(
            #[trigger] ws[i].id@,
        ) by {
            if i < ws.len() - 1 {
                assert(ws.drop_last()[i] == ws[i]);
            }
        }
    }
}

/// A copy of a workspace record.
fn copy_workspace(w: &Workspace) -> (r: Workspace)
    ensures
        r == *w,
{
    Workspace {
        id: w.id.clone(),
        long_id: w.long_id.clone(),
        name: w.name.clone(),
        disk_path: w.disk_path.clone(),
        last_accessed: w.last_accessed,
    }
}

/// The workspaces the runtime knows, each under its id.
pub struct WorkspaceMap {
    entries: Vec<Workspace>,
}

impl View for WorkspaceMap {
    type V = Map<Seq<char>, Workspace>;

    closed spec fn view(&self) -> Map<Seq<char>, Workspace> {
        registered(Map::empty(), self.entries@)
    }
}

/// Whether two maps agree at `k`: both lack it, or both hold the same value.
spec fn agree_at(a: Map<Seq<char>, Workspace>, b: Map<Seq<char>, Workspace>, k: Seq<char>) -> bool {
    &&& a.contains_key(k) == b.contains_key(k)
    &&& a.contains_key(k) ==> a[k] == b[k]
}

impl WorkspaceMap {
    /// An empty map.
    pub fn new() -> (r: Self)
        ensures
            r@ == Map::<Seq<char>, Workspace>::empty(),
    {
        WorkspaceMap { entries: Vec::new() }
    }

    /// Registers `w` under its id, replacing any workspace with that id.
    pub fn insert(&mut self, w: Workspace)
        ensures
            final(self)@ == old(self)@.insert(w.id@, w),
    {
        self.entries.push(w);
        assert(self.entries@.drop_last() =~= old(self).entries@);
    }

    /// The workspace registered under `id`, if any.
    pub fn get(&self, id: &str) -> (r: Option<&Workspace>)
        ensures
            match r {
                Some(w) => self@.contains_key(id@) && *w == self@[id@],
                None => !self@.contains_key(id@),
            },
    {
        let ghost full = self.entries@;
        let mut j: usize = self.entries.len();
        assert(full.take(j as int) =~= full);
        while j > 0
            invariant
                full == self.entries@,
                0 <= j <= full.len(),
                agree_at(registered(Map::empty(), full), registered(Map::empty(), full.take(j as int)), id@),
            decreases j,
        {
            let ghost prefix = full.take(j as int);
            assert(prefix.drop_last() =~= full.take(j - 1));
            assert(prefix.last() == full[j - 1]);
            if text_eq(self.entries[j - 1].id.as_str(), id) {
                return Some(&self.entries[j - 1]);
            }
            j = j - 1;
        }
        None
    }
}

/// Registers each of `listed`, in order, in `known`.
pub(crate) fn register_all(known: &mut WorkspaceMap, listed: &Vec<Workspace>)
    ensures
        final(known)@ == registered(old(known)@, listed@),
{
    let n = listed.len();
    let mut i: usize = 0;
    while i < n
        invariant
            n == listed@.len(),
            0 <= i <= n,
            known@ == registered(old(known)@, listed@.take(i as int)),
        decreases n - i,
    {
        assert(listed@.take(i + 1).drop_last() =~= listed@.take(i as int));
        known.insert(copy_workspace(&listed[i]));
        i = i + 1;
    }
    assert(listed@.take(n as int) =~= listed@);
}

} // verus!
