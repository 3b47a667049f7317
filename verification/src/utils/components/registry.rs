//! The registry of interactive components: each registered component has a
//! unique random id and belongs to a window.

use vstd::prelude::*;
use crate::subsystems::events::{random_safe_id, url_safe_char};
use crate::utils::text::text_eq;

verus! {

/// A registered component: its id and the window it belongs to.
#[derive(Debug)]
pub struct ComponentRegistration {
    pub component_id: String,
    pub window_id: u64,
}

impl Clone for ComponentRegistration {
    fn clone(&self) -> (r: Self)
        ensures
            r == *self,
    {
        ComponentRegistration { component_id: self.component_id.clone(), window_id: self.window_id }
    }
}

impl ComponentRegistration {
    /// A registration of a component of a window, under a fresh random
    /// 21-character id.
    pub fn new(window_id: u64) -> (r: Self)
        ensures
            r.component_id@.len() == 21,
            forall|i: int| 0 <= i < 21 ==> url_safe_char(#[trigger] r.component_id@[i]),
            r.window_id == window_id,
    {
        ComponentRegistration { component_id: random_safe_id(21), window_id }
    }
}

/// The components registered so far.
#[derive(Debug)]
pub struct ComponentRegistry {
    registry: Vec<ComponentRegistration>,
}

/// No two registrations share an id.
pub open spec fn unique_ids(s: Seq<ComponentRegistration>) -> bool {
    forall|i: int, j: int|
        0 <= i < s.len() && 0 <= j < s.len() && i != j ==> #[trigger] s[i].component_id@
            != #[trigger] s[j].component_id@
}

/// Some registration has this id.
pub open spec fn has_id(s: Seq<ComponentRegistration>, k: Seq<char>) -> bool {
    exists|i: int| 0 <= i < s.len() && #[trigger] s[i].component_id@ == k
}

/// The registrations as a map from id to window.
pub open spec fn registry_map(s: Seq<ComponentRegistration>) -> Map<Seq<char>, u64> {
    Map::new(
        |k: Seq<char>| has_id(s, k),
        |k: Seq<char>|
            s[choose|i: int| 0 <= i < s.len() && #[trigger] s[i].component_id@ == k].window_id,
    )
}

/// With unique ids, the window of an id is that of the registration
/// holding it.
proof fn lemma_map_at(s: Seq<ComponentRegistration>, i: int)
    requires
        unique_ids(s),
        0 <= i < s.len(),
    ensures
        registry_map(s).contains_key(s[i].component_id@),
        registry_map(s)[s[i].component_id@] == s[i].window_id,
{
    let k = s[i].component_id@;
    assert(has_id(s, k));
    let j = choose|j: int| 0 <= j < s.len() && #[trigger] s[j].component_id@ == k;
    assert(j == i);
}

/// Adding a registration with a fresh id adds it to the map.
proof fn lemma_map_push(s: Seq<ComponentRegistration>, e: ComponentRegistration)
    requires
        unique_ids(s),
        !has_id(s, e.component_id@),
    ensures
        unique_ids(s.push(e)),
        registry_map(s.push(e)) == registry_map(s).insert(e.component_id@, e.window_id),
{
    let t = s.push(e);
    assert forall|i: int, j: int|
        0 <= i < t.len() && 0 <= j < t.len() && i != j implies #[trigger] t[i].component_id@
            != #[trigger] t[j].component_id@ by {
        if i == s.len() {
            assert(!(s[j].component_id@ == e.component_id@));
        } else if j == s.len() {
            assert(!(s[i].component_id@ == e.component_id@));
        }
    }
    let m = registry_map(s).insert(e.component_id@, e.window_id);
    assert forall|k: Seq<char>| #[trigger] registry_map(t).contains_key(k) <==> m.contains_key(k) by {
        if has_id(s, k) {
            let i = choose|i: int| 0 <= i < s.len() && #[trigger] s[i].component_id@ == k;
            assert(t[i].component_id@ == k);
        }
        if has_id(t, k) {
            let i = choose|i: int| 0 <= i < t.len() && #[trigger] t[i].component_id@ == k;
            if i < s.len() {
                assert(s[i].component_id@ == k);
            }
        }
        if k == e.component_id@ {
            assert(t[s.len() as int].component_id@ == k);
        }
    }
    assert forall|k: Seq<char>| #[trigger] m.contains_key(k) implies registry_map(t)[k] == m[k] by {
        assert(registry_map(t).contains_key(k));
        let i = choose|i: int| 0 <= i < t.len() && #[trigger] t[i].component_id@ == k;
        lemma_map_at(t, i);
        if i < s.len() {
            lemma_map_at(s, i);
        }
    }
    assert(registry_map(t) =~= m);
}

/// Removing the registration at `i` removes its id from the map.
proof fn lemma_map_remove(s: Seq<ComponentRegistration>, i: int)
    requires
        unique_ids(s),
        0 <= i < s.len(),
    ensures
        unique_ids(s.remove(i)),
        registry_map(s.remove(i)) == registry_map(s).remove(s[i].component_id@),
{
    let t = s.remove(i);
    let key = s[i].component_id@;
    assert forall|a: int, b: int|
        0 <= a < t.len() && 0 <= b < t.len() && a != b implies #[trigger] t[a].component_id@
            != #[trigger] t[b].component_id@ by {
        let a2 = if a < i { a } else { a + 1 };
        let b2 = if b < i { b } else { b + 1 };
        assert(t[a] == s[a2]);
        assert(t[b] == s[b2]);
    }
    let m = registry_map(s).remove(key);
    assert forall|k: Seq<char>| #[trigger] registry_map(t).contains_key(k) <==> m.contains_key(k) by {
        if has_id(t, k) {
            let a = choose|a: int| 0 <= a < t.len() && #[trigger] t[a].component_id@ == k;
            let a2 = if a < i { a } else { a + 1 };
            assert(t[a] == s[a2]);
            assert(s[a2].component_id@ == k);
        }
        if has_id(s, k) && k != key {
            let a = choose|a: int| 0 <= a < s.len() && #[trigger] s[a].component_id@ == k;
            assert(a != i);
            let a2 = if a < i { a } else { a - 1 };
            assert(t[a2] == s[a]);
            assert(t[a2].component_id@ == k);
        }
    }
    assert forall|k: Seq<char>| #[trigger] m.contains_key(k) implies registry_map(t)[k] == m[k] by {
        assert(registry_map(t).contains_key(k));
        let a = choose|a: int| 0 <= a < t.len() && #[trigger] t[a].component_id@ == k;
        let a2 = if a < i { a } else { a + 1 };
        assert(t[a] == s[a2]);
        lemma_map_at(t, a);
        lemma_map_at(s, a2);
    }
    assert(registry_map(t) =~= m);
}

impl View for ComponentRegistry {
    type V = Map<Seq<char>, u64>;

    closed spec fn view(&self) -> Map<Seq<char>, u64> {
        registry_map(self.registry@)
    }
}

impl ComponentRegistry {
    /// The registry is well formed: no two registrations share an id.
    pub closed spec fn inv(&self) -> bool {
        unique_ids(self.registry@)
    }

    fn find(&self, id: &str) -> (r: Option<usize>)
        requires
            self.inv(),
        ensures
            match r {
                Some(i) => i < self.registry@.len() && self.registry@[i as int].component_id@ == id@,
                None => !has_id(self.registry@, id@),
            },
    {
        let n = self.registry.len();
        let mut i: usize = 0;
        while i < n
            invariant
                n == self.registry@.len(),
                0 <= i <= n,
                forall|j: int| 0 <= j < i ==> #[trigger] self.registry@[j].component_id@ != id@,
            decreases n - i,
        {
            if text_eq(self.registry[i].component_id.as_str(), id) {
                return Some(i);
            }
            i = i + 1;
        }
        None
    }

    /// An empty registry.
    pub fn new() -> (r: Self)
        ensures
            r.inv(),
            r@ == Map::<Seq<char>, u64>::empty(),
    {
        let r = ComponentRegistry { registry: Vec::new() };
        assert(r@ =~= Map::<Seq<char>, u64>::empty());
        r
    }

    /// Registers `reg` under its id: it is added and handed back when no
    /// registration has that id yet; otherwise nothing changes and the
    /// result is `None`.
    pub fn register_with(&mut self, reg: ComponentRegistration) -> (r: Option<ComponentRegistration>)
        requires
            old(self).inv(),
        ensures
            final(self).inv(),
            match r {
                Some(x) => {
                    &&& x == reg
                    &&& !old(self)@.contains_key(reg.component_id@)
                    &&& final(self)@ == old(self)@.insert(reg.component_id@, reg.window_id)
                },
                None => {
                    &&& old(self)@.contains_key(reg.component_id@)
                    &&& final(self)@ == old(self)@
                },
            },
    {
        match self.find(reg.component_id.as_str()) {
            Some(i) => {
                proof {
                    lemma_map_at(self.registry@, i as int);
                }
                None
            },
            None => {
                let ghost before = self.registry@;
                proof {
                    lemma_map_push(before, reg);
                }
                self.registry.push(reg.clone());
                Some(reg)
            },
        }
    }

    /// Registers a component of a window under a fresh random 21-character
    /// id of the URL-safe alphabet (see `register_with`). `None`, with
    /// nothing registered, when the drawn id is already taken; so a registry
    /// holding no such id always accepts.
    pub fn register(&mut self, window_id: u64) -> (r: Option<ComponentRegistration>)
        requires
            old(self).inv(),
        ensures
            final(self).inv(),
            match r {
                Some(reg) => {
                    &&& reg.component_id@.len() == 21
                    &&& forall|i: int| 0 <= i < 21 ==> url_safe_char(#[trigger] reg.component_id@[i])
                    &&& reg.window_id == window_id
                    &&& !old(self)@.contains_key(reg.component_id@)
                    &&& final(self)@ == old(self)@.insert(reg.component_id@, window_id)
                },
                None => {
                    &&& final(self)@ == old(self)@
                    &&& exists|k: Seq<char>| #[trigger] old(self)@.contains_key(k) && k.len() == 21
                },
            },
    {
        let registration = ComponentRegistration::new(window_id);
        let r = self.register_with(registration);
        proof {
            if r is None {
                assert(old(self)@.contains_key(registration.component_id@));
            }
        }
        r
    }

    /// Removes the registration with this id and returns it; `None` when
    /// there is none.
    pub fn deregister(&mut self, id: &str) -> (r: Option<ComponentRegistration>)
        requires
            old(self).inv(),
        ensures
            final(self).inv(),
            final(self)@ == old(self)@.remove(id@),
            match r {
                Some(reg) => {
                    &&& old(self)@.contains_key(id@)
                    &&& reg.component_id@ == id@
                    &&& reg.window_id == old(self)@[id@]
                },
                None => !old(self)@.contains_key(id@),
            },
    {
        match self.find(id) {
            Some(i) => {
                let ghost before = self.registry@;
                proof {
                    lemma_map_at(before, i as int);
                    lemma_map_remove(before, i as int);
                }
                let reg = self.registry.remove(i);
                Some(reg)
            },
            None => {
                assert(self@ =~= self@.remove(id@));
                None
            },
        }
    }

    /// The registration with this id; `None` when there is none.
    pub fn get(&self, id: &str) -> (r: Option<ComponentRegistration>)
        requires
            self.inv(),
        ensures
            match r {
                Some(reg) => self@.contains_key(id@) && reg.component_id@ == id@ && reg.window_id
                    == self@[id@],
                None => !self@.contains_key(id@),
            },
    {
        match self.find(id) {
            Some(i) => {
                proof {
                    lemma_map_at(self.registry@, i as int);
                }
                Some(self.registry[i].clone())
            },
            None => None,
        }
    }

    /// The registration with this id, as `get` finds it; the registry is
    /// not changed.
    pub fn get_mut(&mut self, id: &str) -> (r: Option<ComponentRegistration>)
        requires
            old(self).inv(),
        ensures
            *final(self) == *old(self),
            match r {
                Some(reg) => old(self)@.contains_key(id@) && reg.component_id@ == id@ && reg.window_id
                    == old(self)@[id@],
                None => !old(self)@.contains_key(id@),
            },
    {
        self.get(id)
    }
}

/// What is registered is found: a component registered under an id is
/// found under it, with its window, until that id is deregistered; after
/// that it is not found, and the other ids keep their windows.
pub proof fn lemma_register_then_get(
    m: Map<Seq<char>, u64>,
    id: Seq<char>,
    window_id: u64,
    other: Seq<char>,
)
    requires
        other != id,
    ensures
        m.insert(id, window_id).contains_key(id),
        m.insert(id, window_id)[id] == window_id,
        !m.insert(id, window_id).remove(id).contains_key(id),
        m.insert(id, window_id).contains_key(other) == m.contains_key(other),
        m.contains_key(other) ==> m.insert(id, window_id)[other] == m[other],
{
}

} // verus!
