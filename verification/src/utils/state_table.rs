//! A table of named values kept in the order of their names, as the debug
//! and build information screens list them.

use vstd::prelude::*;

verus! {

/// The order of texts that `String`'s ordering gives: its UTF-8 bytes
/// compared in turn, which orders texts as their code points compared in
/// turn do; a proper prefix comes first.
pub open spec fn text_lt(a: Seq<char>, b: Seq<char>) -> bool
    decreases a.len(),
{
    if a.len() == 0 {
        b.len() > 0
    } else if b.len() == 0 {
        false
    } else if a[0] != b[0] {
        a[0] < b[0]
    } else {
        text_lt(a.drop_first(), b.drop_first())
    }
}

/// No text comes before itself.
pub proof fn lemma_text_lt_irreflexive(a: Seq<char>)
    ensures
        !text_lt(a, a),
    decreases a.len(),
{
    if a.len() > 0 {
        lemma_text_lt_irreflexive(a.drop_first());
    }
}

/// Of two different texts, one comes before the other, and not both.
pub proof fn lemma_text_lt_total(a: Seq<char>, b: Seq<char>)
    ensures
        a != b ==> (text_lt(a, b) || text_lt(b, a)),
        !(text_lt(a, b) && text_lt(b, a)),
    decreases a.len(),
{
    if a.len() > 0 && b.len() > 0 {
        lemma_text_lt_total(a.drop_first(), b.drop_first());
        if a[0] == b[0] && a.drop_first() == b.drop_first() {
            assert forall|i: int| 0 <= i < a.len() implies a[i] == b[i] by {
                if i > 0 {
                    assert(a[i] == a.drop_first()[i - 1]);
                    assert(b[i] == b.drop_first()[i - 1]);
                }
            }
            assert(a =~= b);
        }
    } else if a.len() == 0 && b.len() == 0 {
        assert(a =~= b);
    }
}

/// The order is transitive.
pub proof fn lemma_text_lt_transitive(a: Seq<char>, b: Seq<char>, c: Seq<char>)
    requires
        text_lt(a, b),
        text_lt(b, c),
    ensures
        text_lt(a, c),
    decreases a.len(),
{
    if a.len() > 0 && b.len() > 0 && c.len() > 0 && a[0] == b[0] && b[0] == c[0] {
        lemma_text_lt_transitive(a.drop_first(), b.drop_first(), c.drop_first());
    }
}

/// Compares two texts in the order of `text_lt`.
pub fn text_less(a: &str, b: &str) -> (r: bool)
    ensures
        r == text_lt(a@, b@),
{
    let x = crate::utils::text::chars_of(a);
    let y = crate::utils::text::chars_of(b);
    let n = x.len();
    let m = y.len();
    let mut i: usize = 0;
    assert(a@.skip(0) =~= a@);
    assert(b@.skip(0) =~= b@);
    while i < n && i < m
        invariant
            x@ == a@,
            y@ == b@,
            n == x@.len(),
            m == y@.len(),
            0 <= i <= n,
            i <= m,
            text_lt(a@, b@) == text_lt(a@.skip(i as int), b@.skip(i as int)),
        decreases n - i,
    {
        if x[i] != y[i] {
            return x[i] < y[i];
        }
        assert(a@.skip(i as int).drop_first() =~= a@.skip(i + 1));
        assert(b@.skip(i as int).drop_first() =~= b@.skip(i + 1));
        i = i + 1;
    }
    i == n && i < m
}

/// The names of rows, in order.
pub open spec fn keys_sorted(rows: Seq<(String, String)>) -> bool {
    forall|i: int, j: int| 0 <= i < j < rows.len() ==> text_lt(#[trigger] rows[i].0@, #[trigger] rows[j].0@)
}

/// The rows as plain pairs.
pub open spec fn rows_view(rows: Seq<(String, String)>) -> Seq<(Seq<char>, Seq<char>)> {
    rows.map_values(|r: (String, String)| (r.0@, r.1@))
}

/// `new_rows` is `rows` with the name `key` set to `value`, where `p` is
/// the first row whose name does not come before `key`: that row takes the
/// value when it has the name, and otherwise the new row goes in before it
/// (or last, when there is no such row).
pub open spec fn placed_at(
    rows: Seq<(Seq<char>, Seq<char>)>,
    new_rows: Seq<(Seq<char>, Seq<char>)>,
    key: Seq<char>,
    value: Seq<char>,
    p: int,
) -> bool {
    &&& 0 <= p <= rows.len()
    &&& forall|j: int| 0 <= j < p ==> text_lt(#[trigger] rows[j].0, key)
    &&& if p < rows.len() && rows[p].0 == key {
        new_rows == rows.update(p, (key, value))
    } else {
        &&& p < rows.len() ==> text_lt(key, rows[p].0)
        &&& new_rows == rows.insert(p, (key, value))
    }
}

/// Named values, kept in the order of their names, each name once.
#[derive(Debug)]
pub struct StateTable {
    rows: Vec<(String, String)>,
}

impl StateTable {
    /// The rows, in the order of their names.
    pub closed spec fn spec_rows(&self) -> Seq<(Seq<char>, Seq<char>)> {
        rows_view(self.rows@)
    }

    /// The table is well formed: its names are strictly increasing.
    pub closed spec fn inv(&self) -> bool {
        keys_sorted(self.rows@)
    }

    /// An empty table.
    pub fn new() -> (r: Self)
        ensures
            r.inv(),
            r.spec_rows() == Seq::<(Seq<char>, Seq<char>)>::empty(),
    {
        let r = StateTable { rows: Vec::new() };
        assert(r.spec_rows() =~= Seq::<(Seq<char>, Seq<char>)>::empty());
        r
    }

    /// Sets the value of a name: an existing row with that name takes the
    /// value; otherwise a row is added where its name belongs in the order.
    pub fn insert(&mut self, key: String, value: String)
        requires
            old(self).inv(),
        ensures
            final(self).inv(),
            exists|p: int| #[trigger] placed_at(old(self).spec_rows(), final(self).spec_rows(), key@, value@, p),
    {
        let ghost old_rows = self.rows@;
        let ghost key_at_start = key@;
        let ghost value_at_start = value@;
        let n = self.rows.len();
        let mut p: usize = 0;
        while p < n && text_less(self.rows[p].0.as_str(), key.as_str())
            invariant
                n == self.rows@.len(),
                self.rows@ == old_rows,
                keys_sorted(old_rows),
                0 <= p <= n,
                forall|j: int| 0 <= j < p ==> text_lt(#[trigger] old_rows[j].0@, key@),
            decreases n - p,
        {
            p = p + 1;
        }
        assert(forall|j: int| 0 <= j < p ==> text_lt(#[trigger] rows_view(old_rows)[j].0, key@));
        let ghost key_view = key@;
        if p < n && crate::utils::text::text_eq(self.rows[p].0.as_str(), key.as_str()) {
            let ghost v = value@;
            self.rows.set(p, (key, value));
            assert(rows_view(self.rows@) =~= rows_view(old_rows).update(p as int, (old_rows[p as int].0@, v)));
            assert forall|i: int, j: int| 0 <= i < j < self.rows@.len() implies text_lt(
                #[trigger] self.rows@[i].0@,
                #[trigger] self.rows@[j].0@,
            ) by {
                assert(old_rows[i].0@ == self.rows@[i].0@);
                assert(old_rows[j].0@ == self.rows@[j].0@);
            }
            assert(placed_at(rows_view(old_rows), rows_view(self.rows@), key_view, v, p as int));
        } else {
            proof {
                if p < n {
                    lemma_text_lt_total(old_rows[p as int].0@, key@);
                }
            }
            let ghost k = key@;
            let ghost v = value@;
            self.rows.insert(p, (key, value));
            assert(rows_view(self.rows@) =~= rows_view(old_rows).insert(p as int, (k, v)));
            assert forall|i: int, j: int| 0 <= i < j < self.rows@.len() implies text_lt(
                #[trigger] self.rows@[i].0@,
                #[trigger] self.rows@[j].0@,
            ) by {
                if j < p {
                    assert(self.rows@[i] == old_rows[i]);
                    assert(self.rows@[j] == old_rows[j]);
                } else if j == p {
                    assert(self.rows@[i] == old_rows[i]);
                } else if i < p {
                    assert(self.rows@[i] == old_rows[i]);
                    assert(self.rows@[j] == old_rows[j - 1]);
                    assert(text_lt(old_rows[i].0@, k));
                    assert(text_lt(k, old_rows[p as int].0@));
                    if j - 1 > p {
                        lemma_text_lt_transitive(k, old_rows[p as int].0@, old_rows[j - 1].0@);
                    }
                    lemma_text_lt_transitive(old_rows[i].0@, k, old_rows[j - 1].0@);
                } else if i == p {
                    assert(self.rows@[j] == old_rows[j - 1]);
                    if j - 1 > p {
                        lemma_text_lt_transitive(k, old_rows[p as int].0@, old_rows[j - 1].0@);
                    }
                } else {
                    assert(self.rows@[i] == old_rows[i - 1]);
                    assert(self.rows@[j] == old_rows[j - 1]);
                }
            }
            assert(placed_at(rows_view(old_rows), rows_view(self.rows@), k, v, p as int));
        }
        assert(placed_at(old(self).spec_rows(), self.spec_rows(), key_at_start, value_at_start, p as int));
    }

    /// The rows, in the order of their names: each name comes strictly
    /// before the next, so no name is listed twice.
    pub fn rows(&self) -> (r: Vec<(String, String)>)
        requires
            self.inv(),
        ensures
            rows_view(r@) == self.spec_rows(),
            forall|i: int, j: int|
                0 <= i < j < r@.len() ==> text_lt(#[trigger] r@[i].0@, #[trigger] r@[j].0@),
    {
        let mut out: Vec<(String, String)> = Vec::new();
        let n = self.rows.len();
        for i in 0..n
            invariant
                n == self.rows@.len(),
                rows_view(out@) == rows_view(self.rows@).take(i as int),
        {
            let (k, v) = &self.rows[i];
            let ghost before = out@;
            out.push((k.clone(), v.clone()));
            assert(rows_view(out@) =~= rows_view(before).push((k@, v@)));
            assert(rows_view(self.rows@).take(i + 1) =~= rows_view(self.rows@).take(i as int).push(
                (k@, v@),
            ));
        }
        assert(rows_view(self.rows@).take(n as int) =~= rows_view(self.rows@));
        assert forall|i: int, j: int| 0 <= i < j < out@.len() implies text_lt(
            #[trigger] out@[i].0@,
            #[trigger] out@[j].0@,
        ) by {
            assert(rows_view(out@)[i].0 == rows_view(self.rows@)[i].0);
            assert(rows_view(out@)[j].0 == rows_view(self.rows@)[j].0);
        }
        out
    }
}

} // verus!
