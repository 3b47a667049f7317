//! Unix path arithmetic on text.

use vstd::prelude::*;

verus! {

/// The length of a path's fixed front: the root `/`, or a leading `.`
/// component of a relative path (`.` alone or followed by `/`).
pub open spec fn front_len(s: Seq<char>) -> int {
    if s.len() > 0 && s[0] == '/' {
        1
    } else if includes_cur_dir(s) {
        1
    } else {
        0
    }
}

/// A relative path that starts with the `.` component.
pub open spec fn includes_cur_dir(s: Seq<char>) -> bool {
    s.len() > 0 && s[0] == '.' && (s.len() == 1 || s[1] == '/')
}

/// The start of the segment that ends at `hi`: the position after the last
/// `/` in `s[lo..hi]`, or `lo`.
pub open spec fn segment_start(s: Seq<char>, lo: int, hi: int) -> int
    decreases hi - lo,
{
    if hi <= lo {
        lo
    } else if s[hi - 1] == '/' {
        hi
    } else {
        segment_start(s, lo, hi - 1)
    }
}

/// A segment that counts as a component: not empty and not `.`.
pub open spec fn real_segment(seg: Seq<char>) -> bool {
    seg.len() > 0 && !(seg.len() == 1 && seg[0] == '.')
}

/// The end of the last component within `s[lo..hi]`, skipping trailing
/// empty and `.` segments; `lo` when there is none.
pub open spec fn last_component_end(s: Seq<char>, lo: int, hi: int) -> int
    decreases hi - lo,
{
    if hi <= lo {
        lo
    } else {
        let a = segment_start(s, lo, hi);
        if real_segment(s.subrange(a, hi)) {
            hi
        } else if a > lo {
            proof {
                lemma_segment_start_bounds(s, lo, hi);
            }
            last_component_end(s, lo, a - 1)
        } else {
            lo
        }
    }
}

/// The parent of a path with Unix semantics, as `Path::parent` gives it:
/// the path up to the end of the component before the last one (or its
/// front); `None` for the empty path and the root.
pub open spec fn unix_parent(s: Seq<char>) -> Option<Seq<char>> {
    let front = front_len(s);
    let e = last_component_end(s, front, s.len() as int);
    if e > front {
        let a = segment_start(s, front, e);
        let k = if a > front {
            last_component_end(s, front, a - 1)
        } else {
            front
        };
        Some(s.take(k))
    } else if includes_cur_dir(s) {
        Some(Seq::empty())
    } else {
        None
    }
}

/// The path after `PathBuf::pop`: its parent, or itself when it has none.
pub open spec fn unix_pop(s: Seq<char>) -> Seq<char> {
    match unix_parent(s) {
        Some(p) => p,
        None => s,
    }
}

/// A segment starts within its range, right after a separator when it does
/// not start at the range's start.
pub proof fn lemma_segment_start_bounds(s: Seq<char>, lo: int, hi: int)
    requires
        lo <= hi,
    ensures
        lo <= segment_start(s, lo, hi) <= hi,
        segment_start(s, lo, hi) > lo ==> s[segment_start(s, lo, hi) - 1] == '/',
    decreases hi - lo,
{
    if hi <= lo {
    } else if s[hi - 1] == '/' {
    } else {
        lemma_segment_start_bounds(s, lo, hi - 1);
    }
}

proof fn lemma_last_component_end_bounds(s: Seq<char>, lo: int, hi: int)
    requires
        lo <= hi,
    ensures
        lo <= last_component_end(s, lo, hi) <= hi,
    decreases hi - lo,
{
    if hi <= lo {
    } else {
        lemma_segment_start_bounds(s, lo, hi);
        let a = segment_start(s, lo, hi);
        if real_segment(s.subrange(a, hi)) {
        } else if a > lo {
            lemma_last_component_end_bounds(s, lo, a - 1);
        } else {
        }
    }
}

fn segment_start_exec(s: &Vec<char>, lo: usize, hi: usize) -> (r: usize)
    requires
        lo <= hi <= s@.len(),
    ensures
        r as int == segment_start(s@, lo as int, hi as int),
    decreases hi - lo,
{
    if hi <= lo {
        lo
    } else if s[hi - 1] == '/' {
        hi
    } else {
        segment_start_exec(s, lo, hi - 1)
    }
}

fn real_segment_exec(s: &Vec<char>, a: usize, hi: usize) -> (r: bool)
    requires
        a <= hi <= s@.len(),
    ensures
        r == real_segment(s@.subrange(a as int, hi as int)),
{
    let len = hi - a;
    if len == 0 {
        false
    } else if len == 1 && s[a] == '.' {
        false
    } else {
        assert(s@.subrange(a as int, hi as int)[0] == s@[a as int]);
        true
    }
}

fn last_component_end_exec(s: &Vec<char>, lo: usize, hi: usize) -> (r: usize)
    requires
        lo <= hi <= s@.len(),
    ensures
        r as int == last_component_end(s@, lo as int, hi as int),
    decreases hi - lo,
{
    if hi <= lo {
        lo
    } else {
        let a = segment_start_exec(s, lo, hi);
        proof {
            lemma_segment_start_bounds(s@, lo as int, hi as int);
        }
        if real_segment_exec(s, a, hi) {
            hi
        } else if a > lo {
            last_component_end_exec(s, lo, a - 1)
        } else {
            lo
        }
    }
}

/// The path after popping its last component, with Unix semantics.
pub fn pop_path(s: &Vec<char>) -> (r: Vec<char>)
    ensures
        r@ == unix_pop(s@),
{
    let n = s.len();
    let front: usize = if n > 0 && s[0] == '/' {
        1
    } else if n > 0 && s[0] == '.' && (n == 1 || s[1] == '/') {
        1
    } else {
        0
    };
    assert(front as int == front_len(s@));
    let e = last_component_end_exec(s, front, n);
    proof {
        lemma_last_component_end_bounds(s@, front as int, n as int);
    }
    if e > front {
        let a = segment_start_exec(s, front, e);
        proof {
            lemma_segment_start_bounds(s@, front as int, e as int);
        }
        let k = if a > front {
            let k = last_component_end_exec(s, front, a - 1);
            proof {
                lemma_last_component_end_bounds(s@, front as int, a - 1);
            }
            k
        } else {
            front
        };
        let mut out: Vec<char> = Vec::new();
        let mut i: usize = 0;
        while i < k
            invariant
                0 <= i <= k,
                k <= n,
                n == s@.len(),
                out@ == s@.take(i as int),
            decreases k - i,
        {
            out.push(s[i]);
            i = i + 1;
            assert(out@ =~= s@.take(i as int));
        }
        out
    } else if n > 0 && s[0] == '.' && (n == 1 || s[1] == '/') {
        Vec::new()
    } else {
        s.clone()
    }
}

} // verus!
