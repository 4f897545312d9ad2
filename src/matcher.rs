use vstd::prelude::*;

verus! {

/// How a query is held against a candidate.
#[derive(Clone, Copy, Debug, PartialEq, Eq, Structural)]
pub enum Mode {
    /// The query must stand at the start of the candidate.
    Prefix,
    /// The query may stand anywhere in the candidate.
    Substring,
}

/// `q` stands in `t` at offset `i`.
pub open spec fn occurs_at(q: Seq<char>, t: Seq<char>, i: int) -> bool {
    0 <= i && i + q.len() <= t.len() && t.subrange(i, i + q.len()) == q
}

/// `q` stands at the start of `t`.
pub open spec fn is_prefix_of(q: Seq<char>, t: Seq<char>) -> bool {
    occurs_at(q, t, 0)
}

/// `q` stands somewhere in `t`.
pub open spec fn is_substring_of(q: Seq<char>, t: Seq<char>) -> bool {
    exists|i: int| occurs_at(q, t, i)
}

pub open spec fn matches(q: Seq<char>, t: Seq<char>, mode: Mode) -> bool {
    match mode {
        Mode::Prefix => is_prefix_of(q, t),
        Mode::Substring => is_substring_of(q, t),
    }
}

/// The candidates of `cs` that `q` matches under `mode`, in their order.
pub open spec fn keep(q: Seq<char>, cs: Seq<String>, mode: Mode) -> Seq<String>
    decreases cs.len(),
{
    if cs.len() == 0 {
        Seq::empty()
    } else if matches(q, cs.last()@, mode) {
        keep(q, cs.drop_last(), mode).push(cs.last())
    } else {
        keep(q, cs.drop_last(), mode)
    }
}

/// What the matcher returns: nothing for an empty query, else the matching candidates.
pub open spec fn filtered(q: Seq<char>, cs: Seq<String>, mode: Mode) -> Seq<String> {
    if q.len() == 0 {
        Seq::empty()
    } else {
        keep(q, cs, mode)
    }
}

/// What the matcher keeps in prefix mode it also keeps in substring mode.
pub proof fn lemma_prefix_within_substring(q: Seq<char>, cs: Seq<String>)
    ensures
        forall|x: String| #[trigger]
            filtered(q, cs, Mode::Prefix).contains(x) ==> filtered(q, cs, Mode::Substring).contains(
                x,
            ),
{
    if q.len() > 0 {
        lemma_keep_prefix_within_substring(q, cs);
    }
}

proof fn lemma_keep_prefix_within_substring(q: Seq<char>, cs: Seq<String>)
    ensures
        forall|x: String| #[trigger]
            keep(q, cs, Mode::Prefix).contains(x) ==> keep(q, cs, Mode::Substring).contains(x),
    decreases cs.len(),
{
    if cs.len() > 0 {
        let p = cs.drop_last();
        let x = cs.last();
        lemma_keep_prefix_within_substring(q, p);
        if is_prefix_of(q, x@) {
            assert(occurs_at(q, x@, 0));
        }
        let kp = keep(q, cs, Mode::Prefix);
        let ks = keep(q, cs, Mode::Substring);
        assert forall|y: String| #[trigger] kp.contains(y) implies ks.contains(y) by {
            let i = choose|i: int| 0 <= i < kp.len() && kp[i] == y;
            if i < keep(q, p, Mode::Prefix).len() {
                assert(keep(q, p, Mode::Prefix)[i] == y);
                assert(keep(q, p, Mode::Prefix).contains(y));
                let j = choose|j: int|
                    0 <= j < keep(q, p, Mode::Substring).len() && keep(q, p, Mode::Substring)[j]
                        == y;
                assert(ks[j] == y);
            } else {
                assert(ks[ks.len() - 1] == y);
            }
        }
    }
}

/// The characters of `s`, one by one.
fn chars_of(s: &str) -> (r: Vec<char>)
    ensures
        r@ == s@,
{
    let n = s.unicode_len();
    let mut r: Vec<char> = Vec::new();
    let mut i: usize = 0;
    while i < n
        invariant
            n == s@.len(),
            i <= n,
            r@ == s@.subrange(0, i as int),
        decreases n - i,
    {
        r.push(s.get_char(i));
        i = i + 1;
    }
    assert(r@ =~= s@);
    r
}

/// Whether `q` stands in `t` at offset `at`.
fn occurs_at_exec(q: &Vec<char>, t: &Vec<char>, at: usize) -> (r: bool)
    requires
        at + q@.len() <= t@.len(),
    ensures
        r == occurs_at(q@, t@, at as int),
{
    let tl = t.len();
    let mut j: usize = 0;
    while j < q.len()
        invariant
            j <= q@.len(),
            tl == t@.len(),
            at + q@.len() <= t@.len(),
            forall|k: int| 0 <= k < j ==> t@[at + k] == q@[k],
        decreases q@.len() - j,
    {
        if t[at + j] != q[j] {
            assert(t@.subrange(at as int, at + q@.len())[j as int] != q@[j as int]);
            return false;
        }
        j = j + 1;
    }
    assert(t@.subrange(at as int, at + q@.len()) =~= q@);
    true
}

/// Whether `q` matches `t` under `mode`.
fn matches_exec(q: &Vec<char>, t: &Vec<char>, mode: Mode) -> (r: bool)
    ensures
        r == matches(q@, t@, mode),
{
    if q.len() > t.len() {
        return false;
    }
    match mode {
        Mode::Prefix => occurs_at_exec(q, t, 0),
        Mode::Substring => {
            let last = t.len() - q.len();
            let mut i: usize = 0;
            while i < last
                invariant
                    mode == Mode::Substring,
                    last == t@.len() - q@.len(),
                    i <= last,
                    forall|k: int| 0 <= k < i ==> !occurs_at(q@, t@, k),
                decreases last - i,
            {
                if occurs_at_exec(q, t, i) {
                    assert(occurs_at(q@, t@, i as int));
                    return true;
                }
                i = i + 1;
            }
            if occurs_at_exec(q, t, last) {
                assert(occurs_at(q@, t@, last as int));
                return true;
            }
            assert forall|k: int| !occurs_at(q@, t@, k) by {
                if 0 <= k && k + q@.len() <= t@.len() {
                    assert(k <= last);
                }
            }
            false
        },
    }
}

/// The candidates that `query` matches under `mode`, in their order; nothing for an
/// empty query. The query is taken as it is: a modifier marker in it is matched too.
pub fn filter(query: &str, candidates: &Vec<String>, mode: Mode) -> (r: Vec<String>)
    ensures
        r@ == filtered(query@, candidates@, mode),
{
    let q = chars_of(query);
    let mut r: Vec<String> = Vec::new();
    if q.len() == 0 {
        return r;
    }
    let mut i: usize = 0;
    while i < candidates.len()
        invariant
            q@ == query@,
            q@.len() > 0,
            i <= candidates@.len(),
            r@ == keep(q@, candidates@.subrange(0, i as int), mode),
        decreases candidates@.len() - i,
    {
        let c = &candidates[i];
        let t = chars_of(c.as_str());
        let ghost before = candidates@.subrange(0, i as int);
        assert(candidates@.subrange(0, i + 1).drop_last() =~= before);
        if matches_exec(&q, &t, mode) {
            r.push(c.clone());
        }
        i = i + 1;
    }
    assert(candidates@.subrange(0, i as int) =~= candidates@);
    r
}

} // verus!
