use vstd::prelude::*;

verus! {

/// The modifier marker: a query that holds it asks for an interactive shell.
pub const MARKER: char = '!';

/// `s` with every modifier marker taken out.
pub open spec fn stripped(s: Seq<char>) -> Seq<char>
    decreases s.len(),
{
    if s.len() == 0 {
        s
    } else if s.last() == MARKER {
        stripped(s.drop_last())
    } else {
        stripped(s.drop_last()).push(s.last())
    }
}

/// The command a submitted query gives, and whether it runs interactively; nothing
/// when no character is left once the markers are out.
pub open spec fn built(q: Seq<char>) -> Option<(Seq<char>, bool)> {
    if stripped(q).len() == 0 {
        None
    } else {
        Some((stripped(q), q.contains(MARKER)))
    }
}

/// `s` with every modifier marker taken out.
pub fn strip_marker(s: &str) -> (r: String)
    ensures
        r@ == stripped(s@),
{
    let n = s.unicode_len();
    let mut r = String::new();
    let mut i: usize = 0;
    assert(s@.subrange(0, 0) =~= Seq::<char>::empty());
    while i < n
        invariant
            n == s@.len(),
            i <= n,
            r@ == stripped(s@.subrange(0, i as int)),
        decreases n - i,
    {
        let c = s.get_char(i);
        assert(s@.subrange(0, i + 1).drop_last() =~= s@.subrange(0, i as int));
        if c != MARKER {
            let one = s.substring_char(i, i + 1);
            assert(one@ =~= seq![c]);
            r.append(one);
        }
        i = i + 1;
    }
    assert(s@.subrange(0, n as int) =~= s@);
    r
}

/// Whether `s` holds the modifier marker.
fn has_marker(s: &str) -> (r: bool)
    ensures
        r == s@.contains(MARKER),
{
    let n = s.unicode_len();
    let mut i: usize = 0;
    while i < n
        invariant
            n == s@.len(),
            i <= n,
            forall|k: int| 0 <= k < i ==> s@[k] != MARKER,
        decreases n - i,
    {
        if s.get_char(i) == MARKER {
            return true;
        }
        i = i + 1;
    }
    false
}

/// The command to launch for a submitted query, and whether to run it in an
/// interactive shell; `None` when nothing but markers was typed.
pub fn build_command(query: &str) -> (r: Option<(String, bool)>)
    ensures
        match r {
            Some((c, i)) => built(query@) == Some((c@, i)),
            None => built(query@) is None,
        },
{
    let command = strip_marker(query);
    if command.as_str().unicode_len() == 0 {
        None
    } else {
        Some((command, has_marker(query)))
    }
}

/// A query without a marker is its own command, run directly.
pub proof fn lemma_build_unmarked(x: Seq<char>)
    requires
        !x.contains(MARKER),
        x.len() > 0,
    ensures
        built(x) == Some((x, false)),
{
    lemma_stripped_unmarked(x);
}

/// Taking the markers out of a query without one leaves it as it is.
proof fn lemma_stripped_unmarked(x: Seq<char>)
    requires
        !x.contains(MARKER),
    ensures
        stripped(x) == x,
    decreases x.len(),
{
    if x.len() > 0 {
        let p = x.drop_last();
        assert(!p.contains(MARKER)) by {
            if p.contains(MARKER) {
                let k = choose|k: int| 0 <= k < p.len() && p[k] == MARKER;
                assert(x[k] == MARKER);
            }
        }
        lemma_stripped_unmarked(p);
        assert(x.last() != MARKER) by {
            assert(x[x.len() - 1] == x.last());
        }
        assert(p.push(x.last()) =~= x);
    }
}

} // verus!
