use vstd::prelude::*;

use crate::candidates::CandidateStore;
use crate::command::{strip_marker, stripped};
use crate::matcher::{filter, filtered, Mode};
use crate::ranker::{ranked, sort_results};

verus! {

/// Which way a cycle moves the selection.
#[derive(Clone, Copy, Debug, PartialEq, Eq, Structural)]
pub enum Direction {
    /// One row down: the index grows by one.
    Next,
    /// One row up: the index shrinks by one.
    Previous,
}

pub open spec fn step(d: Direction) -> int {
    match d {
        Direction::Next => 1,
        Direction::Previous => -1,
    }
}

pub open spec fn clamp(v: int, lo: int, hi: int) -> int {
    if v < lo {
        lo
    } else if v > hi {
        hi
    } else {
        v
    }
}

/// What a session holds: the text shown, the text cycling ranges over, the rows
/// listed, and the selected row (-1 for none).
pub struct SessionState {
    pub query: Seq<char>,
    pub committed: Seq<char>,
    pub results: Seq<String>,
    pub selection: int,
}

/// The candidates that hold the query, markers out, shortest first.
pub open spec fn substring_set(q: Seq<char>, store: Seq<String>) -> Seq<String> {
    ranked(filtered(stripped(q), store, Mode::Substring))
}

/// The candidates that start with the query, markers out, shortest first.
pub open spec fn prefix_set(q: Seq<char>, store: Seq<String>) -> Seq<String> {
    ranked(filtered(stripped(q), store, Mode::Prefix))
}

pub open spec fn initial() -> SessionState {
    SessionState {
        query: Seq::empty(),
        committed: Seq::empty(),
        results: Seq::empty(),
        selection: -1,
    }
}

pub open spec fn after_type(text: Seq<char>, store: Seq<String>) -> SessionState {
    SessionState {
        query: text,
        committed: text,
        results: substring_set(text, store),
        selection: -1,
    }
}

pub open spec fn after_complete(s: SessionState, store: Seq<String>) -> SessionState {
    let set = prefix_set(s.query, store);
    if set.len() == 0 {
        s
    } else {
        SessionState { query: set[0]@, committed: set[0]@, results: set, selection: 0 }
    }
}

pub open spec fn after_cycle(s: SessionState, store: Seq<String>, d: Direction) -> SessionState {
    let set = substring_set(s.committed, store);
    if set.len() == 0 {
        s
    } else {
        let sel = clamp(s.selection + step(d), 0, set.len() - 1);
        SessionState { query: set[sel]@, committed: s.committed, results: set, selection: sel }
    }
}

/// The selection is none (-1) or a row of the results.
pub open spec fn selection_in_range(s: SessionState) -> bool {
    -1 <= s.selection < s.results.len()
}

/// The state after cycling once for each direction of `ds`, in order.
pub open spec fn after_cycles(s: SessionState, store: Seq<String>, ds: Seq<Direction>) -> SessionState
    decreases ds.len(),
{
    if ds.len() == 0 {
        s
    } else {
        after_cycle(after_cycles(s, store, ds.drop_last()), store, ds.last())
    }
}

/// A cycle over a set of `n` candidates leaves the selection in `[0, n-1]`, lists that
/// set, and holds at either end rather than wrapping round.
pub proof fn lemma_cycle_clamps(s: SessionState, store: Seq<String>, d: Direction)
    requires
        -1 <= s.selection,
    ensures
        ({
            let t = after_cycle(s, store, d);
            let n = substring_set(s.committed, store).len();
            &&& n > 0 ==> 0 <= t.selection < n && t.results.len() == n
            &&& n > 0 && d == Direction::Next && s.selection >= n - 1 ==> t.selection == n - 1
            &&& n > 0 && d == Direction::Previous && s.selection <= 0 ==> t.selection == 0
            &&& t.committed == s.committed
        }),
{
}

/// However many cycles run, in whichever directions, the selection stays within the
/// set they range over, which does not change.
pub proof fn lemma_cycles_stay_in_range(s: SessionState, store: Seq<String>, ds: Seq<Direction>)
    requires
        -1 <= s.selection,
        ds.len() > 0,
    ensures
        ({
            let t = after_cycles(s, store, ds);
            let n = substring_set(s.committed, store).len();
            &&& t.committed == s.committed
            &&& n > 0 ==> 0 <= t.selection < n && t.results.len() == n
            &&& n == 0 ==> t == s
        }),
    decreases ds.len(),
{
    let prev = after_cycles(s, store, ds.drop_last());
    assert(after_cycles(s, store, ds) == after_cycle(prev, store, ds.last()));
    if ds.len() > 1 {
        lemma_cycles_stay_in_range(s, store, ds.drop_last());
    } else {
        assert(prev == s);
    }
}

/// Typing an empty text lists nothing and selects nothing.
pub proof fn lemma_type_empty(store: Seq<String>)
    ensures
        after_type(Seq::empty(), store).results.len() == 0,
        after_type(Seq::empty(), store).selection == -1,
{
    assert(ranked(Seq::<String>::empty()) =~= Seq::<String>::empty());
}

/// Every transition keeps the selection none or a row of the listed results.
pub proof fn lemma_transitions_keep_selection(
    s: SessionState,
    store: Seq<String>,
    text: Seq<char>,
    d: Direction,
)
    requires
        selection_in_range(s),
    ensures
        selection_in_range(initial()),
        selection_in_range(after_type(text, store)),
        selection_in_range(after_complete(s, store)),
        selection_in_range(after_cycle(s, store, d)),
{
}

/// The search state of one picker: mutated only by its transitions.
pub struct SearchSession {
    query: String,
    committed: String,
    results: Vec<String>,
    selection: Option<usize>,
}

impl View for SearchSession {
    type V = SessionState;

    closed spec fn view(&self) -> SessionState {
        SessionState {
            query: self.query@,
            committed: self.committed@,
            results: self.results@,
            selection: match self.selection {
                Some(i) => i as int,
                None => -1,
            },
        }
    }
}

/// The candidates that `q` matches under `mode`, markers out, shortest first.
fn ranked_matches(q: &String, store: &CandidateStore, mode: Mode) -> (r: Vec<String>)
    ensures
        r@ == ranked(filtered(stripped(q@), store@, mode)),
{
    let bare = strip_marker(q.as_str());
    let mut set = filter(bare.as_str(), store.entries(), mode);
    sort_results(&mut set);
    set
}

impl SearchSession {
    /// A session with nothing typed.
    pub fn new() -> (r: SearchSession)
        ensures
            r@ == initial(),
    {
        SearchSession {
            query: String::new(),
            committed: String::new(),
            results: Vec::new(),
            selection: None,
        }
    }

    /// The text shown.
    pub fn query(&self) -> (r: &String)
        ensures
            r@ == self@.query,
    {
        &self.query
    }

    /// The text cycling ranges over.
    pub fn committed(&self) -> (r: &String)
        ensures
            r@ == self@.committed,
    {
        &self.committed
    }

    /// The rows listed.
    pub fn results(&self) -> (r: &Vec<String>)
        ensures
            r@ == self@.results,
    {
        &self.results
    }

    /// The selected row, if any.
    pub fn selection(&self) -> (r: Option<usize>)
        ensures
            match r {
                Some(i) => self@.selection == i,
                None => self@.selection == -1,
            },
    {
        self.selection
    }

    /// The text field now reads `text`: the rows become the candidates that hold it,
    /// and nothing is selected.
    pub fn type_text(&mut self, store: &CandidateStore, text: &str)
        ensures
            final(self)@ == after_type(text@, store@),
    {
        let typed = String::from_str(text);
        let set = ranked_matches(&typed, store, Mode::Substring);
        self.committed = typed.clone();
        self.query = typed;
        self.results = set;
        self.selection = None;
    }

    /// Completes the text shown to the shortest candidate that starts with it, and
    /// lists every such candidate; does nothing when none does.
    pub fn complete(&mut self, store: &CandidateStore)
        ensures
            final(self)@ == after_complete(old(self)@, store@),
    {
        let set = ranked_matches(&self.query, store, Mode::Prefix);
        if set.len() > 0 {
            self.query = set[0].clone();
            self.committed = set[0].clone();
            self.results = set;
            self.selection = Some(0);
        }
    }

    /// Moves the selection one row in `d` over the candidates that hold the committed
    /// text, stopping at either end, and shows the selected candidate; does nothing
    /// when there is none.
    pub fn cycle(&mut self, store: &CandidateStore, d: Direction)
        ensures
            final(self)@ == after_cycle(old(self)@, store@, d),
    {
        let set = ranked_matches(&self.committed, store, Mode::Substring);
        let n = set.len();
        if n == 0 {
            return;
        }
        let sel: usize = match (self.selection, d) {
            (None, _) => 0,
            (Some(i), Direction::Next) => if i >= n - 1 {
                n - 1
            } else {
                i + 1
            },
            (Some(i), Direction::Previous) => if i == 0 {
                0
            } else if i - 1 > n - 1 {
                n - 1
            } else {
                i - 1
            },
        };
        self.query = set[sel].clone();
        self.results = set;
        self.selection = Some(sel);
    }

    /// Back to nothing typed.
    pub fn reset(&mut self)
        ensures
            final(self)@ == initial(),
    {
        self.query = String::new();
        self.committed = String::new();
        self.results = Vec::new();
        self.selection = None;
    }
}

} // verus!
