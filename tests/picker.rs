use bansheefinder::candidates::CandidateStore;
use bansheefinder::command::{build_command, strip_marker};
use bansheefinder::matcher::{filter, Mode};
use bansheefinder::present::rows;
use bansheefinder::ranker::sort_results;
use bansheefinder::session::{Direction, SearchSession};

fn strings(items: &[&str]) -> Vec<String> {
    items.iter().map(|s| s.to_string()).collect()
}

fn store_of(items: &[&str]) -> CandidateStore {
    CandidateStore::load(&vec![strings(items)])
}

#[test]
fn scenario_type_complete_cycle() {
    let store = store_of(&["ls", "lsblk", "lsusb"]);
    let mut s = SearchSession::new();
    s.type_text(&store, "ls");
    assert_eq!(s.results(), &strings(&["ls", "lsblk", "lsusb"]));
    assert_eq!(s.selection(), None);
    s.complete(&store);
    assert_eq!(s.query(), "ls");
    assert_eq!(s.selection(), Some(0));
    s.cycle(&store, Direction::Next);
    assert_eq!(s.query(), "lsblk");
    assert_eq!(s.selection(), Some(1));
    s.cycle(&store, Direction::Next);
    assert_eq!(s.query(), "lsusb");
    assert_eq!(s.selection(), Some(2));
    s.cycle(&store, Direction::Next);
    assert_eq!(s.query(), "lsusb");
    assert_eq!(s.selection(), Some(2));
}

#[test]
fn scenario_submit_marked() {
    assert_eq!(build_command("!vim"), Some(("vim".to_string(), true)));
}

#[test]
fn build_unmarked_is_itself() {
    assert_eq!(build_command("firefox"), Some(("firefox".to_string(), false)));
    assert_eq!(build_command("ls -la"), Some(("ls -la".to_string(), false)));
}

#[test]
fn build_marked_ls() {
    assert_eq!(build_command("!ls"), Some(("ls".to_string(), true)));
}

#[test]
fn build_strips_every_marker() {
    assert_eq!(build_command("v!i!m!"), Some(("vim".to_string(), true)));
    assert_eq!(strip_marker("!!a!b"), "ab");
}

#[test]
fn build_nothing_left_is_none() {
    assert_eq!(build_command(""), None);
    assert_eq!(build_command("!"), None);
    assert_eq!(build_command("!!!"), None);
}

#[test]
fn type_empty_clears() {
    let store = store_of(&["ls", "cat"]);
    let mut s = SearchSession::new();
    s.type_text(&store, "ls");
    assert_eq!(s.results().len(), 1);
    s.type_text(&store, "");
    assert!(s.results().is_empty());
    assert_eq!(s.selection(), None);
    s.type_text(&store, "!");
    assert!(s.results().is_empty());
    assert_eq!(s.selection(), None);
}

#[test]
fn prefix_results_within_substring_results() {
    let cs = strings(&["vim", "nvim", "gvim", "vimdiff", "xv", "vi"]);
    for q in ["v", "vi", "vim", "im", "x", "zz"] {
        let p = filter(q, &cs, Mode::Prefix);
        let sub = filter(q, &cs, Mode::Substring);
        for x in &p {
            assert!(sub.contains(x));
        }
    }
    assert_eq!(filter("vim", &cs, Mode::Prefix), strings(&["vim", "vimdiff"]));
    assert_eq!(filter("vim", &cs, Mode::Substring), strings(&["vim", "nvim", "gvim", "vimdiff"]));
}

#[test]
fn filter_empty_query_is_empty() {
    let cs = strings(&["a", "b"]);
    assert!(filter("", &cs, Mode::Prefix).is_empty());
    assert!(filter("", &cs, Mode::Substring).is_empty());
}

#[test]
fn filter_is_case_sensitive_and_exact() {
    let cs = strings(&["Vim", "vim", "über", "ub"]);
    assert_eq!(filter("vim", &cs, Mode::Substring), strings(&["vim"]));
    assert_eq!(filter("üb", &cs, Mode::Prefix), strings(&["über"]));
    assert_eq!(filter("ber", &cs, Mode::Substring), strings(&["über"]));
    assert!(filter("longer than all", &cs, Mode::Substring).is_empty());
}

#[test]
fn rank_sorts_by_length_keeping_ties() {
    let mut v = strings(&["ccc", "bb", "a", "dd", "e", "ffff", "g"]);
    sort_results(&mut v);
    assert_eq!(v, strings(&["a", "e", "g", "bb", "dd", "ccc", "ffff"]));
    for w in v.windows(2) {
        assert!(w[0].chars().count() <= w[1].chars().count());
    }
}

#[test]
fn rank_is_idempotent() {
    let mut v = strings(&["xterm", "ls", "sh", "bash", "cat", "zsh"]);
    sort_results(&mut v);
    let once = v.clone();
    sort_results(&mut v);
    assert_eq!(v, once);
    assert_eq!(once, strings(&["ls", "sh", "cat", "zsh", "bash", "xterm"]));
}

#[test]
fn rank_empty_and_duplicates() {
    let mut empty: Vec<String> = Vec::new();
    sort_results(&mut empty);
    assert!(empty.is_empty());
    let mut dups = strings(&["vim", "ls", "vim", "ls"]);
    sort_results(&mut dups);
    assert_eq!(dups, strings(&["ls", "ls", "vim", "vim"]));
}

#[test]
fn rank_counts_characters() {
    let mut v = strings(&["abc", "ééé", "ab"]);
    sort_results(&mut v);
    assert_eq!(v, strings(&["ab", "abc", "ééé"]));
}

#[test]
fn cycle_clamps_at_both_ends() {
    let store = store_of(&["ab", "abc", "xab"]);
    let mut s = SearchSession::new();
    s.type_text(&store, "ab");
    s.cycle(&store, Direction::Previous);
    assert_eq!(s.selection(), Some(0));
    assert_eq!(s.query(), "ab");
    s.cycle(&store, Direction::Previous);
    assert_eq!(s.selection(), Some(0));
    for _ in 0..5 {
        s.cycle(&store, Direction::Next);
        let i = s.selection().unwrap();
        assert!(i < s.results().len());
    }
    assert_eq!(s.selection(), Some(2));
    assert_eq!(s.query(), "xab");
    s.cycle(&store, Direction::Previous);
    assert_eq!(s.selection(), Some(1));
    assert_eq!(s.query(), "abc");
}

#[test]
fn cycle_first_step_down_selects_first() {
    let store = store_of(&["git", "gitk"]);
    let mut s = SearchSession::new();
    s.type_text(&store, "git");
    s.cycle(&store, Direction::Next);
    assert_eq!(s.selection(), Some(0));
    assert_eq!(s.query(), "git");
    assert_eq!(s.committed(), "git");
}

#[test]
fn cycle_ranges_over_committed_text() {
    let store = store_of(&["top", "htop", "stop", "htop-extra"]);
    let mut s = SearchSession::new();
    s.type_text(&store, "top");
    s.cycle(&store, Direction::Next);
    s.cycle(&store, Direction::Next);
    assert_eq!(s.query(), "htop");
    s.cycle(&store, Direction::Next);
    assert_eq!(s.query(), "stop");
    assert_eq!(s.committed(), "top");
    assert_eq!(s.results(), &strings(&["top", "htop", "stop", "htop-extra"]));
}

#[test]
fn cycle_with_marker_in_query() {
    let store = store_of(&["vim", "nvim"]);
    let mut s = SearchSession::new();
    s.type_text(&store, "!vim");
    assert_eq!(s.results(), &strings(&["vim", "nvim"]));
    s.cycle(&store, Direction::Next);
    s.cycle(&store, Direction::Next);
    assert_eq!(s.query(), "nvim");
}

#[test]
fn cycle_without_candidates_does_nothing() {
    let store = store_of(&["ls"]);
    let mut s = SearchSession::new();
    s.type_text(&store, "zz");
    s.cycle(&store, Direction::Next);
    assert_eq!(s.query(), "zz");
    assert_eq!(s.selection(), None);
    assert!(s.results().is_empty());
}

#[test]
fn complete_takes_shortest_prefix_match() {
    let store = store_of(&["firefox-bin", "xfirefox", "firefox"]);
    let mut s = SearchSession::new();
    s.type_text(&store, "fire");
    assert_eq!(s.results(), &strings(&["firefox", "xfirefox", "firefox-bin"]));
    s.complete(&store);
    assert_eq!(s.query(), "firefox");
    assert_eq!(s.committed(), "firefox");
    assert_eq!(s.results(), &strings(&["firefox", "firefox-bin"]));
    assert_eq!(s.selection(), Some(0));
}

#[test]
fn complete_without_match_does_nothing() {
    let store = store_of(&["xls"]);
    let mut s = SearchSession::new();
    s.type_text(&store, "ls");
    s.complete(&store);
    assert_eq!(s.query(), "ls");
    assert_eq!(s.results(), &strings(&["xls"]));
    assert_eq!(s.selection(), None);
}

#[test]
fn reset_clears_everything() {
    let store = store_of(&["ls", "lsblk"]);
    let mut s = SearchSession::new();
    s.type_text(&store, "ls");
    s.complete(&store);
    s.reset();
    assert_eq!(s.query(), "");
    assert_eq!(s.committed(), "");
    assert!(s.results().is_empty());
    assert_eq!(s.selection(), None);
}

#[test]
fn load_concatenates_listings_in_order() {
    let listings = vec![strings(&["b", "a"]), strings(&[]), strings(&["c", "a"])];
    let store = CandidateStore::load(&listings);
    assert_eq!(store.entries(), &strings(&["b", "a", "c", "a"]));
    assert_eq!(store.len(), 4);
    assert_eq!(CandidateStore::load(&Vec::new()).len(), 0);
}

#[test]
fn rows_highlight_the_selection() {
    let store = store_of(&["ls", "lsblk", "lsusb"]);
    let mut s = SearchSession::new();
    s.type_text(&store, "ls");
    let r = rows(&s);
    assert_eq!(r.len(), 3);
    assert!(r.iter().all(|row| !row.highlighted));
    s.cycle(&store, Direction::Next);
    s.cycle(&store, Direction::Next);
    let r = rows(&s);
    let texts: Vec<&str> = r.iter().map(|row| row.text.as_str()).collect();
    assert_eq!(texts, vec!["ls", "lsblk", "lsusb"]);
    let lit: Vec<bool> = r.iter().map(|row| row.highlighted).collect();
    assert_eq!(lit, vec![false, true, false]);
}
