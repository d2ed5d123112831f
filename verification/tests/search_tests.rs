use apt_console::pkg::Package;
use apt_console::search::{filter_and_rank, sort_by_score_desc};

fn named(name: &str) -> Package {
    let id = format!("{};1.0;all;apt", name);
    Package::from_packagekit(&id, "Installed", "")
}

#[test]
fn test_empty_query_is_identity() {
    let source = vec![named("zsh"), named("vim"), named("emacs")];
    let out = filter_and_rank(&source, "");
    assert_eq!(out.len(), 3);
    assert_eq!(out[0].name, "zsh");
    assert_eq!(out[1].name, "vim");
    assert_eq!(out[2].name, "emacs");
}

#[test]
fn test_ranking_orders_by_descending_score() {
    // Two of the three match the query, with scores 5 and 9: the result is
    // the score-9 package first, the score-5 package second.
    let pairs = vec![(named("five"), 5i64), (named("nine"), 9i64)];
    let sorted = sort_by_score_desc(pairs);
    assert_eq!(sorted[0].0.name, "nine");
    assert_eq!(sorted[0].1, 9);
    assert_eq!(sorted[1].0.name, "five");
    assert_eq!(sorted[1].1, 5);
}

#[test]
fn test_fuzzy_search_excludes_non_matches() {
    let source = vec![named("vim"), named("emacs"), named("neovim")];
    let out = filter_and_rank(&source, "vim");
    assert_eq!(out.len(), 2);
    // The exact name outranks the longer one that merely contains the query.
    assert_eq!(out[0].name, "vim");
    assert_eq!(out[1].name, "neovim");

    let none = filter_and_rank(&source, "zzz");
    assert!(none.is_empty());
}
