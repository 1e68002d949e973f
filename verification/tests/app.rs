use gitviz::app::{contains_chars, matching_indices, App, Mode};
use gitviz::git::model::{Commit, Refs};
use gitviz::graph::lanes::compute_layout;
use gitviz::input::{handle_key, on_key, Key};
use gitviz::util::text::chars_of;

fn commit(oid: &str, parents: &[&str], subject: &str) -> Commit {
    Commit {
        oid: oid.to_string(),
        parents: parents.iter().map(|s| s.to_string()).collect(),
        author: "Test".to_string(),
        author_email: "t@t.com".to_string(),
        timestamp: 0,
        subject: subject.to_string(),
    }
}

fn sample() -> App {
    let commits = vec![
        commit("d", &["c"], "Fix the parser"),
        commit("c", &["b"], "Add LANES"),
        commit("b", &["a"], "fix typo"),
        commit("a", &[], "ÉCLAIR initial"),
    ];
    let graph = compute_layout(&commits);
    App::new(commits, Refs::default(), graph)
}

#[test]
fn new_app_shows_everything() {
    let app = sample();
    assert_eq!(app.filtered, vec![0, 1, 2, 3]);
    assert_eq!(app.selected, 0);
    assert_eq!(app.mode, Mode::Normal);
    assert_eq!(app.filter, "");
    assert!(app.details_expanded);
    assert_eq!(app.selected_commit().map(|c| c.oid.as_str()), Some("d"));
}

#[test]
fn selection_moves_within_the_list() {
    let mut app = sample();
    app.move_up();
    assert_eq!(app.selected, 0);
    app.move_down();
    app.move_down();
    assert_eq!(app.selected, 2);
    app.move_down();
    app.move_down();
    assert_eq!(app.selected, 3);
    app.move_to_top();
    assert_eq!(app.selected, 0);
    app.move_to_bottom();
    assert_eq!(app.selected, 3);
    app.move_up();
    assert_eq!(app.selected, 2);
    assert_eq!(app.selected_commit().map(|c| c.oid.as_str()), Some("b"));
}

#[test]
fn selection_stays_put_on_an_empty_list() {
    let mut app = App::new(Vec::new(), Refs::default(), Vec::new());
    app.move_down();
    app.move_to_bottom();
    app.move_up();
    assert_eq!(app.selected, 0);
    assert!(app.selected_commit().is_none());
    app.selected = usize::MAX;
    app.move_down();
    assert_eq!(app.selected, usize::MAX);
    assert!(app.selected_commit().is_none());
}

#[test]
fn details_toggle() {
    let mut app = sample();
    app.toggle_details();
    assert!(!app.details_expanded);
    app.toggle_details();
    assert!(app.details_expanded);
}

#[test]
fn filter_ignores_case() {
    let mut app = sample();
    app.enter_filter_mode();
    assert_eq!(app.mode, Mode::Filter);
    for c in "FIX".chars() {
        app.filter_push(c);
    }
    assert_eq!(app.filter, "FIX");
    assert_eq!(app.filtered, vec![0, 2]);
    app.filter_pop();
    app.filter_pop();
    app.filter_pop();
    app.filter_pop();
    assert_eq!(app.filter, "");
    assert_eq!(app.filtered, vec![0, 1, 2, 3]);
    for c in "éclair".chars() {
        app.filter_push(c);
    }
    assert_eq!(app.filtered, vec![3]);
}

#[test]
fn filter_clamps_the_selection() {
    let mut app = sample();
    app.move_to_bottom();
    app.filter_push('f');
    assert_eq!(app.filtered, vec![0, 2]);
    assert_eq!(app.selected, 1);
    app.filter_push('#');
    assert!(app.filtered.is_empty());
    assert_eq!(app.selected, 0);
    assert!(app.selected_commit().is_none());
    app.enter_filter_mode();
    app.exit_filter_mode();
    assert_eq!(app.mode, Mode::Normal);
    assert_eq!(app.filter, "");
    assert_eq!(app.filtered, vec![0, 1, 2, 3]);
    assert_eq!(app.selected, 0);
}

#[test]
fn substring_search() {
    let has = |hay: &str, needle: &str| contains_chars(&chars_of(hay), &chars_of(needle));
    for (hay, needle) in [
        ("", ""),
        ("abc", ""),
        ("", "a"),
        ("abc", "abc"),
        ("abc", "bc"),
        ("abc", "abcd"),
        ("aab", "ab"),
        ("abab", "bab"),
        ("abc", "ac"),
        ("héllo", "él"),
    ] {
        assert_eq!(has(hay, needle), hay.contains(needle), "{:?} {:?}", hay, needle);
    }
    let texts: Vec<Vec<char>> = ["one", "two", "bone", ""].iter().map(|s| chars_of(s)).collect();
    assert_eq!(matching_indices(&texts, &chars_of("one")), vec![0, 2]);
    assert_eq!(matching_indices(&texts, &chars_of("")), vec![0, 1, 2, 3]);
    assert!(matching_indices(&texts, &chars_of("x")).is_empty());
}

#[test]
fn keys_in_normal_mode() {
    let mut app = sample();
    handle_key(&mut app, Key::Char('j'));
    handle_key(&mut app, Key::Down);
    assert_eq!(app.selected, 2);
    handle_key(&mut app, Key::Char('k'));
    handle_key(&mut app, Key::Up);
    assert_eq!(app.selected, 0);
    handle_key(&mut app, Key::Char('G'));
    assert_eq!(app.selected, 3);
    handle_key(&mut app, Key::Char('g'));
    assert_eq!(app.selected, 0);
    handle_key(&mut app, Key::End);
    assert_eq!(app.selected, 3);
    handle_key(&mut app, Key::Home);
    assert_eq!(app.selected, 0);
    handle_key(&mut app, Key::Enter);
    assert!(!app.details_expanded);
    handle_key(&mut app, Key::Char('x'));
    handle_key(&mut app, Key::Esc);
    handle_key(&mut app, Key::Backspace);
    handle_key(&mut app, Key::Other);
    assert_eq!(app.mode, Mode::Normal);
    assert_eq!(app.filter, "");
    handle_key(&mut app, Key::Char('/'));
    assert_eq!(app.mode, Mode::Filter);
}

#[test]
fn keys_in_filter_mode() {
    let mut app = sample();
    handle_key(&mut app, Key::Char('/'));
    handle_key(&mut app, Key::Char('j'));
    handle_key(&mut app, Key::Char('q'));
    assert_eq!(app.filter, "jq");
    assert_eq!(app.selected, 0);
    handle_key(&mut app, Key::Up);
    handle_key(&mut app, Key::Other);
    assert_eq!(app.filter, "jq");
    handle_key(&mut app, Key::Backspace);
    handle_key(&mut app, Key::Backspace);
    handle_key(&mut app, Key::Backspace);
    assert_eq!(app.filter, "");
    handle_key(&mut app, Key::Char('a'));
    handle_key(&mut app, Key::Enter);
    assert_eq!(app.mode, Mode::Normal);
    assert_eq!(app.filter, "a");
    assert_eq!(app.filtered, vec![0, 1, 3]);
    handle_key(&mut app, Key::Char('/'));
    handle_key(&mut app, Key::Esc);
    assert_eq!(app.mode, Mode::Normal);
    assert_eq!(app.filter, "");
    assert_eq!(app.filtered, vec![0, 1, 2, 3]);
}

#[test]
fn only_q_in_normal_mode_quits() {
    let mut app = sample();
    assert!(!on_key(&mut app, Key::Char('j')));
    assert!(!on_key(&mut app, Key::Char('/')));
    assert!(!on_key(&mut app, Key::Char('q')));
    assert_eq!(app.filter, "q");
    assert!(!on_key(&mut app, Key::Enter));
    assert!(on_key(&mut app, Key::Char('q')));
    assert_eq!(app.filter, "q");
}
