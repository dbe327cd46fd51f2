use panel_manager::directory::DirPanel;
use panel_manager::element::{DirElem, ElemKind};
use panel_manager::preview::PreviewPanel;

fn elem(path: &str) -> DirElem {
    DirElem::new(path.to_string(), ElemKind::File)
}

fn panel(dir: &str, names: &[&str], show_hidden: bool) -> DirPanel {
    let elements = names.iter().map(|n| elem(&format!("{dir}/{n}"))).collect();
    DirPanel::new(dir.to_string(), elements, show_hidden)
}

fn selected(p: &DirPanel) -> Option<String> {
    p.selected_path().cloned()
}

fn some(path: &str) -> Option<String> {
    Some(path.to_string())
}

#[test]
fn an_entry_knows_its_name() {
    let e = DirElem::new("/tmp/demo/Notes.TXT".to_string(), ElemKind::File);
    assert_eq!(e.path(), "/tmp/demo/Notes.TXT");
    assert_eq!(e.name(), "Notes.TXT");
    assert_eq!(e.kind(), ElemKind::File);
    assert!(!e.is_hidden());
    assert!(!e.is_marked());
    let d = DirElem::new("/tmp/.config".to_string(), ElemKind::Dir);
    assert!(d.is_hidden());
    assert_eq!(d.kind(), ElemKind::Dir);
    assert_eq!(d.name(), ".config");
}

#[test]
fn an_entry_is_marked_and_unmarked() {
    let mut e = elem("/x/a");
    e.mark();
    assert!(e.is_marked());
    e.mark();
    assert!(e.is_marked());
    e.unmark();
    assert!(!e.is_marked());
    e.set_mark(true);
    assert!(e.is_marked());
    let copy = e.duplicate();
    assert_eq!(copy, e);
}

#[test]
fn a_search_matches_in_lowercase() {
    let e = elem("/x/ReadMe.md");
    assert!(e.matches("readme"));
    assert!(e.matches("me.m"));
    assert!(e.matches("d"));
    assert!(!e.matches("ReadMe"));
    assert!(!e.matches("x"));
    assert!(!e.matches(""));
    assert!(!e.matches("readme.mdx"));
}

#[test]
fn an_empty_panel_selects_nothing() {
    let p = DirPanel::empty("/tmp/none".to_string());
    assert_eq!(p.path(), "/tmp/none");
    assert_eq!(selected(&p), None);
    assert!(p.selected().is_none());
    assert_eq!(p.selected_index(), None);
    assert_eq!(p.index_vs_total(), (0, 0));
    assert_eq!(p.elements().len(), 0);
    let q = panel("/tmp/none", &[], false);
    assert_eq!(q, p);
}

#[test]
fn moving_on_an_empty_panel_does_nothing() {
    let mut p = DirPanel::empty("/e".to_string());
    assert!(!p.up(1));
    assert!(!p.down(1));
    assert!(!p.down(usize::MAX));
    p.select_next_marked();
    p.select_prev_marked();
    p.mark_selected_item();
    p.select_path(&"/e/a".to_string());
    assert_eq!(selected(&p), None);
    assert_eq!(p.marked_paths(), Vec::<String>::new());
}

#[test]
fn the_cursor_starts_on_the_first_shown_entry() {
    let p = panel("/d", &[".hidden", "a", "b"], false);
    assert_eq!(selected(&p), some("/d/a"));
    assert_eq!(p.selected_index(), Some(1));
    assert_eq!(p.index_vs_total(), (1, 2));
    let q = panel("/d", &[".hidden", "a", "b"], true);
    assert_eq!(selected(&q), some("/d/.hidden"));
    assert_eq!(q.index_vs_total(), (1, 3));
    assert!(q.shows_hidden());
    assert!(!p.shows_hidden());
}

#[test]
fn up_and_down_stop_at_the_ends() {
    let mut p = panel("/d", &["a", "b", "c", "d", "e"], false);
    assert!(!p.up(1));
    assert_eq!(selected(&p), some("/d/a"));
    assert!(p.down(1));
    assert_eq!(selected(&p), some("/d/b"));
    assert!(p.down(2));
    assert_eq!(selected(&p), some("/d/d"));
    assert_eq!(p.index_vs_total(), (4, 5));
    assert!(p.down(10));
    assert_eq!(selected(&p), some("/d/e"));
    assert!(!p.down(1));
    assert!(!p.down(usize::MAX));
    assert_eq!(selected(&p), some("/d/e"));
    assert!(p.up(3));
    assert_eq!(selected(&p), some("/d/b"));
    assert!(p.up(usize::MAX));
    assert_eq!(selected(&p), some("/d/a"));
    assert!(!p.up(0));
    assert!(!p.down(0));
}

#[test]
fn up_and_down_skip_hidden_entries() {
    let mut p = panel("/d", &["a", ".b", ".c", "d"], false);
    assert!(p.down(1));
    assert_eq!(selected(&p), some("/d/d"));
    assert_eq!(p.selected_index(), Some(3));
    assert!(p.up(1));
    assert_eq!(selected(&p), some("/d/a"));
}

#[test]
fn select_path_finds_shown_entries_only() {
    let mut p = panel("/d", &["a", ".b", "c"], false);
    p.select_path(&"/d/c".to_string());
    assert_eq!(selected(&p), some("/d/c"));
    p.select_path(&"/d/.b".to_string());
    assert_eq!(selected(&p), some("/d/c"));
    p.select_path(&"/d/missing".to_string());
    assert_eq!(selected(&p), some("/d/c"));
    p.select_path(&"/d/a".to_string());
    assert_eq!(selected(&p), some("/d/a"));
}

#[test]
fn the_filter_keeps_the_selection_where_it_can() {
    let mut p = panel("/d", &[".a", "b", ".c", "d"], false);
    p.select_path(&"/d/d".to_string());
    p.set_hidden(true);
    assert_eq!(selected(&p), some("/d/d"));
    assert_eq!(p.index_vs_total(), (4, 4));
    p.select_path(&"/d/.c".to_string());
    assert_eq!(selected(&p), some("/d/.c"));
    p.set_hidden(false);
    assert_eq!(selected(&p), some("/d/d"));
    p.set_hidden(true);
    p.select_path(&"/d/.a".to_string());
    p.set_hidden(false);
    assert_eq!(selected(&p), some("/d/b"));
}

#[test]
fn the_filter_may_leave_nothing_to_show() {
    let mut p = panel("/d", &[".a", ".b"], true);
    p.down(1);
    assert_eq!(selected(&p), some("/d/.b"));
    p.set_hidden(false);
    assert_eq!(selected(&p), None);
    assert_eq!(p.index_vs_total(), (0, 0));
    p.set_hidden(true);
    assert_eq!(selected(&p), some("/d/.a"));
}

#[test]
fn the_filter_goes_to_the_last_entry_when_nothing_follows() {
    let mut p = panel("/d", &["a", "b", ".z"], true);
    p.select_path(&"/d/.z".to_string());
    p.set_hidden(false);
    assert_eq!(selected(&p), some("/d/b"));
}

#[test]
fn marks_persist_across_the_filter() {
    let mut p = panel("/d", &[".a", "b"], true);
    p.mark_selected_item();
    assert_eq!(p.marked_paths(), vec!["/d/.a".to_string()]);
    p.set_hidden(false);
    assert_eq!(p.marked_paths(), vec!["/d/.a".to_string()]);
    p.set_hidden(true);
    assert_eq!(p.marked_paths(), vec!["/d/.a".to_string()]);
    assert!(p.elements()[0].is_marked());
}

#[test]
fn marking_and_unmarking() {
    let mut p = panel("/d", &["a", "b", "c"], false);
    p.mark_selected_item();
    p.down(2);
    p.mark_selected_item();
    assert_eq!(p.marked_paths(), vec!["/d/a".to_string(), "/d/c".to_string()]);
    assert_eq!(selected(&p), some("/d/c"));
    p.unmark_all();
    assert_eq!(p.marked_paths(), Vec::<String>::new());
    assert_eq!(selected(&p), some("/d/c"));
}

#[test]
fn next_and_previous_marked_wrap_around() {
    let mut p = panel("/d", &["a", "b", "c", "d"], false);
    p.down(1);
    p.mark_selected_item();
    p.down(2);
    p.mark_selected_item();
    p.up(usize::MAX);
    p.select_next_marked();
    assert_eq!(selected(&p), some("/d/b"));
    p.select_next_marked();
    assert_eq!(selected(&p), some("/d/d"));
    p.select_next_marked();
    assert_eq!(selected(&p), some("/d/b"));
    p.select_prev_marked();
    assert_eq!(selected(&p), some("/d/d"));
    p.select_prev_marked();
    assert_eq!(selected(&p), some("/d/b"));
    p.up(1);
    p.select_prev_marked();
    assert_eq!(selected(&p), some("/d/d"));
}

#[test]
fn next_marked_without_marks_stays() {
    let mut p = panel("/d", &["a", "b"], false);
    p.down(1);
    p.select_next_marked();
    assert_eq!(selected(&p), some("/d/b"));
    p.select_prev_marked();
    assert_eq!(selected(&p), some("/d/b"));
    p.mark_selected_item();
    p.select_next_marked();
    assert_eq!(selected(&p), some("/d/b"));
    p.select_prev_marked();
    assert_eq!(selected(&p), some("/d/b"));
}

#[test]
fn next_marked_ignores_hidden_marks() {
    let mut p = panel("/d", &["a", ".b", "c"], true);
    p.down(1);
    p.mark_selected_item();
    p.set_hidden(false);
    p.up(usize::MAX);
    p.select_next_marked();
    assert_eq!(selected(&p), some("/d/a"));
}

#[test]
fn a_search_marks_its_matches() {
    let mut p = panel("/d", &["alpha", "Beta", "gamma", ".galaxy"], false);
    p.mark_selected_item();
    p.update_search("g".to_string());
    assert_eq!(p.search(), &Some("g".to_string()));
    assert_eq!(p.marked_paths(), vec!["/d/gamma".to_string()]);
    p.update_search("a".to_string());
    assert_eq!(p.marked_paths(), vec!["/d/alpha".to_string(), "/d/Beta".to_string(), "/d/gamma".to_string()]);
    p.update_search("".to_string());
    assert_eq!(p.marked_paths(), Vec::<String>::new());
    assert_eq!(p.search(), &Some("".to_string()));
    p.update_search("bet".to_string());
    assert_eq!(p.marked_paths(), vec!["/d/Beta".to_string()]);
    p.finish_search("bet");
    assert_eq!(p.search(), &None);
    assert_eq!(p.marked_paths(), vec!["/d/Beta".to_string()]);
    p.update_search("x".to_string());
    p.clear_search();
    assert_eq!(p.search(), &None);
    assert_eq!(p.marked_paths(), Vec::<String>::new());
}

#[test]
fn a_search_finds_hidden_entries_only_when_shown() {
    let mut p = panel("/d", &["gamma", ".galaxy"], true);
    p.update_search("ga".to_string());
    assert_eq!(p.marked_paths(), vec!["/d/gamma".to_string(), "/d/.galaxy".to_string()]);
    p.set_hidden(false);
    p.update_search("ga".to_string());
    assert_eq!(p.marked_paths(), vec!["/d/gamma".to_string()]);
}

#[test]
fn a_copy_is_equal() {
    let mut p = panel("/d", &["a", ".b", "c"], false);
    p.down(1);
    p.mark_selected_item();
    p.update_search("c".to_string());
    let q = p.duplicate();
    assert_eq!(q, p);
    assert_eq!(selected(&q), some("/d/c"));
}

#[test]
fn previews_know_their_path() {
    let dir = PreviewPanel::Dir(panel("/d/sub", &["x"], false));
    let file = PreviewPanel::File { path: "/d/f.txt".to_string(), text: "hello".to_string() };
    assert_eq!(dir.maybe_path(), Some(&"/d/sub".to_string()));
    assert_eq!(file.maybe_path(), Some(&"/d/f.txt".to_string()));
    assert_eq!(PreviewPanel::Nothing.maybe_path(), None);
    assert_eq!(dir.duplicate(), dir);
    assert_eq!(file.duplicate(), file);
}

#[test]
fn previews_of_directories_take_filter_and_marks() {
    let mut inner = panel("/d/sub", &[".x", "y"], true);
    inner.mark_selected_item();
    let mut dir = PreviewPanel::Dir(inner);
    assert_eq!(dir.marked_paths(), vec!["/d/sub/.x".to_string()]);
    dir.set_hidden(false);
    match &dir {
        PreviewPanel::Dir(p) => assert_eq!(p.selected_path(), Some(&"/d/sub/y".to_string())),
        _ => panic!("not a directory"),
    }
    dir.unmark_all();
    assert_eq!(dir.marked_paths(), Vec::<String>::new());
    let mut file = PreviewPanel::File { path: "/d/f".to_string(), text: String::new() };
    file.set_hidden(true);
    file.unmark_all();
    assert_eq!(file.marked_paths(), Vec::<String>::new());
    assert_eq!(file, PreviewPanel::File { path: "/d/f".to_string(), text: String::new() });
}
