use panel_manager::directory::DirPanel;
use panel_manager::element::{DirElem, ElemKind};
use panel_manager::event::{Command, Event, KeyCode, Move};
use panel_manager::layout::MillerColumns;
use panel_manager::manager::PanelManager;
use panel_manager::mode::{Clipboard, Mode};
use panel_manager::preview::PreviewPanel;
use panel_manager::redraw::Redraw;
use panel_manager::session::{After, Answer, Effect, Level, Message, Next, Pending, Question};
use panel_manager::slot::{PanelCache, PanelState, Request};

fn panel(dir: &str, names: &[&str]) -> DirPanel {
    let elements = names.iter().map(|n| DirElem::new(format!("{dir}/{n}"), ElemKind::File)).collect();
    DirPanel::new(dir.to_string(), elements, false)
}

fn state(path: Option<&str>, generation: u64) -> PanelState {
    PanelState { path: path.map(String::from), generation }
}

fn clean() -> Redraw {
    Redraw::new()
}

fn everything() -> Redraw {
    Redraw { left: true, center: true, right: true, console: true, header: true, footer: true, log: false }
}

/// A manager in `/tmp/demo` whose center lists `names` and whose left lists
/// `demo` and `other`; nothing is dirty and no effect is left.
fn manager(names: &[&str]) -> PanelManager {
    let mut m = PanelManager::new((80, 24), "/tmp/demo".to_string(), "/tmp/trash".to_string(), PanelCache::new(), PanelCache::new());
    assert_eq!(m.run(Message::Directory(panel("/tmp/demo", names), state(Some("/tmp/demo"), 1))), Next::Continue);
    assert_eq!(m.run(Message::Directory(panel("/tmp", &["demo", "other"]), state(Some("/tmp"), 1))), Next::Continue);
    m.take_effects();
    m.redraw = clean();
    m
}

fn center(m: &PanelManager) -> Option<String> {
    m.center.panel.selected_path().cloned()
}

fn left(m: &PanelManager) -> Option<String> {
    m.left.panel.selected_path().cloned()
}

fn command(m: &mut PanelManager, key: char, c: Command) -> Next {
    assert_eq!(m.run(Message::Terminal(Event::Key(KeyCode::Char(key)))), Next::Ask(Question::Command(KeyCode::Char(key))));
    m.run(Message::Answer(Answer::Command(c)))
}

#[test]
fn a_new_manager_points_its_slots() {
    let mut m = PanelManager::new((80, 24), "/tmp/demo".to_string(), "/tmp/trash".to_string(), PanelCache::new(), PanelCache::new());
    assert_eq!(m.left.panel.path(), "/tmp");
    assert_eq!(m.center.panel.path(), "/tmp/demo");
    assert_eq!(m.right.panel, PreviewPanel::Nothing);
    assert_eq!(m.left.state, state(Some("/tmp"), 1));
    assert_eq!(m.center.state, state(Some("/tmp/demo"), 1));
    assert_eq!(m.right.state, state(None, 1));
    assert_eq!(m.mode, Mode::Normal);
    assert_eq!(m.clipboard, None);
    assert_eq!(m.layout, MillerColumns::from_size((80, 24)));
    assert!(!m.show_hidden);
    assert!(!m.show_log);
    assert_eq!(m.redraw, Redraw { log: true, ..everything() });
    assert_eq!(m.previous, "/tmp/demo");
    assert_eq!(m.pre_console_path, "/tmp/demo");
    assert_eq!(m.trash_dir, "/tmp/trash");
    assert_eq!(m.pending, Pending::Idle);
    assert_eq!(
        m.take_effects(),
        vec![
            Effect::LoadDirectory(Request { path: "/tmp".to_string(), state: state(Some("/tmp"), 1), delayed: false }),
            Effect::LoadDirectory(Request { path: "/tmp/demo".to_string(), state: state(Some("/tmp/demo"), 1), delayed: false }),
        ]
    );
    assert_eq!(m.take_effects(), Vec::new());
}

#[test]
fn a_new_manager_reads_the_caches() {
    let mut dirs: PanelCache<DirPanel> = PanelCache::new();
    dirs.insert("/tmp/demo".to_string(), panel("/tmp/demo", &["a", "b"]));
    dirs.insert("/tmp".to_string(), panel("/tmp", &["aaa", "demo"]));
    let mut previews: PanelCache<PreviewPanel> = PanelCache::new();
    previews.insert("/tmp/demo/a".to_string(), PreviewPanel::File { path: "/tmp/demo/a".to_string(), text: "A".to_string() });
    let mut m = PanelManager::new((80, 24), "/tmp/demo".to_string(), "/t".to_string(), dirs, previews);
    assert_eq!(center(&m), Some("/tmp/demo/a".to_string()));
    assert_eq!(left(&m), Some("/tmp/demo".to_string()));
    assert_eq!(m.right.panel, PreviewPanel::File { path: "/tmp/demo/a".to_string(), text: "A".to_string() });
    let effects = m.take_effects();
    assert_eq!(effects.len(), 3);
    assert_eq!(effects[2], Effect::LoadPreview(Request { path: "/tmp/demo/a".to_string(), state: state(Some("/tmp/demo/a"), 1), delayed: false }));
}

#[test]
fn a_manager_at_the_root_has_no_parent() {
    let mut m = PanelManager::new((80, 24), "/".to_string(), "/t".to_string(), PanelCache::new(), PanelCache::new());
    assert_eq!(m.left.state, state(None, 1));
    assert_eq!(m.left.panel, DirPanel::empty(String::new()));
    assert_eq!(m.take_effects().len(), 1);
}

#[test]
fn a_loaded_center_asks_for_the_preview() {
    let mut m = PanelManager::new((80, 24), "/tmp/demo".to_string(), "/t".to_string(), PanelCache::new(), PanelCache::new());
    m.take_effects();
    m.redraw = clean();
    m.run(Message::Directory(panel("/tmp/demo", &["a", "b"]), state(Some("/tmp/demo"), 1)));
    assert_eq!(center(&m), Some("/tmp/demo/a".to_string()));
    assert_eq!(m.center.state, state(Some("/tmp/demo"), 2));
    assert_eq!(m.right.state, state(Some("/tmp/demo/a"), 2));
    assert_eq!(m.take_effects(), vec![Effect::LoadPreview(Request { path: "/tmp/demo/a".to_string(), state: state(Some("/tmp/demo/a"), 2), delayed: true })]);
    assert_eq!(m.redraw, Redraw { center: true, right: true, footer: true, header: true, log: true, console: true, left: false });
    assert_eq!(m.directories.get(&"/tmp/demo".to_string()), Some(panel("/tmp/demo", &["a", "b"])));
}

#[test]
fn a_loaded_left_selects_the_current_directory() {
    let mut m = PanelManager::new((80, 24), "/tmp/demo".to_string(), "/t".to_string(), PanelCache::new(), PanelCache::new());
    m.take_effects();
    m.redraw = clean();
    m.run(Message::Directory(panel("/tmp", &["aaa", "demo", "zzz"]), state(Some("/tmp"), 1)));
    assert_eq!(left(&m), Some("/tmp/demo".to_string()));
    assert_eq!(m.left.state, state(Some("/tmp"), 2));
    assert_eq!(m.center.state, state(Some("/tmp/demo"), 1));
    assert_eq!(m.take_effects(), Vec::new());
    assert_eq!(m.redraw, Redraw { left: true, log: true, console: true, ..clean() });
}

#[test]
fn a_stale_directory_is_dropped() {
    let mut m = manager(&["a", "b"]);
    let before_center = m.center.panel.duplicate();
    let before_left = m.left.panel.duplicate();
    for stale in [state(Some("/tmp/demo"), 1), state(Some("/tmp/demo"), 3), state(Some("/elsewhere"), 2), state(None, 2), state(Some("/tmp"), 1)] {
        assert_eq!(m.run(Message::Directory(panel("/tmp/demo", &["x"]), stale)), Next::Continue);
    }
    assert_eq!(m.center.panel, before_center);
    assert_eq!(m.left.panel, before_left);
    assert_eq!(m.center.state, state(Some("/tmp/demo"), 2));
    assert_eq!(m.redraw, clean());
    let effects = m.take_effects();
    assert_eq!(effects.len(), 5);
    assert_eq!(effects[0], Effect::Log(Level::Error, "unknown panel update".to_string()));
}

#[test]
fn a_preview_is_taken_by_its_state_only() {
    let mut m = manager(&["a", "b"]);
    let file = PreviewPanel::File { path: "/tmp/demo/a".to_string(), text: "A".to_string() };
    m.run(Message::Preview(file.duplicate(), state(Some("/tmp/demo/a"), 1)));
    m.run(Message::Preview(file.duplicate(), state(Some("/tmp/demo/b"), 2)));
    assert_eq!(m.right.panel, PreviewPanel::Nothing);
    assert_eq!(m.redraw, clean());
    assert_eq!(m.take_effects(), Vec::new());
    m.run(Message::Preview(file.duplicate(), state(Some("/tmp/demo/a"), 2)));
    assert_eq!(m.right.panel, file);
    assert_eq!(m.right.state, state(Some("/tmp/demo/a"), 3));
    assert_eq!(m.redraw, Redraw { right: true, log: true, console: true, ..clean() });
    assert_eq!(m.previews.get(&"/tmp/demo/a".to_string()), Some(file));
}

#[test]
fn the_log_signal_dirties_the_log() {
    let mut m = manager(&["a"]);
    assert_eq!(m.run(Message::Log), Next::Continue);
    assert_eq!(m.redraw, Redraw { log: true, ..clean() });
}

#[test]
fn a_closed_source_ends_the_loop() {
    let mut m = manager(&["a"]);
    assert_eq!(m.run(Message::Closed), Next::Quit);
    assert_eq!(m.center.panel.path(), "/tmp/demo");
}

#[test]
fn redraw_setters_mark_their_regions() {
    let mut m = manager(&["a"]);
    m.redraw_header();
    assert_eq!(m.redraw, Redraw { header: true, ..clean() });
    m.redraw = clean();
    m.redraw_footer();
    assert_eq!(m.redraw, Redraw { footer: true, ..clean() });
    m.redraw = clean();
    m.redraw_panels();
    assert_eq!(m.redraw, Redraw { left: true, center: true, right: true, header: true, footer: true, ..clean() });
    m.redraw = clean();
    m.redraw_left();
    assert_eq!(m.redraw, Redraw { left: true, log: true, ..clean() });
    m.redraw = clean();
    m.redraw_center();
    assert_eq!(m.redraw, Redraw { center: true, footer: true, header: true, log: true, ..clean() });
    m.redraw = clean();
    m.redraw_right();
    assert_eq!(m.redraw, Redraw { right: true, log: true, ..clean() });
    m.redraw = clean();
    m.redraw_console();
    assert_eq!(m.redraw, Redraw { console: true, ..clean() });
    m.redraw = clean();
    m.redraw_log();
    assert_eq!(m.redraw, Redraw { log: true, ..clean() });
    m.redraw = clean();
    m.redraw_everything();
    assert_eq!(m.redraw, everything());
}

#[test]
fn move_up_at_the_top_is_a_no_op() {
    let mut m = manager(&["a", "b", "c"]);
    let right = m.right.state.duplicate();
    m.move_up(1);
    m.move_up(usize::MAX);
    assert_eq!(center(&m), Some("/tmp/demo/a".to_string()));
    assert_eq!(m.redraw, clean());
    assert_eq!(m.take_effects(), Vec::new());
    assert_eq!(m.right.state, right);
}

#[test]
fn move_down_at_the_bottom_is_a_no_op() {
    let mut m = manager(&["a", "b", "c"]);
    m.move_down(2);
    m.take_effects();
    m.redraw = clean();
    let right = m.right.state.duplicate();
    m.move_down(1);
    m.move_down(usize::MAX);
    assert_eq!(center(&m), Some("/tmp/demo/c".to_string()));
    assert_eq!(m.redraw, clean());
    assert_eq!(m.take_effects(), Vec::new());
    assert_eq!(m.right.state, right);
}

#[test]
fn moving_the_cursor_asks_for_the_preview() {
    let mut m = manager(&["a", "b", "c"]);
    m.move_down(1);
    assert_eq!(center(&m), Some("/tmp/demo/b".to_string()));
    assert_eq!(m.redraw, Redraw { center: true, right: true, footer: true, header: true, log: true, ..clean() });
    assert_eq!(m.take_effects(), vec![Effect::LoadPreview(Request { path: "/tmp/demo/b".to_string(), state: state(Some("/tmp/demo/b"), 3), delayed: true })]);
    m.move_up(1);
    assert_eq!(center(&m), Some("/tmp/demo/a".to_string()));
    assert_eq!(m.take_effects(), vec![Effect::LoadPreview(Request { path: "/tmp/demo/a".to_string(), state: state(Some("/tmp/demo/a"), 4), delayed: true })]);
}

#[test]
fn held_keys_leave_only_the_last_preview_current() {
    let mut m = manager(&["a", "b", "c", "d", "e", "f", "g", "h", "i", "j", "k"]);
    for _ in 0..10 {
        m.move_down(1);
    }
    let effects = m.take_effects();
    assert_eq!(effects.len(), 10);
    let mut current = 0;
    for effect in &effects {
        match effect {
            Effect::LoadPreview(r) => {
                assert!(r.delayed);
                if m.right.is_current(&r.state) {
                    current += 1;
                    assert_eq!(r.path, "/tmp/demo/k");
                }
            }
            other => panic!("unexpected effect {:?}", other),
        }
    }
    assert_eq!(current, 1);
}

#[test]
fn page_moves_go_by_the_height() {
    let names: Vec<String> = (0..100).map(|i| format!("f{:03}", i)).collect();
    let refs: Vec<&str> = names.iter().map(|s| s.as_str()).collect();
    let mut m = manager(&refs);
    assert_eq!(m.layout.height(), 22);
    assert_eq!(m.move_cursor(Move::PageForward), Next::Continue);
    assert_eq!(center(&m), Some("/tmp/demo/f022".to_string()));
    m.move_cursor(Move::HalfPageForward);
    assert_eq!(center(&m), Some("/tmp/demo/f033".to_string()));
    m.move_cursor(Move::HalfPageBackward);
    assert_eq!(center(&m), Some("/tmp/demo/f022".to_string()));
    m.move_cursor(Move::PageBackward);
    assert_eq!(center(&m), Some("/tmp/demo/f000".to_string()));
    m.move_cursor(Move::Bottom);
    assert_eq!(center(&m), Some("/tmp/demo/f099".to_string()));
    m.move_cursor(Move::Up);
    assert_eq!(center(&m), Some("/tmp/demo/f098".to_string()));
    m.move_cursor(Move::Down);
    assert_eq!(center(&m), Some("/tmp/demo/f099".to_string()));
    m.move_cursor(Move::Top);
    assert_eq!(center(&m), Some("/tmp/demo/f000".to_string()));
}

#[test]
fn select_changes_the_selection_once() {
    let mut m = manager(&["a", "b"]);
    m.select(&"/tmp/demo/a".to_string());
    assert_eq!(m.redraw, clean());
    assert_eq!(m.take_effects(), Vec::new());
    m.select(&"/tmp/demo/b".to_string());
    assert_eq!(center(&m), Some("/tmp/demo/b".to_string()));
    assert_eq!(m.take_effects().len(), 1);
    assert_eq!(m.redraw, Redraw { center: true, right: true, footer: true, header: true, log: true, ..clean() });
}

#[test]
fn toggle_hidden_flips_all_panels_and_reselects() {
    let mut m = PanelManager::new((80, 24), "/tmp/.demo".to_string(), "/t".to_string(), PanelCache::new(), PanelCache::new());
    m.run(Message::Directory(panel("/tmp/.demo", &[".x", "y"]), state(Some("/tmp/.demo"), 1)));
    m.run(Message::Directory(panel("/tmp", &[".demo", "other"]), state(Some("/tmp"), 1)));
    m.right.panel = PreviewPanel::Dir(panel("/tmp/.demo/y", &[".p", "q"]));
    m.take_effects();
    m.redraw = clean();
    assert_eq!(left(&m), Some("/tmp/other".to_string()));
    assert_eq!(center(&m), Some("/tmp/.demo/y".to_string()));
    m.toggle_hidden();
    assert!(m.show_hidden);
    assert!(m.left.panel.shows_hidden() && m.center.panel.shows_hidden());
    assert_eq!(left(&m), Some("/tmp/.demo".to_string()));
    assert_eq!(center(&m), Some("/tmp/.demo/y".to_string()));
    assert_eq!(m.center.panel.index_vs_total(), (2, 2));
    match &m.right.panel {
        PreviewPanel::Dir(p) => assert!(p.shows_hidden()),
        _ => panic!("not a directory"),
    }
    assert_eq!(m.redraw, everything());
    assert_eq!(m.take_effects(), Vec::new());
    m.toggle_hidden();
    assert!(!m.show_hidden);
    assert_eq!(left(&m), Some("/tmp/other".to_string()));
}

#[test]
fn toggle_log_draws_the_log_or_everything() {
    let mut m = manager(&["a"]);
    m.toggle_log();
    assert!(m.show_log);
    assert_eq!(m.redraw, Redraw { log: true, ..clean() });
    m.redraw = clean();
    m.toggle_log();
    assert!(!m.show_log);
    assert_eq!(m.redraw, everything());
}

#[test]
fn jump_to_the_current_path_is_a_no_op() {
    let mut m = manager(&["a"]);
    let before = (m.left.state.duplicate(), m.center.state.duplicate(), m.right.state.duplicate());
    m.jump("/tmp/demo".to_string(), true);
    m.jump("/tmp/demo".to_string(), false);
    assert_eq!((m.left.state.duplicate(), m.center.state.duplicate(), m.right.state.duplicate()), before);
    assert_eq!(m.redraw, clean());
    assert_eq!(m.previous, "/tmp/demo");
    assert_eq!(m.take_effects(), Vec::new());
    assert_eq!(m.move_cursor(Move::JumpTo("/tmp/demo".to_string())), Next::Continue);
    assert_eq!(m.pending, Pending::Idle);
}

#[test]
fn jump_to_a_missing_path_is_a_no_op() {
    let mut m = manager(&["a"]);
    m.jump("/nowhere".to_string(), false);
    assert_eq!(m.center.panel.path(), "/tmp/demo");
    assert_eq!(m.redraw, clean());
    assert_eq!(m.take_effects(), Vec::new());
}

#[test]
fn jump_points_left_and_center() {
    let mut m = manager(&["a"]);
    m.directories.insert("/home".to_string(), panel("/home", &["u", "v"]));
    m.jump("/home/v".to_string(), true);
    assert_eq!(m.previous, "/tmp/demo");
    assert_eq!(m.left.panel.path(), "/home");
    assert_eq!(left(&m), Some("/home/v".to_string()));
    assert_eq!(m.center.panel, DirPanel::empty("/home/v".to_string()));
    assert_eq!(m.right.panel, PreviewPanel::Nothing);
    assert_eq!(m.redraw, Redraw { left: true, center: true, right: true, header: true, footer: true, ..clean() });
    assert_eq!(
        m.take_effects(),
        vec![
            Effect::LoadDirectory(Request { path: "/home".to_string(), state: state(Some("/home"), 3), delayed: false }),
            Effect::LoadDirectory(Request { path: "/home/v".to_string(), state: state(Some("/home/v"), 3), delayed: false }),
        ]
    );
}

#[test]
fn jump_commands_ask_whether_the_path_exists() {
    let mut m = manager(&["a"]);
    assert_eq!(command(&mut m, 'g', Command::Move(Move::JumpTo("/home".to_string()))), Next::Ask(Question::Exists("/home".to_string())));
    assert_eq!(m.pending, Pending::Jump { path: "/home".to_string(), after: After::Nothing });
    assert_eq!(m.run(Message::Answer(Answer::Exists(true))), Next::Continue);
    assert_eq!(m.center.panel.path(), "/home");
    assert_eq!(m.pending, Pending::Idle);
    assert_eq!(command(&mut m, '\'', Command::Move(Move::JumpPrevious)), Next::Ask(Question::Exists("/tmp/demo".to_string())));
    m.run(Message::Answer(Answer::Exists(true)));
    assert_eq!(m.center.panel.path(), "/tmp/demo");
    assert_eq!(m.previous, "/home");
    assert_eq!(command(&mut m, 't', Command::ViewTrash), Next::Ask(Question::Exists("/tmp/trash".to_string())));
    m.run(Message::Answer(Answer::Exists(false)));
    assert_eq!(m.center.panel.path(), "/tmp/demo");
}

#[test]
fn move_left_without_a_selection_does_nothing() {
    let mut m = PanelManager::new((80, 24), "/tmp/demo".to_string(), "/t".to_string(), PanelCache::new(), PanelCache::new());
    m.take_effects();
    m.redraw = clean();
    m.move_left();
    assert_eq!(m.center.panel.path(), "/tmp/demo");
    assert_eq!(m.redraw, clean());
    assert_eq!(m.take_effects(), Vec::new());
}

#[test]
fn move_left_shifts_the_panels() {
    let mut m = manager(&["a", "b"]);
    m.center.panel.mark_selected_item();
    m.left.panel.mark_selected_item();
    m.move_left();
    assert_eq!(m.previous, "/tmp/demo");
    assert_eq!(m.center.panel.path(), "/tmp");
    assert_eq!(center(&m), Some("/tmp/demo".to_string()));
    match &m.right.panel {
        PreviewPanel::Dir(p) => {
            assert_eq!(p.path(), "/tmp/demo");
            assert_eq!(p.marked_paths(), Vec::<String>::new());
        }
        _ => panic!("not a directory"),
    }
    assert_eq!(m.left.panel.path(), "/");
    assert_eq!(m.left.panel.marked_paths(), Vec::<String>::new());
    assert_eq!(m.center.panel.marked_paths(), vec!["/tmp/demo".to_string()]);
    assert_eq!(m.redraw, Redraw { left: true, center: true, right: true, header: true, footer: true, ..clean() });
    assert_eq!(m.take_effects(), vec![Effect::LoadDirectory(Request { path: "/".to_string(), state: state(Some("/"), 3), delayed: false })]);
}

#[test]
fn move_right_on_nothing_does_nothing() {
    let mut m = manager(&[]);
    assert_eq!(m.move_right(), Next::Continue);
    assert_eq!(m.pending, Pending::Idle);
    assert_eq!(m.redraw, clean());
}

#[test]
fn move_right_enters_a_directory() {
    let mut m = manager(&["sub", "z"]);
    m.directories.insert("/tmp/demo/sub".to_string(), panel("/tmp/demo/sub", &["x", "y"]));
    m.right.panel = PreviewPanel::Dir(panel("/tmp/demo/sub", &["x", "y"]));
    m.center.panel.mark_selected_item();
    assert_eq!(command(&mut m, 'l', Command::Move(Move::Right)), Next::Ask(Question::IsDir("/tmp/demo/sub".to_string())));
    assert_eq!(m.run(Message::Answer(Answer::IsDir(true))), Next::Continue);
    assert_eq!(m.previous, "/tmp/demo");
    assert_eq!(m.left.panel.path(), "/tmp/demo");
    assert_eq!(left(&m), Some("/tmp/demo/sub".to_string()));
    assert_eq!(m.left.panel.marked_paths(), Vec::<String>::new());
    assert_eq!(m.center.panel, panel("/tmp/demo/sub", &["x", "y"]));
    assert_eq!(m.right.state.path, Some("/tmp/demo/sub/x".to_string()));
    assert_eq!(m.redraw, Redraw { left: true, center: true, right: true, header: true, footer: true, ..clean() });
    let effects = m.take_effects();
    assert_eq!(effects.len(), 2);
    assert!(matches!(&effects[0], Effect::LoadDirectory(r) if r.path == "/tmp/demo/sub" && !r.delayed));
    assert!(matches!(&effects[1], Effect::LoadPreview(r) if r.path == "/tmp/demo/sub/x" && r.delayed));
}

#[test]
fn right_then_left_returns_to_the_start() {
    let mut m = manager(&["sub", "z"]);
    m.directories.insert("/tmp/demo/sub".to_string(), panel("/tmp/demo/sub", &["x", "y"]));
    m.right.panel = PreviewPanel::Dir(panel("/tmp/demo/sub", &["x", "y"]));
    let left_before = m.left.panel.duplicate();
    let center_before = m.center.panel.duplicate();
    let right_before = m.right.panel.duplicate();
    m.move_into();
    m.move_left();
    assert_eq!(m.left.panel, left_before);
    assert_eq!(m.center.panel, center_before);
    assert_eq!(m.right.panel, right_before);
}

#[test]
fn horizontal_moves_clear_marks_left_and_right() {
    let mut m = manager(&["sub"]);
    let mut marked = panel("/tmp/demo/sub", &["x"]);
    marked.mark_selected_item();
    m.right.panel = PreviewPanel::Dir(marked.duplicate());
    m.left.panel.mark_selected_item();
    m.move_left();
    assert_eq!(m.left.panel.marked_paths(), Vec::<String>::new());
    assert_eq!(m.right.panel.marked_paths(), Vec::<String>::new());
    m.left.panel = panel("/", &["tmp"]);
    m.left.panel.mark_selected_item();
    m.right.panel = PreviewPanel::Dir(marked.duplicate());
    m.move_into();
    assert_eq!(m.left.panel.marked_paths(), Vec::<String>::new());
    assert_eq!(m.right.panel.marked_paths(), Vec::<String>::new());
    m.left.panel.mark_selected_item();
    m.right.panel = PreviewPanel::Dir(marked);
    m.opened();
    assert_eq!(m.left.panel.marked_paths(), Vec::<String>::new());
    assert_eq!(m.right.panel.marked_paths(), Vec::<String>::new());
}

#[test]
fn marked_items_come_from_all_panels() {
    let mut m = manager(&["a", "b"]);
    let mut sub = panel("/tmp/demo/a", &["x", "y"]);
    sub.down(1);
    sub.mark_selected_item();
    m.right.panel = PreviewPanel::Dir(sub);
    m.left.panel.mark_selected_item();
    m.center.panel.down(1);
    m.center.panel.mark_selected_item();
    assert_eq!(m.marked_items(), vec!["/tmp/demo".to_string(), "/tmp/demo/b".to_string(), "/tmp/demo/a/y".to_string()]);
    assert_eq!(m.marked_or_selected(), vec!["/tmp/demo".to_string(), "/tmp/demo/b".to_string(), "/tmp/demo/a/y".to_string()]);
    assert_eq!(m.center.panel.marked_paths(), vec!["/tmp/demo/b".to_string()]);
    m.unmark_left_right();
    assert_eq!(m.marked_items(), vec!["/tmp/demo/b".to_string()]);
    m.unmark_all_items();
    assert_eq!(m.marked_items(), Vec::<String>::new());
}

#[test]
fn marked_or_selected_marks_the_selection() {
    let mut m = manager(&["a", "b"]);
    m.center.panel.down(1);
    assert_eq!(m.marked_or_selected(), vec!["/tmp/demo/b".to_string()]);
    assert_eq!(m.center.panel.marked_paths(), vec!["/tmp/demo/b".to_string()]);
    assert_eq!(m.marked_or_selected(), vec!["/tmp/demo/b".to_string()]);
    let mut empty = manager(&[]);
    assert_eq!(empty.marked_or_selected(), Vec::<String>::new());
}

#[test]
fn a_resize_gives_a_new_layout_and_a_full_redraw() {
    let mut m = manager(&["a"]);
    assert_eq!(m.run(Message::Terminal(Event::Resize(120, 40))), Next::Continue);
    assert_eq!(m.layout, MillerColumns::from_size((120, 40)));
    assert_eq!(m.layout.left_x_range.end, 15);
    assert_eq!(m.layout.center_x_range.end, 60);
    assert_eq!(m.layout.footer(), 39);
    assert_eq!(m.redraw, everything());
    assert_eq!(m.take_effects(), Vec::new());
    m.redraw = clean();
    m.handle_event(Event::Resize(1, 1));
    assert_eq!(m.redraw, everything());
    assert_eq!(m.layout.right_x_range.end, 1);
}

#[test]
fn other_events_do_nothing() {
    let mut m = manager(&["a"]);
    assert_eq!(m.run(Message::Terminal(Event::Other)), Next::Continue);
    assert_eq!(m.redraw, clean());
}

#[test]
fn an_empty_directory_selects_nothing_and_previews_nothing() {
    let mut m = manager(&["a"]);
    m.run(Message::Preview(PreviewPanel::File { path: "/tmp/demo/a".to_string(), text: "A".to_string() }, m.right.state.duplicate()));
    let current = m.center.state.duplicate();
    m.run(Message::Directory(panel("/tmp/demo", &[]), current));
    assert_eq!(center(&m), None);
    assert_eq!(m.center.panel.index_vs_total(), (0, 0));
    assert_eq!(m.right.panel, PreviewPanel::Nothing);
    assert_eq!(m.right.state.path, None);
}

#[test]
fn simple_commands_change_the_mode() {
    let mut m = manager(&["a"]);
    assert_eq!(command(&mut m, '/', Command::Search), Next::Continue);
    assert_eq!(m.mode, Mode::Search { input: String::new() });
    assert_eq!(m.redraw, Redraw { footer: true, ..clean() });
    m.mode = Mode::Normal;
    command(&mut m, 'm', Command::Mkdir);
    assert_eq!(m.mode, Mode::CreateItem { input: String::new(), is_dir: true });
    m.mode = Mode::Normal;
    command(&mut m, 't', Command::Touch);
    assert_eq!(m.mode, Mode::CreateItem { input: String::new(), is_dir: false });
    m.mode = Mode::Normal;
    m.redraw = clean();
    assert_eq!(command(&mut m, 'x', Command::Incomplete), Next::Continue);
    assert_eq!(m.redraw, Redraw { footer: true, ..clean() });
    assert_eq!(command(&mut m, 'z', Command::ToggleHidden), Next::Continue);
    assert!(m.show_hidden);
    command(&mut m, 'L', Command::ToggleLog);
    assert!(m.show_log);
    assert_eq!(command(&mut m, 'q', Command::Quit), Next::Quit);
}

#[test]
fn cut_and_copy_fill_the_clipboard() {
    let mut m = manager(&["a", "b"]);
    command(&mut m, 'y', Command::Copy);
    assert_eq!(m.clipboard, Some(Clipboard { files: vec!["/tmp/demo/a".to_string()], cut: false }));
    assert_eq!(m.take_effects(), vec![Effect::Log(Level::Info, "copying 1 items".to_string())]);
    m.center.panel.down(1);
    m.center.panel.mark_selected_item();
    command(&mut m, 'x', Command::Cut);
    assert_eq!(m.clipboard, Some(Clipboard { files: vec!["/tmp/demo/a".to_string(), "/tmp/demo/b".to_string()], cut: true }));
    assert_eq!(m.take_effects(), vec![Effect::Log(Level::Info, "cut 2 items".to_string())]);
}

#[test]
fn paste_empties_the_clipboard() {
    let mut m = manager(&["a", "b"]);
    command(&mut m, 'x', Command::Cut);
    m.take_effects();
    m.redraw = clean();
    command(&mut m, 'p', Command::Paste { overwrite: true });
    assert_eq!(m.clipboard, None);
    assert_eq!(m.marked_items(), Vec::<String>::new());
    let effects = m.take_effects();
    assert_eq!(effects.len(), 4);
    assert_eq!(effects[0], Effect::Paste { files: vec!["/tmp/demo/a".to_string()], cut: true, target: "/tmp/demo".to_string(), overwrite: true });
    assert!(matches!(&effects[1], Effect::LoadDirectory(r) if r.path == "/tmp"));
    assert!(matches!(&effects[2], Effect::LoadDirectory(r) if r.path == "/tmp/demo"));
    assert!(matches!(&effects[3], Effect::LoadPreview(r) if r.path == "/tmp/demo/a" && !r.delayed));
    assert_eq!(m.redraw, Redraw { left: true, center: true, right: true, header: true, footer: true, ..clean() });
    command(&mut m, 'p', Command::Paste { overwrite: false });
    let again = m.take_effects();
    assert_eq!(again.len(), 3);
    assert!(again.iter().all(|e| !matches!(e, Effect::Paste { .. })));
}

#[test]
fn cut_then_paste_in_place_names_the_same_directory() {
    let mut m = manager(&["a"]);
    command(&mut m, 'x', Command::Cut);
    command(&mut m, 'p', Command::Paste { overwrite: false });
    let effects = m.take_effects();
    let paste = effects.iter().find(|e| matches!(e, Effect::Paste { .. })).unwrap();
    assert_eq!(paste, &Effect::Paste { files: vec!["/tmp/demo/a".to_string()], cut: true, target: "/tmp/demo".to_string(), overwrite: false });
}

#[test]
fn next_and_previous_go_to_marked_entries() {
    let mut m = manager(&["a", "b", "c"]);
    m.center.panel.down(2);
    m.center.panel.mark_selected_item();
    m.center.panel.up(2);
    command(&mut m, 'n', Command::Next);
    assert_eq!(center(&m), Some("/tmp/demo/c".to_string()));
    assert_eq!(m.right.state.path, Some("/tmp/demo/c".to_string()));
    m.center.panel.up(1);
    m.center.panel.mark_selected_item();
    command(&mut m, 'N', Command::Previous);
    assert_eq!(center(&m), Some("/tmp/demo/c".to_string()));
    command(&mut m, 'N', Command::Previous);
    assert_eq!(center(&m), Some("/tmp/demo/b".to_string()));
}

#[test]
fn terminal_events_wait_while_a_question_is_open() {
    let mut m = manager(&["a", "b"]);
    assert_eq!(m.run(Message::Terminal(Event::Key(KeyCode::Char('j')))), Next::Ask(Question::Command(KeyCode::Char('j'))));
    assert_eq!(m.pending, Pending::Command);
    assert_eq!(m.run(Message::Terminal(Event::Key(KeyCode::Char('k')))), Next::Continue);
    assert_eq!(m.run(Message::Terminal(Event::Resize(10, 10))), Next::Continue);
    assert_eq!(m.pending, Pending::Command);
    assert_eq!(m.layout, MillerColumns::from_size((80, 24)));
    assert_eq!(m.run(Message::Log), Next::Continue);
    assert_eq!(m.run(Message::Answer(Answer::Command(Command::Move(Move::Down)))), Next::Continue);
    assert_eq!(center(&m), Some("/tmp/demo/b".to_string()));
    assert_eq!(m.pending, Pending::Idle);
}

#[test]
fn an_answer_to_another_question_changes_nothing() {
    let mut m = manager(&["a", "b"]);
    for answer in [Answer::Exists(true), Answer::IsDir(true), Answer::Opened, Answer::Edited(None), Answer::Console(None), Answer::Command(Command::Quit)] {
        assert_eq!(m.run(Message::Answer(answer)), Next::Continue);
    }
    assert_eq!(m.pending, Pending::Idle);
    assert_eq!(m.redraw, clean());
    m.run(Message::Terminal(Event::Key(KeyCode::Char('j'))));
    assert_eq!(m.resume(Answer::Exists(true)), Next::Continue);
    assert_eq!(m.resume(Answer::Opened), Next::Continue);
    assert_eq!(m.pending, Pending::Command);
    assert_eq!(m.take_effects(), Vec::new());
}

#[test]
fn a_new_mark_dirties_the_center() {
    let mut m = manager(&["a"]);
    assert_eq!(command(&mut m, ' ', Command::Mark), Next::Continue);
    assert_eq!(m.center.panel.marked_paths(), vec!["/tmp/demo/a".to_string()]);
    assert_eq!(center(&m), Some("/tmp/demo/a".to_string()));
    assert_eq!(m.redraw, Redraw { center: true, ..clean() });
    assert_eq!(m.take_effects(), Vec::new());
    let mut two = manager(&["a", "b"]);
    two.mark();
    assert_eq!(center(&two), Some("/tmp/demo/b".to_string()));
    assert_eq!(two.redraw, Redraw { center: true, right: true, footer: true, header: true, log: true, ..clean() });
    let mut none = manager(&[]);
    none.mark();
    assert_eq!(none.redraw, clean());
}

#[test]
fn choosing_the_selection_dirties_the_center() {
    let mut m = manager(&["a", "b"]);
    assert_eq!(m.marked_or_selected(), vec!["/tmp/demo/a".to_string()]);
    assert_eq!(m.redraw, Redraw { center: true, ..clean() });
    m.redraw = clean();
    assert_eq!(m.marked_or_selected(), vec!["/tmp/demo/a".to_string()]);
    assert_eq!(m.redraw, clean());
    let mut none = manager(&[]);
    assert_eq!(none.marked_or_selected(), Vec::<String>::new());
    assert_eq!(none.redraw, clean());
}

#[test]
fn left_and_center_are_told_apart_by_state() {
    let mut m = PanelManager::new((80, 24), "/tmp/demo".to_string(), "/t".to_string(), PanelCache::new(), PanelCache::new());
    m.run(Message::Directory(panel("/tmp", &["demo"]), state(Some("/tmp"), 1)));
    assert_eq!(m.left.panel, {
        let mut p = panel("/tmp", &["demo"]);
        p.select_path(&"/tmp/demo".to_string());
        p
    });
    assert_eq!(m.center.panel, DirPanel::empty("/tmp/demo".to_string()));
    m.run(Message::Directory(panel("/tmp/demo", &["x"]), state(Some("/tmp/demo"), 1)));
    assert_eq!(m.center.panel, panel("/tmp/demo", &["x"]));
    assert_eq!(m.left.panel.path(), "/tmp");
}
