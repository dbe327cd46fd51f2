use panel_manager::directory::DirPanel;
use panel_manager::element::{DirElem, ElemKind};
use panel_manager::fileinfo::{details, modified, stamp, Civil, FileInfo};
use panel_manager::layout::Span;
use panel_manager::manager::PanelManager;
use panel_manager::mode::Mode;
use panel_manager::redraw::Redraw;
use panel_manager::render::{Color, Column, DrawOp, LogLine, Scene, Style};
use panel_manager::session::{Level, Message};
use panel_manager::slot::{PanelCache, PanelState};

fn panel(dir: &str, names: &[&str]) -> DirPanel {
    let elements = names.iter().map(|n| DirElem::new(format!("{dir}/{n}"), ElemKind::File)).collect();
    DirPanel::new(dir.to_string(), elements, false)
}

fn state(path: Option<&str>, generation: u64) -> PanelState {
    PanelState { path: path.map(String::from), generation }
}

fn clean() -> Redraw {
    Redraw::new()
}

fn manager(names: &[&str]) -> PanelManager {
    let mut m = PanelManager::new((80, 24), "/tmp/demo".to_string(), "/tmp/trash".to_string(), PanelCache::new(), PanelCache::new());
    m.run(Message::Directory(panel("/tmp/demo", names), state(Some("/tmp/demo"), 1)));
    m.run(Message::Directory(panel("/tmp", &["demo", "other"]), state(Some("/tmp"), 1)));
    m.take_effects();
    m.redraw = clean();
    m
}

fn scene() -> Scene {
    Scene { user: "ann".to_string(), host: "box".to_string(), canonical: None, info: None, key_buffer: String::new(), log: Vec::new(), log_capacity: 5 }
}

fn plain(color: Color) -> Style {
    Style { color, bold: false, reverse: false }
}

fn strong(color: Color) -> Style {
    Style { color, bold: true, reverse: false }
}

fn label() -> Style {
    Style { color: Color::DarkGreen, bold: true, reverse: true }
}

fn info() -> FileInfo {
    FileInfo { mode: 0o100640, modified: Some(1_700_000_000), user: "ann".to_string(), group: "staff".to_string(), size: "1.5 K".to_string() }
}

#[test]
fn nothing_is_drawn_when_nothing_is_dirty() {
    let mut m = manager(&["a"]);
    assert_eq!(m.draw(&scene()), Vec::new());
    assert_eq!(m.redraw, clean());
    assert_eq!(m.draw_footer(&scene()), Vec::new());
    assert_eq!(m.draw_header(&scene()), Vec::new());
    assert_eq!(m.draw_panels(&scene()), Vec::new());
    assert_eq!(m.draw_console(), Vec::new());
    assert_eq!(m.draw_log(&scene()), Vec::new());
}

#[test]
fn a_draw_clears_the_flags_of_what_it_drew() {
    let mut m = manager(&["a"]);
    m.redraw = Redraw { left: true, center: true, right: true, console: true, log: true, header: true, footer: true };
    let ops = m.draw(&scene());
    assert_eq!(ops.first(), Some(&DrawOp::Hide));
    assert_eq!(ops.last(), Some(&DrawOp::Flush));
    assert_eq!(m.redraw, Redraw { log: true, ..clean() });
    m.show_log = true;
    let ops = m.draw(&scene());
    assert_eq!(ops, vec![DrawOp::Hide, DrawOp::Flush]);
    assert_eq!(m.redraw, clean());
    assert_eq!(m.draw(&scene()), Vec::new());
}

#[test]
fn each_subdraw_clears_only_its_own_flag() {
    let all = Redraw { left: true, center: true, right: true, console: true, log: true, header: true, footer: true };
    let mut m = manager(&["a"]);
    m.show_log = true;
    m.redraw = all;
    m.draw_footer(&scene());
    assert_eq!(m.redraw, Redraw { footer: false, ..all });
    m.redraw = all;
    m.draw_header(&scene());
    assert_eq!(m.redraw, Redraw { header: false, ..all });
    m.redraw = all;
    m.draw_panels(&scene());
    assert_eq!(m.redraw, Redraw { left: false, center: false, right: false, ..all });
    m.redraw = all;
    m.draw_console();
    assert_eq!(m.redraw, Redraw { console: false, ..all });
    m.redraw = all;
    m.draw_log(&scene());
    assert_eq!(m.redraw, Redraw { log: false, ..all });
    m.show_log = false;
    m.redraw = all;
    m.draw_log(&scene());
    assert_eq!(m.redraw, all);
}

#[test]
fn a_full_draw_goes_footer_header_panels_console_log() {
    let mut m = manager(&[]);
    m.show_log = true;
    m.mode = Mode::Console;
    m.redraw = Redraw { left: true, center: false, right: false, console: true, log: true, header: true, footer: true };
    let mut s = scene();
    s.log = vec![LogLine { level: Level::Info, text: "hi".to_string() }];
    s.log_capacity = 2;
    let ops = m.draw(&s);
    assert_eq!(
        ops,
        vec![
            DrawOp::Hide,
            DrawOp::MoveTo(0, 23),
            DrawOp::ClearLine,
            DrawOp::Styled("------------".to_string(), plain(Color::DarkCyan)),
            DrawOp::MoveTo(40, 23),
            DrawOp::Styled(String::new(), plain(Color::DarkGrey)),
            DrawOp::MoveTo(76, 23),
            DrawOp::Styled("0/0 ".to_string(), plain(Color::White)),
            DrawOp::MoveTo(0, 0),
            DrawOp::ClearLine,
            DrawOp::Styled("ann@box".to_string(), strong(Color::DarkGreen)),
            DrawOp::Print(" ".to_string()),
            DrawOp::Styled("/tmp/".to_string(), strong(Color::DarkBlue)),
            DrawOp::Styled("demo".to_string(), strong(Color::White)),
            DrawOp::Panel(Column::Left, Span { start: 0, end: 10 }, Span { start: 1, end: 21 }),
            DrawOp::Console(Span { start: 0, end: 80 }, Span { start: 1, end: 23 }),
            DrawOp::MoveTo(0, 21),
            DrawOp::ClearLine,
            DrawOp::Styled("info".to_string(), strong(Color::DarkGreen)),
            DrawOp::Print(": ".to_string()),
            DrawOp::Styled("hi".to_string(), plain(Color::Grey)),
            DrawOp::Print("  ".to_string()),
            DrawOp::Flush,
        ]
    );
    assert_eq!(m.redraw, clean());
}

#[test]
fn the_footer_of_an_empty_directory() {
    let mut m = manager(&[]);
    m.redraw_footer();
    let ops = m.draw_footer(&scene());
    assert_eq!(ops[2], DrawOp::Styled("------------".to_string(), plain(Color::DarkCyan)));
    assert_eq!(ops.len(), 7);
    assert_eq!(ops[6], DrawOp::Styled("0/0 ".to_string(), plain(Color::White)));
}

#[test]
fn the_footer_of_an_unreadable_entry() {
    let mut m = manager(&["a", "b", "c"]);
    m.center.panel.down(1);
    m.redraw_footer();
    let mut s = scene();
    s.key_buffer = "gg".to_string();
    let ops = m.draw_footer(&s);
    assert_eq!(
        ops,
        vec![
            DrawOp::MoveTo(0, 23),
            DrawOp::ClearLine,
            DrawOp::Styled("------------".to_string(), plain(Color::DarkCyan)),
            DrawOp::Print("   ".to_string()),
            DrawOp::Print(String::new()),
            DrawOp::MoveTo(39, 23),
            DrawOp::Styled("gg".to_string(), plain(Color::DarkGrey)),
            DrawOp::MoveTo(76, 23),
            DrawOp::Styled("2/3 ".to_string(), plain(Color::White)),
        ]
    );
}

#[test]
fn the_footer_of_a_readable_entry() {
    let mut m = manager(&["notes.txt"]);
    m.redraw_footer();
    let mut s = scene();
    s.info = Some(info());
    let ops = m.draw_footer(&s);
    assert_eq!(ops[2], DrawOp::Styled("-rw-r-----".to_string(), plain(Color::DarkCyan)));
    assert_eq!(ops[3], DrawOp::Print("   ".to_string()));
    assert_eq!(ops[4], DrawOp::Print("ann staff 1.5 K 2023-11-14 22:13:20 text/plain".to_string()));
    assert_eq!(ops[8], DrawOp::Styled("1/1 ".to_string(), plain(Color::White)));
}

#[test]
fn permissions_of_directories_and_links() {
    let mut m = manager(&["sub"]);
    let mut s = scene();
    for (mode, text) in [(0o040755u32, "drwxr-xr-x"), (0o120777, "lrwxrwxrwx"), (0o041777, "drwxrwxrwt"), (0o104755, "-rwsr-xr-x"), (0, "?---------")] {
        s.info = Some(FileInfo { mode, ..info() });
        m.redraw_footer();
        let ops = m.draw_footer(&s);
        assert_eq!(ops[2], DrawOp::Styled(text.to_string(), plain(Color::DarkCyan)));
    }
}

#[test]
fn details_of_a_file() {
    assert_eq!(details("/x/archive.tar.gz", &info()), "ann staff 1.5 K 2023-11-14 22:13:20 application/gzip");
    assert_eq!(details("/x/noextension", &info()), "ann staff 1.5 K 2023-11-14 22:13:20 ");
    assert_eq!(details("/x/PHOTO.JPG", &FileInfo { modified: None, user: String::new(), group: String::new(), ..info() }), "  1.5 K cannot read timestamp image/jpeg");
}

#[test]
fn times_by_the_calendar() {
    assert_eq!(modified(Some(0)), "1970-01-01 00:00:00");
    assert_eq!(modified(Some(1_700_000_000)), "2023-11-14 22:13:20");
    assert_eq!(modified(Some(951_782_400)), "2000-02-29 00:00:00");
    assert_eq!(modified(Some(-1)), "1969-12-31 23:59:59");
    assert_eq!(modified(Some(253_402_300_799)), "9999-12-31 23:59:59");
    assert_eq!(modified(Some(i64::MAX)), "cannot read timestamp");
    assert_eq!(modified(Some(i64::MIN)), "cannot read timestamp");
    assert_eq!(modified(None), "cannot read timestamp");
    assert_eq!(stamp(Civil { year: 5, month: 1, day: 2, hour: 3, minute: 4, second: 5 }), "5-01-02 03:04:05");
    assert_eq!(stamp(Civil { year: -44, month: 12, day: 31, hour: 23, minute: 59, second: 59 }), "-44-12-31 23:59:59");
}

#[test]
fn the_footer_prompts_of_the_modes() {
    let mut m = manager(&["a"]);
    let cases = [
        (Mode::Search { input: "ab".to_string() }, "Search:", " ab", strong(Color::Red)),
        (Mode::Rename { input: "x.y".to_string() }, "Rename:", " x.y", strong(Color::Yellow)),
        (Mode::CreateItem { input: "dir".to_string(), is_dir: true }, "Make Directory:", " dir", strong(Color::DarkGreen)),
        (Mode::CreateItem { input: String::new(), is_dir: false }, "Touch:", " ", plain(Color::Grey)),
    ];
    for (mode, prompt, text, style) in cases {
        m.mode = mode;
        m.redraw_footer();
        let ops = m.draw_footer(&scene());
        assert_eq!(ops, vec![DrawOp::MoveTo(0, 23), DrawOp::ClearLine, DrawOp::Styled(prompt.to_string(), label()), DrawOp::Styled(text.to_string(), style)]);
        assert!(!m.redraw.footer);
    }
}

#[test]
fn the_key_buffer_is_centred_and_the_counter_right_aligned() {
    let mut m = manager(&["a"]);
    let mut s = scene();
    s.key_buffer = "0123456789".to_string();
    m.redraw_footer();
    let ops = m.draw_footer(&s);
    assert_eq!(ops[5], DrawOp::MoveTo(35, 23));
    assert_eq!(ops[7], DrawOp::MoveTo(76, 23));
    m.handle_event(panel_manager::event::Event::Resize(3, 2));
    s.key_buffer = "a long buffer of keys".to_string();
    m.redraw = clean();
    m.redraw_footer();
    let ops = m.draw_footer(&s);
    assert_eq!(ops[0], DrawOp::MoveTo(0, 1));
    assert_eq!(ops[5], DrawOp::MoveTo(0, 1));
    assert_eq!(ops[7], DrawOp::MoveTo(0, 1));
}

#[test]
fn the_header_sets_off_the_last_component() {
    let mut m = manager(&["a"]);
    let mut s = scene();
    s.canonical = Some("/private/tmp/demo/a".to_string());
    m.redraw_header();
    let ops = m.draw_header(&s);
    assert_eq!(
        ops,
        vec![
            DrawOp::MoveTo(0, 0),
            DrawOp::ClearLine,
            DrawOp::Styled("ann@box".to_string(), strong(Color::DarkGreen)),
            DrawOp::Print(" ".to_string()),
            DrawOp::Styled("/private/tmp/demo/".to_string(), strong(Color::DarkBlue)),
            DrawOp::Styled("a".to_string(), strong(Color::White)),
        ]
    );
    s.canonical = Some("/".to_string());
    m.redraw_header();
    let ops = m.draw_header(&s);
    assert_eq!(ops[4], DrawOp::Styled("/".to_string(), strong(Color::DarkBlue)));
    assert_eq!(ops[5], DrawOp::Styled(String::new(), strong(Color::White)));
    s.canonical = Some("/tmp/ünï/ß".to_string());
    m.redraw_header();
    let ops = m.draw_header(&s);
    assert_eq!(ops[4], DrawOp::Styled("/tmp/ünï/".to_string(), strong(Color::DarkBlue)));
    assert_eq!(ops[5], DrawOp::Styled("ß".to_string(), strong(Color::White)));
}

#[test]
fn panels_leave_room_for_the_log() {
    let mut m = manager(&["a"]);
    m.redraw_panels();
    let ops = m.draw_panels(&scene());
    let rows = Span { start: 1, end: 23 };
    assert_eq!(
        ops,
        vec![
            DrawOp::Panel(Column::Left, Span { start: 0, end: 10 }, rows),
            DrawOp::Panel(Column::Center, Span { start: 10, end: 40 }, rows),
            DrawOp::Panel(Column::Right, Span { start: 40, end: 80 }, rows),
        ]
    );
    assert_eq!(m.redraw, Redraw { header: true, footer: true, ..clean() });
    m.show_log = true;
    m.redraw = Redraw { center: true, ..clean() };
    let ops = m.draw_panels(&scene());
    assert_eq!(ops, vec![DrawOp::Panel(Column::Center, Span { start: 10, end: 40 }, Span { start: 1, end: 18 })]);
}

#[test]
fn the_console_is_drawn_in_console_mode_only() {
    let mut m = manager(&["a"]);
    m.redraw_console();
    assert_eq!(m.draw_console(), Vec::new());
    assert!(!m.redraw.console);
    m.mode = Mode::Console;
    m.redraw_console();
    assert_eq!(m.draw_console(), vec![DrawOp::Console(Span { start: 0, end: 80 }, Span { start: 1, end: 23 })]);
    assert!(!m.redraw.console);
}

#[test]
fn log_lines_go_upwards_from_above_the_footer() {
    let mut m = manager(&["a"]);
    m.show_log = true;
    m.redraw_log();
    let mut s = scene();
    s.log = vec![
        LogLine { level: Level::Error, text: "oldest".to_string() },
        LogLine { level: Level::Warn, text: "w".to_string() },
        LogLine { level: Level::Debug, text: "d".to_string() },
        LogLine { level: Level::Trace, text: "newest".to_string() },
    ];
    let ops = m.draw_log(&s);
    assert_eq!(ops.len(), 24);
    assert_eq!(ops[0], DrawOp::MoveTo(0, 21));
    assert_eq!(ops[2], DrawOp::Styled("trace".to_string(), plain(Color::Grey)));
    assert_eq!(ops[4], DrawOp::Styled("newest".to_string(), plain(Color::Grey)));
    assert_eq!(ops[6], DrawOp::MoveTo(0, 20));
    assert_eq!(ops[8], DrawOp::Styled("debug".to_string(), plain(Color::DarkBlue)));
    assert_eq!(ops[12], DrawOp::MoveTo(0, 19));
    assert_eq!(ops[14], DrawOp::Styled("warn".to_string(), strong(Color::Yellow)));
    assert_eq!(ops[18], DrawOp::MoveTo(0, 18));
    assert_eq!(ops[19], DrawOp::ClearLine);
    assert_eq!(ops[20], DrawOp::Styled("error".to_string(), strong(Color::Red)));
    assert_eq!(ops[21], DrawOp::Print(": ".to_string()));
    assert_eq!(ops[22], DrawOp::Styled("oldest".to_string(), plain(Color::Grey)));
    assert_eq!(ops[23], DrawOp::Print("  ".to_string()));
}

#[test]
fn log_lines_stop_at_the_first_row() {
    let mut m = manager(&["a"]);
    m.handle_event(panel_manager::event::Event::Resize(80, 3));
    m.show_log = true;
    m.redraw = Redraw { log: true, ..clean() };
    let mut s = scene();
    s.log = vec![LogLine { level: Level::Info, text: "1".to_string() }, LogLine { level: Level::Info, text: "2".to_string() }, LogLine { level: Level::Info, text: "3".to_string() }];
    let ops = m.draw_log(&s);
    assert_eq!(ops[0], DrawOp::MoveTo(0, 0));
    assert_eq!(ops[6], DrawOp::MoveTo(0, 0));
    assert_eq!(ops[12], DrawOp::MoveTo(0, 0));
}
