//! Drawing: what has to be written to the terminal for the regions that are
//! dirty, as a list of operations that the program around the manager
//! carries out.

use vstd::prelude::*;
use vstd::string::*;
use crate::fileinfo::details;
use crate::fileinfo::details_text;
use crate::fileinfo::mode_string;
use crate::fileinfo::mode_text;
use crate::fileinfo::opt_info_view;
use crate::fileinfo::FileInfo;
use crate::fileinfo::InfoModel;
use crate::layout::Span;
use crate::manager::ManagerModel;
use crate::manager::PanelManager;
use crate::mode::Mode;
use crate::mode::ModeModel;
use crate::path::file_name_of;
use crate::redraw::Redraw;
use crate::session::Level;
use crate::text::decimal;
use crate::text::opt_view;
use crate::text::push_decimal;

verus! {

/// A colour of the terminal.
#[derive(Clone, Copy, Debug, PartialEq, Eq, Structural)]
pub enum Color {
    DarkGreen,
    DarkBlue,
    White,
    Red,
    Yellow,
    Grey,
    DarkGrey,
    DarkCyan,
}

/// How a text is shown.
#[derive(Clone, Copy, Debug, PartialEq, Eq, Structural)]
pub struct Style {
    pub color: Color,
    pub bold: bool,
    pub reverse: bool,
}

impl Style {
    /// A colour without bold or reverse.
    pub open spec fn plain(color: Color) -> Style {
        Style { color, bold: false, reverse: false }
    }

    /// A colour in bold.
    pub open spec fn strong(color: Color) -> Style {
        Style { color, bold: true, reverse: false }
    }

    /// The style of the label of a prompt in the footer.
    pub open spec fn label() -> Style {
        Style { color: Color::DarkGreen, bold: true, reverse: true }
    }
}

/// One of the three columns.
#[derive(Clone, Copy, Debug, PartialEq, Eq, Structural)]
pub enum Column {
    Left,
    Center,
    Right,
}

/// What a drawing operation is.
pub enum DrawModel {
    Hide,
    MoveTo(u16, u16),
    ClearLine,
    Print(Seq<char>),
    Styled(Seq<char>, Style),
    Panel(Column, Span, Span),
    Console(Span, Span),
    Flush,
}

/// One operation on the terminal.
#[derive(Debug, PartialEq, Eq)]
pub enum DrawOp {
    /// Hide the cursor.
    Hide,
    /// Move the cursor to the column and the row.
    MoveTo(u16, u16),
    /// Clear the line of the cursor.
    ClearLine,
    /// Print a text.
    Print(String),
    /// Print a text in a style.
    Styled(String, Style),
    /// Draw the panel of a column into the columns and rows given.
    Panel(Column, Span, Span),
    /// Draw the console overlay into the columns and rows given.
    Console(Span, Span),
    /// Send what was queued to the terminal.
    Flush,
}

impl View for DrawOp {
    type V = DrawModel;

    open spec fn view(&self) -> DrawModel {
        match self {
            DrawOp::Hide => DrawModel::Hide,
            DrawOp::MoveTo(x, y) => DrawModel::MoveTo(*x, *y),
            DrawOp::ClearLine => DrawModel::ClearLine,
            DrawOp::Print(text) => DrawModel::Print(text@),
            DrawOp::Styled(text, style) => DrawModel::Styled(text@, *style),
            DrawOp::Panel(column, columns, rows) => DrawModel::Panel(*column, *columns, *rows),
            DrawOp::Console(columns, rows) => DrawModel::Console(*columns, *rows),
            DrawOp::Flush => DrawModel::Flush,
        }
    }
}

/// The views of a list of drawing operations.
pub open spec fn draw_views(v: Seq<DrawOp>) -> Seq<DrawModel> {
    Seq::new(v.len(), |i: int| v[i]@)
}

/// What a log line is.
pub struct LineModel {
    pub level: Level,
    pub text: Seq<char>,
}

/// A line of the log.
#[derive(Debug, PartialEq, Eq)]
pub struct LogLine {
    pub level: Level,
    pub text: String,
}

impl View for LogLine {
    type V = LineModel;

    open spec fn view(&self) -> LineModel {
        LineModel { level: self.level, text: self.text@ }
    }
}

/// The views of a list of log lines.
pub open spec fn line_views(v: Seq<LogLine>) -> Seq<LineModel> {
    Seq::new(v.len(), |i: int| v[i]@)
}

/// What a scene is.
pub struct SceneModel {
    pub user: Seq<char>,
    pub host: Seq<char>,
    pub canonical: Option<Seq<char>>,
    pub info: Option<InfoModel>,
    pub key_buffer: Seq<char>,
    pub log: Seq<LineModel>,
    pub log_capacity: nat,
}

/// What drawing reads from outside the manager.
#[derive(Debug, PartialEq, Eq)]
pub struct Scene {
    /// The name of the user.
    pub user: String,
    /// The name of the host.
    pub host: String,
    /// The canonical path of the selected entry, where it has one.
    pub canonical: Option<String>,
    /// What the file system says of the selected entry, where it can be
    /// read.
    pub info: Option<FileInfo>,
    /// The keys that the key parser holds.
    pub key_buffer: String,
    /// The lines of the log, the newest last.
    pub log: Vec<LogLine>,
    /// The number of rows that the log takes when it is shown.
    pub log_capacity: usize,
}

impl View for Scene {
    type V = SceneModel;

    open spec fn view(&self) -> SceneModel {
        SceneModel {
            user: self.user@,
            host: self.host@,
            canonical: opt_view(self.canonical),
            info: opt_info_view(self.info),
            key_buffer: self.key_buffer@,
            log: line_views(self.log@),
            log_capacity: self.log_capacity as nat,
        }
    }
}

/// What a drawing step gives: the manager after it, and the operations.
pub struct Frame {
    pub state: ManagerModel,
    pub ops: Seq<DrawModel>,
}

/// The label before a log line of a level.
pub open spec fn level_label(level: Level) -> Seq<char> {
    match level {
        Level::Error => "error"@,
        Level::Warn => "warn"@,
        Level::Info => "info"@,
        Level::Debug => "debug"@,
        Level::Trace => "trace"@,
    }
}

/// The style of the label of a level.
pub open spec fn level_style(level: Level) -> Style {
    match level {
        Level::Error => Style::strong(Color::Red),
        Level::Warn => Style::strong(Color::Yellow),
        Level::Info => Style::strong(Color::DarkGreen),
        Level::Debug => Style::plain(Color::DarkBlue),
        Level::Trace => Style::plain(Color::Grey),
    }
}

/// The row above `row`; the first row has none above it.
pub open spec fn row_above(row: u16) -> u16 {
    if row > 0 {
        (row - 1) as u16
    } else {
        0
    }
}

/// The operations that write one log line into `row`.
pub open spec fn line_ops(line: LineModel, row: u16) -> Seq<DrawModel> {
    seq![
        DrawModel::MoveTo(0, row),
        DrawModel::ClearLine,
        DrawModel::Styled(level_label(line.level), level_style(line.level)),
        DrawModel::Print(": "@),
        DrawModel::Styled(line.text, Style::plain(Color::Grey)),
        DrawModel::Print("  "@),
    ]
}

/// The operations that write the first `n` log lines, the last of them into
/// `row` and each earlier one into the row above.
pub open spec fn log_ops(lines: Seq<LineModel>, n: int, row: u16) -> Seq<DrawModel>
    decreases n,
{
    if n <= 0 {
        Seq::empty()
    } else {
        line_ops(lines[n - 1], row) + log_ops(lines, n - 1, row_above(row))
    }
}

/// The two operations of a prompt: the label, then a space and the input.
pub open spec fn prompt_ops(label: Seq<char>, input: Seq<char>, style: Style) -> Seq<DrawModel> {
    seq![DrawModel::Styled(label, Style::label()), DrawModel::Styled(" "@ + input, style)]
}

/// The column at which a text of `len` characters begins so that it is
/// centred in `width` columns.
pub open spec fn centered(width: u16, len: nat) -> u16 {
    if len / 2 >= width / 2 {
        0
    } else {
        (width / 2 - len / 2) as u16
    }
}

/// The column at which a text of `len` characters begins so that it ends
/// with the last of `width` columns.
pub open spec fn right_aligned(width: u16, len: nat) -> u16 {
    if len >= width {
        0
    } else {
        (width - len) as u16
    }
}

/// The text that counts the entries: the position of the cursor, a slash,
/// the number of entries, and a space.
pub open spec fn counter_text(position: (nat, nat)) -> Seq<char> {
    decimal(position.0) + "/"@ + decimal(position.1) + " "@
}

/// The placeholder for permissions that cannot be read.
pub open spec fn no_permissions() -> Seq<char> {
    "------------"@
}

impl ManagerModel {
    /// The manager with the redraw flags `redraw`.
    pub open spec fn with_redraw(self, redraw: Redraw) -> ManagerModel {
        ManagerModel { redraw, ..self }
    }

    /// What the footer says of the selected entry.
    pub open spec fn selection_ops(self, scene: SceneModel) -> Seq<DrawModel> {
        match self.center.panel.selected_path() {
            Some(path) => match scene.info {
                Some(info) => seq![
                    DrawModel::Styled(mode_text(info.mode), Style::plain(Color::DarkCyan)),
                    DrawModel::Print("   "@),
                    DrawModel::Print(details_text(path, info)),
                ],
                None => seq![
                    DrawModel::Styled(no_permissions(), Style::plain(Color::DarkCyan)),
                    DrawModel::Print("   "@),
                    DrawModel::Print(""@),
                ],
            },
            None => seq![DrawModel::Styled(no_permissions(), Style::plain(Color::DarkCyan))],
        }
    }

    /// The key buffer in the middle of the footer and the counter of the
    /// entries at its right end.
    pub open spec fn counter_ops(self, scene: SceneModel) -> Seq<DrawModel> {
        let counter = counter_text(self.center.panel.position());
        seq![
            DrawModel::MoveTo(
                centered(self.layout.width, scene.key_buffer.len()),
                self.layout.footer,
            ),
            DrawModel::Styled(scene.key_buffer, Style::plain(Color::DarkGrey)),
            DrawModel::MoveTo(right_aligned(self.layout.width, counter.len()), self.layout.footer),
            DrawModel::Styled(counter, Style::plain(Color::White)),
        ]
    }

    /// What the footer holds after its line has been cleared: the prompt
    /// of the mode, or what is known of the selected entry.
    pub open spec fn footer_content(self, scene: SceneModel) -> Seq<DrawModel> {
        match self.mode {
            ModeModel::Search { input } => prompt_ops("Search:"@, input, Style::strong(Color::Red)),
            ModeModel::Rename { input } => prompt_ops(
                "Rename:"@,
                input,
                Style::strong(Color::Yellow),
            ),
            ModeModel::CreateItem { input, is_dir } => if is_dir {
                prompt_ops("Make Directory:"@, input, Style::strong(Color::DarkGreen))
            } else {
                prompt_ops("Touch:"@, input, Style::plain(Color::Grey))
            },
            _ => self.selection_ops(scene) + self.counter_ops(scene),
        }
    }

    /// The operations that draw the footer.
    pub open spec fn footer_ops(self, scene: SceneModel) -> Seq<DrawModel> {
        seq![DrawModel::MoveTo(0, self.layout.footer), DrawModel::ClearLine] + self.footer_content(
            scene,
        )
    }

    /// Drawing the footer: nothing where it is not dirty; otherwise its
    /// operations, and its flag is cleared.
    pub open spec fn footer_drawn(self, scene: SceneModel) -> Frame {
        if !self.redraw.footer {
            Frame { state: self, ops: Seq::empty() }
        } else {
            Frame {
                state: self.with_redraw(Redraw { footer: false, ..self.redraw }),
                ops: self.footer_ops(scene),
            }
        }
    }

    /// The path that the header shows: the canonical path of the selected
    /// entry, or the path of the center panel where there is none.
    pub open spec fn header_path(self, scene: SceneModel) -> Seq<char> {
        match scene.canonical {
            Some(path) => path,
            None => self.center.panel.path,
        }
    }

    /// The operations that draw the header: the prompt, then the path with
    /// its last component set off.
    pub open spec fn header_ops(self, scene: SceneModel) -> Seq<DrawModel> {
        let path = self.header_path(scene);
        let cut = header_cut(path);
        seq![
            DrawModel::MoveTo(0, 0),
            DrawModel::ClearLine,
            DrawModel::Styled(scene.user + "@"@ + scene.host, Style::strong(Color::DarkGreen)),
            DrawModel::Print(" "@),
            DrawModel::Styled(path.subrange(0, cut), Style::strong(Color::DarkBlue)),
            DrawModel::Styled(path.subrange(cut, path.len() as int), Style::strong(Color::White)),
        ]
    }

    /// Drawing the header: nothing where it is not dirty; otherwise its
    /// operations, and its flag is cleared.
    pub open spec fn header_drawn(self, scene: SceneModel) -> Frame {
        if !self.redraw.header {
            Frame { state: self, ops: Seq::empty() }
        } else {
            Frame {
                state: self.with_redraw(Redraw { header: false, ..self.redraw }),
                ops: self.header_ops(scene),
            }
        }
    }

    /// The rows of the panels: the rows between header and footer, without
    /// the rows of the log while it is shown.
    pub open spec fn panel_rows(self, scene: SceneModel) -> Span {
        if self.show_log {
            self.layout.y_range.shortened(scene.log_capacity as int)
        } else {
            self.layout.y_range
        }
    }

    /// The operations that draw the panels that are dirty.
    pub open spec fn panels_ops(self, scene: SceneModel) -> Seq<DrawModel> {
        let rows = self.panel_rows(scene);
        (if self.redraw.left {
            seq![DrawModel::Panel(Column::Left, self.layout.left_x_range, rows)]
        } else {
            Seq::empty()
        }) + (if self.redraw.center {
            seq![DrawModel::Panel(Column::Center, self.layout.center_x_range, rows)]
        } else {
            Seq::empty()
        }) + (if self.redraw.right {
            seq![DrawModel::Panel(Column::Right, self.layout.right_x_range, rows)]
        } else {
            Seq::empty()
        })
    }

    /// Drawing the panels: each dirty panel is drawn, and its flag is
    /// cleared.
    pub open spec fn panels_drawn(self, scene: SceneModel) -> Frame {
        Frame {
            state: self.with_redraw(
                Redraw { left: false, center: false, right: false, ..self.redraw },
            ),
            ops: self.panels_ops(scene),
        }
    }

    /// Drawing the console overlay: nothing where it is not dirty;
    /// otherwise the overlay is drawn over all three columns in console
    /// mode, and its flag is cleared.
    pub open spec fn console_drawn(self) -> Frame {
        if !self.redraw.console {
            Frame { state: self, ops: Seq::empty() }
        } else {
            Frame {
                state: self.with_redraw(Redraw { console: false, ..self.redraw }),
                ops: if self.mode is Console {
                    seq![
                        DrawModel::Console(
                            Span {
                                start: self.layout.left_x_range.start,
                                end: self.layout.right_x_range.end,
                            },
                            self.layout.y_range,
                        ),
                    ]
                } else {
                    Seq::empty()
                },
            }
        }
    }

    /// Drawing the log: nothing where it is not dirty or not shown;
    /// otherwise the lines go upwards from two rows above the footer, the
    /// newest lowest, and its flag is cleared.
    pub open spec fn log_drawn(self, scene: SceneModel) -> Frame {
        if !self.redraw.log || !self.show_log {
            Frame { state: self, ops: Seq::empty() }
        } else {
            Frame {
                state: self.with_redraw(Redraw { log: false, ..self.redraw }),
                ops: log_ops(
                    scene.log,
                    scene.log.len() as int,
                    row_above(row_above(self.layout.footer)),
                ),
            }
        }
    }

    /// Drawing what is dirty: nothing where nothing is; otherwise the
    /// cursor is hidden, then footer, header, panels, console and log are
    /// drawn in this order, and the terminal is flushed.
    pub open spec fn drawn(self, scene: SceneModel) -> Frame {
        if !self.redraw.is_dirty() {
            Frame { state: self, ops: Seq::empty() }
        } else {
            let footer = self.footer_drawn(scene);
            let header = footer.state.header_drawn(scene);
            let panels = header.state.panels_drawn(scene);
            let console = panels.state.console_drawn();
            let log = console.state.log_drawn(scene);
            Frame {
                state: log.state,
                ops: seq![DrawModel::Hide] + footer.ops + header.ops + panels.ops + console.ops
                    + log.ops + seq![DrawModel::Flush],
            }
        }
    }
}

/// Where the last component of a path begins: as many characters before
/// the end as the file name has; at the start where the file name is
/// longer than the path.
pub open spec fn header_cut(path: Seq<char>) -> int {
    match file_name_of(path) {
        Some(name) => if name.len() <= path.len() {
            path.len() - name.len()
        } else {
            0
        },
        None => path.len() as int,
    }
}

/// A colour without bold or reverse.
fn plain(color: Color) -> (style: Style)
    ensures
        style == Style::plain(color),
{
    Style { color, bold: false, reverse: false }
}

/// A colour in bold.
fn strong(color: Color) -> (style: Style)
    ensures
        style == Style::strong(color),
{
    Style { color, bold: true, reverse: false }
}

/// Appends an operation to a list.
fn put(ops: &mut Vec<DrawOp>, op: DrawOp)
    ensures
        draw_views(final(ops)@) == draw_views(old(ops)@).push(op@),
{
    ops.push(op);
    assert(draw_views(ops@) =~= draw_views(old(ops)@).push(op@));
}

/// Appends the operations of `more` to a list.
fn put_all(ops: &mut Vec<DrawOp>, more: Vec<DrawOp>)
    ensures
        draw_views(final(ops)@) == draw_views(old(ops)@) + draw_views(more@),
{
    let ghost added = draw_views(more@);
    let mut more = more;
    ops.append(&mut more);
    assert(draw_views(ops@) =~= draw_views(old(ops)@) + added);
}

/// A list without operations.
fn no_ops() -> (ops: Vec<DrawOp>)
    ensures
        draw_views(ops@) == Seq::<DrawModel>::empty(),
{
    let ops: Vec<DrawOp> = Vec::new();
    assert(draw_views(ops@) =~= Seq::<DrawModel>::empty());
    ops
}

/// The column at which a text of `len` characters is centred.
fn center_column(width: u16, len: usize) -> (column: u16)
    ensures
        column == centered(width, len as nat),
{
    let half = len / 2;
    let middle = width / 2;
    if half >= middle as usize {
        0
    } else {
        middle - (half as u16)
    }
}

/// The column at which a text of `len` characters ends with the last column.
fn right_column(width: u16, len: usize) -> (column: u16)
    ensures
        column == right_aligned(width, len as nat),
{
    if len >= width as usize {
        0
    } else {
        width - (len as u16)
    }
}

/// The row above `row`.
fn above(row: u16) -> (r: u16)
    ensures
        r == row_above(row),
{
    if row > 0 {
        row - 1
    } else {
        0
    }
}

/// The label before a log line of a level.
fn label_of(level: Level) -> (label: String)
    ensures
        label@ == level_label(level),
{
    match level {
        Level::Error => "error".to_owned(),
        Level::Warn => "warn".to_owned(),
        Level::Info => "info".to_owned(),
        Level::Debug => "debug".to_owned(),
        Level::Trace => "trace".to_owned(),
    }
}

/// The style of the label of a level.
fn style_of(level: Level) -> (style: Style)
    ensures
        style == level_style(level),
{
    match level {
        Level::Error => strong(Color::Red),
        Level::Warn => strong(Color::Yellow),
        Level::Info => strong(Color::DarkGreen),
        Level::Debug => plain(Color::DarkBlue),
        Level::Trace => plain(Color::Grey),
    }
}

/// The two operations of a prompt.
fn prompt(label: &str, input: &String, style: Style) -> (ops: Vec<DrawOp>)
    ensures
        draw_views(ops@) == prompt_ops(label@, input@, style),
{
    let mut ops = no_ops();
    put(&mut ops, DrawOp::Styled(label.to_owned(), Style { color: Color::DarkGreen, bold: true, reverse: true }));
    let mut text = " ".to_owned();
    text.append(input.as_str());
    put(&mut ops, DrawOp::Styled(text, style));
    assert(draw_views(ops@) =~= prompt_ops(label@, input@, style));
    ops
}

/// The text that counts the entries.
fn counter(position: (usize, usize)) -> (text: String)
    ensures
        text@ == counter_text((position.0 as nat, position.1 as nat)),
{
    let mut text = String::new();
    push_decimal(&mut text, position.0 as u64);
    text.append("/");
    push_decimal(&mut text, position.1 as u64);
    text.append(" ");
    assert(text@ =~= counter_text((position.0 as nat, position.1 as nat)));
    text
}

/// The two parts of the path in the header: what lies before the last
/// component, and the last component.
fn split_header(path: &String) -> (parts: (String, String))
    ensures
        parts.0@ == path@.subrange(0, header_cut(path@)),
        parts.1@ == path@.subrange(header_cut(path@), path@.len() as int),
{
    let len = path.as_str().unicode_len();
    let cut = match crate::path::file_name(path.as_str()) {
        Some(name) => {
            let n = name.as_str().unicode_len();
            if n <= len {
                len - n
            } else {
                0
            }
        },
        None => len,
    };
    let before = path.as_str().substring_char(0, cut).to_owned();
    let after = path.as_str().substring_char(cut, len).to_owned();
    (before, after)
}

impl PanelManager {
    /// What the footer says of the selected entry.
    fn selection(&self, scene: &Scene) -> (ops: Vec<DrawOp>)
        requires
            self.wf(),
        ensures
            draw_views(ops@) == self@.selection_ops(scene@),
    {
        let mut ops = no_ops();
        match self.center.panel.selected_path() {
            Some(path) => match &scene.info {
                Some(info) => {
                    put(&mut ops, DrawOp::Styled(mode_string(info.mode), plain(Color::DarkCyan)));
                    put(&mut ops, DrawOp::Print("   ".to_owned()));
                    put(&mut ops, DrawOp::Print(details(path.as_str(), info)));
                },
                None => {
                    put(&mut ops, DrawOp::Styled("------------".to_owned(), plain(Color::DarkCyan)));
                    put(&mut ops, DrawOp::Print("   ".to_owned()));
                    put(&mut ops, DrawOp::Print("".to_owned()));
                },
            },
            None => {
                put(&mut ops, DrawOp::Styled("------------".to_owned(), plain(Color::DarkCyan)));
            },
        }
        assert(draw_views(ops@) =~= self@.selection_ops(scene@));
        ops
    }

    /// The key buffer in the middle of the footer and the counter of the
    /// entries at its right end.
    fn counters(&self, scene: &Scene) -> (ops: Vec<DrawOp>)
        requires
            self.wf(),
        ensures
            draw_views(ops@) == self@.counter_ops(scene@),
    {
        let mut ops = no_ops();
        let text = counter(self.center.panel.index_vs_total());
        let row = self.layout.footer();
        let keys = scene.key_buffer.as_str().unicode_len();
        put(&mut ops, DrawOp::MoveTo(center_column(self.layout.width(), keys), row));
        put(&mut ops, DrawOp::Styled(scene.key_buffer.clone(), plain(Color::DarkGrey)));
        let len = text.as_str().unicode_len();
        put(&mut ops, DrawOp::MoveTo(right_column(self.layout.width(), len), row));
        put(&mut ops, DrawOp::Styled(text, plain(Color::White)));
        assert(draw_views(ops@) =~= self@.counter_ops(scene@));
        ops
    }

    /// Draws the footer if it is dirty, and clears its flag: the prompt of
    /// the mode, or what is known of the selected entry, the key buffer and
    /// the counter of the entries.
    pub fn draw_footer(&mut self, scene: &Scene) -> (ops: Vec<DrawOp>)
        requires
            old(self).wf(),
        ensures
            final(self).wf(),
            final(self)@ == old(self)@.footer_drawn(scene@).state,
            draw_views(ops@) == old(self)@.footer_drawn(scene@).ops,
    {
        if !self.redraw.footer {
            return no_ops();
        }
        let mut ops = no_ops();
        put(&mut ops, DrawOp::MoveTo(0, self.layout.footer()));
        put(&mut ops, DrawOp::ClearLine);
        let content = match &self.mode {
            Mode::Search { input } => prompt("Search:", input, strong(Color::Red)),
            Mode::Rename { input } => prompt("Rename:", input, strong(Color::Yellow)),
            Mode::CreateItem { input, is_dir } => if *is_dir {
                prompt("Make Directory:", input, strong(Color::DarkGreen))
            } else {
                prompt("Touch:", input, plain(Color::Grey))
            },
            _ => {
                let mut content = self.selection(scene);
                put_all(&mut content, self.counters(scene));
                content
            },
        };
        assert(draw_views(content@) == self@.footer_content(scene@));
        put_all(&mut ops, content);
        self.redraw.footer = false;
        assert(draw_views(ops@) =~= old(self)@.footer_ops(scene@));
        ops
    }

    /// Draws the header if it is dirty, and clears its flag: user and
    /// host, then the path with its last component set off.
    pub fn draw_header(&mut self, scene: &Scene) -> (ops: Vec<DrawOp>)
        requires
            old(self).wf(),
        ensures
            final(self).wf(),
            final(self)@ == old(self)@.header_drawn(scene@).state,
            draw_views(ops@) == old(self)@.header_drawn(scene@).ops,
    {
        if !self.redraw.header {
            return no_ops();
        }
        let mut name = scene.user.clone();
        name.append("@");
        name.append(scene.host.as_str());
        let parts = match &scene.canonical {
            Some(path) => split_header(path),
            None => split_header(self.center.panel.path()),
        };
        let mut ops = no_ops();
        put(&mut ops, DrawOp::MoveTo(0, 0));
        put(&mut ops, DrawOp::ClearLine);
        put(&mut ops, DrawOp::Styled(name, strong(Color::DarkGreen)));
        put(&mut ops, DrawOp::Print(" ".to_owned()));
        put(&mut ops, DrawOp::Styled(parts.0, strong(Color::DarkBlue)));
        put(&mut ops, DrawOp::Styled(parts.1, strong(Color::White)));
        self.redraw.header = false;
        assert(draw_views(ops@) =~= old(self)@.header_ops(scene@));
        ops
    }

    /// Draws the panels that are dirty, and clears their flags. While the
    /// log is shown, the panels leave its rows free.
    pub fn draw_panels(&mut self, scene: &Scene) -> (ops: Vec<DrawOp>)
        requires
            old(self).wf(),
        ensures
            final(self).wf(),
            final(self)@ == old(self)@.panels_drawn(scene@).state,
            draw_views(ops@) == old(self)@.panels_drawn(scene@).ops,
    {
        let rows = if self.show_log {
            self.layout.rows_above_log(scene.log_capacity)
        } else {
            self.layout.y_range
        };
        let mut ops = no_ops();
        if self.redraw.left {
            put(&mut ops, DrawOp::Panel(Column::Left, self.layout.left_x_range, rows));
            self.redraw.left = false;
        }
        if self.redraw.center {
            put(&mut ops, DrawOp::Panel(Column::Center, self.layout.center_x_range, rows));
            self.redraw.center = false;
        }
        if self.redraw.right {
            put(&mut ops, DrawOp::Panel(Column::Right, self.layout.right_x_range, rows));
            self.redraw.right = false;
        }
        assert(draw_views(ops@) =~= old(self)@.panels_ops(scene@));
        ops
    }

    /// Draws the console overlay if it is dirty, and clears its flag.
    /// Outside console mode there is nothing to draw.
    pub fn draw_console(&mut self) -> (ops: Vec<DrawOp>)
        requires
            old(self).wf(),
        ensures
            final(self).wf(),
            final(self)@ == old(self)@.console_drawn().state,
            draw_views(ops@) == old(self)@.console_drawn().ops,
    {
        let mut ops = no_ops();
        if self.redraw.console {
            let in_console = match &self.mode {
                Mode::Console => true,
                _ => false,
            };
            if in_console {
                put(
                    &mut ops,
                    DrawOp::Console(
                        Span {
                            start: self.layout.left_x_range.start,
                            end: self.layout.right_x_range.end,
                        },
                        self.layout.y_range,
                    ),
                );
            }
            self.redraw.console = false;
            assert(draw_views(ops@) =~= old(self)@.console_drawn().ops);
        }
        ops
    }

    /// Draws the log if it is dirty and shown, and clears its flag: the
    /// newest line two rows above the footer, each older line in the row
    /// above.
    pub fn draw_log(&mut self, scene: &Scene) -> (ops: Vec<DrawOp>)
        requires
            old(self).wf(),
        ensures
            final(self).wf(),
            final(self)@ == old(self)@.log_drawn(scene@).state,
            draw_views(ops@) == old(self)@.log_drawn(scene@).ops,
    {
        if !self.redraw.log || !self.show_log {
            return no_ops();
        }
        let mut ops = no_ops();
        let first = above(above(self.layout.footer()));
        let mut row = first;
        let mut i: usize = scene.log.len();
        while i > 0
            invariant
                i <= scene.log.len(),
                draw_views(ops@) + log_ops(scene@.log, i as int, row) == log_ops(
                    scene@.log,
                    scene.log.len() as int,
                    first,
                ),
            decreases i,
        {
            let ghost before = draw_views(ops@);
            let line = &scene.log[i - 1];
            assert(scene@.log[i - 1] == line@);
            put(&mut ops, DrawOp::MoveTo(0, row));
            put(&mut ops, DrawOp::ClearLine);
            put(&mut ops, DrawOp::Styled(label_of(line.level), style_of(line.level)));
            put(&mut ops, DrawOp::Print(": ".to_owned()));
            put(&mut ops, DrawOp::Styled(line.text.clone(), plain(Color::Grey)));
            put(&mut ops, DrawOp::Print("  ".to_owned()));
            proof {
                assert(draw_views(ops@) =~= before + line_ops(line@, row));
                assert(before + line_ops(line@, row) + log_ops(scene@.log, i - 1, row_above(row))
                    =~= before + (line_ops(line@, row) + log_ops(
                    scene@.log,
                    i - 1,
                    row_above(row),
                )));
            }
            row = above(row);
            i -= 1;
        }
        assert(draw_views(ops@) + Seq::<DrawModel>::empty() =~= draw_views(ops@));
        self.redraw.log = false;
        ops
    }

    /// Draws what is dirty and clears the flags of what was drawn: footer,
    /// header, panels, console and log, in this order, between hiding the
    /// cursor and flushing. Nothing is drawn where nothing is dirty.
    pub fn draw(&mut self, scene: &Scene) -> (ops: Vec<DrawOp>)
        requires
            old(self).wf(),
        ensures
            final(self).wf(),
            final(self)@ == old(self)@.drawn(scene@).state,
            draw_views(ops@) == old(self)@.drawn(scene@).ops,
    {
        if !self.redraw.any() {
            return no_ops();
        }
        let mut ops = no_ops();
        put(&mut ops, DrawOp::Hide);
        let footer = self.draw_footer(scene);
        put_all(&mut ops, footer);
        let header = self.draw_header(scene);
        put_all(&mut ops, header);
        let panels = self.draw_panels(scene);
        put_all(&mut ops, panels);
        let console = self.draw_console();
        put_all(&mut ops, console);
        let log = self.draw_log(scene);
        put_all(&mut ops, log);
        put(&mut ops, DrawOp::Flush);
        assert(draw_views(ops@) =~= old(self)@.drawn(scene@).ops);
        ops
    }
}

/// Drawing clears the flag of every region that it draws and touches no
/// other: where something is dirty, footer, header, panels and console are
/// clean afterwards, and the log is clean if it is shown and untouched if
/// it is not. Nothing but the flags changes.
pub proof fn lemma_draw_clears(m: ManagerModel, scene: SceneModel)
    ensures
        m.drawn(scene).state == m.with_redraw(m.drawn(scene).state.redraw),
        m.redraw.is_dirty() ==> m.drawn(scene).state.redraw == (Redraw {
            log: m.redraw.log && !m.show_log,
            ..Redraw::clean()
        }),
        !m.redraw.is_dirty() ==> m.drawn(scene).state == m && m.drawn(scene).ops.len() == 0,
        m.footer_drawn(scene).state.redraw == (Redraw { footer: false, ..m.redraw }),
        m.header_drawn(scene).state.redraw == (Redraw { header: false, ..m.redraw }),
        m.panels_drawn(scene).state.redraw == (Redraw {
            left: false,
            center: false,
            right: false,
            ..m.redraw
        }),
        m.console_drawn().state.redraw == (Redraw { console: false, ..m.redraw }),
        m.log_drawn(scene).state.redraw == (Redraw { log: m.redraw.log && !m.show_log, ..m.redraw }),
{
}

/// After a draw, a second draw has nothing to do unless the log is dirty
/// and hidden.
pub proof fn lemma_draw_twice(m: ManagerModel, scene: SceneModel, again: SceneModel)
    requires
        m.show_log || !m.redraw.log,
    ensures
        m.drawn(scene).state.drawn(again).ops.len() == 0,
        m.drawn(scene).state.drawn(again).state == m.drawn(scene).state,
{
}

} // verus!
