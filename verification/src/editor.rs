//! Screen coordinates, the viewport/scroll engine and the editor state
//! machine.

use vstd::prelude::*;
use crate::action::Action;
use crate::action::Direction;
use crate::action::Location;
use crate::action::Target;
use crate::file::OpenFile;
use crate::row::graphemes_of;
use crate::row::render_spec;
use crate::term::Color;
use crate::term::TermOp;

verus! {

/// The one-line welcome banner, cut down to a window `w` columns wide.
pub open spec fn welcome_spec(w: int) -> Seq<char> {
    let banner = "Div 0.1.0"@;
    if w < banner.len() {
        banner.subrange(0, w)
    } else {
        banner
    }
}

/// A full-width run of spaces: the status line's text.
pub open spec fn spaces_spec(w: int) -> Seq<char> {
    Seq::new(w as nat, |i: int| ' ')
}

/// A pair of non-negative integers: `x` is a column (grapheme index into a
/// row), `y` is a row index into a buffer. Validity is contextual; the type
/// itself enforces no upper bound.
#[derive(Clone, Copy, PartialEq, Eq, Structural, Debug)]
pub struct Coords {
    pub x: usize,
    pub y: usize,
}

impl Coords {
    pub fn new(x: u16, y: u16) -> (r: Self)
        ensures
            r.x == x as usize,
            r.y == y as usize,
    {
        Self { x: x as usize, y: y as usize }
    }
}

impl Default for Coords {
    fn default() -> (r: Self)
        ensures
            r.x == 0 && r.y == 0,
    {
        Self { x: 0, y: 0 }
    }
}

/// Addition on one axis, clamped above at the largest `usize`.
pub open spec fn sat_add(a: int, b: int) -> int {
    if a + b > usize::MAX as int {
        usize::MAX as int
    } else {
        a + b
    }
}

/// Subtraction on one axis, clamped below at zero.
pub open spec fn sat_sub(a: int, b: int) -> int {
    if a - b < 0 {
        0
    } else {
        a - b
    }
}

/// The minimal new scroll offset on one axis that keeps the cursor visible:
/// scroll back to the cursor when it is before the window, scroll forward
/// just far enough when it is at or past the window's end, and otherwise
/// leave the offset alone. All arithmetic saturates.
pub open spec fn scroll_axis(cursor: int, offset: int, extent: int) -> int {
    if cursor < offset {
        cursor
    } else if cursor >= sat_add(offset, extent) {
        sat_add(sat_sub(cursor, extent), 1)
    } else {
        offset
    }
}

fn scroll_axis_exec(cursor: usize, offset: usize, extent: usize) -> (r: usize)
    ensures
        r as int == scroll_axis(cursor as int, offset as int, extent as int),
{
    if cursor < offset {
        cursor
    } else if cursor >= offset.saturating_add(extent) {
        cursor.saturating_sub(extent).saturating_add(1)
    } else {
        offset
    }
}

/// The new scroll offset after one recomputation, as a pair.
pub open spec fn spec_recompute(cursor: Coords, offset: Coords, dims: Coords) -> Coords {
    Coords {
        x: scroll_axis(cursor.x as int, offset.x as int, dims.x as int) as usize,
        y: scroll_axis(cursor.y as int, offset.y as int, dims.y as int) as usize,
    }
}

/// Given the cursor position, the current scroll offset and the window
/// dimensions, computes the minimal new offset that keeps the cursor inside
/// the window (see `lemma_recompute_visible`).
pub fn recompute(cursor: Coords, offset: Coords, dims: Coords) -> (r: Coords)
    ensures
        r == spec_recompute(cursor, offset, dims),
{
    Coords {
        x: scroll_axis_exec(cursor.x, offset.x, dims.x),
        y: scroll_axis_exec(cursor.y, offset.y, dims.y),
    }
}

proof fn lemma_scroll_axis_visible(cursor: int, offset: int, extent: int)
    requires
        0 <= cursor <= usize::MAX as int,
        0 <= offset <= usize::MAX as int,
        0 < extent <= usize::MAX as int,
    ensures
        scroll_axis(cursor, offset, extent) <= cursor < scroll_axis(cursor, offset, extent)
            + extent,
{
}

/// After recomputation the cursor lies inside the viewport: whenever the
/// window has positive height, `offset.y <= cursor.y < offset.y + height`,
/// and the horizontal analogue whenever it has positive width.
pub proof fn lemma_recompute_visible(cursor: Coords, offset: Coords, dims: Coords)
    ensures
        dims.y > 0 ==> spec_recompute(cursor, offset, dims).y <= cursor.y < spec_recompute(
            cursor,
            offset,
            dims,
        ).y + dims.y,
        dims.x > 0 ==> spec_recompute(cursor, offset, dims).x <= cursor.x < spec_recompute(
            cursor,
            offset,
            dims,
        ).x + dims.x,
{
    if dims.y > 0 {
        lemma_scroll_axis_visible(cursor.y as int, offset.y as int, dims.y as int);
    }
    if dims.x > 0 {
        lemma_scroll_axis_visible(cursor.x as int, offset.x as int, dims.x as int);
    }
}

/// Where the buffer selection lands after the buffer at `idx` is removed
/// and `new_len` buffers remain: the selected buffer stays selected where
/// it survives, and the selection otherwise clamps to the last remaining
/// buffer, or to zero when none remains.
pub open spec fn spec_del_idx(old_idx: int, idx: int, new_len: int) -> int {
    let shifted = if old_idx > idx {
        old_idx - 1
    } else {
        old_idx
    };
    if shifted < new_len {
        shifted
    } else if new_len > 0 {
        new_len - 1
    } else {
        0
    }
}

/// The editor's whole logical state: the open buffers, which one is
/// current, the logical cursor, the scroll offset, the window dimensions
/// and the mode flags. The terminal itself lives outside the library.
#[derive(Debug)]
pub struct Editor {
    pub quit: bool,
    pub insert: bool,
    pub dims: Coords,
    pub cursor: Coords,
    pub offset: Coords,
    pub files: Vec<OpenFile>,
    pub file_idx: usize,
}

impl Editor {
    /// `file_idx` selects a buffer whenever one exists (and is zero when
    /// none does), and every buffer is well formed.
    pub open spec fn wf(self) -> bool {
        &&& self.files.len() > 0 ==> self.file_idx < self.files.len()
        &&& self.files.len() == 0 ==> self.file_idx == 0
        &&& forall|i: int| 0 <= i < self.files.len() ==> (#[trigger] self.files[i]).wf()
    }

    /// The number of lines of the current buffer; zero when none is
    /// selected.
    pub open spec fn line_count(self) -> int {
        if self.file_idx < self.files.len() {
            self.files[self.file_idx as int].lines().len() as int
        } else {
            0
        }
    }

    /// The cluster count of line `y` of the current buffer; zero when there
    /// is no such line.
    pub open spec fn row_len(self, y: int) -> int {
        if self.file_idx < self.files.len() && 0 <= y < self.files[self.file_idx as int].lines().len() {
            graphemes_of(self.files[self.file_idx as int].lines()[y]).len() as int
        } else {
            0
        }
    }

    /// A requested cursor position, clamped: the row into `[0, line_count]`
    /// first, then the column into `[0, length of the clamped row]`.
    pub open spec fn clamp(self, x: int, y: int) -> Coords {
        let yc = if y <= self.line_count() {
            y
        } else {
            self.line_count()
        };
        let xc = if x <= self.row_len(yc) {
            x
        } else {
            self.row_len(yc)
        };
        Coords { x: xc as usize, y: yc as usize }
    }

    /// Where a movement asks the cursor to go, before clamping. Deltas
    /// saturate at both ends of the `usize` range; absolute moves go to the
    /// requested place; movements this core does not implement leave the
    /// cursor alone.
    pub open spec fn moved(self, d: Direction) -> (int, int) {
        let x = self.cursor.x as int;
        let y = self.cursor.y as int;
        match d {
            Direction::Up(n) => (x, sat_sub(y, n as int)),
            Direction::Down(n) => (x, sat_add(y, n as int)),
            Direction::Left(n) => (sat_sub(x, n as int), y),
            Direction::Right(n) => (sat_add(x, n as int), y),
            Direction::ToIdx(cx, cy) => (cx as int, cy as int),
            Direction::To(loc) => match loc {
                Location::End(Target::Line) => (self.row_len(y), y),
                Location::Beginning(Target::Line) => (0, y),
                Location::Beginning(Target::Document) => (x, 0),
                Location::End(Target::Document) => (x, self.line_count()),
                _ => (x, y),
            },
        }
    }

    /// The state after one action is applied: a movement adjusts and clamps
    /// the cursor, the quit action sets the quitting flag, and every other
    /// action is a no-op.
    pub open spec fn spec_apply(self, a: Action) -> Editor {
        match a {
            Action::Move(d) => Editor { cursor: self.clamp(self.moved(d).0, self.moved(d).1), ..self },
            Action::Quit => Editor { quit: true, ..self },
            _ => self,
        }
    }

    pub fn new(dims: Coords, files: Vec<OpenFile>) -> (r: Editor)
        requires
            files.len() > 0,
            forall|i: int| 0 <= i < files.len() ==> (#[trigger] files[i]).wf(),
        ensures
            r.wf(),
            r == (Editor {
                quit: false,
                insert: false,
                dims,
                cursor: Coords { x: 0, y: 0 },
                offset: Coords { x: 0, y: 0 },
                files,
                file_idx: 0,
            }),
    {
        Editor {
            quit: false,
            insert: false,
            dims,
            cursor: Coords { x: 0, y: 0 },
            offset: Coords { x: 0, y: 0 },
            files,
            file_idx: 0,
        }
    }

    /// The currently selected buffer. Asking for it when no buffer exists
    /// is a contract violation, so a caller must keep the list non-empty.
    pub fn curr_file(&self) -> (r: &OpenFile)
        requires
            self.wf(),
            self.files.len() > 0,
        ensures
            r == self.files[self.file_idx as int],
            r.wf(),
    {
        &self.files[self.file_idx]
    }

    /// Recomputes the scroll offset so the cursor stays visible.
    pub fn scroll(&mut self)
        ensures
            *final (self) == (Editor {
                offset: spec_recompute(old(self).cursor, old(self).offset, old(self).dims),
                ..*old(self)
            }),
    {
        self.offset = recompute(self.cursor, self.offset, self.dims);
    }

    /// Appends a buffer and selects it.
    pub fn add_file(&mut self, file: OpenFile)
        requires
            old(self).wf(),
            file.wf(),
        ensures
            final (self).wf(),
            final (self).files@ == old(self).files@.push(file),
            final (self).file_idx == old(self).files.len(),
            *final (self) == (Editor {
                files: final (self).files,
                file_idx: final (self).file_idx,
                ..*old(self)
            }),
    {
        self.files.push(file);
        self.file_idx = self.files.len() - 1;
    }

    /// Removes the buffer at `idx`. The selection follows the file it was
    /// on where that file survives, and otherwise clamps to the last
    /// remaining buffer (or to zero when none remains).
    pub fn del_file(&mut self, idx: usize)
        requires
            old(self).wf(),
            idx < old(self).files.len(),
        ensures
            final (self).wf(),
            final (self).files@ == old(self).files@.remove(idx as int),
            final (self).file_idx as int == spec_del_idx(
                old(self).file_idx as int,
                idx as int,
                old(self).files.len() - 1,
            ),
            *final (self) == (Editor {
                files: final (self).files,
                file_idx: final (self).file_idx,
                ..*old(self)
            }),
    {
        self.files.remove(idx);
        let shifted = if self.file_idx > idx {
            self.file_idx - 1
        } else {
            self.file_idx
        };
        self.file_idx = if shifted < self.files.len() {
            shifted
        } else if self.files.len() > 0 {
            self.files.len() - 1
        } else {
            0
        };
    }

    /// Applies one decoded action to the editor and returns the terminal
    /// operations the action itself demands: the quit action restores the
    /// terminal, everything else demands none.
    pub fn execute(&mut self, a: Action) -> (ops: Vec<TermOp>)
        requires
            old(self).wf(),
        ensures
            *final (self) == old(self).spec_apply(a),
            final (self).wf(),
            a matches Action::Quit ==> ops@ =~= seq![TermOp::Exit],
            !(a matches Action::Quit) ==> ops@ =~= Seq::<TermOp>::empty(),
    {
        match a {
            Action::Move(d) => {
                let dest: Coords = self.destination(d);
                self.clamp_to(dest.x, dest.y);
                Vec::new()
            },
            Action::Quit => {
                self.quit = true;
                let mut ops = Vec::new();
                ops.push(TermOp::Exit);
                ops
            },
            _ => Vec::new(),
        }
    }

    /// Computes `self.moved(d)` executably.
    fn destination(&self, d: Direction) -> (r: Coords)
        requires
            self.wf(),
        ensures
            r.x == self.moved(d).0,
            r.y == self.moved(d).1,
    {
        let x = self.cursor.x;
        let y = self.cursor.y;
        match d {
            Direction::Up(n) => Coords { x, y: y.saturating_sub(n as usize) },
            Direction::Down(n) => Coords { x, y: y.saturating_add(n as usize) },
            Direction::Left(n) => Coords { x: x.saturating_sub(n as usize), y },
            Direction::Right(n) => Coords { x: x.saturating_add(n as usize), y },
            Direction::ToIdx(cx, cy) => Coords { x: cx as usize, y: cy as usize },
            Direction::To(loc) => match loc {
                Location::End(Target::Line) => Coords { x: self.row_len_exec(y), y },
                Location::Beginning(Target::Line) => Coords { x: 0, y },
                Location::Beginning(Target::Document) => Coords { x, y: 0 },
                Location::End(Target::Document) => Coords { x, y: self.line_count_exec() },
                _ => Coords { x, y },
            },
        }
    }

    fn line_count_exec(&self) -> (r: usize)
        ensures
            r == self.line_count(),
    {
        if self.file_idx < self.files.len() {
            self.files[self.file_idx].len()
        } else {
            0
        }
    }

    fn row_len_exec(&self, y: usize) -> (r: usize)
        requires
            self.wf(),
        ensures
            r == self.row_len(y as int),
    {
        if self.file_idx < self.files.len() {
            match self.files[self.file_idx].get(y) {
                Some(row) => row.len(),
                None => 0,
            }
        } else {
            0
        }
    }

    /// Moves the cursor to `(x, y)` clamped as `clamp` says.
    fn clamp_to(&mut self, x: usize, y: usize)
        requires
            old(self).wf(),
        ensures
            *final (self) == (Editor { cursor: old(self).clamp(x as int, y as int), ..*old(self) }),
    {
        let lc = self.line_count_exec();
        let yc = if y <= lc {
            y
        } else {
            lc
        };
        let rl = self.row_len_exec(yc);
        let xc = if x <= rl {
            x
        } else {
            rl
        };
        self.cursor = Coords { x: xc, y: yc };
    }

    /// Where the hardware cursor goes: the logical cursor relative to the
    /// scroll offset, saturating so a cursor inside the viewport never
    /// yields a negative screen coordinate.
    pub open spec fn spec_screen_cursor(self) -> Coords {
        Coords {
            x: sat_sub(self.cursor.x as int, self.offset.x as int) as usize,
            y: sat_sub(self.cursor.y as int, self.offset.y as int) as usize,
        }
    }

    pub fn screen_cursor(&self) -> (r: Coords)
        ensures
            r == self.spec_screen_cursor(),
    {
        Coords {
            x: self.cursor.x.saturating_sub(self.offset.x),
            y: self.cursor.y.saturating_sub(self.offset.y),
        }
    }

    /// What screen row `i` shows: the buffer row at `offset.y + i` rendered
    /// through the horizontal window, or — past the end of the buffer — the
    /// welcome banner on the vertically-centered row of an empty buffer,
    /// and the `~` filler glyph everywhere else.
    pub open spec fn spec_line(self, i: int) -> Seq<char> {
        if self.offset.y + i < self.line_count() {
            render_spec(
                graphemes_of(self.files[self.file_idx as int].lines()[self.offset.y + i]),
                self.offset.x as int,
                sat_add(self.offset.x as int, self.dims.x as int),
            )
        } else if self.line_count() == 0 && i == self.dims.y as int / 3 {
            welcome_spec(self.dims.x as int)
        } else {
            "~"@
        }
    }

    fn welcome(&self) -> (r: String)
        ensures
            r@ == welcome_spec(self.dims.x as int),
    {
        let msg = String::from_str("Div 0.1.0");
        let n = msg.as_str().unicode_len();
        let w = if self.dims.x < n {
            self.dims.x
        } else {
            n
        };
        let r = msg.as_str().substring_char(0, w).to_owned();
        proof {
            if w == n {
                assert(msg@.subrange(0, n as int) =~= msg@);
            }
        }
        r
    }

    fn line_text(&self, i: usize) -> (r: String)
        requires
            self.wf(),
            self.files.len() > 0,
        ensures
            r@ == self.spec_line(i as int),
    {
        let f = self.curr_file();
        let lc = f.len();
        let idx = self.offset.y.saturating_add(i);
        match f.get(idx) {
            Some(row) => row.render(self.offset.x, self.offset.x.saturating_add(self.dims.x)),
            None => {
                if lc == 0 && i == self.dims.y / 3 {
                    self.welcome()
                } else {
                    String::from_str("~")
                }
            },
        }
    }

    fn spaces(w: usize) -> (r: String)
        ensures
            r@ == spaces_spec(w as int),
    {
        let mut s = String::new();
        let mut i: usize = 0;
        while i < w
            invariant
                i <= w,
                s@.len() == i,
                forall|j: int| 0 <= j < i ==> s@[j] == ' ',
            decreases w - i,
        {
            proof {
                reveal_strlit(" ");
            }
            s.append(" ");
            i = i + 1;
        }
        proof {
            assert(s@ =~= spaces_spec(w as int));
        }
        s
    }

    /// Composes one full refresh as the sequence of terminal operations
    /// to perform in order: hide the cursor and home it; then — unless the
    /// editor is quitting, where a single line-clear stands in — draw each
    /// of the `dims.y` screen rows (clear, then text), the colored status
    /// line and the blank message line, and park the hardware cursor; then
    /// show the cursor again and flush, so the frame appears in one update.
    pub fn frame(&self) -> (ops: Vec<TermOp>)
        requires
            self.wf(),
            self.files.len() > 0,
        ensures
            self.quit ==> ops@ =~= seq![
                TermOp::CursorEnabled(false),
                TermOp::SetCursor(Coords { x: 0, y: 0 }),
                TermOp::ClearLn,
                TermOp::CursorEnabled(true),
                TermOp::Flush,
            ],
            !self.quit ==> {
                let h = self.dims.y as int;
                &&& ops@.len() == 2 * h + 9
                &&& ops@[0] == TermOp::CursorEnabled(false)
                &&& ops@[1] == TermOp::SetCursor(Coords { x: 0, y: 0 })
                &&& forall|j: int| 0 <= j < h ==> #[trigger] ops@[2 + 2 * j] == TermOp::ClearLn
                &&& forall|j: int|
                    0 <= j < h ==> (#[trigger] ops@[3 + 2 * j] matches TermOp::Text(s) && s@
                        == self.spec_line(j))
                &&& ops@[2 * h + 2] == TermOp::SetBg(Color::Cyan)
                &&& (ops@[2 * h + 3] matches TermOp::Text(s) && s@ == spaces_spec(
                    self.dims.x as int,
                ))
                &&& ops@[2 * h + 4] == TermOp::SetBg(Color::Reset)
                &&& ops@[2 * h + 5] == TermOp::ClearLn
                &&& ops@[2 * h + 6] == TermOp::SetCursor(self.spec_screen_cursor())
                &&& ops@[2 * h + 7] == TermOp::CursorEnabled(true)
                &&& ops@[2 * h + 8] == TermOp::Flush
            },
    {
        let mut ops: Vec<TermOp> = Vec::new();
        ops.push(TermOp::CursorEnabled(false));
        ops.push(TermOp::SetCursor(Coords { x: 0, y: 0 }));
        if self.quit {
            ops.push(TermOp::ClearLn);
        } else {
            let h = self.dims.y;
            let mut i: usize = 0;
            while i < h
                invariant
                    self.wf(),
                    self.files.len() > 0,
                    i <= h,
                    h == self.dims.y,
                    ops@.len() == 2 + 2 * i,
                    ops@[0] == TermOp::CursorEnabled(false),
                    ops@[1] == TermOp::SetCursor(Coords { x: 0, y: 0 }),
                    forall|j: int| 0 <= j < i ==> #[trigger] ops@[2 + 2 * j] == TermOp::ClearLn,
                    forall|j: int|
                        0 <= j < i ==> (#[trigger] ops@[3 + 2 * j] matches TermOp::Text(s) && s@
                            == self.spec_line(j)),
                decreases h - i,
            {
                ops.push(TermOp::ClearLn);
                let line = self.line_text(i);
                ops.push(TermOp::Text(line));
                i = i + 1;
            }
            ops.push(TermOp::SetBg(Color::Cyan));
            ops.push(TermOp::Text(Self::spaces(self.dims.x)));
            ops.push(TermOp::SetBg(Color::Reset));
            ops.push(TermOp::ClearLn);
            ops.push(TermOp::SetCursor(self.screen_cursor()));
        }
        ops.push(TermOp::CursorEnabled(true));
        ops.push(TermOp::Flush);
        ops
    }
}

/// With the current buffer empty, the welcome banner stands exactly at
/// screen row `height / 3`, and every other screen row shows the `~`
/// filler glyph.
pub proof fn lemma_empty_buffer_rows(e: Editor, i: int)
    requires
        e.wf(),
        e.line_count() == 0,
        0 <= i < e.dims.y,
    ensures
        i == e.dims.y as int / 3 ==> e.spec_line(i) == welcome_spec(e.dims.x as int),
        i != e.dims.y as int / 3 ==> e.spec_line(i) == "~"@,
{
}

} // verus!
