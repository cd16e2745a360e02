use vstd::prelude::*;
use vstd::string::StrSliceExecFns;
use vstd::string::StringExecFns;

use crate::document::Document;
use crate::info::display_info;
use crate::info::draw_welcome_message;
use crate::info::info_line;
use crate::info::welcome_line;
use crate::row::Row;
use crate::text::clipped_slice;
use crate::text::decimal;
use crate::text::decimal_string;
use crate::text::prefix_chars;
use crate::text::spaces;
use crate::text::spaces_seq;

verus! {

/// A document coordinate: `x` is the column, `y` the row index, both
/// zero-based.
#[derive(Clone, Copy, Debug, PartialEq, Eq, Structural)]
pub struct Position {
    pub x: usize,
    pub y: usize,
}

impl Default for Position {
    /// The origin.
    fn default() -> (p: Position)
        ensures
            p.x == 0 && p.y == 0,
    {
        Position { x: 0, y: 0 }
    }
}

/// The screen extent in character cells, read fresh from the terminal for
/// every computation.
#[derive(Clone, Copy, Debug, PartialEq, Eq, Structural)]
pub struct Size {
    pub width: u16,
    pub height: u16,
}

/// One keypress, as the engine distinguishes them.
#[derive(Clone, Copy, Debug, PartialEq, Eq)]
pub enum Key {
    Up,
    Down,
    Left,
    Right,
    PageUp,
    PageDown,
    Home,
    End,
    Ctrl(char),
    Char(char),
    Other,
}

/// The viewport/cursor engine: the logical cursor position and the scroll
/// offset, kept consistent with the document, plus the quit flag of the
/// event loop.
pub struct Editor {
    pub should_quit: bool,
    pub cursor_position: Position,
    pub document: Document,
    pub offset: Position,
}

/// The length of the row of `doc` at index `y`, and 0 past the end (the
/// synthetic row just after the last line is empty).
pub open spec fn spec_row_len(doc: Seq<Seq<char>>, y: int) -> int {
    if 0 <= y < doc.len() {
        doc[y].len() as int
    } else {
        0
    }
}

/// `a + b`, capped at the largest machine word, as the executable saturating
/// addition computes it.
pub open spec fn sat_add(a: int, b: int) -> int {
    if a + b > usize::MAX {
        usize::MAX as int
    } else {
        a + b
    }
}

/// `a - b`, floored at zero, as the executable saturating subtraction
/// computes it.
pub open spec fn sat_sub(a: int, b: int) -> int {
    if a - b < 0 {
        0
    } else {
        a - b
    }
}

/// Where the cursor at `(x, y)` moves on `key`, in a document whose rows are
/// `doc`, with `terminal_height` the screen height at the time of the key
/// event. The resulting column is re-clamped to the length of the resulting
/// row, so a vertical move onto a shorter line never leaves the cursor past
/// its end.
pub open spec fn spec_move_cursor(
    doc: Seq<Seq<char>>,
    x: int,
    y: int,
    key: Key,
    terminal_height: int,
) -> (int, int) {
    let moved = match key {
        Key::Up => (x, if y > 0 { y - 1 } else { 0 }),
        Key::Down => (x, if y < doc.len() { y + 1 } else { y }),
        Key::Left => if x > 0 {
            (x - 1, y)
        } else if y > 0 {
            (spec_row_len(doc, y - 1), y - 1)
        } else {
            (x, y)
        },
        Key::Right => if x < spec_row_len(doc, y) {
            (x + 1, y)
        } else if y < doc.len() {
            (0, y + 1)
        } else {
            (x, y)
        },
        Key::PageUp => (x, if y > terminal_height { y - terminal_height } else { 0 }),
        Key::PageDown => (
            x,
            if y + terminal_height < doc.len() {
                y + terminal_height
            } else {
                doc.len() as int
            },
        ),
        Key::Home => (0, y),
        Key::End => (spec_row_len(doc, y), y),
        _ => (x, y),
    };
    let limit = spec_row_len(doc, moved.1);
    (if moved.0 > limit { limit } else { moved.0 }, moved.1)
}

/// Whether `key` is one of the cursor-movement keys.
pub open spec fn is_movement_key(key: Key) -> bool {
    match key {
        Key::Up | Key::Down | Key::Left | Key::Right | Key::PageUp | Key::PageDown | Key::Home
            | Key::End => true,
        _ => false,
    }
}

/// How one input event takes the engine from `pre` to `post`: the quit key
/// sets the quit flag, a movement key moves the cursor, and the offset is
/// recomputed afterwards in every case; the document never changes.
pub open spec fn spec_step(pre: Editor, key: Key, size: Size, post: Editor) -> bool {
    let (mx, my) = if is_movement_key(key) {
        spec_move_cursor(
            pre.document@,
            pre.cursor_position.x as int,
            pre.cursor_position.y as int,
            key,
            size.height as int,
        )
    } else {
        (pre.cursor_position.x as int, pre.cursor_position.y as int)
    };
    &&& post.document == pre.document
    &&& post.should_quit == (pre.should_quit || key == Key::Ctrl('q'))
    &&& post.cursor_position.x as int == mx
    &&& post.cursor_position.y as int == my
    &&& post.offset.x as int == spec_scroll_1d(mx, pre.offset.x as int, size.width as int)
    &&& post.offset.y as int == spec_scroll_1d(my, pre.offset.y as int, size.height as int)
}

/// How a whole script of input events takes the engine from `pre` to `post`:
/// the events step the engine one by one, and those after the quit flag is
/// set are left unprocessed.
pub open spec fn spec_run(pre: Editor, keys: Seq<Key>, size: Size, post: Editor) -> bool
    decreases keys.len(),
{
    if pre.should_quit || keys.len() == 0 {
        post == pre
    } else {
        exists|mid: Editor|
            #[trigger] spec_step(pre, keys[0], size, mid) && spec_run(mid, keys.skip(1), size, post)
    }
}

/// The scroll offset along one axis after recomputation: the smallest
/// adjustment, in the scrolled direction, that brings the cursor coordinate
/// `c` back inside the `extent`-wide window starting at `o`; `o` unchanged
/// when `c` is already visible.
pub open spec fn spec_scroll_1d(c: int, o: int, extent: int) -> int {
    if c < o {
        c
    } else if c >= sat_add(o, extent) {
        sat_add(sat_sub(c, extent), 1)
    } else {
        o
    }
}

/// What the screen row `r` shows: the visible window of the document row at
/// index `oy + r` when there is one; on an empty document, the informational
/// banner on screen row 1 and the centered welcome banner on screen row
/// `height / 3`; a tilde placeholder on every other row past the document.
pub open spec fn spec_screen_line(
    doc: Seq<Seq<char>>,
    ox: int,
    oy: int,
    width: int,
    height: int,
    r: int,
) -> Seq<char> {
    if oy + r < doc.len() {
        clipped_slice(doc[oy + r], ox, ox + width)
    } else if doc.len() == 0 && r == 1 {
        info_line(width, height)
    } else if doc.len() == 0 && r == height / 3 {
        welcome_line(width)
    } else {
        "~"@
    }
}

/// The status line: the file name (`[No Name]` when there is none) cut to 20
/// characters, the row count, padding to the screen width, and a final cut to
/// that width.
pub open spec fn spec_status_line(file_name: Option<Seq<char>>, row_count: nat, width: int) -> Seq<
    char,
> {
    let name = match file_name {
        Some(n) => clipped_slice(n, 0, 20),
        None => "[No Name]"@,
    };
    let status = name + " - "@ + decimal(row_count) + " lines"@;
    let padded = if width > status.len() {
        status + spaces_seq((width - status.len()) as nat)
    } else {
        status
    };
    clipped_slice(padded, 0, width)
}

/// One rendered frame: the lines to draw from the top of the screen down,
/// the screen coordinate the terminal cursor is placed at afterwards, and
/// whether this is the farewell frame of a quitting editor.
pub struct Frame {
    pub lines: Vec<String>,
    pub cursor: Position,
    pub quit: bool,
}

impl Editor {
    /// Consistency of the cursor with the document: the row index is at most
    /// the row count (the position just past the last row anchors appends),
    /// and the column is at most the length of the row it stands on.
    pub open spec fn wf(&self) -> bool {
        &&& self.cursor_position.y as int <= self.document@.len()
        &&& self.cursor_position.x as int <= spec_row_len(
            self.document@,
            self.cursor_position.y as int,
        )
    }

    /// An engine over `document`, with the cursor and the offset at the
    /// origin and the quit flag clear.
    pub fn new(document: Document) -> (e: Editor)
        ensures
            e.document == document,
            !e.should_quit,
            e.cursor_position.x == 0 && e.cursor_position.y == 0,
            e.offset.x == 0 && e.offset.y == 0,
            e.wf(),
    {
        Editor {
            should_quit: false,
            cursor_position: Position { x: 0, y: 0 },
            document,
            offset: Position { x: 0, y: 0 },
        }
    }

    /// Applies one movement key to the cursor, exactly as `spec_move_cursor`
    /// says; the document, the offset and the quit flag stay as they are.
    pub fn move_cursor(&mut self, key: Key, size: Size)
        ensures
            final(self).document == old(self).document,
            final(self).offset == old(self).offset,
            final(self).should_quit == old(self).should_quit,
            ({
                let (nx, ny) = spec_move_cursor(
                    old(self).document@,
                    old(self).cursor_position.x as int,
                    old(self).cursor_position.y as int,
                    key,
                    size.height as int,
                );
                final(self).cursor_position.x == nx && final(self).cursor_position.y == ny
            }),
            final(self).cursor_position.x as int <= spec_row_len(
                final(self).document@,
                final(self).cursor_position.y as int,
            ),
            old(self).wf() ==> final(self).wf(),
    {
        let terminal_height = size.height as usize;
        let mut x = self.cursor_position.x;
        let mut y = self.cursor_position.y;
        let height = self.document.len();
        let width = if let Some(row) = self.document.row(y) {
            row.len()
        } else {
            0
        };
        match key {
            Key::Up => {
                y = y.saturating_sub(1);
            },
            Key::Down => {
                if y < height {
                    y = y + 1;
                }
            },
            Key::Left => {
                if x > 0 {
                    x = x - 1;
                } else if y > 0 {
                    y = y - 1;
                    x = if let Some(row) = self.document.row(y) {
                        row.len()
                    } else {
                        0
                    };
                }
            },
            Key::Right => {
                if x < width {
                    x = x + 1;
                } else if y < height {
                    y = y + 1;
                    x = 0;
                }
            },
            Key::PageUp => {
                y = if y > terminal_height {
                    y - terminal_height
                } else {
                    0
                };
            },
            Key::PageDown => {
                y = if y.saturating_add(terminal_height) < height {
                    y + terminal_height
                } else {
                    height
                };
            },
            Key::Home => {
                x = 0;
            },
            Key::End => {
                x = width;
            },
            _ => {},
        }
        let new_width = if let Some(row) = self.document.row(y) {
            row.len()
        } else {
            0
        };
        if x > new_width {
            x = new_width;
        }
        self.cursor_position = Position { x, y };
    }

    /// Recomputes the scroll offset so the cursor is visible, scrolling by
    /// the minimum amount along each axis; the cursor, the document and the
    /// quit flag stay as they are. On any screen with at least one row and
    /// one column, the cursor ends inside the visible window.
    pub fn scroll(&mut self, size: Size)
        ensures
            final(self).document == old(self).document,
            final(self).cursor_position == old(self).cursor_position,
            final(self).should_quit == old(self).should_quit,
            final(self).offset.x as int == spec_scroll_1d(
                old(self).cursor_position.x as int,
                old(self).offset.x as int,
                size.width as int,
            ),
            final(self).offset.y as int == spec_scroll_1d(
                old(self).cursor_position.y as int,
                old(self).offset.y as int,
                size.height as int,
            ),
            size.width >= 1 ==> (final(self).offset.x as int) <= (old(self).cursor_position.x
                as int) < (final(self).offset.x as int + size.width as int),
            size.height >= 1 ==> (final(self).offset.y as int) <= (old(self).cursor_position.y
                as int) < (final(self).offset.y as int + size.height as int),
    {
        let x = self.cursor_position.x;
        let y = self.cursor_position.y;
        let width = size.width as usize;
        let height = size.height as usize;
        let mut offset_x = self.offset.x;
        let mut offset_y = self.offset.y;
        if y < offset_y {
            offset_y = y;
        } else if y >= offset_y.saturating_add(height) {
            offset_y = y.saturating_sub(height).saturating_add(1);
        }
        if x < offset_x {
            offset_x = x;
        } else if x >= offset_x.saturating_add(width) {
            offset_x = x.saturating_sub(width).saturating_add(1);
        }
        self.offset = Position { x: offset_x, y: offset_y };
    }

    /// Applies one input event: `Ctrl('q')` sets the quit flag, movement keys
    /// move the cursor, every other key changes nothing; the offset is then
    /// recomputed so the cursor stays visible.
    pub fn process_keypress(&mut self, key: Key, size: Size)
        ensures
            spec_step(*old(self), key, size, *final(self)),
            old(self).wf() ==> final(self).wf(),
    {
        match key {
            Key::Ctrl('q') => {
                self.should_quit = true;
            },
            Key::Up | Key::Down | Key::Left | Key::Right | Key::PageUp | Key::PageDown
                | Key::Home | Key::End => {
                self.move_cursor(key, size);
            },
            _ => {},
        }
        self.scroll(size);
    }

    /// Processes a script of input events in order, leaving the events after
    /// the quit flag is set unprocessed, exactly as `spec_run` says.
    pub fn run(&mut self, keys: &Vec<Key>, size: Size)
        ensures
            spec_run(*old(self), keys@, size, *final(self)),
            old(self).wf() ==> final(self).wf(),
    {
        let ghost pre = *self;
        proof {
            assert(keys@.skip(0) =~= keys@);
        }
        let n = keys.len();
        let mut i: usize = 0;
        while i < n && !self.should_quit
            invariant
                i <= n,
                n == keys@.len(),
                pre.wf() ==> self.wf(),
                forall|post: Editor|
                    spec_run(*self, keys@.skip(i as int), size, post) ==> spec_run(
                        pre,
                        keys@,
                        size,
                        post,
                    ),
            decreases n - i,
        {
            let ghost prev = *self;
            let key = keys[i];
            self.process_keypress(key, size);
            proof {
                let i0 = i as int;
                assert(keys@.skip(i0).skip(1) =~= keys@.skip(i0 + 1));
                assert forall|post: Editor|
                    spec_run(*self, keys@.skip(i0 + 1), size, post) implies spec_run(
                    pre,
                    keys@,
                    size,
                    post,
                ) by {
                    assert(spec_step(prev, keys@.skip(i0)[0], size, *self));
                    assert(spec_run(prev, keys@.skip(i0), size, post));
                }
            }
            i = i + 1;
        }
        proof {
            assert(spec_run(*self, keys@.skip(i as int), size, *self));
        }
    }

    /// The visible window of one row: its characters from the horizontal
    /// offset on, at most one screen width of them.
    pub fn draw_row(&self, row: &Row, size: Size) -> (line: String)
        ensures
            line@ == clipped_slice(
                row@,
                self.offset.x as int,
                self.offset.x as int + size.width as int,
            ),
    {
        let width = size.width as usize;
        let start = self.offset.x;
        let end = start.saturating_add(width);
        row.render(start, end)
    }

    /// The lines of the document window, one per screen row, as
    /// `spec_screen_line` says.
    pub fn draw_rows(&self, size: Size) -> (lines: Vec<String>)
        ensures
            lines@.len() == size.height as int,
            forall|r: int|
                0 <= r < size.height as int ==> lines@[r]@ == spec_screen_line(
                    self.document@,
                    self.offset.x as int,
                    self.offset.y as int,
                    size.width as int,
                    size.height as int,
                    r,
                ),
    {
        let mut lines: Vec<String> = Vec::new();
        let height = size.height;
        let mut terminal_row: u16 = 0;
        while terminal_row < height
            invariant
                terminal_row <= height,
                height == size.height,
                lines@.len() == terminal_row as int,
                forall|r: int|
                    0 <= r < terminal_row as int ==> lines@[r]@ == spec_screen_line(
                        self.document@,
                        self.offset.x as int,
                        self.offset.y as int,
                        size.width as int,
                        size.height as int,
                        r,
                    ),
            decreases height - terminal_row,
        {
            let index = self.offset.y.saturating_add(terminal_row as usize);
            let line = if let Some(row) = self.document.row(index) {
                self.draw_row(row, size)
            } else if self.document.is_empty() && terminal_row == 1 {
                display_info(size)
            } else if self.document.is_empty() && terminal_row == height / 3 {
                draw_welcome_message(size)
            } else {
                "~".to_owned()
            };
            lines.push(line);
            terminal_row = terminal_row + 1;
        }
        lines
    }

    /// The status line for this document and screen width, as
    /// `spec_status_line` says.
    pub fn draw_status_bar(&self, size: Size) -> (line: String)
        ensures
            line@ == spec_status_line(
                self.document.file_name.deep_view(),
                self.document@.len(),
                size.width as int,
            ),
    {
        let width = size.width as usize;
        let mut status = match &self.document.file_name {
            Some(name) => prefix_chars(name.as_str(), 20),
            None => "[No Name]".to_owned(),
        };
        let ghost name_part = status@;
        status.append(" - ");
        let count = decimal_string(self.document.len());
        status.append(count.as_str());
        status.append(" lines");
        proof {
            assert(status@ =~= name_part + " - "@ + decimal(self.document@.len()) + " lines"@);
        }
        let ghost unpadded = status@;
        let status_len = status.as_str().unicode_len();
        if width > status_len {
            let pad = spaces(width - status_len);
            status.append(pad.as_str());
        }
        proof {
            assert(status@ =~= (if size.width as int > unpadded.len() {
                unpadded + spaces_seq((size.width as int - unpadded.len()) as nat)
            } else {
                unpadded
            }));
        }
        prefix_chars(status.as_str(), width)
    }

    /// The message line below the status bar: cleared, so empty.
    pub fn draw_message_bar(&self) -> (line: String)
        ensures
            line@ == Seq::<char>::empty(),
    {
        String::new()
    }

    /// One full frame: on a quitting editor, the single farewell line;
    /// otherwise the document window, the status line and the cleared message
    /// line, with the terminal cursor at the cursor's screen coordinate.
    pub fn refresh_screen(&self, size: Size) -> (frame: Frame)
        ensures
            frame.quit == self.should_quit,
            self.should_quit ==> frame.lines@.len() == 1 && frame.lines@[0]@ == "Goodbye."@
                && frame.cursor.x == 0 && frame.cursor.y == 0,
            !self.should_quit ==> ({
                &&& frame.lines@.len() == size.height as int + 2
                &&& forall|r: int|
                    0 <= r < size.height as int ==> frame.lines@[r]@ == spec_screen_line(
                        self.document@,
                        self.offset.x as int,
                        self.offset.y as int,
                        size.width as int,
                        size.height as int,
                        r,
                    )
                &&& frame.lines@[size.height as int]@ == spec_status_line(
                    self.document.file_name.deep_view(),
                    self.document@.len(),
                    size.width as int,
                )
                &&& frame.lines@[size.height as int + 1]@ == Seq::<char>::empty()
                &&& frame.cursor.x == self.cursor_position.x.saturating_sub(self.offset.x)
                &&& frame.cursor.y == self.cursor_position.y.saturating_sub(self.offset.y)
            }),
    {
        if self.should_quit {
            let mut lines: Vec<String> = Vec::new();
            lines.push("Goodbye.".to_owned());
            Frame { lines, cursor: Position { x: 0, y: 0 }, quit: true }
        } else {
            let mut lines = self.draw_rows(size);
            let status = self.draw_status_bar(size);
            lines.push(status);
            let message = self.draw_message_bar();
            lines.push(message);
            Frame {
                lines,
                cursor: Position {
                    x: self.cursor_position.x.saturating_sub(self.offset.x),
                    y: self.cursor_position.y.saturating_sub(self.offset.y),
                },
                quit: false,
            }
        }
    }
}

/// Clamp invariant: for every cursor position and every movement command, the
/// resulting column is at most the length of the row at the resulting row
/// index.
pub proof fn lemma_move_cursor_clamps(doc: Seq<Seq<char>>, x: int, y: int, key: Key, th: int)
    ensures
        ({
            let (nx, ny) = spec_move_cursor(doc, x, y, key, th);
            nx <= spec_row_len(doc, ny)
        }),
{
}

/// Left at column 0 on a row index above 0 wraps to the end of the previous
/// row.
pub proof fn lemma_left_wraps(doc: Seq<Seq<char>>, x: int, y: int, th: int)
    requires
        x == 0,
        y > 0,
    ensures
        spec_move_cursor(doc, x, y, Key::Left, th) == (spec_row_len(doc, y - 1), y - 1),
{
}

/// Right at the end of a row whose index is below the row count wraps to the
/// start of the next row.
pub proof fn lemma_right_wraps(doc: Seq<Seq<char>>, x: int, y: int, th: int)
    requires
        0 <= y < doc.len(),
        x == spec_row_len(doc, y),
    ensures
        spec_move_cursor(doc, x, y, Key::Right, th) == (0int, y + 1),
{
}

/// Page-Down jumps by one screen height and clamps at the document row
/// count, whatever the current screen height.
pub proof fn lemma_page_down_clamps(doc: Seq<Seq<char>>, x: int, y: int, th: int)
    requires
        0 <= y,
    ensures
        ({
            let (nx, ny) = spec_move_cursor(doc, x, y, Key::PageDown, th);
            &&& ny <= doc.len()
            &&& ny == if y + th < doc.len() {
                y + th
            } else {
                doc.len() as int
            }
        }),
{
}

/// Page-Up jumps by one screen height and clamps at 0, whatever the current
/// screen height.
pub proof fn lemma_page_up_clamps(doc: Seq<Seq<char>>, x: int, y: int, th: int)
    requires
        0 <= y,
    ensures
        ({
            let (nx, ny) = spec_move_cursor(doc, x, y, Key::PageUp, th);
            &&& ny >= 0
            &&& ny == if y > th {
                y - th
            } else {
                0
            }
        }),
{
}

/// After recomputation the cursor coordinate is inside the visible window
/// along each axis: `offset <= cursor < offset + extent`, for every cursor
/// and offset a machine word can hold and every extent of at least one cell.
pub proof fn lemma_scroll_visible(c: int, o: int, extent: int)
    requires
        0 <= c <= usize::MAX,
        0 <= o,
        1 <= extent,
    ensures
        spec_scroll_1d(c, o, extent) <= c < spec_scroll_1d(c, o, extent) + extent,
{
}

/// Recomputing the offset twice with unchanged inputs yields the same offset
/// as recomputing it once, along each axis, for every extent of at least one
/// cell. (With a zero extent a second recomputation can move the offset
/// again: cursor 0, offset 1, extent 0 gives offset 1 and then 0.)
pub proof fn lemma_scroll_idempotent(c: int, o: int, extent: int)
    requires
        0 <= c <= usize::MAX,
        0 <= o <= usize::MAX,
        1 <= extent,
    ensures
        spec_scroll_1d(c, spec_scroll_1d(c, o, extent), extent) == spec_scroll_1d(c, o, extent),
{
}

/// Recomputing the offset twice in succession with an unchanged cursor and
/// screen extent yields the same offset as recomputing it once, on any screen
/// with at least one row and one column.
pub proof fn lemma_recompute_idempotent(cursor: Position, offset: Position, size: Size)
    requires
        1 <= size.width,
        1 <= size.height,
    ensures
        ({
            let ox = spec_scroll_1d(cursor.x as int, offset.x as int, size.width as int);
            let oy = spec_scroll_1d(cursor.y as int, offset.y as int, size.height as int);
            &&& spec_scroll_1d(cursor.x as int, ox, size.width as int) == ox
            &&& spec_scroll_1d(cursor.y as int, oy, size.height as int) == oy
        }),
{
    lemma_scroll_idempotent(cursor.x as int, offset.x as int, size.width as int);
    lemma_scroll_idempotent(cursor.y as int, offset.y as int, size.height as int);
}

impl Default for Editor {
    /// An engine over an empty document.
    fn default() -> (e: Editor)
        ensures
            e.document@ == Seq::<Seq<char>>::empty(),
            e.document.file_name is None,
            !e.should_quit,
            e.cursor_position.x == 0 && e.cursor_position.y == 0,
            e.offset.x == 0 && e.offset.y == 0,
            e.wf(),
    {
        Editor::new(Document::default())
    }
}

} // verus!

