//! The line buffer: an ordered sequence of text lines, a two-dimensional
//! cursor, a scroll offset, and viewport geometry.
//!
//! Every cursor change funnels through [`Buffer::move_cursor`] or one of the
//! stepwise movement operations, and each public operation re-clamps the
//! scroll offset so that the cursor stays inside the viewport whenever the
//! viewport has a positive extent in that axis.

use crate::pos::{Pos, PosView};
use crate::textops::{join_lines, join_sep, split_lines, split_rec};
use vstd::math::{max, min};
use vstd::prelude::*;

verus! {

/// The mathematical view of a [`Buffer`].
pub ghost struct BufferView {
    /// The document: one sequence of characters per line, terminators
    /// excluded.
    pub lines: Seq<Seq<char>>,
    /// The cursor: `x` addresses a unit within line `y`.
    pub cursor: PosView,
    /// The document coordinate shown at the viewport's top-left corner.
    pub scroll: PosView,
    /// The extent of the viewport in columns and rows.
    pub viewport_size: PosView,
    /// The screen cell at which the viewport's top-left corner is drawn.
    pub screen_origin: PosView,
    /// The line terminator appended to every line when saving.
    pub endl: Seq<char>,
}

/// The length of line `y`, or zero for an axis outside the document.
pub open spec fn line_len(lines: Seq<Seq<char>>, y: int) -> int {
    if 0 <= y < lines.len() {
        lines[y].len() as int
    } else {
        0
    }
}

/// The cursor addresses an existing line and a column no further than one
/// past its last unit; an empty document pins the cursor to the origin.
pub open spec fn buf_cursor_ok(v: BufferView) -> bool {
    if v.lines.len() == 0 {
        v.cursor.x == 0 && v.cursor.y == 0
    } else {
        &&& 0 <= v.cursor.y < v.lines.len()
        &&& 0 <= v.cursor.x <= v.lines[v.cursor.y].len()
    }
}

/// Well-formedness: a valid cursor, non-negative geometry, and the line
/// terminator this buffer was created with.
pub open spec fn buf_wf(v: BufferView) -> bool {
    &&& buf_cursor_ok(v)
    &&& v.scroll.x >= 0 && v.scroll.y >= 0
    &&& v.viewport_size.x >= 0 && v.viewport_size.y >= 0
    &&& v.screen_origin.x >= 0 && v.screen_origin.y >= 0
    &&& v.endl == seq!['\n']
}

/// The scroll offset of one axis after re-clamping: unchanged when the
/// viewport has no extent in the axis or the cursor is already visible;
/// otherwise moved the least amount that brings the cursor back in view.
pub open spec fn cap_axis(cursor: int, scroll: int, size: int) -> int {
    if size <= 0 {
        scroll
    } else if cursor < scroll {
        cursor
    } else if cursor > scroll + size - 1 {
        cursor - size + 1
    } else {
        scroll
    }
}

/// Both axes of the scroll offset re-clamped against the cursor.
pub open spec fn spec_cap_scroll(v: BufferView) -> BufferView {
    BufferView {
        scroll: PosView {
            x: cap_axis(v.cursor.x, v.scroll.x, v.viewport_size.x),
            y: cap_axis(v.cursor.y, v.scroll.y, v.viewport_size.y),
        },
        ..v
    }
}

/// The largest admissible line index: the last line, or zero for an empty
/// document.
pub open spec fn clamp_line(lines: Seq<Seq<char>>, y: int) -> int {
    min(y, max(lines.len() - 1, 0))
}

/// The buffer after moving the cursor toward `target`: `target.y` clamped to
/// an existing line, `target.x` clamped to that line's length, and the
/// scroll offset re-clamped.
pub open spec fn spec_move_cursor(v: BufferView, target: PosView) -> BufferView {
    let y = clamp_line(v.lines, target.y);
    let x = min(target.x, line_len(v.lines, y));
    spec_cap_scroll(BufferView { cursor: PosView { x, y }, ..v })
}

/// The buffer after one upward cursor move: the line above (saturating at
/// the first line), same target column.
pub open spec fn spec_move_up(v: BufferView) -> BufferView {
    spec_move_cursor(v, PosView { x: v.cursor.x, y: max(v.cursor.y - 1, 0) })
}

/// The buffer after one downward cursor move.
pub open spec fn spec_move_down(v: BufferView) -> BufferView {
    spec_move_cursor(v, PosView { x: v.cursor.x, y: v.cursor.y + 1 })
}

/// `n` upward cursor moves in sequence.
pub open spec fn spec_move_up_n(v: BufferView, n: nat) -> BufferView
    decreases n,
{
    if n == 0 {
        v
    } else {
        spec_move_up(spec_move_up_n(v, (n - 1) as nat))
    }
}

/// `n` downward cursor moves in sequence.
pub open spec fn spec_move_down_n(v: BufferView, n: nat) -> BufferView
    decreases n,
{
    if n == 0 {
        v
    } else {
        spec_move_down(spec_move_down_n(v, (n - 1) as nat))
    }
}

/// The position one unit to the left of `c`: within the line when possible,
/// otherwise the end of the previous line (the line break itself costs the
/// one unit).  Meaningful only when `c` is not the document start.
pub open spec fn left_step(lines: Seq<Seq<char>>, c: PosView) -> PosView {
    if c.x > 0 {
        PosView { x: c.x - 1, y: c.y }
    } else {
        PosView { x: line_len(lines, c.y - 1), y: c.y - 1 }
    }
}

/// Up to `n` single-unit moves to the left from `c`, stopping early at the
/// document start `(0,0)`: the position reached and the number of units
/// actually moved.
pub open spec fn left_steps(lines: Seq<Seq<char>>, c: PosView, n: nat) -> (PosView, nat)
    decreases n,
{
    if n == 0 || (c.x == 0 && c.y == 0) {
        (c, 0)
    } else {
        let r = left_steps(lines, left_step(lines, c), (n - 1) as nat);
        (r.0, (r.1 + 1) as nat)
    }
}

/// The last addressable position of the document: one past the end of the
/// last line, or the origin for an empty document.
pub open spec fn doc_end(lines: Seq<Seq<char>>) -> PosView {
    if lines.len() == 0 {
        PosView { x: 0, y: 0 }
    } else {
        PosView { x: lines.last().len() as int, y: lines.len() - 1 }
    }
}

/// The position one unit to the right of `c`: within the line when possible,
/// otherwise column zero of the next line.  Meaningful only when `c` is not
/// the document end.
pub open spec fn right_step(lines: Seq<Seq<char>>, c: PosView) -> PosView {
    if c.x < line_len(lines, c.y) {
        PosView { x: c.x + 1, y: c.y }
    } else {
        PosView { x: 0, y: c.y + 1 }
    }
}

/// Up to `n` single-unit moves to the right from `c`, stopping early at the
/// document end: the position reached and the number of units actually
/// moved.
pub open spec fn right_steps(lines: Seq<Seq<char>>, c: PosView, n: nat) -> (PosView, nat)
    decreases n,
{
    if n == 0 || c == doc_end(lines) {
        (c, 0)
    } else {
        let r = right_steps(lines, right_step(lines, c), (n - 1) as nat);
        (r.0, (r.1 + 1) as nat)
    }
}

/// `a - b`, clamped at zero.
pub open spec fn sat_sub(a: int, b: int) -> int {
    max(a - b, 0)
}

/// `a + b`, clamped at the machine limit.
pub open spec fn sat_add_usize(a: int, b: int) -> int {
    min(a + b, usize::MAX as int)
}

/// Where the cursor falls on the screen: `cursor - scroll + screen_origin`,
/// componentwise and saturating.
pub open spec fn spec_viewport_pos(v: BufferView) -> PosView {
    PosView {
        x: sat_add_usize(sat_sub(v.cursor.x, v.scroll.x), v.screen_origin.x),
        y: sat_add_usize(sat_sub(v.cursor.y, v.scroll.y), v.screen_origin.y),
    }
}

/// How many rows the viewport projection yields: limited both by the
/// viewport height and by the lines that exist at and below the scroll
/// offset.
pub open spec fn viewport_rows(v: BufferView) -> int {
    min(v.viewport_size.y, max(v.lines.len() - v.scroll.y, 0))
}

/// The buffer after inserting `s` at the cursor, within the cursor's line:
/// the cursor moves just past the inserted text.  Meaningful when the cursor
/// is valid, so on an empty document the text becomes the single line.
pub open spec fn spec_insert_text(v: BufferView, s: Seq<char>) -> BufferView {
    let target = PosView { x: v.cursor.x + s.len(), y: v.cursor.y };
    if v.lines.len() == 0 {
        spec_move_cursor(BufferView { lines: seq![s], ..v }, target)
    } else {
        let line = v.lines[v.cursor.y];
        let newline = line.subrange(0, v.cursor.x) + s + line.subrange(
            v.cursor.x,
            line.len() as int,
        );
        spec_move_cursor(BufferView { lines: v.lines.update(v.cursor.y, newline), ..v }, target)
    }
}

/// The buffer after splitting the cursor's line at the cursor: the part
/// before the cursor keeps the line's place, the part after it becomes the
/// next line, and the cursor moves to column zero of that next line.  On an
/// empty document a single empty line is appended.
pub open spec fn spec_split_line(v: BufferView) -> BufferView {
    let target = PosView { x: 0, y: v.cursor.y + 1 };
    if v.lines.len() == 0 {
        spec_move_cursor(BufferView { lines: seq![Seq::empty()], ..v }, target)
    } else {
        let line = v.lines[v.cursor.y];
        let pre = line.subrange(0, v.cursor.x);
        let suf = line.subrange(v.cursor.x, line.len() as int);
        spec_move_cursor(
            BufferView { lines: v.lines.update(v.cursor.y, suf).insert(v.cursor.y, pre), ..v },
            target,
        )
    }
}

/// One unit deleted just before cursor `c`: within the line when `c.x > 0`;
/// at column zero the line is merged into the previous one, which costs the
/// unit, and the cursor lands on the former join point.  Meaningful only
/// when `c` is valid and not the document start.
pub open spec fn del_step(lines: Seq<Seq<char>>, c: PosView) -> (Seq<Seq<char>>, PosView) {
    if c.x > 0 {
        let line = lines[c.y];
        (
            lines.update(c.y, line.subrange(0, c.x - 1) + line.subrange(c.x, line.len() as int)),
            PosView { x: c.x - 1, y: c.y },
        )
    } else {
        let prev = lines[c.y - 1];
        let cur = lines[c.y];
        (
            lines.update(c.y - 1, prev + cur).remove(c.y),
            PosView { x: prev.len() as int, y: c.y - 1 },
        )
    }
}

/// Up to `n` single-unit backward deletions starting at `c`, stopping early
/// at the document start: the resulting lines, the resulting cursor, and how
/// many units were actually deleted.
pub open spec fn del_steps(lines: Seq<Seq<char>>, c: PosView, n: nat) -> (
    Seq<Seq<char>>,
    PosView,
    nat,
)
    decreases n,
{
    if n == 0 || (c.x == 0 && c.y == 0) {
        (lines, c, 0)
    } else {
        let s = del_step(lines, c);
        let r = del_steps(s.0, s.1, (n - 1) as nat);
        (r.0, r.1, (r.2 + 1) as nat)
    }
}

/// The "cursor stays visible" contract: after re-clamping the scroll
/// offset, the cursor lies inside the viewport in every axis where the
/// viewport has a positive extent.
pub proof fn lemma_cap_scroll_visible(v: BufferView)
    requires
        v.cursor.x >= 0,
        v.cursor.y >= 0,
        v.scroll.x >= 0,
        v.scroll.y >= 0,
    ensures
        v.viewport_size.x > 0 ==> spec_cap_scroll(v).scroll.x <= v.cursor.x <= spec_cap_scroll(
            v,
        ).scroll.x + v.viewport_size.x - 1,
        v.viewport_size.y > 0 ==> spec_cap_scroll(v).scroll.y <= v.cursor.y <= spec_cap_scroll(
            v,
        ).scroll.y + v.viewport_size.y - 1,
{
}

/// Moving the cursor always lands it on a valid position: on an existing
/// line, no further than one past that line's last unit, and at the origin
/// for an empty document.  Every cursor change passes through this
/// clamping, so the bound holds after any sequence of operations.
pub proof fn lemma_move_cursor_in_bounds(v: BufferView, target: PosView)
    requires
        target.x >= 0,
        target.y >= 0,
    ensures
        buf_cursor_ok(spec_move_cursor(v, target)),
{
}

/// Deleting one unit before cursor position `(pre.len() + mid.len(), y)` on
/// line `pre + mid + suf`, `mid.len()` times over, removes exactly `mid` and
/// leaves the cursor at the end of `pre`.
proof fn lemma_del_within_line(
    lines: Seq<Seq<char>>,
    y: int,
    pre: Seq<char>,
    mid: Seq<char>,
    suf: Seq<char>,
)
    requires
        0 <= y < lines.len(),
        lines[y] == pre + mid + suf,
    ensures
        del_steps(lines, PosView { x: pre.len() + mid.len() as int, y }, mid.len()) == (
            lines.update(y, pre + suf),
            PosView { x: pre.len() as int, y },
            mid.len(),
        ),
    decreases mid.len(),
{
    let line = lines[y];
    let c = PosView { x: pre.len() + mid.len() as int, y };
    if mid.len() == 0 {
        assert(pre + suf =~= line);
        assert(lines.update(y, pre + suf) =~= lines);
    } else {
        let s = del_step(lines, c);
        assert(line.subrange(0, c.x - 1) =~= pre + mid.drop_last());
        assert(line.subrange(c.x, line.len() as int) =~= suf);
        let newline = pre + mid.drop_last() + suf;
        assert(line.subrange(0, c.x - 1) + line.subrange(c.x, line.len() as int) =~= newline);
        assert(s.0 == lines.update(y, newline));
        lemma_del_within_line(s.0, y, pre, mid.drop_last(), suf);
        assert(s.0.update(y, pre + suf) =~= lines.update(y, pre + suf));
    }
}

/// Inserting `s` at a valid cursor and then deleting `s.len()` units
/// backward restores the document's lines and the cursor exactly: the two
/// edits are inverses (for a non-empty document; inserting into an empty
/// document creates a line that deletion cannot remove again).
pub proof fn lemma_insert_then_delete_back(v: BufferView, s: Seq<char>)
    requires
        buf_cursor_ok(v),
        v.lines.len() > 0,
        !s.contains('\n'),
    ensures
        ({
            let v1 = spec_insert_text(v, s);
            let d = del_steps(v1.lines, v1.cursor, s.len());
            d.0 == v.lines && d.1 == v.cursor && d.2 == s.len()
        }),
{
    let y = v.cursor.y;
    let cx = v.cursor.x;
    let line = v.lines[y];
    let pre = line.subrange(0, cx);
    let suf = line.subrange(cx, line.len() as int);
    let newline = pre + s + suf;
    let v1 = spec_insert_text(v, s);
    assert(v1.lines == v.lines.update(y, newline));
    assert(newline.len() == cx + s.len() + suf.len());
    assert(v1.cursor == (PosView { x: cx + s.len(), y }));
    assert(pre.len() == cx);
    lemma_del_within_line(v1.lines, y, pre, s, suf);
    assert(pre + suf =~= line);
    assert(v.lines.update(y, newline).update(y, line) =~= v.lines);
}

/// Splitting a line at a valid cursor and then deleting one unit backward
/// restores the original lines and cursor: the join performed by backward
/// deletion is the split's exact inverse (for a non-empty document).
pub proof fn lemma_split_then_delete_back(v: BufferView)
    requires
        buf_cursor_ok(v),
        v.lines.len() > 0,
    ensures
        ({
            let v1 = spec_split_line(v);
            let d = del_steps(v1.lines, v1.cursor, 1);
            d.0 == v.lines && d.1 == v.cursor && d.2 == 1
        }),
{
    let y = v.cursor.y;
    let cx = v.cursor.x;
    let line = v.lines[y];
    let pre = line.subrange(0, cx);
    let suf = line.subrange(cx, line.len() as int);
    let v1 = spec_split_line(v);
    let l1 = v.lines.update(y, suf).insert(y, pre);
    assert(v1.lines == l1);
    assert(l1.len() == v.lines.len() + 1);
    assert(v1.cursor == (PosView { x: 0, y: y + 1 }));
    assert(l1[y] == pre);
    assert(l1[y + 1] == suf);
    let s = del_step(l1, PosView { x: 0, y: y + 1 });
    assert(pre + suf =~= line);
    assert(s.0 =~= v.lines);
    assert(s.1 == (PosView { x: cx, y }));
    assert(del_steps(s.0, s.1, 0) == (s.0, s.1, 0nat));
}

/// Moving left from the document start moves nothing: the position stays
/// `(0,0)` and the reported count is zero, whatever `n` is.
pub proof fn lemma_move_left_at_start(lines: Seq<Seq<char>>, n: nat)
    ensures
        left_steps(lines, PosView { x: 0, y: 0 }, n) == (PosView { x: 0, y: 0 }, 0nat),
{
}

/// Moving right from the document end moves nothing: the position stays at
/// the end and the reported count is zero, whatever `n` is.
pub proof fn lemma_move_right_at_end(lines: Seq<Seq<char>>, n: nat)
    ensures
        right_steps(lines, doc_end(lines), n) == (doc_end(lines), 0nat),
{
}

/// The failure of a buffer edit: the cursor addressed a non-existent line
/// or column.  A defect signal — unreachable as long as the cursor is only
/// ever changed through the buffer's own operations.
#[derive(Clone, Copy, Debug, PartialEq, Eq, Structural)]
pub enum BufferError {
    OutOfBounds,
}

/// A text document held in memory as one line per entry, with a cursor, a
/// scroll offset, and the geometry of the viewport it is shown in.
#[derive(Debug, Clone)]
pub struct Buffer {
    data: Vec<String>,
    cursor: Pos,
    scroll: Pos,
    viewport_size: Pos,
    endl: String,
    top_left_corner: Pos,
}

impl View for Buffer {
    type V = BufferView;

    closed spec fn view(&self) -> BufferView {
        BufferView {
            lines: self.data.deep_view(),
            cursor: self.cursor@,
            scroll: self.scroll@,
            viewport_size: self.viewport_size@,
            screen_origin: self.top_left_corner@,
            endl: self.endl@,
        }
    }
}

impl Buffer {
    /// Whether this buffer's invariant holds; established by every
    /// constructor and preserved by every operation.
    pub open spec fn wf(self) -> bool {
        buf_wf(self@)
    }

    /// An empty buffer: no lines, everything at the origin, terminator
    /// `"\n"`.
    pub fn new() -> (r: Buffer)
        ensures
            r@.lines == Seq::<Seq<char>>::empty(),
            r@.cursor == (PosView { x: 0, y: 0 }),
            r@.scroll == (PosView { x: 0, y: 0 }),
            r@.viewport_size == (PosView { x: 0, y: 0 }),
            r@.screen_origin == (PosView { x: 0, y: 0 }),
            r@.endl == seq!['\n'],
            r.wf(),
    {
        let endl = String::from_str("\n");
        proof {
            reveal_strlit("\n");
            assert("\n"@ =~= seq!['\n']);
        }
        let r = Buffer {
            data: Vec::new(),
            cursor: Pos::new(0, 0),
            endl,
            scroll: Pos::new(0, 0),
            viewport_size: Pos::new(0, 0),
            top_left_corner: Pos::new(0, 0),
        };
        proof {
            assert(r.data.deep_view() =~= Seq::<Seq<char>>::empty());
        }
        r
    }

    /// Place the viewport's top-left corner on the screen.
    pub fn set_top_left_corner(&mut self, pos: Pos)
        ensures
            final(self)@ == (BufferView { screen_origin: pos@, ..old(self)@ }),
            old(self).wf() ==> final(self).wf(),
    {
        self.top_left_corner = pos;
    }

    /// The number of lines the document holds.
    pub fn content_lines_len(&self) -> (r: usize)
        ensures
            r == self@.lines.len(),
    {
        self.data.len()
    }

    pub fn get_viewport_size(&self) -> (r: Pos)
        ensures
            r@ == self@.viewport_size,
    {
        self.viewport_size
    }

    /// Resize the viewport; pure geometry, the stored value is not
    /// validated.
    pub fn set_viewport_size(&mut self, size: Pos)
        ensures
            final(self)@ == (BufferView { viewport_size: size@, ..old(self)@ }),
            old(self).wf() ==> final(self).wf(),
    {
        self.viewport_size = size;
    }

    pub fn get_cursor(&self) -> (r: Pos)
        ensures
            r@ == self@.cursor,
    {
        self.cursor
    }

    /// Re-clamp the scroll offset so the cursor is visible in every axis
    /// with a positive viewport extent.
    fn cap_scroll(&mut self)
        ensures
            final(self)@ == spec_cap_scroll(old(self)@),
    {
        let sx = if self.viewport_size.x == 0 {
            self.scroll.x
        } else if self.cursor.x < self.scroll.x {
            self.cursor.x
        } else if self.cursor.x - self.scroll.x >= self.viewport_size.x {
            self.cursor.x - (self.viewport_size.x - 1)
        } else {
            self.scroll.x
        };
        let sy = if self.viewport_size.y == 0 {
            self.scroll.y
        } else if self.cursor.y < self.scroll.y {
            self.cursor.y
        } else if self.cursor.y - self.scroll.y >= self.viewport_size.y {
            self.cursor.y - (self.viewport_size.y - 1)
        } else {
            self.scroll.y
        };
        self.scroll = Pos::new(sx, sy);
    }

    /// Move the cursor toward `target`, clamping to the document: the single
    /// choke point through which every cursor change passes.
    pub fn move_cursor(&mut self, pos: Pos)
        ensures
            final(self)@ == spec_move_cursor(old(self)@, pos@),
            buf_cursor_ok(final(self)@),
            old(self)@.endl == seq!['\n'] ==> final(self).wf(),
    {
        let max_y = if self.data.len() == 0 {
            0
        } else {
            self.data.len() - 1
        };
        let y = if pos.y <= max_y {
            pos.y
        } else {
            max_y
        };
        let line_chars = if y < self.data.len() {
            self.data[y].as_str().unicode_len()
        } else {
            0
        };
        let x = if pos.x <= line_chars {
            pos.x
        } else {
            line_chars
        };
        self.cursor = Pos::new(x, y);
        self.cap_scroll();
    }

    /// Move the cursor by `pos`, treated as a (non-negative) delta that may
    /// overshoot the document and is then clamped by [`Buffer::move_cursor`];
    /// used for mouse clicks, where out-of-range targets are expected.
    pub fn move_cursor_relative(&mut self, pos: Pos)
        ensures
            final(self)@ == spec_move_cursor(
                old(self)@,
                (PosView {
                    x: sat_add_usize(old(self)@.cursor.x, pos@.x),
                    y: sat_add_usize(old(self)@.cursor.y, pos@.y),
                }),
            ),
            old(self)@.endl == seq!['\n'] ==> final(self).wf(),
    {
        let target = self.cursor.saturating_add(pos);
        self.move_cursor(target);
    }

    pub fn move_up(&mut self)
        ensures
            final(self)@ == spec_move_up(old(self)@),
            old(self)@.endl == seq!['\n'] ==> final(self).wf(),
    {
        let y = if self.cursor.y == 0 {
            0
        } else {
            self.cursor.y - 1
        };
        let pos = Pos::new(self.cursor.x, y);
        self.move_cursor(pos);
    }

    pub fn move_down(&mut self)
        ensures
            final(self)@ == spec_move_down(old(self)@),
            old(self)@.endl == seq!['\n'] ==> final(self).wf(),
    {
        let dl = self.data.len();
        proof {
            assert(self@.lines.len() == dl);
        }
        let pos = Pos::new(self.cursor.x, self.cursor.y.saturating_add(1));
        self.move_cursor(pos);
    }

    pub fn move_up_n(&mut self, n: usize)
        ensures
            final(self)@ == spec_move_up_n(old(self)@, n as nat),
            old(self).wf() ==> final(self).wf(),
    {
        let mut i: usize = 0;
        while i < n
            invariant
                i <= n,
                self@ == spec_move_up_n(old(self)@, i as nat),
                self@.endl == old(self)@.endl,
                old(self).wf() ==> self.wf(),
            decreases n - i,
        {
            self.move_up();
            i = i + 1;
        }
    }

    pub fn move_down_n(&mut self, n: usize)
        ensures
            final(self)@ == spec_move_down_n(old(self)@, n as nat),
            old(self).wf() ==> final(self).wf(),
    {
        let mut i: usize = 0;
        while i < n
            invariant
                i <= n,
                self@ == spec_move_down_n(old(self)@, i as nat),
                self@.endl == old(self)@.endl,
                old(self).wf() ==> self.wf(),
            decreases n - i,
        {
            self.move_down();
            i = i + 1;
        }
    }

    /// Move the cursor to the end of its current line.
    pub fn move_line_end(&mut self)
        requires
            buf_cursor_ok(old(self)@),
        ensures
            final(self)@ == spec_move_cursor(
                old(self)@,
                (PosView {
                    x: line_len(old(self)@.lines, old(self)@.cursor.y),
                    y: old(self)@.cursor.y,
                }),
            ),
            buf_cursor_ok(final(self)@),
            old(self).wf() ==> final(self).wf(),
    {
        let len = if self.data.len() == 0 {
            0
        } else {
            self.data[self.cursor.y].as_str().unicode_len()
        };
        let pos = Pos::new(len, self.cursor.y);
        self.move_cursor(pos);
    }

    /// Traverse up to `n` units leftward, crossing line boundaries (each
    /// break costs one unit) and stopping at the document start; returns how
    /// many units were actually moved.
    pub fn move_left_n(&mut self, n: usize) -> (moved: usize)
        requires
            buf_cursor_ok(old(self)@),
        ensures
            ({
                let r = left_steps(old(self)@.lines, old(self)@.cursor, n as nat);
                &&& final(self)@ == spec_cap_scroll(
                    (BufferView { cursor: r.0, ..old(self)@ }),
                )
                &&& moved == r.1
            }),
            buf_cursor_ok(final(self)@),
            old(self).wf() ==> final(self).wf(),
    {
        let ghost lines = self@.lines;
        let ghost c0 = self@.cursor;
        let mut cx = self.cursor.x;
        let mut cy = self.cursor.y;
        let mut moved: usize = 0;
        while moved < n && !(cx == 0 && cy == 0)
            invariant
                self == old(self),
                buf_cursor_ok(self@),
                lines == self@.lines,
                c0 == self@.cursor,
                moved <= n,
                buf_cursor_ok(
                    (BufferView { cursor: PosView { x: cx as int, y: cy as int }, ..self@ }),
                ),
                left_steps(lines, c0, n as nat) == ({
                    let r = left_steps(
                        lines,
                        PosView { x: cx as int, y: cy as int },
                        (n - moved) as nat,
                    );
                    (r.0, (r.1 + moved) as nat)
                }),
            decreases n - moved,
        {
            if cx == 0 {
                let prev_len = self.data[cy - 1].as_str().unicode_len();
                cx = prev_len;
                cy = cy - 1;
            } else {
                cx = cx - 1;
            }
            moved = moved + 1;
        }
        self.cursor = Pos::new(cx, cy);
        self.cap_scroll();
        moved
    }

    /// Traverse up to `n` units rightward, crossing line boundaries and
    /// stopping at the document end; returns how many units were actually
    /// moved.
    pub fn move_right_n(&mut self, n: usize) -> (moved: usize)
        requires
            buf_cursor_ok(old(self)@),
        ensures
            ({
                let r = right_steps(old(self)@.lines, old(self)@.cursor, n as nat);
                &&& final(self)@ == spec_cap_scroll(
                    (BufferView { cursor: r.0, ..old(self)@ }),
                )
                &&& moved == r.1
            }),
            buf_cursor_ok(final(self)@),
            old(self).wf() ==> final(self).wf(),
    {
        let ghost lines = self@.lines;
        let ghost c0 = self@.cursor;
        let (end_x, end_y) = if self.data.len() == 0 {
            (0, 0)
        } else {
            (self.data[self.data.len() - 1].as_str().unicode_len(), self.data.len() - 1)
        };
        proof {
            assert(doc_end(lines) == (PosView { x: end_x as int, y: end_y as int }));
        }
        let mut cx = self.cursor.x;
        let mut cy = self.cursor.y;
        let mut moved: usize = 0;
        while moved < n && !(cx == end_x && cy == end_y)
            invariant
                self == old(self),
                buf_cursor_ok(self@),
                lines == self@.lines,
                c0 == self@.cursor,
                moved <= n,
                doc_end(lines) == (PosView { x: end_x as int, y: end_y as int }),
                buf_cursor_ok(
                    (BufferView { cursor: PosView { x: cx as int, y: cy as int }, ..self@ }),
                ),
                right_steps(lines, c0, n as nat) == ({
                    let r = right_steps(
                        lines,
                        PosView { x: cx as int, y: cy as int },
                        (n - moved) as nat,
                    );
                    (r.0, (r.1 + moved) as nat)
                }),
            decreases n - moved,
        {
            let line_chars = self.data[cy].as_str().unicode_len();
            if cx < line_chars {
                cx = cx + 1;
            } else {
                cx = 0;
                cy = cy + 1;
            }
            moved = moved + 1;
        }
        self.cursor = Pos::new(cx, cy);
        self.cap_scroll();
        moved
    }

    /// One unit leftward; returns how many units were moved (zero at the
    /// document start).
    pub fn move_left(&mut self) -> (moved: usize)
        requires
            buf_cursor_ok(old(self)@),
        ensures
            ({
                let r = left_steps(old(self)@.lines, old(self)@.cursor, 1);
                &&& final(self)@ == spec_cap_scroll(
                    (BufferView { cursor: r.0, ..old(self)@ }),
                )
                &&& moved == r.1
            }),
            buf_cursor_ok(final(self)@),
            old(self).wf() ==> final(self).wf(),
    {
        self.move_left_n(1)
    }

    /// One unit rightward; returns how many units were moved (zero at the
    /// document end).
    pub fn move_right(&mut self) -> (moved: usize)
        requires
            buf_cursor_ok(old(self)@),
        ensures
            ({
                let r = right_steps(old(self)@.lines, old(self)@.cursor, 1);
                &&& final(self)@ == spec_cap_scroll(
                    (BufferView { cursor: r.0, ..old(self)@ }),
                )
                &&& moved == r.1
            }),
            buf_cursor_ok(final(self)@),
            old(self).wf() ==> final(self).wf(),
    {
        self.move_right_n(1)
    }

    /// Where the cursor falls on the screen.
    pub fn get_viewport_pos(&self) -> (r: Pos)
        ensures
            r@ == spec_viewport_pos(self@),
    {
        self.cursor.saturating_sub(self.scroll).saturating_add(self.top_left_corner)
    }

    /// The viewport projection: for each visible document line, the screen
    /// cell where its first unit is drawn and the line's text.
    pub fn get_viewport(&self) -> (r: Vec<(Pos, String)>)
        ensures
            r@.len() == viewport_rows(self@),
            forall|i: int|
                0 <= i < r@.len() ==> {
                    &&& (#[trigger] r@[i]).0@.x == self@.screen_origin.x
                    &&& r@[i].0@.y == sat_add_usize(self@.screen_origin.y, i)
                    &&& r@[i].1@ == self@.lines[self@.scroll.y + i]
                },
    {
        let mut out: Vec<(Pos, String)> = Vec::new();
        let dl = self.data.len();
        let rem = dl.saturating_sub(self.scroll.y);
        let count = if self.viewport_size.y <= rem {
            self.viewport_size.y
        } else {
            rem
        };
        proof {
            assert(count == viewport_rows(self@));
        }
        let mut i: usize = 0;
        while i < count
            invariant
                i <= count,
                count == viewport_rows(self@),
                dl == self.data@.len(),
                out@.len() == i,
                forall|j: int|
                    0 <= j < i ==> {
                        &&& (#[trigger] out@[j]).0@.x == self@.screen_origin.x
                        &&& out@[j].0@.y == sat_add_usize(self@.screen_origin.y, j)
                        &&& out@[j].1@ == self@.lines[self@.scroll.y + j]
                    },
            decreases count - i,
        {
            proof {
                assert(self.scroll.y + i < dl);
            }
            let y = self.scroll.y + i;
            let p = Pos::new(self.top_left_corner.x, self.top_left_corner.y.saturating_add(i));
            out.push((p, self.data[y].clone()));
            i = i + 1;
        }
        out
    }

    /// The defensive bounds check behind the `Result`-returning edits.
    fn cursor_ok_exec(&self) -> (r: bool)
        ensures
            r == buf_cursor_ok(self@),
    {
        if self.data.len() == 0 {
            self.cursor.x == 0 && self.cursor.y == 0
        } else {
            self.cursor.y < self.data.len() && self.cursor.x <= self.data[self.cursor.y].as_str().unicode_len()
        }
    }

    /// Insert `text` into the cursor's line at the cursor's column; the
    /// cursor moves just past the inserted text.  Fails with `OutOfBounds`
    /// only if the cursor violates the buffer invariant, which no sequence
    /// of buffer operations can bring about.
    pub fn add_str_at_cursor(&mut self, text: &str) -> (r: Result<(), BufferError>)
        ensures
            r is Ok <==> buf_cursor_ok(old(self)@),
            buf_cursor_ok(old(self)@) ==> final(self)@ == spec_insert_text(old(self)@, text@),
            !buf_cursor_ok(old(self)@) ==> final(self)@ == old(self)@ && r == Err::<
                (),
                BufferError,
            >(BufferError::OutOfBounds),
            old(self).wf() ==> final(self).wf(),
    {
        if !self.cursor_ok_exec() {
            return Err(BufferError::OutOfBounds);
        }
        let cx = self.cursor.x;
        let cy = self.cursor.y;
        let tlen = text.unicode_len();
        if self.data.len() == 0 {
            self.data.push(text.to_owned());
            proof {
                assert(self.data.deep_view() =~= seq![text@]);
            }
            self.move_cursor(Pos::new(tlen, cy));
        } else {
            let line_chars = self.data[cy].as_str().unicode_len();
            let prefix = self.data[cy].as_str().substring_char(0, cx).to_owned();
            let newline = prefix.concat(text).concat(
                self.data[cy].as_str().substring_char(cx, line_chars),
            );
            let nlen = newline.as_str().unicode_len();
            proof {
                assert(cx + tlen <= nlen);
            }
            let ghost pre_lines = self.data.deep_view();
            let _ = self.data.remove(cy);
            self.data.insert(cy, newline);
            proof {
                assert(self.data.deep_view() =~= pre_lines.update(cy as int, newline@));
            }
            self.move_cursor(Pos::new(cx + tlen, cy));
        }
        Ok(())
    }

    /// Split the cursor's line at the cursor: the part before the cursor
    /// keeps the line's place, the part after it becomes the next line, and
    /// the cursor moves to column zero of that next line.
    pub fn add_line_at_cursor(&mut self) -> (r: Result<(), BufferError>)
        ensures
            r is Ok <==> buf_cursor_ok(old(self)@),
            buf_cursor_ok(old(self)@) ==> final(self)@ == spec_split_line(old(self)@),
            !buf_cursor_ok(old(self)@) ==> final(self)@ == old(self)@ && r == Err::<
                (),
                BufferError,
            >(BufferError::OutOfBounds),
            old(self).wf() ==> final(self).wf(),
    {
        if !self.cursor_ok_exec() {
            return Err(BufferError::OutOfBounds);
        }
        let cx = self.cursor.x;
        let cy = self.cursor.y;
        if self.data.len() == 0 {
            self.data.push(String::new());
            proof {
                assert(self.data.deep_view() =~= seq![Seq::<char>::empty()]);
            }
            self.move_cursor(Pos::new(0, cy.saturating_add(1)));
        } else {
            let dl = self.data.len();
            let line_chars = self.data[cy].as_str().unicode_len();
            let prefix = self.data[cy].as_str().substring_char(0, cx).to_owned();
            let suffix = self.data[cy].as_str().substring_char(cx, line_chars).to_owned();
            let ghost pre_lines = self.data.deep_view();
            let _ = self.data.remove(cy);
            self.data.insert(cy, suffix);
            self.data.insert(cy, prefix);
            proof {
                assert(self.data.deep_view() =~= pre_lines.update(cy as int, suffix@).insert(
                    cy as int,
                    prefix@,
                ));
                assert(cy < dl);
            }
            self.move_cursor(Pos::new(0, cy + 1));
        }
        Ok(())
    }

    /// Delete up to `n` units immediately before the cursor, merging a line
    /// into its predecessor whenever the deletion crosses a line start (the
    /// line break costs one unit), and stopping early at the document
    /// start.
    pub fn delete_n_chars_back_from_cursor(&mut self, n: usize) -> (r: Result<(), BufferError>)
        ensures
            r is Ok <==> buf_cursor_ok(old(self)@),
            buf_cursor_ok(old(self)@) ==> ({
                let d = del_steps(old(self)@.lines, old(self)@.cursor, n as nat);
                final(self)@ == spec_cap_scroll(
                    (BufferView { lines: d.0, cursor: d.1, ..old(self)@ }),
                )
            }),
            !buf_cursor_ok(old(self)@) ==> final(self)@ == old(self)@ && r == Err::<
                (),
                BufferError,
            >(BufferError::OutOfBounds),
            old(self).wf() ==> final(self).wf(),
    {
        if !self.cursor_ok_exec() {
            return Err(BufferError::OutOfBounds);
        }
        let ghost lines0 = self@.lines;
        let ghost c0 = self@.cursor;
        let mut deleted: usize = 0;
        while deleted < n && !(self.cursor.x == 0 && self.cursor.y == 0)
            invariant
                deleted <= n,
                buf_cursor_ok(self@),
                self@.scroll == old(self)@.scroll,
                self@.viewport_size == old(self)@.viewport_size,
                self@.screen_origin == old(self)@.screen_origin,
                self@.endl == old(self)@.endl,
                del_steps(lines0, c0, n as nat) == ({
                    let r = del_steps(self@.lines, self@.cursor, (n - deleted) as nat);
                    (r.0, r.1, (r.2 + deleted) as nat)
                }),
            decreases n - deleted,
        {
            let cx = self.cursor.x;
            let cy = self.cursor.y;
            let ghost pre_lines = self.data.deep_view();
            if cx == 0 {
                let prev_len = self.data[cy - 1].as_str().unicode_len();
                let merged = self.data[cy - 1].clone().concat(self.data[cy].as_str());
                let _ = self.data.remove(cy);
                let _ = self.data.remove(cy - 1);
                self.data.insert(cy - 1, merged);
                self.cursor = Pos::new(prev_len, cy - 1);
                proof {
                    assert(self.data.deep_view() =~= pre_lines.update(
                        cy - 1,
                        pre_lines[cy - 1] + pre_lines[cy as int],
                    ).remove(cy as int));
                }
            } else {
                let line_chars = self.data[cy].as_str().unicode_len();
                let pre = self.data[cy].as_str().substring_char(0, cx - 1).to_owned();
                let newline = pre.concat(self.data[cy].as_str().substring_char(cx, line_chars));
                let _ = self.data.remove(cy);
                self.data.insert(cy, newline);
                self.cursor = Pos::new(cx - 1, cy);
                proof {
                    assert(self.data.deep_view() =~= pre_lines.update(cy as int, newline@));
                }
            }
            deleted = deleted + 1;
        }
        self.cap_scroll();
        Ok(())
    }

    /// Delete up to `n` units at and after the cursor: traverse rightward to
    /// find how many units exist, then delete that many backward, which
    /// leaves the cursor where it started.
    pub fn delete_n_chars_front_from_cursor(&mut self, n: usize) -> (r: Result<(), BufferError>)
        ensures
            r is Ok <==> buf_cursor_ok(old(self)@),
            buf_cursor_ok(old(self)@) ==> ({
                let m = right_steps(old(self)@.lines, old(self)@.cursor, n as nat);
                let v1 = spec_cap_scroll((BufferView { cursor: m.0, ..old(self)@ }));
                let d = del_steps(v1.lines, v1.cursor, m.1);
                final(self)@ == spec_cap_scroll((BufferView { lines: d.0, cursor: d.1, ..v1 }))
            }),
            !buf_cursor_ok(old(self)@) ==> final(self)@ == old(self)@ && r == Err::<
                (),
                BufferError,
            >(BufferError::OutOfBounds),
            old(self).wf() ==> final(self).wf(),
    {
        if !self.cursor_ok_exec() {
            return Err(BufferError::OutOfBounds);
        }
        let moved = self.move_right_n(n);
        self.delete_n_chars_back_from_cursor(moved)
    }

    /// Empty the document and reset the cursor to the origin.
    pub fn empty_content(&mut self)
        ensures
            final(self)@ == spec_cap_scroll(
                (BufferView {
                    lines: Seq::<Seq<char>>::empty(),
                    cursor: PosView { x: 0, y: 0 },
                    ..old(self)@
                }),
            ),
            old(self).wf() ==> final(self).wf(),
    {
        self.data.clear();
        self.cursor = Pos::new(0, 0);
        proof {
            assert(self.data.deep_view() =~= Seq::<Seq<char>>::empty());
        }
        self.cap_scroll();
    }

    /// The document's full content as one text, with the line terminator
    /// between consecutive lines and nothing at the end.
    pub fn get_contents(&self) -> (r: String)
        ensures
            r@ == join_sep(self@.lines, self@.endl),
    {
        let mut out = String::new();
        let dl = self.data.len();
        let mut i: usize = 0;
        proof {
            assert(self@.lines.subrange(0, 0) =~= Seq::<Seq<char>>::empty());
        }
        while i < dl
            invariant
                i <= dl,
                dl == self.data@.len(),
                out@ == join_sep(self@.lines.subrange(0, i as int), self@.endl),
            decreases dl - i,
        {
            if i > 0 {
                out.append(self.endl.as_str());
            }
            out.append(self.data[i].as_str());
            proof {
                crate::textops::lemma_join_sep_push(
                    self@.lines.subrange(0, i as int),
                    self@.lines[i as int],
                    self@.endl,
                );
                assert(self@.lines.subrange(0, i + 1) =~= self@.lines.subrange(0, i as int).push(
                    self@.lines[i as int],
                ));
            }
            i = i + 1;
        }
        proof {
            assert(self@.lines.subrange(0, dl as int) =~= self@.lines);
        }
        out
    }

    /// The document in its saved form: every line followed by the line
    /// terminator, the last included.  Does not mutate the buffer.
    pub fn save_to_string(&self) -> (r: String)
        ensures
            r@ == join_lines(self@.lines, self@.endl),
    {
        let mut out = String::new();
        let dl = self.data.len();
        let mut i: usize = 0;
        proof {
            assert(self@.lines.subrange(0, 0) =~= Seq::<Seq<char>>::empty());
        }
        while i < dl
            invariant
                i <= dl,
                dl == self.data@.len(),
                out@ == join_lines(self@.lines.subrange(0, i as int), self@.endl),
            decreases dl - i,
        {
            out.append(self.data[i].as_str());
            out.append(self.endl.as_str());
            proof {
                crate::textops::lemma_join_lines_push(
                    self@.lines.subrange(0, i as int),
                    self@.lines[i as int],
                    self@.endl,
                );
                assert(self@.lines.subrange(0, i + 1) =~= self@.lines.subrange(0, i as int).push(
                    self@.lines[i as int],
                ));
            }
            i = i + 1;
        }
        proof {
            assert(self@.lines.subrange(0, dl as int) =~= self@.lines);
        }
        out
    }

    /// A fresh buffer holding `s` split into lines on `'\n'` boundaries,
    /// terminators discarded, with no extra empty line for a final
    /// terminator; cursor, scroll and geometry all start at the origin.
    pub fn load_from_str(s: &str) -> (r: Buffer)
        ensures
            r@.lines == split_lines(s@),
            r@.cursor == (PosView { x: 0, y: 0 }),
            r@.scroll == (PosView { x: 0, y: 0 }),
            r@.viewport_size == (PosView { x: 0, y: 0 }),
            r@.screen_origin == (PosView { x: 0, y: 0 }),
            r@.endl == seq!['\n'],
            r.wf(),
    {
        let len = s.unicode_len();
        let mut lines_vec: Vec<String> = Vec::new();
        let mut start: usize = 0;
        let mut i: usize = 0;
        proof {
            assert(s@.subrange(0, 0) =~= Seq::<char>::empty());
            assert(lines_vec.deep_view() =~= Seq::<Seq<char>>::empty());
        }
        while i < len
            invariant
                start <= i <= len,
                len == s@.len(),
                split_rec(
                    s@,
                    i as int,
                    s@.subrange(start as int, i as int),
                    lines_vec.deep_view(),
                ) == split_lines(s@),
            decreases len - i,
        {
            let c = s.get_char(i);
            if c == '\n' {
                let piece = s.substring_char(start, i).to_owned();
                let ghost pre = lines_vec.deep_view();
                lines_vec.push(piece);
                proof {
                    assert(lines_vec.deep_view() =~= pre.push(piece@));
                    assert(s@.subrange(i + 1, i + 1) =~= Seq::<char>::empty());
                }
                start = i + 1;
            } else {
                proof {
                    assert(s@.subrange(start as int, i + 1) =~= s@.subrange(
                        start as int,
                        i as int,
                    ).push(s@[i as int]));
                }
            }
            i = i + 1;
        }
        if start < len {
            let piece = s.substring_char(start, len).to_owned();
            let ghost pre = lines_vec.deep_view();
            lines_vec.push(piece);
            proof {
                assert(lines_vec.deep_view() =~= pre.push(piece@));
                assert(piece@.len() > 0);
            }
        } else {
            proof {
                assert(s@.subrange(start as int, len as int).len() == 0);
            }
        }
        let mut r = Buffer::new();
        r.data = lines_vec;
        r
    }
}

} // verus!
