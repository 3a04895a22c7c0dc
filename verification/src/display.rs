//! Scrolling display log: cursor arithmetic for appending wrapped lines.

use vstd::prelude::*;

verus! {

/// What one append asks the display surface to do: blank the whole surface
/// first when `cleared`, then draw `text` at vertical position `line`.
#[derive(Clone, Debug, PartialEq, Eq)]
pub struct AppendEffect {
    pub cleared: bool,
    pub line: u32,
    pub text: String,
}

/// Cursor position after one append on a log whose cursor stands at `cursor`:
/// a cursor beyond `max` is first reset to `init`, then the drawn line
/// advances it by `height`.
pub open spec fn step_cursor(init: int, height: int, max: int, cursor: int) -> int {
    if cursor > max {
        init + height
    } else {
        cursor + height
    }
}

/// Cursor position after `n` appends, starting from a fresh log whose cursor
/// stands at `init`.
pub open spec fn cursor_after(init: int, height: int, max: int, n: nat) -> int
    decreases n,
{
    if n == 0 {
        init
    } else {
        step_cursor(init, height, max, cursor_after(init, height, max, (n - 1) as nat))
    }
}

/// Whether the `n`-th append (counted from 1) on a fresh log clears the
/// display before drawing: it does exactly when the cursor left by the
/// previous appends exceeds `max`.
pub open spec fn clears_at(init: int, height: int, max: int, n: nat) -> bool {
    n >= 1 && cursor_after(init, height, max, (n - 1) as nat) > max
}

/// How many lines fit on one screen: appends since the last clear until the
/// cursor first exceeds `max`.
pub open spec fn appends_per_screen(init: int, height: int, max: int) -> int {
    (max - init) / height + 1
}

/// Maintains the scrolling text region. `append` hands back where to draw;
/// the host program performs the drawing. Calls are always sequential (one
/// logical thread of control), so the log needs no internal locking.
#[derive(Clone, Copy, Debug, PartialEq, Eq, Structural)]
pub struct DisplayLog {
    /// Vertical offset at which the next text line will be drawn.
    pub cursor: u32,
    /// Cursor position right after a clear.
    pub initial_offset: u32,
    /// Fixed vertical advance per appended line.
    pub line_height: u32,
    /// Largest cursor position at which a line may still be drawn.
    pub max_line_position: u32,
}

impl DisplayLog {
    /// Well-formedness: the constants admit at least one line per screen and
    /// the cursor never strays further than one line past the bound, so the
    /// cursor arithmetic cannot overflow.
    pub open spec fn wf(self) -> bool {
        &&& 1 <= self.line_height
        &&& self.initial_offset <= self.max_line_position
        &&& self.cursor <= self.max_line_position + self.line_height
        &&& self.max_line_position + self.line_height <= u32::MAX
    }

    /// A fresh log with its cursor at the initial offset.
    pub fn new(initial_offset: u32, line_height: u32, max_line_position: u32) -> (r: DisplayLog)
        requires
            1 <= line_height,
            initial_offset <= max_line_position,
            max_line_position + line_height <= u32::MAX,
        ensures
            r.wf(),
            r.cursor == initial_offset,
            r.initial_offset == initial_offset,
            r.line_height == line_height,
            r.max_line_position == max_line_position,
    {
        DisplayLog {
            cursor: initial_offset,
            initial_offset,
            line_height,
            max_line_position,
        }
    }

    /// A fresh log with the appliance's fixed display geometry.
    pub fn new_appliance() -> (r: DisplayLog)
        ensures
            r.wf(),
            r.cursor == crate::INITIAL_LINE_OFFSET,
            r.initial_offset == crate::INITIAL_LINE_OFFSET,
            r.line_height == crate::LINE_HEIGHT,
            r.max_line_position == crate::MAX_LINE_POSITION,
    {
        DisplayLog::new(crate::INITIAL_LINE_OFFSET, crate::LINE_HEIGHT, crate::MAX_LINE_POSITION)
    }

    /// Appends one line of text to the log. When the cursor left by the
    /// previous append exceeds the bound, the display is cleared and the
    /// cursor reset to the initial offset before the line is drawn; the line
    /// is then drawn at the cursor and the cursor advances by the line
    /// height. Overflow is thus detected after the previous append, never
    /// mid-draw. The returned effect is the drawing the surface must perform.
    pub fn append(&mut self, text: String) -> (e: AppendEffect)
        requires
            old(self).wf(),
        ensures
            final(self).wf(),
            e.text == text,
            e.cleared == (old(self).cursor > old(self).max_line_position),
            e.line == if e.cleared { old(self).initial_offset } else { old(self).cursor },
            final(self).cursor == e.line + final(self).line_height,
            final(self).cursor == step_cursor(
                old(self).initial_offset as int,
                old(self).line_height as int,
                old(self).max_line_position as int,
                old(self).cursor as int,
            ),
            final(self).initial_offset == old(self).initial_offset,
            final(self).line_height == old(self).line_height,
            final(self).max_line_position == old(self).max_line_position,
    {
        let cleared = self.cursor > self.max_line_position;
        if cleared {
            self.cursor = self.initial_offset;
        }
        let line = self.cursor;
        self.cursor = line + self.line_height;
        AppendEffect { cleared, line, text }
    }

    /// Blanks the display and resets the cursor to the initial offset.
    pub fn clear(&mut self)
        requires
            old(self).wf(),
        ensures
            final(self).wf(),
            final(self).cursor == old(self).initial_offset,
            final(self).initial_offset == old(self).initial_offset,
            final(self).line_height == old(self).line_height,
            final(self).max_line_position == old(self).max_line_position,
    {
        self.cursor = self.initial_offset;
    }
}

/// The screen capacity is positive, its last line still fits under the
/// bound, and one more line would overflow it.
proof fn lemma_per_screen_bounds(init: int, height: int, max: int, per: int)
    requires
        1 <= height,
        0 <= init <= max,
        per == appends_per_screen(init, height, max),
    ensures
        1 <= per,
        init + (per - 1) * height <= max,
        init + per * height > max,
{
    let d = max - init;
    let q = d / height;
    let r = d % height;
    vstd::arithmetic::div_mod::lemma_fundamental_div_mod(d, height);
    vstd::arithmetic::div_mod::lemma_mod_division_less_than_divisor(d, height);
    vstd::arithmetic::div_mod::lemma_div_pos_is_pos(d, height);
    assert((per - 1) * height == height * q) by (nonlinear_arith)
        requires per == q + 1;
    assert(per * height == height * q + height) by (nonlinear_arith)
        requires per == q + 1;
}

/// Display wrap law, unwrapped stretch: while the running total
/// `init + n * height` stays below the bound, no append clears and the
/// cursor after `n` appends equals that total — which, being below the
/// bound, is also its remainder modulo the bound.
pub proof fn lemma_display_cursor_unwrapped(init: int, height: int, max: int, n: nat)
    requires
        1 <= height,
        0 <= init,
        init + n * height < max,
    ensures
        cursor_after(init, height, max, n) == (init + n * height) % max,
        cursor_after(init, height, max, n) == init + n * height,
        !clears_at(init, height, max, n),
    decreases n,
{
    vstd::arithmetic::mul::lemma_mul_nonnegative(n as int, height);
    vstd::arithmetic::div_mod::lemma_fundamental_div_mod_converse_mod(
        init + n * height,
        max,
        0,
        init + n * height,
    );
    if n >= 1 {
        let m: nat = (n - 1) as nat;
        assert(m * height == n * height - height) by (nonlinear_arith)
            requires m == n - 1;
        lemma_display_cursor_unwrapped(init, height, max, m);
    } else {
        assert(n * height == 0) by (nonlinear_arith)
            requires n == 0;
    }
}

/// Display wrap law. Starting from a fresh log, with `per` lines to a
/// screen, the cursor after `n` appends stands exactly one line height past
/// the position of the `n`-th drawn line, which cycles through the screen's
/// `per` positions; and the `n`-th append clears the display exactly when
/// the previous appends filled a whole screen, that is, when `n >= 2` and
/// `n - 1` is a multiple of `per`.
pub proof fn lemma_display_wrap(init: int, height: int, max: int, per: int, n: nat)
    requires
        1 <= height,
        0 <= init <= max,
        per == appends_per_screen(init, height, max),
    ensures
        n >= 1 ==> cursor_after(init, height, max, n) == init + ((n - 1) as int % per + 1)
            * height,
        clears_at(init, height, max, n) <==> (n >= 2 && (n - 1) as int % per == 0),
    decreases n,
{
    lemma_per_screen_bounds(init, height, max, per);
    if n == 1 {
        assert(cursor_after(init, height, max, 0) == init);
        vstd::arithmetic::div_mod::lemma_small_mod(0, per as nat);
    } else if n >= 2 {
        lemma_display_wrap(init, height, max, per, (n - 1) as nat);
        let x = (n - 2) as int;
        let m = x % per;
        let q = x / per;
        vstd::arithmetic::div_mod::lemma_mod_division_less_than_divisor(x, per);
        vstd::arithmetic::div_mod::lemma_fundamental_div_mod(x, per);
        let c_prev = cursor_after(init, height, max, (n - 1) as nat);
        assert(c_prev == init + (m + 1) * height);
        if m + 1 == per {
            assert(c_prev > max);
            assert((q + 1) * per + 0 == per * q + m + 1) by (nonlinear_arith)
                requires m + 1 == per;
            vstd::arithmetic::div_mod::lemma_fundamental_div_mod_converse_mod(
                (n - 1) as int,
                per,
                q + 1,
                0,
            );
            assert(cursor_after(init, height, max, n) == init + height);
        } else {
            assert((m + 1) * height <= (per - 1) * height) by (nonlinear_arith)
                requires m + 1 <= per - 1, 1 <= height;
            assert(c_prev <= max);
            assert(q * per + (m + 1) == per * q + m + 1) by (nonlinear_arith);
            vstd::arithmetic::div_mod::lemma_fundamental_div_mod_converse_mod(
                (n - 1) as int,
                per,
                q,
                m + 1,
            );
            assert((m + 1) * height + height == (m + 2) * height) by (nonlinear_arith);
            assert(cursor_after(init, height, max, n) == init + (m + 2) * height);
        }
    }
}

} // verus!

