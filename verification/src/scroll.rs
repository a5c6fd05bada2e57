//! Scroll-visibility logic: maps a buffer's cursor line to a visible
//! line offset given a viewport height.

use vstd::prelude::*;

verus! {

/// The cursor line lies inside the window of `viewport` lines starting
/// at `scroll`.
pub open spec fn visible(cursor_line: int, scroll: int, viewport: int) -> bool {
    scroll <= cursor_line <= scroll + viewport - 1
}

/// The scroll offset after bringing the cursor line into view.
pub open spec fn ensure_visible_spec(cursor_line: int, scroll: int, viewport: int) -> int {
    if viewport == 0 {
        scroll
    } else if cursor_line < scroll {
        cursor_line
    } else if cursor_line >= scroll + viewport {
        cursor_line - viewport + 1
    } else {
        scroll
    }
}

/// Recompute the scroll offset so that the cursor line is visible: a
/// cursor above the window pulls the window up to it, a cursor below
/// pulls the window down just far enough, and a visible cursor leaves
/// the offset unchanged. A zero-height viewport is left alone.
pub fn ensure_visible(cursor_line: usize, scroll: usize, viewport: usize) -> (r: usize)
    ensures
        r == ensure_visible_spec(cursor_line as int, scroll as int, viewport as int),
        viewport > 0 ==> visible(cursor_line as int, r as int, viewport as int),
        viewport > 0 && visible(cursor_line as int, scroll as int, viewport as int) ==> r
            == scroll,
{
    if viewport == 0 {
        return scroll;
    }
    if cursor_line < scroll {
        cursor_line
    } else if cursor_line - scroll >= viewport {
        cursor_line - viewport + 1
    } else {
        scroll
    }
}

} // verus!
