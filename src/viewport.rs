//! Which contiguous slice of the item list is visible, given the focused row
//! and the number of rows the list pane can show.
use vstd::prelude::*;

verus! {

/// Rows the list pane shows at once.
pub const VIEWPORT_ROWS: usize = 21;

/// First visible index: the window trails the focus, and never scrolls past
/// the last item.
pub open spec fn window_start(n: int, focus: int, w: int) -> int {
    let s = if focus < n - w {
        focus
    } else {
        n - w
    };
    if s < 0 {
        0
    } else {
        s
    }
}

/// One past the last visible index.
pub open spec fn window_stop(n: int, focus: int, w: int) -> int {
    let e = window_start(n, focus, w) + w;
    if e < n {
        e
    } else {
        n
    }
}

/// The visible index range `[start, stop)` for `len` items, the focused
/// index `focus` and a capacity of `width` rows.
pub fn visible_range(len: usize, focus: usize, width: usize) -> (r: (usize, usize))
    ensures
        r.0 == window_start(len as int, focus as int, width as int),
        r.1 == window_stop(len as int, focus as int, width as int),
        r.0 <= r.1 <= len,
{
    let start: usize = if len < width {
        0
    } else if focus < len - width {
        focus
    } else {
        len - width
    };
    let stop: usize = if width >= len - start {
        len
    } else {
        start + width
    };
    (start, stop)
}

/// The window always holds a valid focus, spans `min(width, len)` rows and
/// ends inside the list.
pub proof fn lemma_window_holds_focus(n: int, focus: int, w: int)
    requires
        0 <= focus < n,
        w > 0,
    ensures
        0 <= window_start(n, focus, w) <= focus < window_stop(n, focus, w) <= n,
        window_stop(n, focus, w) - window_start(n, focus, w) == if w < n {
            w
        } else {
            n
        },
{
}

/// One row of the list pane.
pub struct Row {
    pub text: String,
    pub highlighted: bool,
}

/// The rows of `items` that the pane shows, in order; the focused one is
/// highlighted.
pub fn visible_rows(items: &Vec<String>, focus: usize, width: usize) -> (r: Vec<Row>)
    ensures
        r@.len() == window_stop(items@.len() as int, focus as int, width as int) - window_start(
            items@.len() as int,
            focus as int,
            width as int,
        ),
        forall|i: int|
            0 <= i < r@.len() ==> {
                let k = window_start(items@.len() as int, focus as int, width as int) + i;
                &&& #[trigger] r@[i].text == items@[k]
                &&& r@[i].highlighted == (k == focus)
            },
{
    let (start, stop) = visible_range(items.len(), focus, width);
    let mut rows: Vec<Row> = Vec::new();
    let mut k: usize = start;
    while k < stop
        invariant
            start <= k <= stop <= items@.len(),
            start == window_start(items@.len() as int, focus as int, width as int),
            stop == window_stop(items@.len() as int, focus as int, width as int),
            rows@.len() == k - start,
            forall|i: int|
                0 <= i < rows@.len() ==> {
                    &&& #[trigger] rows@[i].text == items@[start + i]
                    &&& rows@[i].highlighted == (start + i == focus)
                },
        decreases stop - k,
    {
        rows.push(Row { text: items[k].clone(), highlighted: k == focus });
        k = k + 1;
    }
    rows
}

} // verus!
