//! The viewport: a window of `height` contiguous rows kept around the
//! cursor, plus the derived render data (visible lines, scrollbar thumb).

use vstd::prelude::*;
use crate::buffer::lines_of;

verus! {

/// Where the viewport starts after following the cursor: scrolled up to the
/// cursor when the cursor is above the window, scrolled down just far enough
/// when the cursor is at or below the window's end, else unchanged. A zero
/// height means no scrolling: the start is pinned at 0.
pub open spec fn reconcile_spec(cursor_row: int, height: int, start_row: int) -> int {
    if height <= 0 {
        0
    } else if cursor_row < start_row {
        cursor_row
    } else if cursor_row >= start_row + height {
        cursor_row - height + 1
    } else {
        start_row
    }
}

/// Recomputes the viewport start after a cursor change. With a positive
/// height, the returned start always satisfies the viewport invariant:
/// `start <= cursor_row < start + height`.
pub fn reconcile(cursor_row: usize, height: usize, start_row: usize) -> (r: usize)
    ensures
        r as int == reconcile_spec(cursor_row as int, height as int, start_row as int),
        height > 0 ==> r <= cursor_row && cursor_row < r + height,
{
    if height == 0 {
        0
    } else if cursor_row < start_row {
        cursor_row
    } else if cursor_row - start_row >= height {
        (cursor_row - height) + 1
    } else {
        start_row
    }
}

/// The lines visible through the window: rows `start_row` up to
/// `start_row + height`, cut off at the end of the buffer.
pub fn visible_slice(buffer: &Vec<Vec<char>>, start_row: usize, height: usize) -> (r: Vec<
    Vec<char>,
>)
    requires
        start_row <= buffer@.len(),
    ensures
        lines_of(r@) == lines_of(buffer@).subrange(
            start_row as int,
            if start_row + height <= buffer@.len() {
                start_row + height
            } else {
                buffer@.len() as int
            },
        ),
{
    let end: usize = if buffer.len() - start_row < height {
        buffer.len()
    } else {
        start_row + height
    };
    let mut r: Vec<Vec<char>> = Vec::new();
    let mut i: usize = start_row;
    while i < end
        invariant
            start_row <= i <= end <= buffer@.len(),
            lines_of(r@) == lines_of(buffer@).subrange(start_row as int, i as int),
        decreases end - i,
    {
        let line = buffer[i].clone();
        proof {
            assert(line@ =~= buffer@[i as int]@);
        }
        let ghost rs = r@;
        let ghost lv = line@;
        r.push(line);
        proof {
            assert(r@ == rs.push(r@[rs.len() as int]));
            assert(r@[rs.len() as int]@ == lv);
            assert(lines_of(rs).len() == rs.len());
            assert(rs.len() == i - start_row);
            assert forall|k: int| 0 <= k < r@.len() implies lines_of(r@)[k] == lines_of(
                buffer@,
            ).subrange(start_row as int, i + 1)[k] by {
                if k < rs.len() {
                    assert(r@[k] == rs[k]);
                    assert(lines_of(rs)[k] == lines_of(buffer@).subrange(
                        start_row as int,
                        i as int,
                    )[k]);
                } else {
                    assert(r@[k]@ == lv);
                }
            }
            assert(lines_of(r@) =~= lines_of(buffer@).subrange(start_row as int, i + 1));
        }
        i = i + 1;
    }
    proof {
        assert(lines_of(r@) =~= lines_of(buffer@).subrange(start_row as int, end as int));
    }
    r
}

/// The scrollbar thumb, proportional to the visible share of the buffer:
/// `Some((thumb_start, thumb_height))` with
/// `thumb_start = height * start_row / buffer_length` and
/// `thumb_height = height * height / buffer_length`, or `None` when the
/// whole buffer fits in the window and no scrollbar is drawn.
pub fn scrollbar_extent(buffer_length: usize, height: usize, start_row: usize) -> (r: Option<
    (usize, usize),
>)
    requires
        start_row <= buffer_length,
        height as int * buffer_length as int <= usize::MAX as int,
    ensures
        r is Some <==> buffer_length > height,
        r matches Some(p) ==> p.0 as int == height as int * start_row as int / buffer_length as int
            && p.1 as int == height as int * height as int / buffer_length as int,
{
    if buffer_length <= height {
        None
    } else {
        assert(height * start_row <= height * buffer_length) by (nonlinear_arith)
            requires
                start_row <= buffer_length,
                0 <= height,
        ;
        assert(height * height <= height * buffer_length) by (nonlinear_arith)
            requires
                height < buffer_length,
                0 <= height,
        ;
        let thumb_start = height * start_row / buffer_length;
        let thumb_height = height * height / buffer_length;
        Some((thumb_start, thumb_height))
    }
}

} // verus!
