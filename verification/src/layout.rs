//! Areas of the screen and how it is divided into rows.

use vstd::prelude::*;

verus! {

/// A rectangle of terminal cells.
#[derive(Clone, Copy, PartialEq, Eq, Structural, Debug)]
pub struct Area {
    pub x: u16,
    pub y: u16,
    pub width: u16,
    pub height: u16,
}

/// The row right under an area, at most the last coordinate.
pub open spec fn bottom(area: Area) -> int {
    if area.y + area.height <= 0xffff {
        area.y + area.height
    } else {
        0xffff
    }
}

/// The sum of one row height or two.
pub open spec fn sum_heights(heights: Seq<u16>) -> int {
    if heights.len() == 1 {
        heights[0] as int
    } else {
        heights[0] + heights[1]
    }
}

/// The height of the first row, which comes before rows of fixed heights: what
/// these leave, or else its minimum, as far as there is room.
pub open spec fn first_height(area: Area, min: u16, heights: Seq<u16>) -> int {
    let room = bottom(area) - area.y;
    if min + sum_heights(heights) <= room {
        room - sum_heights(heights)
    } else if min <= room {
        min as int
    } else {
        room
    }
}

/// The height of the upper of two rows that ask for `upper` and `lower` and
/// share `rest`: half of it, rounded up, but neither more than was asked for
/// nor so little that the lower row would get more than it asked for.
pub open spec fn shared_height(rest: int, upper: u16, lower: u16) -> int {
    let half = (rest + 1) / 2;
    if half > upper {
        upper as int
    } else if half < rest - lower {
        rest - lower
    } else {
        half
    }
}

/// The part of an area that is `height` high and starts at the row `y`.
pub open spec fn row_at(area: Area, y: int, height: int) -> Area {
    Area { x: area.x, y: y as u16, width: area.width, height: height as u16 }
}

/// The rows of an area: a first one of at least `min`, and under it one or two
/// of fixed heights.
pub open spec fn rows_of(area: Area, min: u16, heights: Seq<u16>) -> Seq<Area> {
    let first = first_height(area, min, heights);
    let rest = bottom(area) - area.y - first;
    if heights.len() == 1 {
        seq![row_at(area, area.y as int, first), row_at(area, area.y + first, rest)]
    } else {
        let upper = shared_height(rest, heights[0], heights[1]);
        seq![
            row_at(area, area.y as int, first),
            row_at(area, area.y + first, upper),
            row_at(area, area.y + first + upper, rest - upper),
        ]
    }
}

/// Divides an area into rows with `ratatui::layout::Layout::split`, under one
/// `Min` constraint and one or two `Length` constraints.
///
/// Claimed of it: the rows are as wide as the area and cover it from top to
/// bottom without gaps. The `Min` row gets what the others leave, and where the
/// heights do not fit it still gets its minimum, for `Min` comes before
/// `Length`. What is left then goes to the `Length` rows, none of which gets
/// more than its length. Every such share misses the lengths by as much, so the
/// weakest of the solver's constraints decides, which makes neighbours alike:
/// the two rows get half each, as far as their lengths allow. The boundary
/// between them is rounded to a whole row, a half of one upwards.
#[verifier::external_body]
pub(crate) fn split_rows(area: Area, min: u16, heights: &Vec<u16>) -> (r: Vec<Area>)
    requires
        min <= 0x7fff,
        1 <= heights@.len() <= 2,
    ensures
        r@ == rows_of(area, min, heights@),
{
    let mut constraints = vec![ratatui::layout::Constraint::Min(min)];
    constraints.extend(heights.iter().map(|h| ratatui::layout::Constraint::Length(*h)));
    let Area { x, y, width, height } = area;
    let rows = ratatui::layout::Layout::default()
        .direction(ratatui::layout::Direction::Vertical)
        .constraints(constraints)
        .split(ratatui::layout::Rect { x, y, width, height });
    rows.iter().map(|r| Area { x: r.x, y: r.y, width: r.width, height: r.height }).collect()
}

/// The rows cover the area from top to bottom, one right under the other, and
/// none but the first is higher than asked for.
pub proof fn law_rows_cover_the_area(area: Area, min: u16, heights: Seq<u16>, i: int)
    requires
        1 <= heights.len() <= 2,
        0 <= i <= heights.len(),
    ensures
        rows_of(area, min, heights).len() == heights.len() + 1,
        rows_of(area, min, heights)[i].x == area.x,
        rows_of(area, min, heights)[i].width == area.width,
        i == 0 ==> rows_of(area, min, heights)[i].y == area.y,
        i > 0 ==> rows_of(area, min, heights)[i].y == rows_of(area, min, heights)[i - 1].y
            + rows_of(area, min, heights)[i - 1].height,
        i > 0 ==> rows_of(area, min, heights)[i].height <= heights[i - 1],
        i == heights.len() ==> rows_of(area, min, heights)[i].y + rows_of(
            area,
            min,
            heights,
        )[i].height == bottom(area),
{
}

/// Where the heights fit, each row has just the height that was asked for.
pub proof fn law_rows_that_fit_are_exact(area: Area, min: u16, heights: Seq<u16>, i: int)
    requires
        1 <= heights.len() <= 2,
        min + sum_heights(heights) <= bottom(area) - area.y,
        0 < i <= heights.len(),
    ensures
        rows_of(area, min, heights)[i].height == heights[i - 1],
        rows_of(area, min, heights)[0].height == bottom(area) - area.y - sum_heights(heights),
{
}

/// Where two rows get less than they ask for, each gets as much as the other,
/// but for one row at most, or all that it asks for.
pub proof fn law_rows_share_alike(area: Area, min: u16, heights: Seq<u16>)
    requires
        heights.len() == 2,
    ensures
        ({
            let upper = rows_of(area, min, heights)[1].height;
            let lower = rows_of(area, min, heights)[2].height;
            &&& upper < lower ==> upper == heights[0]
            &&& lower + 1 < upper ==> lower == heights[1]
        }),
{
}

} // verus!
