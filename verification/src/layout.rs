//! Rectangles of the screen and how they are split.
use ratatui::layout;
use vstd::prelude::*;

verus! {

/// A rectangle of terminal cells.
#[derive(Copy, Clone, Debug, PartialEq, Eq, Structural)]
pub struct Rect {
    pub x: u16,
    pub y: u16,
    pub width: u16,
    pub height: u16,
}

/// The direction in which the parts of a rectangle follow each other.
#[derive(Copy, Clone, Debug, PartialEq, Eq, Structural)]
pub enum Direction {
    Horizontal,
    Vertical,
}

/// What is asked of the size of one part of a rectangle.
#[derive(Copy, Clone, Debug, PartialEq, Eq, Structural)]
pub enum Constraint {
    Min(u16),
    Length(u16),
    Percentage(u16),
}

impl Rect {
    /// The number of cells of a rectangle in a direction, as far as coordinates
    /// reach.
    pub open spec fn length(self, direction: Direction) -> int {
        let (start, length) = match direction {
            Direction::Horizontal => (self.x, self.width),
            Direction::Vertical => (self.y, self.height),
        };
        if start + length <= u16::MAX {
            length as int
        } else {
            u16::MAX - start
        }
    }

    /// The part of a rectangle that spans it across a direction, and runs in the
    /// direction from one cell up to another, both counted from where the rectangle
    /// starts.
    pub open spec fn part(self, direction: Direction, from: int, to: int) -> Rect {
        match direction {
            Direction::Horizontal => Rect {
                x: (self.x + from) as u16,
                y: self.y,
                width: (to - from) as u16,
                height: self.height,
            },
            Direction::Vertical => Rect {
                x: self.x,
                y: (self.y + from) as u16,
                width: self.width,
                height: (to - from) as u16,
            },
        }
    }

    /// Whether a rectangle has another one within it.
    pub open spec fn contains(self, inner: Rect) -> bool {
        &&& self.x <= inner.x
        &&& inner.x + inner.width <= self.x + self.width
        &&& self.y <= inner.y
        &&& inner.y + inner.height <= self.y + self.height
    }

    /// Whether all cells of a rectangle have coordinates.
    pub open spec fn fits(self) -> bool {
        self.x + self.width <= u16::MAX && self.y + self.height <= u16::MAX
    }
}

/// Whether a rectangle is one of the parts into which an area can be split in a
/// direction.
pub open spec fn is_part(direction: Direction, area: Rect, part: Rect) -> bool {
    exists|from: int, to: int|
        0 <= from <= to <= area.length(direction) && part == #[trigger] area.part(
            direction,
            from,
            to,
        )
}

/// A percentage of a length, rounded to the nearest number of cells, and up where
/// two are equally near.
pub open spec fn percent_of(percent: int, length: int) -> int {
    (percent * length + 50) / 100
}

/// Whether all constraints are percentages.
pub open spec fn are_percentages(constraints: Seq<Constraint>) -> bool {
    forall|i: int| 0 <= i < constraints.len() ==> #[trigger] constraints[i] is Percentage
}

/// The sum of the first so many percentages.
pub open spec fn percent_before(constraints: Seq<Constraint>, count: int) -> int
    decreases count,
{
    if count <= 0 {
        0
    } else {
        percent_before(constraints, count - 1) + constraints[count - 1]->Percentage_0
    }
}

/// Whether percentages are met by the parts of an area, if they are percentages of at
/// most the whole area: each part starts where the percentages before it end, and
/// ends after its own, to the nearest cell.
pub open spec fn are_met(
    direction: Direction,
    constraints: Seq<Constraint>,
    area: Rect,
    parts: Seq<Rect>,
) -> bool {
    let length = area.length(direction);
    are_percentages(constraints) && percent_before(constraints, constraints.len() as int) <= 100
        ==> forall|i: int|
        0 <= i < parts.len() ==> #[trigger] parts[i] == area.part(
            direction,
            percent_of(percent_before(constraints, i), length),
            percent_of(percent_before(constraints, i + 1), length),
        )
}

/// Whether a part of a given length, asked for after a minimal one, is at the end of
/// the area with that length, if there is room for both, and the minimal one has the
/// rest.
pub open spec fn is_last(
    direction: Direction,
    constraints: Seq<Constraint>,
    area: Rect,
    parts: Seq<Rect>,
) -> bool {
    let length = area.length(direction);
    let rest = length - constraints[1]->Length_0;
    constraints.len() == 2 && constraints[0] is Min && constraints[1] is Length
        && constraints[0]->Min_0 <= rest ==> {
        &&& parts[0] == area.part(direction, 0, rest)
        &&& parts[1] == area.part(direction, rest, length)
    }
}

/// Splits an area with `ratatui::layout::Layout::split`, on a layout without
/// margins and spacing that is aligned to its start. It is believed to return one
/// rectangle for each constraint, in the order of the constraints, each of which
/// is a part of the area in the direction.
///
/// It is also believed to meet percentages of at most the whole area (`are_met`), and
/// to give a part that comes after a minimal one the length asked for, if there is
/// room (`is_last`). Of other constraints nothing more is stated.
#[verifier::external_body]
fn split(direction: Direction, constraints: &Vec<Constraint>, area: Rect) -> (parts: Vec<Rect>)
    ensures
        parts@.len() == constraints@.len(),
        forall|i: int| 0 <= i < parts@.len() ==> is_part(direction, area, #[trigger] parts@[i]),
        are_met(direction, constraints@, area, parts@),
        is_last(direction, constraints@, area, parts@),
{
    let Rect { x, y, width, height } = area;
    let limits = constraints.iter().map(|c| match *c {
        Constraint::Min(n) => layout::Constraint::Min(n),
        Constraint::Length(n) => layout::Constraint::Length(n),
        Constraint::Percentage(n) => layout::Constraint::Percentage(n),
    });
    let direction = match direction {
        Direction::Horizontal => layout::Direction::Horizontal,
        Direction::Vertical => layout::Direction::Vertical,
    };
    let shape = layout::Layout::default().direction(direction).constraints(limits);
    let parts = shape.split(layout::Rect { x, y, width, height });
    parts.iter().map(|p| Rect { x: p.x, y: p.y, width: p.width, height: p.height }).collect()
}

/// The constraints that put a part of the given percentage into the middle of an
/// area, between two margins of equal size.
pub open spec fn centered(percent: u16) -> Seq<Constraint> {
    let margin = Constraint::Percentage(((100 - percent) / 2) as u16);
    seq![margin, Constraint::Percentage(percent), margin]
}

/// Asks for a part of the given percentage in the middle of an area.
pub fn center(percent: u16) -> (constraints: Vec<Constraint>)
    requires
        percent <= 100,
    ensures
        constraints@ == centered(percent),
{
    let margin = Constraint::Percentage((100 - percent) / 2);
    let constraints = vec![margin, Constraint::Percentage(percent), margin];
    assert(constraints@ =~= centered(percent));
    constraints
}

/// The part of the given percentage that comes after a margin of another, in a
/// direction.
pub open spec fn middle(direction: Direction, margin: int, percent: int, area: Rect) -> Rect {
    area.part(
        direction,
        percent_of(margin, area.length(direction)),
        percent_of(margin + percent, area.length(direction)),
    )
}

/// The rectangle in the middle of an area that takes the given percentages of its
/// width and height.
pub open spec fn center_of(percent_x: u16, percent_y: u16, area: Rect) -> Rect {
    let margin_x = (100 - percent_x) / 2;
    let margin_y = (100 - percent_y) / 2;
    let row = middle(Direction::Vertical, margin_y, percent_y as int, area);
    middle(Direction::Horizontal, margin_x, percent_x as int, row)
}

/// Takes the part of the given percentage in the middle of an area.
fn take_middle(direction: Direction, percent: u16, area: Rect) -> (part: Rect)
    requires
        percent <= 100,
    ensures
        part == middle(direction, (100 - percent) / 2, percent as int, area),
        is_part(direction, area, part),
{
    let constraints = center(percent);
    let parts = split(direction, &constraints, area);
    proof {
        reveal_with_fuel(percent_before, 4);
    }
    parts[1]
}

/// The rectangle in the middle of an area that takes the given percentages of its
/// width and height.
pub fn centered_rect(percent_x: u16, percent_y: u16, area: Rect) -> (rect: Rect)
    requires
        percent_x <= 100,
        percent_y <= 100,
    ensures
        rect == center_of(percent_x, percent_y, area),
        area.contains(rect),
{
    let row = take_middle(Direction::Vertical, percent_y, area);
    take_middle(Direction::Horizontal, percent_x, row)
}

/// Where the parts of the interface are on the screen.
#[derive(Copy, Clone, Debug, PartialEq, Eq)]
pub struct Areas {
    pub folders: Rect,
    pub envelopes: Rect,
    pub message: Rect,
    pub footer: Rect,
    pub help: Option<Rect>,
}

/// Where the parts of the interface are on a screen. The footer is the last line,
/// if there is one. The folders take a fifth of the width above it, and the
/// envelopes two fifths of the height beside them, to the nearest cell. The help
/// covers the middle of the screen, and leaves a fifth of it free on each side.
pub open spec fn areas_of(screen: Rect, show_help: bool) -> Areas {
    let height = screen.length(Direction::Vertical);
    let bottom = if height == 0 {
        0
    } else {
        height - 1
    };
    let panes = screen.part(Direction::Vertical, 0, bottom);
    let width = panes.length(Direction::Horizontal);
    let edge = percent_of(20, width);
    let right = panes.part(Direction::Horizontal, edge, width);
    let below = percent_of(40, right.length(Direction::Vertical));
    Areas {
        folders: panes.part(Direction::Horizontal, 0, edge),
        envelopes: right.part(Direction::Vertical, 0, below),
        message: right.part(Direction::Vertical, below, right.length(Direction::Vertical)),
        footer: screen.part(Direction::Vertical, bottom, height),
        help: if show_help {
            let row = middle(Direction::Vertical, 20, 60, screen);
            Some(middle(Direction::Horizontal, 20, 60, row))
        } else {
            None
        },
    }
}

/// Nothing and the whole are what none and all percent of a length come to.
proof fn lemma_percent_bounds()
    ensures
        forall|length: int| #[trigger] percent_of(0, length) == 0,
        forall|length: int| #[trigger] percent_of(100, length) == length,
{
}

/// Finds a place on the screen for each part of the interface.
pub fn arrange(screen: Rect, show_help: bool) -> (areas: Areas)
    ensures
        areas == areas_of(screen, show_help),
{
    proof {
        reveal_with_fuel(percent_before, 3);
        lemma_percent_bounds();
    }
    let screen_limits = vec![Constraint::Min(0), Constraint::Length(1)];
    let rows = split(Direction::Vertical, &screen_limits, screen);
    assert(is_part(Direction::Vertical, screen, rows@[0]));
    assert(is_part(Direction::Vertical, screen, rows@[1]));

    let column_limits = vec![Constraint::Percentage(20), Constraint::Percentage(80)];
    let columns = split(Direction::Horizontal, &column_limits, rows[0]);

    let pane_limits = vec![Constraint::Percentage(40), Constraint::Percentage(60)];
    let panes = split(Direction::Vertical, &pane_limits, columns[1]);

    Areas {
        folders: columns[0],
        envelopes: panes[0],
        message: panes[1],
        footer: rows[1],
        help: if show_help {
            Some(centered_rect(60, 60, screen))
        } else {
            None
        },
    }
}

/// A centred part and its two margins together ask for the whole area, or for one
/// percent less where the margins cannot be made equal otherwise.
pub proof fn law_centered_fits(percent: u16)
    requires
        percent <= 100,
    ensures
        centered(percent).len() == 3,
        centered(percent)[0] == centered(percent)[2],
        ({
            let margin = centered(percent)[0]->Percentage_0;
            99 <= margin + percent + margin <= 100
        }),
{
}

/// Percentages of at most the whole are in order and within the length.
proof fn lemma_percent_order(low: int, high: int, length: int)
    requires
        0 <= low <= high <= 100,
        0 <= length,
    ensures
        0 <= percent_of(low, length) <= percent_of(high, length) <= length,
{
    assert(0 <= low * length <= high * length <= 100 * length) by (nonlinear_arith)
        requires
            0 <= low <= high <= 100,
            0 <= length,
    ;
}

/// A centred rectangle lies within the area.
pub proof fn law_centered_lies_within(percent_x: u16, percent_y: u16, area: Rect)
    requires
        percent_x <= 100,
        percent_y <= 100,
    ensures
        area.contains(center_of(percent_x, percent_y, area)),
{
    let margin_x = (100 - percent_x) / 2;
    let margin_y = (100 - percent_y) / 2;
    let row = middle(Direction::Vertical, margin_y, percent_y as int, area);
    lemma_percent_order(margin_y, margin_y + percent_y, area.length(Direction::Vertical));
    lemma_percent_order(margin_x, margin_x + percent_x, row.length(Direction::Horizontal));
}

/// The centred rectangle that takes all of the width and height is the area itself.
pub proof fn law_centered_whole(area: Rect)
    requires
        area.fits(),
    ensures
        center_of(100, 100, area) == area,
{
    lemma_percent_bounds();
}

/// What rounding leaves of a middle part and the margins on both sides of it.
proof fn lemma_margins(percent: int, length: int)
    requires
        0 <= percent <= 100,
        0 <= length,
    ensures
        ({
            let margin = (100 - percent) / 2;
            let before = percent_of(margin, length);
            let after = length - percent_of(margin + percent, length);
            &&& -100 <= 100 * (length - before - after) - percent * length <= 100
            &&& percent % 2 == 0 ==> -1 <= before - after <= 1
        }),
{
    let margin = (100 - percent) / 2;
    assert((margin + percent) * length == margin * length + percent * length)
        by (nonlinear_arith);
    assert(percent % 2 == 0 ==> margin * length + percent * length + margin * length == 100
        * length) by (nonlinear_arith)
        requires
            percent % 2 == 0 ==> margin + percent + margin == 100,
    ;
}

/// A centred rectangle takes its percentages of the width and height to within a
/// cell. Where a percentage is even, the margins on both sides of it are equal to
/// within a cell.
pub proof fn law_centered_is_in_the_middle(percent_x: u16, percent_y: u16, area: Rect)
    requires
        percent_x <= 100,
        percent_y <= 100,
        area.fits(),
    ensures
        ({
            let rect = center_of(percent_x, percent_y, area);
            let left = rect.x - area.x;
            let right = area.width - left - rect.width;
            let above = rect.y - area.y;
            let below = area.height - above - rect.height;
            &&& -100 <= 100 * rect.width - percent_x * area.width <= 100
            &&& -100 <= 100 * rect.height - percent_y * area.height <= 100
            &&& percent_x % 2 == 0 ==> -1 <= left - right <= 1
            &&& percent_y % 2 == 0 ==> -1 <= above - below <= 1
        }),
{
    let margin_x = (100 - percent_x) / 2;
    let margin_y = (100 - percent_y) / 2;
    law_centered_lies_within(percent_x, percent_y, area);
    lemma_percent_order(margin_y, margin_y + percent_y, area.height as int);
    lemma_percent_order(margin_x, margin_x + percent_x, area.width as int);
    lemma_margins(percent_x as int, area.width as int);
    lemma_margins(percent_y as int, area.height as int);
}

/// The help covers the middle of the screen, with three fifths of its width and
/// height.
pub proof fn law_help_is_centered(screen: Rect)
    ensures
        areas_of(screen, true).help == Some(center_of(60, 60, screen)),
{
}

/// Each part of the interface lies within the screen.
pub proof fn law_areas_lie_within(screen: Rect, show_help: bool)
    ensures
        ({
            let areas = areas_of(screen, show_help);
            &&& screen.contains(areas.folders)
            &&& screen.contains(areas.envelopes)
            &&& screen.contains(areas.message)
            &&& screen.contains(areas.footer)
            &&& areas.help matches Some(help) ==> screen.contains(help)
        }),
{
    law_centered_lies_within(60, 60, screen);
}

/// The envelopes and the message start in the same column and are equally wide,
/// and the footer is as wide as the screen.
pub proof fn law_areas_align(screen: Rect, show_help: bool)
    ensures
        ({
            let areas = areas_of(screen, show_help);
            &&& areas.envelopes.x == areas.message.x
            &&& areas.envelopes.width == areas.message.width
            &&& areas.footer.x == screen.x
            &&& areas.footer.width == screen.width
        }),
{
}

/// The panes and the footer share the screen without gaps and without overlap: the
/// footer is the last line, the folders are on the left above it, and to the right of
/// them are the envelopes above the message.
pub proof fn law_areas_share_the_screen(screen: Rect, show_help: bool)
    requires
        screen.fits(),
        screen.height > 0,
    ensures
        ({
            let areas = areas_of(screen, show_help);
            let (folders, envelopes) = (areas.folders, areas.envelopes);
            let (message, footer) = (areas.message, areas.footer);
            &&& folders.x == screen.x && folders.y == screen.y
            &&& folders.height + 1 == screen.height
            &&& envelopes.x == folders.x + folders.width && envelopes.y == screen.y
            &&& folders.width + envelopes.width == screen.width
            &&& message.x == envelopes.x && message.y == envelopes.y + envelopes.height
            &&& message.width == envelopes.width
            &&& envelopes.height + message.height == folders.height
            &&& footer.x == screen.x && footer.y == screen.y + folders.height
            &&& footer.width == screen.width && footer.height == 1
        }),
{
}

/// A centred rectangle starts after the margin and ends after the margin and its own
/// percentage, each rounded to the nearest cell, and up where two are equally near. The
/// margin is half of what its percentage leaves. An area reaches as far as coordinates do.
pub proof fn law_centered_place(percent_x: u16, percent_y: u16, area: Rect)
    requires
        percent_x <= 100,
        percent_y <= 100,
    ensures
        ({
            let rect = center_of(percent_x, percent_y, area);
            let margin = (100 - percent_x) / 2;
            let width = if area.x + area.width <= 65535 {
                area.width as int
            } else {
                65535 - area.x
            };
            let start = rect.x - area.x;
            let end = start + rect.width;
            &&& 100 * start - 50 <= margin * width < 100 * start + 50
            &&& 100 * end - 50 <= (margin + percent_x) * width < 100 * end + 50
        }),
        ({
            let rect = center_of(percent_x, percent_y, area);
            let margin = (100 - percent_y) / 2;
            let height = if area.y + area.height <= 65535 {
                area.height as int
            } else {
                65535 - area.y
            };
            let start = rect.y - area.y;
            let end = start + rect.height;
            &&& 100 * start - 50 <= margin * height < 100 * start + 50
            &&& 100 * end - 50 <= (margin + percent_y) * height < 100 * end + 50
        }),
{
    let margin_x = (100 - percent_x) / 2;
    let margin_y = (100 - percent_y) / 2;
    lemma_percent_order(margin_y, margin_y + percent_y, area.length(Direction::Vertical));
    lemma_percent_order(margin_x, margin_x + percent_x, area.length(Direction::Horizontal));
    let row = middle(Direction::Vertical, margin_y, percent_y as int, area);
    assert(row.length(Direction::Horizontal) == area.length(Direction::Horizontal));
}

/// The footer is the last line of the screen, where it has one. Above it the folders
/// take a fifth of the width and the envelopes two fifths of the height, each rounded to
/// the nearest cell, and up where two are equally near. The other panes take the rest. A
/// screen reaches as far as coordinates do.
pub proof fn law_areas_place(screen: Rect, show_help: bool)
    ensures
        ({
            let areas = areas_of(screen, show_help);
            let (folders, envelopes) = (areas.folders, areas.envelopes);
            let (message, footer) = (areas.message, areas.footer);
            let width = if screen.x + screen.width <= 65535 {
                screen.width as int
            } else {
                65535 - screen.x
            };
            let height = if screen.y + screen.height <= 65535 {
                screen.height as int
            } else {
                65535 - screen.y
            };
            let bottom = if height > 0 {
                height - 1
            } else {
                0
            };
            &&& footer.x == screen.x && footer.y == screen.y + bottom
            &&& footer.width == screen.width && footer.height == height - bottom
            &&& folders.x == screen.x && folders.y == screen.y && folders.height == bottom
            &&& 100 * folders.width - 50 <= 20 * width < 100 * folders.width + 50
            &&& envelopes.x == screen.x + folders.width && envelopes.y == screen.y
            &&& envelopes.width == width - folders.width
            &&& 100 * envelopes.height - 50 <= 40 * bottom < 100 * envelopes.height + 50
            &&& message.x == envelopes.x && message.width == envelopes.width
            &&& message.y == screen.y + envelopes.height
            &&& message.height == bottom - envelopes.height
            &&& areas.help == (if show_help {
                Some(center_of(60, 60, screen))
            } else {
                None
            })
        }),
{
    law_help_is_centered(screen);
}

/// A rectangle has another one within it if all sides of that are between its own.
pub proof fn law_contains(outer: Rect, inner: Rect)
    ensures
        outer.contains(inner) <==> outer.x <= inner.x && outer.y <= inner.y && inner.x
            + inner.width <= outer.x + outer.width && inner.y + inner.height <= outer.y
            + outer.height,
{
}

/// What is asked of a centred part and its margins: the percentage itself, between two
/// halves of what it leaves, rounded down.
pub proof fn law_center_constraints(percent: u16)
    requires
        percent <= 100,
    ensures
        centered(percent).len() == 3,
        centered(percent)[1] == Constraint::Percentage(percent),
        centered(percent)[0] matches Constraint::Percentage(margin) && 99 <= 2 * margin
            + percent <= 100,
        centered(percent)[2] == centered(percent)[0],
{
}

} // verus!
