//! Placement of the regions of the screen

use tui::layout::{Constraint, Direction, Layout, Rect};
use vstd::prelude::*;

verus! {

/// A rectangular region of the screen: its top-left corner, then its dimensions
#[derive(PartialEq, Eq, Structural, Debug, Copy, Clone)]
pub struct Area {
    pub x: u16,
    pub y: u16,
    pub width: u16,
    pub height: u16,
}

impl Area {
    pub fn new(x: u16, y: u16, width: u16, height: u16) -> (a: Area)
        ensures
            a == (Area { x, y, width, height }),
    {
        Area { x, y, width, height }
    }
}

/// The rectangle that `tui::layout::Rect::new` builds from these coordinates and dimensions,
/// as (x, y, width, height)
pub uninterp spec fn terminal_rect(x: u16, y: u16, width: u16, height: u16) -> (u16, u16, u16, u16);

/// The rectangle of the terminal with these coordinates and dimensions, as
/// `tui::layout::Rect::new` builds it: the contract claims that the result depends on the
/// arguments alone, that the corner is kept, and that the dimensions are kept when the area
/// they cover fits in a `u16`. When it does not, the dimensions are reduced, keeping their ratio;
/// the contract says no more of them.
#[verifier::external_body]
fn rect_new(x: u16, y: u16, width: u16, height: u16) -> (a: Area)
    ensures
        (a.x, a.y, a.width, a.height) == terminal_rect(x, y, width, height),
        a.x == x,
        a.y == y,
        width * height <= u16::MAX ==> a.width == width && a.height == height,
{
    let r = Rect::new(x, y, width, height);
    Area { x: r.x, y: r.y, width: r.width, height: r.height }
}

/// What a region asks for along the direction in which its parent is split
#[derive(PartialEq, Eq, Structural, Debug, Copy, Clone)]
pub enum SizeConstraint {
    /// Exactly this many cells
    Length(u16),
    /// At least this many cells
    Min(u16),
}

/// The sum of the sizes that the constraints name
pub open spec fn spec_requested_size(constraints: Seq<SizeConstraint>) -> int
    decreases constraints.len(),
{
    if constraints.len() == 0 {
        0
    } else {
        let size = match constraints.last() {
            SizeConstraint::Length(n) => n as int,
            SizeConstraint::Min(n) => n as int,
        };
        spec_requested_size(constraints.drop_last()) + size
    }
}

/// The number of constraints that are lower bounds
pub open spec fn spec_lower_bounds(constraints: Seq<SizeConstraint>) -> nat
    decreases constraints.len(),
{
    if constraints.len() == 0 {
        0
    } else {
        spec_lower_bounds(constraints.drop_last()) + if constraints.last() is Min {
            1nat
        } else {
            0nat
        }
    }
}

/// A split whose constraints can all be met at once, and leave a single way of meeting them:
/// the exact lengths and the one lower bound fit in the area, and the lower bound takes what is
/// left
pub open spec fn spec_split_is_forced(area: Area, vertical: bool, constraints: Seq<SizeConstraint>) -> bool {
    &&& spec_lower_bounds(constraints) == 1
    &&& spec_requested_size(constraints) <= if vertical {
        area.height
    } else {
        area.width
    }
    &&& area.x + area.width <= u16::MAX
    &&& area.y + area.height <= u16::MAX
}

/// The column right after `area`, as tui computes it (saturated at `u16::MAX`)
pub open spec fn spec_right(area: Area) -> int {
    if area.x + area.width <= u16::MAX {
        area.x + area.width
    } else {
        u16::MAX as int
    }
}

/// The row right under `area`, as tui computes it (saturated at `u16::MAX`)
pub open spec fn spec_bottom(area: Area) -> int {
    if area.y + area.height <= u16::MAX {
        area.y + area.height
    } else {
        u16::MAX as int
    }
}

/// The size a constraint gets in a forced split of `extent` cells whose constraints ask for
/// `requested` cells in all: an exact length gets it, the lower bound gets the rest
pub open spec fn spec_forced_size(c: SizeConstraint, extent: int, requested: int) -> int {
    match c {
        SizeConstraint::Length(n) => n as int,
        SizeConstraint::Min(n) => extent - (requested - n),
    }
}

/// Where the region of the `i`-th constraint starts in a forced split: after the sizes of the
/// constraints before it
pub open spec fn spec_forced_offset(constraints: Seq<SizeConstraint>, i: nat, extent: int, requested: int) -> int
    decreases i,
{
    if i == 0 {
        0
    } else {
        spec_forced_offset(constraints, (i - 1) as nat, extent, requested) + spec_forced_size(
            constraints[i - 1],
            extent,
            requested,
        )
    }
}

/// The regions of a forced split: one per constraint, laid out from the corner of `area` along
/// the direction of the split, each spanning `area` across it
pub open spec fn spec_forced_split(area: Area, vertical: bool, constraints: Seq<SizeConstraint>) -> Seq<Area> {
    let extent: int = if vertical {
        area.height as int
    } else {
        area.width as int
    };
    let requested = spec_requested_size(constraints);
    Seq::new(
        constraints.len(),
        |i: int|
            {
                let offset = spec_forced_offset(constraints, i as nat, extent, requested);
                let size = spec_forced_size(constraints[i], extent, requested);
                if vertical {
                    Area { x: area.x, y: (area.y + offset) as u16, width: area.width, height: size as u16 }
                } else {
                    Area { x: (area.x + offset) as u16, y: area.y, width: size as u16, height: area.height }
                }
            },
    )
}

/// Splits `area` with `tui::layout::Layout::split`, with no margin. tui hands the split to a
/// constraint solver and panics when its required constraints contradict each other, which
/// happens when the far edge of `area` across the split lies beyond `u16::MAX` (the edge is
/// saturated, the region is not): `requires` leaves those areas out. The contract claims that
/// one region comes back for each constraint, that each region ends within the edges of
/// `area`, and, where the constraints leave a single way of meeting them
/// (`spec_split_is_forced`), which regions come back. Where they conflict, or leave room for
/// several layouts, the solver picks one by walking hash maps whose order changes from one
/// process to the next, so the contract says no more of which.
#[verifier::external_body]
fn layout_split(area: Area, vertical: bool, constraints: &Vec<SizeConstraint>) -> (regions: Vec<Area>)
    requires
        vertical ==> area.x + area.width <= u16::MAX,
        !vertical ==> area.y + area.height <= u16::MAX,
    ensures
        regions@.len() == constraints@.len(),
        forall|i: int|
            0 <= i < regions@.len() ==> #[trigger] regions@[i].x + regions@[i].width <= spec_right(area)
                && regions@[i].y + regions@[i].height <= spec_bottom(area),
        spec_split_is_forced(area, vertical, constraints@) ==> regions@ == spec_forced_split(
            area,
            vertical,
            constraints@,
        ),
{
    let direction = if vertical { Direction::Vertical } else { Direction::Horizontal };
    let constraints: Vec<Constraint> = constraints.iter().map(|c| match *c {
        SizeConstraint::Length(n) => Constraint::Length(n),
        SizeConstraint::Min(n) => Constraint::Min(n),
    }).collect();
    let rect = Rect { x: area.x, y: area.y, width: area.width, height: area.height };
    let rects = Layout::default().direction(direction).constraints(constraints).split(rect);
    rects.iter().map(|r| Area { x: r.x, y: r.y, width: r.width, height: r.height }).collect()
}

/// The regions of the screen: the rows (tabs, center, metadata bar), then the columns of the
/// center row (processes, chart)
pub struct UiLayout {
    main_chunks: Vec<Area>,
    center_chunks: Vec<Area>,
}

impl UiLayout {
    /// The rows of the screen, top to bottom
    pub closed spec fn main_regions(&self) -> Seq<Area> {
        self.main_chunks@
    }

    /// The columns of the center row, left to right
    pub closed spec fn center_regions(&self) -> Seq<Area> {
        self.center_chunks@
    }

    #[verifier::type_invariant]
    spec fn has_all_regions(&self) -> bool {
        self.main_chunks@.len() == 3 && self.center_chunks@.len() == 2
    }

    /// Splits `region` into the rows of the screen, then the center row into its columns. Where
    /// the region is high enough for all the rows, the tabs and the metadata bar take one row
    /// each and the center row takes the rest; where it is also wide enough for all the
    /// columns, the processes take 30 columns and the chart the rest.
    pub fn new(region: Area) -> (layout: UiLayout)
        requires
            region.x + region.width <= u16::MAX,
        ensures
            layout.main_regions().len() == 3,
            layout.center_regions().len() == 2,
            forall|i: int|
                0 <= i < 3 ==> #[trigger] layout.main_regions()[i].x + layout.main_regions()[i].width
                    <= spec_right(region) && layout.main_regions()[i].y + layout.main_regions()[i].height
                    <= spec_bottom(region),
            region.height >= 3 && region.y + region.height <= u16::MAX ==> layout.main_regions() == seq![
                Area { x: region.x, y: region.y, width: region.width, height: 1 },
                Area {
                    x: region.x,
                    y: (region.y + 1) as u16,
                    width: region.width,
                    height: (region.height - 2) as u16,
                },
                Area { x: region.x, y: (region.y + region.height - 1) as u16, width: region.width, height: 1 },
            ],
            region.height >= 3 && region.y + region.height <= u16::MAX && region.width >= 31
                ==> layout.center_regions() == seq![
                Area { x: region.x, y: (region.y + 1) as u16, width: 30, height: (region.height - 2) as u16 },
                Area {
                    x: (region.x + 30) as u16,
                    y: (region.y + 1) as u16,
                    width: (region.width - 30) as u16,
                    height: (region.height - 2) as u16,
                },
            ],
    {
        let main_constraints = vec![SizeConstraint::Length(1), SizeConstraint::Min(1), SizeConstraint::Length(1)];
        let main_chunks = layout_split(region, true, &main_constraints);
        let ghost main = main_constraints@;
        let ghost h = region.height as int;
        proof {
            assert(main.drop_last() =~= seq![SizeConstraint::Length(1), SizeConstraint::Min(1)]);
            assert(main.drop_last().drop_last() =~= seq![SizeConstraint::Length(1)]);
            assert(main.drop_last().drop_last().drop_last() =~= Seq::<SizeConstraint>::empty());
            reveal_with_fuel(spec_requested_size, 4);
            reveal_with_fuel(spec_lower_bounds, 4);
            assert(spec_requested_size(main) == 3);
            assert(spec_lower_bounds(main) == 1);
            assert(spec_forced_offset(main, 0, h, 3) == 0);
            assert(spec_forced_offset(main, 1, h, 3) == 1);
            assert(spec_forced_offset(main, 2, h, 3) == h - 1);
            assert(main_chunks@[1].x + main_chunks@[1].width <= spec_right(region));
        }
        let center_constraints = vec![SizeConstraint::Length(30), SizeConstraint::Min(1)];
        let center_chunks = layout_split(main_chunks[1], false, &center_constraints);
        proof {
            let center = center_constraints@;
            let w = main_chunks@[1].width as int;
            assert(center.drop_last() =~= seq![SizeConstraint::Length(30)]);
            assert(center.drop_last().drop_last() =~= Seq::<SizeConstraint>::empty());
            reveal_with_fuel(spec_requested_size, 3);
            reveal_with_fuel(spec_lower_bounds, 3);
            assert(spec_requested_size(center) == 31);
            assert(spec_lower_bounds(center) == 1);
            assert(spec_forced_offset(center, 0, w, 31) == 0);
            assert(spec_forced_offset(center, 1, w, 31) == 30);
            if region.height >= 3 && region.y + region.height <= u16::MAX {
                assert(main_chunks@ =~= spec_forced_split(region, true, main));
                if region.width >= 31 {
                    assert(center_chunks@ =~= spec_forced_split(main_chunks@[1], false, center));
                }
            }
        }
        UiLayout { main_chunks, center_chunks }
    }

    /// The row of the tabs
    pub fn tabs_chunk(&self) -> (a: Area)
        ensures
            a == self.main_regions()[0],
    {
        proof {
            use_type_invariant(self);
        }
        self.main_chunks[0]
    }

    /// The column of the process list
    pub fn processes_chunk(&self) -> (a: Area)
        ensures
            a == self.center_regions()[0],
    {
        proof {
            use_type_invariant(self);
        }
        self.center_chunks[0]
    }

    /// The column of the chart
    pub fn chart_chunk(&self) -> (a: Area)
        ensures
            a == self.center_regions()[1],
    {
        proof {
            use_type_invariant(self);
        }
        self.center_chunks[1]
    }

    /// The row of the metadata bar
    pub fn metadata_chunk(&self) -> (a: Area)
        ensures
            a == self.main_regions()[2],
    {
        proof {
            use_type_invariant(self);
        }
        self.main_chunks[2]
    }
}

/// The area of `parent_area` of the given dimensions (reduced to those of the parent when
/// they are greater) whose center is that of `parent_area`, rounded toward the top-left corner
pub fn centered_area(parent_area: Area, width: u16, height: u16) -> (a: Area)
    requires
        parent_area.x + (parent_area.width - (if width < parent_area.width {
            width
        } else {
            parent_area.width
        })) / 2 <= u16::MAX,
        parent_area.y + (parent_area.height - (if height < parent_area.height {
            height
        } else {
            parent_area.height
        })) / 2 <= u16::MAX,
    ensures
        ({
            let w = if width < parent_area.width {
                width
            } else {
                parent_area.width
            };
            let h = if height < parent_area.height {
                height
            } else {
                parent_area.height
            };
            let x = (parent_area.x + (parent_area.width - w) / 2) as u16;
            let y = (parent_area.y + (parent_area.height - h) / 2) as u16;
            &&& (a.x, a.y, a.width, a.height) == terminal_rect(x, y, w, h)
            &&& a.x == x && a.y == y
            &&& w * h <= u16::MAX ==> a.width == w && a.height == h
        }),
{
    let width = if width < parent_area.width {
        width
    } else {
        parent_area.width
    };
    let height = if height < parent_area.height {
        height
    } else {
        parent_area.height
    };

    let remaining_width = parent_area.width - width;
    let remaining_height = parent_area.height - height;

    rect_new(parent_area.x + remaining_width / 2, parent_area.y + remaining_height / 2, width, height)
}

/// The area that `centered_area` asks for (its result, when the area it covers fits in a `u16`)
/// lies within its parent, and is centered in it: the space left on its left is the space left
/// on its right, or one column less (likewise above and below)
pub proof fn law_centered_area_within_parent(parent_area: Area, width: u16, height: u16)
    requires
        parent_area.x + parent_area.width <= u16::MAX,
        parent_area.y + parent_area.height <= u16::MAX,
    ensures
        ({
            let w = if width < parent_area.width {
                width
            } else {
                parent_area.width
            };
            let h = if height < parent_area.height {
                height
            } else {
                parent_area.height
            };
            let x = parent_area.x + (parent_area.width - w) / 2;
            let y = parent_area.y + (parent_area.height - h) / 2;
            &&& parent_area.x <= x && x + w <= parent_area.x + parent_area.width
            &&& parent_area.y <= y && y + h <= parent_area.y + parent_area.height
            &&& (parent_area.x + parent_area.width) - (x + w) - (x - parent_area.x) <= 1
            &&& (parent_area.x + parent_area.width) - (x + w) - (x - parent_area.x) >= 0
            &&& (parent_area.y + parent_area.height) - (y + h) - (y - parent_area.y) <= 1
            &&& (parent_area.y + parent_area.height) - (y + h) - (y - parent_area.y) >= 0
        }),
{
}

} // verus!
