use vstd::prelude::*;

verus! {

/// Side of a box, seen from the crow, on which the box touches it.
#[derive(PartialEq, Eq, Structural, Clone, Copy, Debug)]
pub enum Contact {
    Left,
    Right,
    Top,
    Bottom,
}

impl Contact {
    pub open spec fn is_vertical(self) -> bool {
        self is Top || self is Bottom
    }
}

/// Axis-aligned box given by its centre and its full width and height.
#[derive(PartialEq, Eq, Structural, Clone, Copy, Debug)]
pub struct Aabb {
    pub x: i64,
    pub y: i64,
    pub width: i64,
    pub height: i64,
}

impl Aabb {
    /// Edges at twice their coordinate, so that half sizes stay integers.
    pub open spec fn low_x(self) -> int {
        2 * self.x - self.width
    }

    pub open spec fn high_x(self) -> int {
        2 * self.x + self.width
    }

    pub open spec fn low_y(self) -> int {
        2 * self.y - self.height
    }

    pub open spec fn high_y(self) -> int {
        2 * self.y + self.height
    }
}

pub open spec fn abs(v: int) -> int {
    if v < 0 {
        -v
    } else {
        v
    }
}

/// How box `a` touches box `b`, if it does. The boxes must overlap; then the
/// side is the one on which `a` crosses exactly one edge of `b`. Where that
/// holds on both axes, the axis with the smaller penetration depth wins, and
/// the horizontal one on a tie. Overlapping boxes of which neither crosses
/// exactly one edge of the other on either axis do not touch.
pub open spec fn contact_of(a: Aabb, b: Aabb) -> Option<Contact> {
    if a.low_x() < b.high_x() && a.high_x() > b.low_x() && a.low_y() < b.high_y()
        && a.high_y() > b.low_y() {
        let x_side: Option<Contact> = if a.low_x() < b.low_x() && a.high_x() > b.low_x()
            && a.high_x() < b.high_x() {
            Some(Contact::Left)
        } else if a.low_x() > b.low_x() && a.low_x() < b.high_x() && a.high_x() > b.high_x() {
            Some(Contact::Right)
        } else {
            None
        };
        let x_depth: int = if x_side == Some(Contact::Left) {
            b.low_x() - a.high_x()
        } else {
            a.low_x() - b.high_x()
        };
        let y_side: Option<Contact> = if a.low_y() < b.low_y() && a.high_y() > b.low_y()
            && a.high_y() < b.high_y() {
            Some(Contact::Bottom)
        } else if a.low_y() > b.low_y() && a.low_y() < b.high_y() && a.high_y() > b.high_y() {
            Some(Contact::Top)
        } else {
            None
        };
        let y_depth: int = if y_side == Some(Contact::Bottom) {
            b.low_y() - a.high_y()
        } else {
            a.low_y() - b.high_y()
        };
        match (x_side, y_side) {
            (Some(h), Some(v)) => if abs(y_depth) < abs(x_depth) {
                Some(v)
            } else {
                Some(h)
            },
            (Some(h), None) => Some(h),
            (None, Some(v)) => Some(v),
            (None, None) => None,
        }
    } else {
        None
    }
}

fn abs_i128(v: i128) -> (r: i128)
    requires
        v > i128::MIN,
    ensures
        r == abs(v as int),
{
    if v < 0 {
        -v
    } else {
        v
    }
}

/// Tests whether `a` touches `b`, and on which side.
pub fn collide(a: &Aabb, b: &Aabb) -> (r: Option<Contact>)
    ensures
        r == contact_of(*a, *b),
{
    let a_lx: i128 = 2 * (a.x as i128) - a.width as i128;
    let a_hx: i128 = 2 * (a.x as i128) + a.width as i128;
    let a_ly: i128 = 2 * (a.y as i128) - a.height as i128;
    let a_hy: i128 = 2 * (a.y as i128) + a.height as i128;
    let b_lx: i128 = 2 * (b.x as i128) - b.width as i128;
    let b_hx: i128 = 2 * (b.x as i128) + b.width as i128;
    let b_ly: i128 = 2 * (b.y as i128) - b.height as i128;
    let b_hy: i128 = 2 * (b.y as i128) + b.height as i128;
    if !(a_lx < b_hx && a_hx > b_lx && a_ly < b_hy && a_hy > b_ly) {
        return None;
    }
    let (x_side, x_depth): (Option<Contact>, i128) = if a_lx < b_lx && a_hx > b_lx && a_hx
        < b_hx {
        (Some(Contact::Left), b_lx - a_hx)
    } else if a_lx > b_lx && a_lx < b_hx && a_hx > b_hx {
        (Some(Contact::Right), a_lx - b_hx)
    } else {
        (None, a_lx - b_hx)
    };
    let (y_side, y_depth): (Option<Contact>, i128) = if a_ly < b_ly && a_hy > b_ly && a_hy
        < b_hy {
        (Some(Contact::Bottom), b_ly - a_hy)
    } else if a_ly > b_ly && a_ly < b_hy && a_hy > b_hy {
        (Some(Contact::Top), a_ly - b_hy)
    } else {
        (None, a_ly - b_hy)
    };
    match (x_side, y_side) {
        (Some(h), Some(v)) => {
            if abs_i128(y_depth) < abs_i128(x_depth) {
                Some(v)
            } else {
                Some(h)
            }
        },
        (Some(h), None) => Some(h),
        (None, Some(v)) => Some(v),
        (None, None) => None,
    }
}

} // verus!
