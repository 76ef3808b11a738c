use vstd::prelude::*;
use vstd::string::*;

use crate::geometry::{contains, rect_contains, Point, Rectangle};

verus! {

/// A section header with a fixed-height body: 24 pixels tall when closed, 224 when open.
pub struct ExpandableSection {
    pub position: Point,
    pub title: String,
    pub is_open: bool,
}

impl ExpandableSection {
    /// The box the section occupies.
    pub open spec fn spec_size(&self) -> Rectangle {
        Rectangle {
            x: self.position.x,
            y: self.position.y,
            width: 760,
            height: if self.is_open { 224 } else { 24 },
        }
    }

    /// A closed section at `(x, y)`.
    pub fn new(title: &str, x: i64, y: i64) -> (r: Self)
        ensures
            r.position == (Point { x, y }),
            r.title@ == title@,
            !r.is_open,
    {
        ExpandableSection { position: Point { x, y }, title: String::from_str(title), is_open: false }
    }

    /// The section's title.
    pub fn title(&self) -> (r: &str)
        ensures
            r@ == self.title@,
    {
        self.title.as_str()
    }

    /// The box the section occupies.
    pub fn size(&self) -> (r: Rectangle)
        ensures
            r == self.spec_size(),
    {
        if self.is_open {
            Rectangle { x: self.position.x, y: self.position.y, width: 760, height: 224 }
        } else {
            Rectangle { x: self.position.x, y: self.position.y, width: 760, height: 24 }
        }
    }

    /// Moves the section to `vec`.
    pub fn move_to(&mut self, vec: Point)
        ensures
            final(self).position == vec,
            final(self).title == old(self).title,
            final(self).is_open == old(self).is_open,
    {
        self.position = vec;
    }

    /// Opens a closed section and closes an open one.
    pub fn toggle(&mut self)
        ensures
            final(self).is_open == !old(self).is_open,
            final(self).position == old(self).position,
            final(self).title == old(self).title,
    {
        self.is_open = !self.is_open;
    }

    /// Whether `position` lies in the section's box, edges included.
    pub fn is_inside(&self, position: Point) -> (b: bool)
        requires
            self.position.x <= i64::MAX - 760,
            self.position.y <= i64::MAX - 224,
        ensures
            b == contains(self.spec_size(), position),
    {
        let bounding = self.size();
        rect_contains(bounding, position)
    }
}

} // verus!
