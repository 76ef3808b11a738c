use vstd::prelude::*;

use crate::element::{
    child_point, on_screen, Drawable, Element, ExpandableSectionElement, COORD_LIMIT,
};
use crate::geometry::{contains, Point, Rectangle};
use crate::surface::{ops, DrawCommand, DrawOp};

verus! {

/// Left edge of every top-level element.
pub const LEFT_MARGIN: i64 = 20;

/// Vertical position of the first top-level element.
pub const TOP_MARGIN: i64 = 20;

/// Vertical gap between consecutive top-level elements.
pub const ELEMENT_GAP: i64 = 25;

/// Vertical position of the `i`-th element when the sequence is stacked: the top margin,
/// then each earlier element's height followed by the gap.
pub open spec fn slot_y(elems: Seq<Element>, i: int) -> int
    decreases i,
{
    if i <= 0 {
        TOP_MARGIN as int
    } else {
        slot_y(elems, i - 1) + elems[i - 1].spec_size().height + ELEMENT_GAP
    }
}

/// Where the `i`-th element is placed.
pub open spec fn slot(elems: Seq<Element>, i: int) -> Point {
    Point { x: LEFT_MARGIN, y: slot_y(elems, i) as i64 }
}

/// Whether stacking the sequence keeps every element and the running offset within range.
pub open spec fn stackable(elems: Seq<Element>) -> bool {
    &&& forall|i: int|
        0 <= i < elems.len() ==> {
            &&& #[trigger] elems[i].fits()
            &&& 0 <= elems[i].spec_size().height
            &&& elems[i].placeable(slot(elems, i))
        }
    &&& slot_y(elems, elems.len() as int) <= COORD_LIMIT
}

/// The sequence after stacking: each element moved to its slot.
pub open spec fn stacked(elems: Seq<Element>) -> Seq<Element> {
    Seq::new(elems.len(), |i: int| elems[i].placed(slot(elems, i)))
}

/// An element after a frame's pointer event: a section that is hit by a press toggles.
pub open spec fn clicked(e: Element, pointer: Point, pressed: bool) -> Element {
    match e {
        Element::ExpandableSection(s) => if pressed && contains(s.spec_size(), pointer) {
            Element::ExpandableSection(s.toggled())
        } else {
            Element::ExpandableSection(s)
        },
        _ => e,
    }
}

/// The sequence after a frame's pointer event.
pub open spec fn clicked_all(elems: Seq<Element>, pointer: Point, pressed: bool) -> Seq<Element> {
    Seq::new(elems.len(), |i: int| clicked(elems[i], pointer, pressed))
}

/// The operations of drawing a sequence of elements, one after another.
pub open spec fn all_ops(elems: Seq<Element>) -> Seq<DrawOp>
    decreases elems.len(),
{
    if elems.len() == 0 {
        seq![]
    } else {
        all_ops(elems.drop_last()) + elems.last().spec_ops()
    }
}

/// Stacking offsets never decrease along a sequence of non-negative heights.
pub proof fn lemma_slot_y_monotone(elems: Seq<Element>, i: int, j: int)
    requires
        0 <= i <= j <= elems.len(),
        forall|k: int| 0 <= k < elems.len() ==> 0 <= #[trigger] elems[k].spec_size().height,
    ensures
        slot_y(elems, i) + (j - i) * ELEMENT_GAP <= slot_y(elems, j),
    decreases j - i,
{
    if i < j {
        lemma_slot_y_monotone(elems, i, j - 1);
    }
}

/// Stacked elements do not overlap: each one ends, with its gap, at or above the start of
/// every later one.
pub proof fn lemma_stacked_disjoint(elems: Seq<Element>, i: int, j: int)
    requires
        stackable(elems),
        0 <= i < j < elems.len(),
    ensures
        slot_y(elems, i) + elems[i].spec_size().height + ELEMENT_GAP <= slot_y(elems, j),
{
    assert forall|k: int| 0 <= k < elems.len() implies 0 <= #[trigger] elems[k].spec_size().height by {
        assert(elems[k].fits());
    }
    lemma_slot_y_monotone(elems, i + 1, j);
}

/// Toggles every section that a press hits.
pub fn dispatch_click(elements: &mut Vec<Element>, pointer: Point, pressed: bool)
    requires
        forall|i: int| 0 <= i < old(elements)@.len() ==> #[trigger] old(elements)@[i].fits(),
    ensures
        final(elements)@ == clicked_all(old(elements)@, pointer, pressed),
{
    let ghost start = elements@;
    let mut i: usize = 0;
    while i < elements.len()
        invariant
            elements@.len() == start.len(),
            i <= start.len(),
            forall|j: int| 0 <= j < start.len() ==> #[trigger] start[j].fits(),
            forall|j: int| 0 <= j < i ==> elements@[j] == clicked(#[trigger] start[j], pointer, pressed),
            forall|j: int| i <= j < start.len() ==> #[trigger] elements@[j] == start[j],
        decreases start.len() - i,
    {
        assert(start[i as int].fits());
        if pressed {
            if let Element::ExpandableSection(s) = &mut elements[i] {
                if s.is_inside(pointer) {
                    s.toggle();
                }
            }
        }
        i = i + 1;
    }
    assert(elements@ =~= clicked_all(start, pointer, pressed));
}

/// Stacks the elements from the top margin, each below the previous one with a fixed gap,
/// and returns the offset just below the last gap.
pub fn layout(elements: &mut Vec<Element>) -> (bottom: i64)
    requires
        stackable(old(elements)@),
    ensures
        final(elements)@ == stacked(old(elements)@),
        forall|i: int| 0 <= i < final(elements)@.len() ==> #[trigger] final(elements)@[i].fits(),
        forall|i: int|
            0 <= i < final(elements)@.len() ==> (#[trigger] final(elements)@[i]).spec_size() == (Rectangle {
                x: LEFT_MARGIN,
                y: slot_y(old(elements)@, i) as i64,
                ..old(elements)@[i].spec_size()
            }),
        bottom == slot_y(old(elements)@, old(elements)@.len() as int),
{
    let ghost start = elements@;
    let mut cursor: i64 = TOP_MARGIN;
    let mut i: usize = 0;
    while i < elements.len()
        invariant
            stackable(start),
            elements@.len() == start.len(),
            i <= start.len(),
            cursor == slot_y(start, i as int),
            forall|j: int| 0 <= j < i ==> elements@[j] == #[trigger] start[j].placed(slot(start, j)),
            forall|j: int| 0 <= j < i ==> (#[trigger] elements@[j]).fits(),
            forall|j: int| 0 <= j < i ==> (#[trigger] elements@[j]).spec_size() == (Rectangle {
                x: LEFT_MARGIN,
                y: slot_y(start, j) as i64,
                ..start[j].spec_size()
            }),
            forall|j: int| i <= j < start.len() ==> #[trigger] elements@[j] == start[j],
        decreases start.len() - i,
    {
        proof {
            assert(start[i as int].fits());
            assert forall|k: int| 0 <= k < start.len() implies 0 <= #[trigger] start[k].spec_size().height by {
                assert(start[k].fits());
            }
            lemma_slot_y_monotone(start, i + 1, start.len() as int);
        }
        elements[i].set_position(Point { x: LEFT_MARGIN, y: cursor });
        let extent = elements[i].size();
        cursor = cursor + extent.height + ELEMENT_GAP;
        i = i + 1;
    }
    assert(elements@ =~= stacked(start));
    cursor
}

/// Appends the drawing operations of every element, in order.
pub fn draw_all(elements: &Vec<Element>, out: &mut Vec<DrawCommand>)
    requires
        forall|i: int| 0 <= i < elements@.len() ==> #[trigger] elements@[i].fits(),
    ensures
        ops(final(out)@) == ops(old(out)@) + all_ops(elements@),
{
    let ghost start = ops(out@);
    let mut i: usize = 0;
    while i < elements.len()
        invariant
            forall|j: int| 0 <= j < elements@.len() ==> #[trigger] elements@[j].fits(),
            i <= elements@.len(),
            ops(out@) == start + all_ops(elements@.take(i as int)),
        decreases elements@.len() - i,
    {
        elements[i].draw(out);
        assert(elements@.take(i + 1).drop_last() =~= elements@.take(i as int));
        i = i + 1;
        assert(ops(out@) =~= start + all_ops(elements@.take(i as int)));
    }
    assert(elements@.take(i as int) =~= elements@);
}

/// One frame: a press toggles every section it hits, then the elements are stacked and
/// drawn in order. Returns the offset just below the last element and its gap.
pub fn render_frame(
    elements: &mut Vec<Element>,
    pointer: Point,
    pressed: bool,
    out: &mut Vec<DrawCommand>,
) -> (bottom: i64)
    requires
        forall|i: int| 0 <= i < old(elements)@.len() ==> #[trigger] old(elements)@[i].fits(),
        stackable(clicked_all(old(elements)@, pointer, pressed)),
    ensures
        final(elements)@ == stacked(clicked_all(old(elements)@, pointer, pressed)),
        ops(final(out)@) == ops(old(out)@) + all_ops(final(elements)@),
        bottom == slot_y(
            clicked_all(old(elements)@, pointer, pressed),
            old(elements)@.len() as int,
        ),
{
    dispatch_click(elements, pointer, pressed);
    let bottom = layout(elements);
    draw_all(elements, out);
    bottom
}

} // verus!
