//! Rectangle layout for UI elements: panels with margins, centering,
//! edge anchoring and stacking, computed over a tree of elements.

use vstd::prelude::*;

use crate::bounds::Rect;
use crate::numeric::div_trunc_spec;
use crate::vector::{Axis2D, Point};

verus! {

/// How a panel chooses its size.
#[derive(Debug, Clone, Copy)]
pub enum PanelSize {
    /// Wrap the inner element plus the margin.
    Fit,
    /// Take all available space.
    Fill,
    /// A fixed size.
    Fixed(Point),
}

/// The edge an anchored element sticks to.
#[derive(Debug, Clone, Copy)]
pub enum AnchorEdge {
    Top,
    Left,
    Bottom,
    Right,
}

/// The layout rule of one element.
#[derive(Debug, Clone)]
pub enum LayoutKind {
    /// A margin around a single child, sized by `size`.
    Panel { size: PanelSize, margin: i32 },
    /// A single child centered along one axis, or both.
    Centered { dimension: Option<Axis2D> },
    /// A single child pinned to one edge.
    Anchored { edge: AnchorEdge },
    /// Children stacked along an axis.
    Stack { dimension: Axis2D },
}

/// Errors of layout computation.
#[derive(Debug, Clone, Copy, PartialEq, Eq, Structural)]
pub enum LayoutError {
    /// A rule that needs exactly one child found none or several.
    MissingInner,
    /// An intermediate coordinate left the machine-integer range.
    Coordinates,
}


/// A visitor over mutable layout elements.
pub trait LayoutMutVisitor<Data> {
    /// Visits one element.
    fn call(&mut self, element: &mut LayoutElement<Data>);
}

/// A visitor over laid-out elements carrying payloads.
pub trait LayoutVisitor<Data> {
    /// Visits one element and its payload.
    fn call(&mut self, data: &Data, element: &LayoutElement<Data>);
}

/// An element of the layout tree: a rule, children, the computed rectangle,
/// and an optional payload for the renderer.
pub struct LayoutElement<Data> {
    pub kind: LayoutKind,
    pub children: Vec<LayoutElement<Data>>,
    pub rect: Rect,
    pub data: Option<Data>,
}

/// The mathematical size of an element within the available rectangle, over
/// unbounded integers; `None` when a single-child rule lacks its child.
pub open spec fn spec_size<Data>(elem: LayoutElement<Data>, avail: Rect) -> Option<(int, int)>
    decreases elem, 1int, 0int,
{
    let aw = avail.max.x - avail.min.x;
    let ah = avail.max.y - avail.min.y;
    match elem.kind {
        LayoutKind::Panel { size, margin } => match size {
            PanelSize::Fit => if elem.children@.len() == 1 {
                match spec_size(elem.children@[0], spec_shrink(avail, margin as int)) {
                    Some((w, h)) => Some((w + 2 * margin, h + 2 * margin)),
                    None => None,
                }
            } else {
                None
            },
            PanelSize::Fill => Some((aw, ah)),
            PanelSize::Fixed(size) => Some((size.x as int, size.y as int)),
        },
        LayoutKind::Centered { dimension } => if elem.children@.len() == 1 {
            match spec_size(elem.children@[0], avail) {
                Some((w, h)) => match dimension {
                    Some(Axis2D::X) => Some((aw, h)),
                    Some(Axis2D::Y) => Some((w, ah)),
                    None => Some((aw, ah)),
                },
                None => None,
            }
        } else {
            None
        },
        LayoutKind::Anchored { edge } => if elem.children@.len() == 1 {
            match spec_size(elem.children@[0], avail) {
                Some((w, h)) => match edge {
                    AnchorEdge::Top => Some((aw, h)),
                    AnchorEdge::Bottom => Some((aw, h)),
                    AnchorEdge::Left => Some((w, ah)),
                    AnchorEdge::Right => Some((w, ah)),
                },
                None => None,
            }
        } else {
            None
        },
        LayoutKind::Stack { dimension } => match spec_stack(
            elem.children@,
            avail,
            dimension,
        ) {
            Some(along) => match dimension {
                Axis2D::X => Some((along, ah)),
                Axis2D::Y => Some((aw, along)),
            },
            None => None,
        },
    }
}

/// The available rectangle shrunk by a margin on every side.
pub open spec fn spec_shrink(avail: Rect, margin: int) -> Rect {
    Rect {
        min: Point { x: (avail.min.x + margin) as i32, y: (avail.min.y + margin) as i32 },
        max: Point { x: (avail.max.x - margin) as i32, y: (avail.max.y - margin) as i32 },
    }
}

/// The total extent of stacked children along the stacking axis.
pub open spec fn spec_stack<Data>(
    children: Seq<LayoutElement<Data>>,
    avail: Rect,
    dimension: Axis2D,
) -> Option<int>
    decreases children, 0int, children.len(),
{
    if children.len() == 0 {
        Some(0)
    } else {
        match spec_size(children[0], avail) {
            Some((w, h)) => {
                let step = if dimension is X {
                    w
                } else {
                    h
                };
                let rest = Rect {
                    min: avail.min.spec_with_component(
                        dimension,
                        (avail.min.spec_component(dimension) + step) as i32,
                    ),
                    max: avail.max,
                };
                match spec_stack(children.subrange(1, children.len() as int), rest, dimension) {
                    Some(along) => Some(step + along),
                    None => None,
                }
            },
            None => None,
        }
    }
}


/// The rectangles assigned to the children of a stack, front to back, over
/// unbounded truncation-free arithmetic.
pub open spec fn spec_stack_rects<Data>(
    children: Seq<LayoutElement<Data>>,
    avail: Rect,
    dimension: Axis2D,
) -> Option<Seq<Rect>>
    decreases children, 0int, children.len(),
{
    if children.len() == 0 {
        Some(Seq::empty())
    } else {
        match spec_size(children[0], avail) {
            Some((w, h)) => {
                let first = Rect {
                    min: avail.min,
                    max: Point { x: (avail.min.x + w) as i32, y: (avail.min.y + h) as i32 },
                };
                let step = if dimension is X {
                    w
                } else {
                    h
                };
                let rest = Rect {
                    min: avail.min.spec_with_component(
                        dimension,
                        (avail.min.spec_component(dimension) + step) as i32,
                    ),
                    max: avail.max,
                };
                match spec_stack_rects(
                    children.subrange(1, children.len() as int),
                    rest,
                    dimension,
                ) {
                    Some(rects) => Some(Seq::empty().push(first) + rects),
                    None => None,
                }
            },
            None => None,
        }
    }
}

/// The rectangles handed to an element's children within `given`: one per
/// child for a stack, a single inner rectangle otherwise; `None` when a
/// single-child rule lacks its child.
pub open spec fn spec_child_rects<Data>(elem: LayoutElement<Data>, given: Rect) -> Option<
    Seq<Rect>,
>
    decreases elem, 2int,
{
    let gw = given.max.x - given.min.x;
    let gh = given.max.y - given.min.y;
    match elem.kind {
        LayoutKind::Panel { size, margin } => Some(
            Seq::empty().push(spec_shrink(given, margin as int)),
        ),
        LayoutKind::Centered { dimension } => if elem.children@.len() == 1 {
            match spec_size(elem.children@[0], given) {
                Some((w, h)) => Some(
                    Seq::empty().push(
                        match dimension {
                            Some(Axis2D::X) => Rect {
                                min: Point {
                                    x: (given.min.x + div_trunc_spec(gw - w, 2)) as i32,
                                    y: given.min.y,
                                },
                                max: Point {
                                    x: (given.min.x + div_trunc_spec(gw - w, 2) + w) as i32,
                                    y: (given.min.y + h) as i32,
                                },
                            },
                            Some(Axis2D::Y) => Rect {
                                min: Point {
                                    x: given.min.x,
                                    y: (given.min.y + div_trunc_spec(gh - h, 2)) as i32,
                                },
                                max: Point {
                                    x: (given.min.x + w) as i32,
                                    y: (given.min.y + div_trunc_spec(gh - h, 2) + h) as i32,
                                },
                            },
                            None => {
                                let cx = div_trunc_spec(given.min.x + given.max.x, 2);
                                let cy = div_trunc_spec(given.min.y + given.max.y, 2);
                                let mx = cx - div_trunc_spec(w, 2);
                                let my = cy - div_trunc_spec(h, 2);
                                Rect {
                                    min: Point { x: mx as i32, y: my as i32 },
                                    max: Point { x: (mx + w) as i32, y: (my + h) as i32 },
                                }
                            },
                        },
                    ),
                ),
                None => None,
            }
        } else {
            None
        },
        LayoutKind::Anchored { edge } => if elem.children@.len() == 1 {
            match spec_size(elem.children@[0], given) {
                Some((w, h)) => Some(
                    Seq::empty().push(
                        match edge {
                            AnchorEdge::Top => Rect {
                                min: given.min,
                                max: Point { x: given.max.x, y: (given.min.y + h) as i32 },
                            },
                            AnchorEdge::Bottom => Rect {
                                min: Point { x: given.min.x, y: (given.max.y - h) as i32 },
                                max: given.max,
                            },
                            AnchorEdge::Left => Rect {
                                min: given.min,
                                max: Point { x: (given.min.x + w) as i32, y: given.max.y },
                            },
                            AnchorEdge::Right => Rect {
                                min: Point { x: (given.max.x - w) as i32, y: given.min.y },
                                max: given.max,
                            },
                        },
                    ),
                ),
                None => None,
            }
        } else {
            None
        },
        LayoutKind::Stack { dimension } => spec_stack_rects(elem.children@, given, dimension),
    }
}

impl<Data> LayoutElement<Data> {
    /// Creates an element with the given rule, no children and no payload.
    pub fn new(kind: LayoutKind) -> (r: LayoutElement<Data>)
        ensures
            r.children@.len() == 0,
            r.data is None,
    {
        LayoutElement {
            kind,
            children: Vec::new(),
            rect: Rect { min: Point { x: 0, y: 0 }, max: Point { x: 0, y: 0 } },
            data: None,
        }
    }

    /// Appends a child and returns the element.
    pub fn with_child(self, child: LayoutElement<Data>) -> (r: LayoutElement<Data>)
        ensures
            r.children@ == self.children@.push(child),
            r.kind == self.kind,
            r.data == self.data,
    {
        let mut this = self;
        this.children.push(child);
        this
    }

    /// Sets the payload and returns the element.
    pub fn with_data(self, data: Data) -> (r: LayoutElement<Data>)
        ensures
            r.data is Some,
            r.children@ == self.children@,
            r.kind == self.kind,
    {
        let mut this = self;
        this.data = Some(data);
        this
    }

    /// Returns the single child, or an error if there is none or several.
    pub fn inner(&self) -> (r: Result<&LayoutElement<Data>, LayoutError>)
        ensures
            r is Ok <==> self.children@.len() == 1,
            r matches Ok(c) ==> *c == self.children@[0],
    {
        if self.children.len() == 1 {
            Ok(&self.children[0])
        } else {
            Err(LayoutError::MissingInner)
        }
    }



    /// Lays this element out in `region`: records the rectangle and assigns
    /// each child its computed rectangle, recursively.
    fn set_layout(self, region: Rect) -> (r: Result<LayoutElement<Data>, LayoutError>)
        ensures
            r matches Ok(e) ==> e.rect == region,
        decreases self, 3int,
    {
        let mut this = self;
        this.rect = region;
        let rects = match this.child_rects(region) {
            Ok(rects) => rects,
            Err(e) => {
                return Err(e);
            },
        };
        let mut remaining = this.children;
        this.children = Vec::new();
        let total = remaining.len();
        let mut placed: Vec<LayoutElement<Data>> = Vec::new();
        let mut i: usize = 0;
        while i < total
            invariant
                total == placed@.len() + remaining@.len(),
                i == placed@.len(),
                forall|j: int|
                    0 <= j < remaining@.len() ==> decreases_to!(self => #[trigger] remaining@[j]),
            decreases total - i,
        {
            let ghost before = remaining@;
            let child = remaining.remove(0);
            proof {
                assert(child == before[0]);
            }
            let child = if i < rects.len() {
                match child.set_layout(rects[i]) {
                    Ok(c) => c,
                    Err(e) => {
                        return Err(e);
                    },
                }
            } else {
                child
            };
            placed.push(child);
            i = i + 1;
        }
        this.children = placed;
        Ok(this)
    }

    /// Computes the layout of the whole tree: sizes this element within the
    /// available rectangle, then assigns every descendant its rectangle.
    pub fn compute(self, available: Rect) -> (r: Result<LayoutElement<Data>, LayoutError>)
        ensures
            r matches Ok(e) ==> e.rect.min == available.min,
    {
        let size = match self.size(available) {
            Ok(p) => p,
            Err(e) => {
                return Err(e);
            },
        };
        let mx = match checked_add(available.min.x, size.x as i64) {
            Some(v) => v,
            None => {
                return Err(LayoutError::Coordinates);
            },
        };
        let my = match checked_add(available.min.y, size.y as i64) {
            Some(v) => v,
            None => {
                return Err(LayoutError::Coordinates);
            },
        };
        self.set_layout(Rect { min: available.min, max: Point { x: mx, y: my } })
    }

    /// Visits every element of the tree that carries a payload, this element
    /// first and the children from back to front, depth first.
    pub fn visit_data<F: LayoutVisitor<Data>>(&self, f: F) -> (r: Result<(), LayoutError>)
        ensures
            r is Ok,
        decreases self, 3int,
    {
        let mut f = f;
        self.visit_data_rec(&mut f);
        Ok(())
    }

    /// Recursive worker of [`LayoutElement::visit_data`].
    fn visit_data_rec<F: LayoutVisitor<Data>>(&self, f: &mut F)
        decreases self, 2int,
    {
        match &self.data {
            Some(data) => {
                f.call(data, self);
            },
            None => (),
        }
        let n = self.children.len();
        let mut i: usize = 0;
        while i < n
            invariant
                n == self.children@.len(),
                forall|j: int|
                    0 <= j < self.children@.len() ==> decreases_to!(
                        *self => #[trigger] self.children@[j]
                    ),
            decreases n - i,
        {
            let idx = n - 1 - i;
            self.children[idx].visit_data_rec(f);
            i = i + 1;
        }
    }


    /// Computes the rectangles handed to this element's children within
    /// `given`: the panel's inner rectangle, the centered or anchored
    /// child's rectangle, or one rectangle per stacked child.
    ///
    /// A successful result is exactly the mathematical assignment; an error
    /// is either the missing single child (exactly when that assignment is
    /// undefined) or an intermediate coordinate leaving `i32`.
    pub fn child_rects(&self, given_size: Rect) -> (r: Result<Vec<Rect>, LayoutError>)
        ensures
            r matches Ok(v) ==> spec_child_rects(*self, given_size) == Some(v@),
            r == Err::<Vec<Rect>, LayoutError>(LayoutError::MissingInner) ==> spec_child_rects(
                *self,
                given_size,
            ) is None,
        decreases self, 2int, 0int,
    {
        match &self.kind {
            LayoutKind::Panel { size: _, margin } => {
                let inner_avail = match shrink(given_size, *margin) {
                    Some(s) => s,
                    None => {
                        return Err(LayoutError::Coordinates);
                    },
                };
                let mut v: Vec<Rect> = Vec::new();
                v.push(inner_avail);
                proof {
                    assert(v@ =~= Seq::empty().push(spec_shrink(given_size, *margin as int)));
                }
                Ok(v)
            },
            LayoutKind::Centered { dimension } => {
                let inner = match self.inner() {
                    Ok(inner) => inner,
                    Err(e) => {
                        return Err(e);
                    },
                };
                proof {
                    lemma_child_decreases(*self);
                }
                let inner_size = match inner.size(given_size) {
                    Ok(p) => p,
                    Err(e) => {
                        return Err(e);
                    },
                };
                let rect = match dimension {
                    Some(dim) => {
                        let dim = *dim;
                        let gw = match checked_sub(given_size.max.x, given_size.min.x) {
                            Some(value) => value,
                            None => {
                                return Err(LayoutError::Coordinates);
                            },
                        };
                        let gh = match checked_sub(given_size.max.y, given_size.min.y) {
                            Some(value) => value,
                            None => {
                                return Err(LayoutError::Coordinates);
                            },
                        };
                        let slack = match dim {
                            Axis2D::X => match checked_sub(gw, inner_size.x) {
                                Some(value) => value,
                                None => {
                                    return Err(LayoutError::Coordinates);
                                },
                            },
                            Axis2D::Y => match checked_sub(gh, inner_size.y) {
                                Some(value) => value,
                                None => {
                                    return Err(LayoutError::Coordinates);
                                },
                            },
                        };
                        let half = crate::numeric::div_trunc(slack, 2);
                        let base = given_size.min.component(dim);
                        let lo = match checked_add(base, half as i64) {
                            Some(value) => value,
                            None => {
                                return Err(LayoutError::Coordinates);
                            },
                        };
                        let mut min_pt = given_size.min;
                        min_pt.set_component(dim, lo);
                        let max_x = match checked_add(min_pt.x, inner_size.x as i64) {
                            Some(value) => value,
                            None => {
                                return Err(LayoutError::Coordinates);
                            },
                        };
                        let max_y = match checked_add(min_pt.y, inner_size.y as i64) {
                            Some(value) => value,
                            None => {
                                return Err(LayoutError::Coordinates);
                            },
                        };
                        Rect { min: min_pt, max: Point { x: max_x, y: max_y } }
                    },
                    None => {
                        let sx = match checked_add(given_size.min.x, given_size.max.x as i64) {
                            Some(value) => value,
                            None => {
                                return Err(LayoutError::Coordinates);
                            },
                        };
                        let sy = match checked_add(given_size.min.y, given_size.max.y as i64) {
                            Some(value) => value,
                            None => {
                                return Err(LayoutError::Coordinates);
                            },
                        };
                        let cx = crate::numeric::div_trunc(sx, 2);
                        let cy = crate::numeric::div_trunc(sy, 2);
                        let mx = match checked_sub(cx, crate::numeric::div_trunc(inner_size.x, 2)) {
                            Some(value) => value,
                            None => {
                                return Err(LayoutError::Coordinates);
                            },
                        };
                        let my = match checked_sub(cy, crate::numeric::div_trunc(inner_size.y, 2)) {
                            Some(value) => value,
                            None => {
                                return Err(LayoutError::Coordinates);
                            },
                        };
                        let ex = match checked_add(mx, inner_size.x as i64) {
                            Some(value) => value,
                            None => {
                                return Err(LayoutError::Coordinates);
                            },
                        };
                        let ey = match checked_add(my, inner_size.y as i64) {
                            Some(value) => value,
                            None => {
                                return Err(LayoutError::Coordinates);
                            },
                        };
                        Rect {
                            min: Point { x: mx, y: my },
                            max: Point { x: ex, y: ey },
                        }
                    },
                };
                let mut v: Vec<Rect> = Vec::new();
                v.push(rect);
                proof {
                    assert(spec_child_rects(*self, given_size) == Some(v@)) by {
                        assert(v@ =~= Seq::empty().push(rect));
                    }
                }
                Ok(v)
            },
            LayoutKind::Anchored { edge } => {
                let inner = match self.inner() {
                    Ok(inner) => inner,
                    Err(e) => {
                        return Err(e);
                    },
                };
                proof {
                    lemma_child_decreases(*self);
                }
                let inner_size = match inner.size(given_size) {
                    Ok(p) => p,
                    Err(e) => {
                        return Err(e);
                    },
                };
                let rect = match edge {
                    AnchorEdge::Top => {
                        let my = match checked_add(given_size.min.y, inner_size.y as i64) {
                            Some(value) => value,
                            None => {
                                return Err(LayoutError::Coordinates);
                            },
                        };
                        Rect { min: given_size.min, max: Point { x: given_size.max.x, y: my } }
                    },
                    AnchorEdge::Bottom => {
                        let my = match checked_sub(given_size.max.y, inner_size.y) {
                            Some(value) => value,
                            None => {
                                return Err(LayoutError::Coordinates);
                            },
                        };
                        Rect { min: Point { x: given_size.min.x, y: my }, max: given_size.max }
                    },
                    AnchorEdge::Left => {
                        let mx = match checked_add(given_size.min.x, inner_size.x as i64) {
                            Some(value) => value,
                            None => {
                                return Err(LayoutError::Coordinates);
                            },
                        };
                        Rect { min: given_size.min, max: Point { x: mx, y: given_size.max.y } }
                    },
                    AnchorEdge::Right => {
                        let mx = match checked_sub(given_size.max.x, inner_size.x) {
                            Some(value) => value,
                            None => {
                                return Err(LayoutError::Coordinates);
                            },
                        };
                        Rect { min: Point { x: mx, y: given_size.min.y }, max: given_size.max }
                    },
                };
                let mut v: Vec<Rect> = Vec::new();
                v.push(rect);
                proof {
                    assert(spec_child_rects(*self, given_size) == Some(v@)) by {
                        assert(v@ =~= Seq::empty().push(rect));
                    }
                }
                Ok(v)
            },
            LayoutKind::Stack { dimension } => {
                let dimension = *dimension;
                proof {
                    assert(self.children@.subrange(0, self.children@.len() as int)
                        =~= self.children@);
                }
                stack_rects(&self.children, 0, given_size, dimension)
            },
        }
    }

    /// Computes this element's size within the available rectangle.
    ///
    /// A successful result is exactly the mathematical size; an error is
    /// either the missing single child (exactly when the mathematical size
    /// is undefined) or an intermediate coordinate leaving `i32`.
    pub fn size(&self, available: Rect) -> (r: Result<Point, LayoutError>)
        ensures
            r matches Ok(p) ==> spec_size(*self, available) == Some((p.x as int, p.y as int)),
            r == Err::<Point, LayoutError>(LayoutError::MissingInner) ==> spec_size(
                *self,
                available,
            ) is None,
        decreases self, 1int, 0int,
    {
        let aw = match checked_sub(available.max.x, available.min.x) {
            Some(v) => v,
            None => {
                return Err(LayoutError::Coordinates);
            },
        };
        let ah = match checked_sub(available.max.y, available.min.y) {
            Some(v) => v,
            None => {
                return Err(LayoutError::Coordinates);
            },
        };
        match &self.kind {
            LayoutKind::Panel { size, margin } => {
                let margin = *margin;
                match size {
                    PanelSize::Fit => {
                        let inner = match self.inner() {
                            Ok(inner) => inner,
                            Err(e) => {
                                return Err(e);
                            },
                        };
                        let shrunk = match shrink(available, margin) {
                            Some(s) => s,
                            None => {
                                return Err(LayoutError::Coordinates);
                            },
                        };
                        proof {
                            lemma_child_decreases(*self);
                        }
                        let base = match inner.size(shrunk) {
                            Ok(p) => p,
                            Err(e) => {
                                return Err(e);
                            },
                        };
                        let w = match checked_add(base.x, 2 * (margin as i64)) {
                            Some(v) => v,
                            None => {
                                return Err(LayoutError::Coordinates);
                            },
                        };
                        let h = match checked_add(base.y, 2 * (margin as i64)) {
                            Some(v) => v,
                            None => {
                                return Err(LayoutError::Coordinates);
                            },
                        };
                        proof {
                            assert(spec_size(*self, available) == Some((w as int, h as int)));
                        }
                        Ok(Point { x: w, y: h })
                    },
                    PanelSize::Fill => {
                        proof {
                            assert(spec_size(*self, available) == Some((aw as int, ah as int)));
                        }
                        Ok(Point { x: aw, y: ah })
                    },
                    PanelSize::Fixed(size) => {
                        let size = *size;
                        proof {
                            assert(spec_size(*self, available) == Some(
                                (size.x as int, size.y as int),
                            ));
                        }
                        Ok(size)
                    },
                }
            },
            LayoutKind::Centered { dimension } => {
                let inner = match self.inner() {
                    Ok(inner) => inner,
                    Err(e) => {
                        return Err(e);
                    },
                };
                proof {
                    lemma_child_decreases(*self);
                }
                let base = match inner.size(available) {
                    Ok(p) => p,
                    Err(e) => {
                        return Err(e);
                    },
                };
                match dimension {
                    Some(Axis2D::X) => Ok(Point { x: aw, y: base.y }),
                    Some(Axis2D::Y) => Ok(Point { x: base.x, y: ah }),
                    None => Ok(Point { x: aw, y: ah }),
                }
            },
            LayoutKind::Anchored { edge } => {
                let inner = match self.inner() {
                    Ok(inner) => inner,
                    Err(e) => {
                        return Err(e);
                    },
                };
                proof {
                    lemma_child_decreases(*self);
                }
                let base = match inner.size(available) {
                    Ok(p) => p,
                    Err(e) => {
                        return Err(e);
                    },
                };
                match edge {
                    AnchorEdge::Top => Ok(Point { x: aw, y: base.y }),
                    AnchorEdge::Bottom => Ok(Point { x: aw, y: base.y }),
                    AnchorEdge::Left => Ok(Point { x: base.x, y: ah }),
                    AnchorEdge::Right => Ok(Point { x: base.x, y: ah }),
                }
            },
            LayoutKind::Stack { dimension } => {
                let dimension = *dimension;
                proof {
                    assert(self.children@.subrange(0, self.children@.len() as int)
                        =~= self.children@);
                }
                let along = match stack_extent(&self.children, 0, available, dimension) {
                    Ok(v) => v,
                    Err(e) => {
                        return Err(e);
                    },
                };
                match dimension {
                    Axis2D::X => Ok(Point { x: along, y: ah }),
                    Axis2D::Y => Ok(Point { x: aw, y: along }),
                }
            },
        }
    }
}

/// An element's first child sits strictly below it in the structural
/// order, which justifies the layout recursion.
proof fn lemma_child_decreases<Data>(elem: LayoutElement<Data>)
    requires
        elem.children@.len() >= 1,
    ensures
        decreases_to!(elem => elem.children@[0]),
{
    assert(decreases_to!(elem => elem.children));
    assert(decreases_to!(elem.children => elem.children@[0]));
}


/// Computes the rectangles of `children[at..]` stacked along the axis.
fn stack_rects<Data>(
    children: &Vec<LayoutElement<Data>>,
    at: usize,
    avail: Rect,
    dimension: Axis2D,
) -> (r: Result<Vec<Rect>, LayoutError>)
    requires
        at <= children@.len(),
    ensures
        r matches Ok(v) ==> spec_stack_rects(
            children@.subrange(at as int, children@.len() as int),
            avail,
            dimension,
        ) == Some(v@),
        r == Err::<Vec<Rect>, LayoutError>(LayoutError::MissingInner) ==> spec_stack_rects(
            children@.subrange(at as int, children@.len() as int),
            avail,
            dimension,
        ) is None,
    decreases children, 1int, children@.len() - at,
{
    let ghost tail = children@.subrange(at as int, children@.len() as int);
    if at == children.len() {
        let empty: Vec<Rect> = Vec::new();
        proof {
            assert(tail.len() == 0);
            assert(empty@ =~= Seq::<Rect>::empty());
        }
        return Ok(empty);
    }
    proof {
        assert(tail[0] == children@[at as int]);
        assert(decreases_to!(*children => children@[at as int]));
        assert(tail.subrange(1, tail.len() as int) =~= children@.subrange(
            at + 1,
            children@.len() as int,
        ));
    }
    let first_size = match children[at].size(avail) {
        Ok(p) => p,
        Err(e) => {
            return Err(e);
        },
    };
    let fx = match checked_add(avail.min.x, first_size.x as i64) {
        Some(v) => v,
        None => {
            return Err(LayoutError::Coordinates);
        },
    };
    let fy = match checked_add(avail.min.y, first_size.y as i64) {
        Some(v) => v,
        None => {
            return Err(LayoutError::Coordinates);
        },
    };
    let first = Rect { min: avail.min, max: Point { x: fx, y: fy } };
    let step = match dimension {
        Axis2D::X => first_size.x,
        Axis2D::Y => first_size.y,
    };
    let base = avail.min.component(dimension);
    let shifted = match checked_add(base, step as i64) {
        Some(v) => v,
        None => {
            return Err(LayoutError::Coordinates);
        },
    };
    let mut rest_avail = avail;
    rest_avail.min.set_component(dimension, shifted);
    let rest = match stack_rects(children, at + 1, rest_avail, dimension) {
        Ok(v) => v,
        Err(e) => {
            return Err(e);
        },
    };
    let mut out: Vec<Rect> = Vec::new();
    out.push(first);
    let mut i: usize = 0;
    let n = rest.len();
    while i < n
        invariant
            n == rest@.len(),
            i <= n,
            out@.len() == i + 1,
            out@[0] == first,
            forall|j: int| 1 <= j < i + 1 ==> #[trigger] out@[j] == rest@[j - 1],
        decreases n - i,
    {
        out.push(rest[i]);
        i = i + 1;
    }
    proof {
        assert(out@ =~= Seq::empty().push(first) + rest@);
    }
    Ok(out)
}

/// Computes the stacked extent of `children[at..]` along the axis.
fn stack_extent<Data>(
    children: &Vec<LayoutElement<Data>>,
    at: usize,
    avail: Rect,
    dimension: Axis2D,
) -> (r: Result<i32, LayoutError>)
    requires
        at <= children@.len(),
    ensures
        r matches Ok(v) ==> spec_stack(
            children@.subrange(at as int, children@.len() as int),
            avail,
            dimension,
        ) == Some(v as int),
        r == Err::<i32, LayoutError>(LayoutError::MissingInner) ==> spec_stack(
            children@.subrange(at as int, children@.len() as int),
            avail,
            dimension,
        ) is None,
    decreases children, 0int, children@.len() - at,
{
    let ghost tail = children@.subrange(at as int, children@.len() as int);
    if at == children.len() {
        proof {
            assert(tail.len() == 0);
        }
        return Ok(0);
    }
    proof {
        assert(tail[0] == children@[at as int]);
        assert(decreases_to!(*children => children@[at as int]));
    }
    let first = match children[at].size(avail) {
        Ok(p) => p,
        Err(e) => {
            proof {
                if spec_size(children@[at as int], avail) is None {
                    assert(spec_stack(tail, avail, dimension) is None);
                }
            }
            return Err(e);
        },
    };
    let step = match dimension {
        Axis2D::X => first.x,
        Axis2D::Y => first.y,
    };
    let base = avail.min.component(dimension);
    let shifted = match checked_add(base, step as i64) {
        Some(v) => v,
        None => {
            return Err(LayoutError::Coordinates);
        },
    };
    let mut rest_avail = avail;
    rest_avail.min.set_component(dimension, shifted);
    proof {
        assert(tail.subrange(1, tail.len() as int) =~= children@.subrange(
            at + 1,
            children@.len() as int,
        ));
    }
    let rest = match stack_extent(children, at + 1, rest_avail, dimension) {
        Ok(v) => v,
        Err(e) => {
            return Err(e);
        },
    };
    match checked_add(step, rest as i64) {
        Some(v) => Ok(v),
        None => Err(LayoutError::Coordinates),
    }
}

/// The sum of two machine integers, or `None` when it leaves `i32`.
fn checked_add(a: i32, b: i64) -> (r: Option<i32>)
    requires
        -0x1_0000_0000 <= b <= 0x1_0000_0000,
    ensures
        r matches Some(v) ==> v == a + b,
        r is None ==> !(i32::MIN <= a + b <= i32::MAX),
{
    let s: i64 = a as i64 + b;
    if s >= i32::MIN as i64 && s <= i32::MAX as i64 {
        Some(s as i32)
    } else {
        None
    }
}

/// The difference of two machine integers, or `None` when it leaves `i32`.
fn checked_sub(a: i32, b: i32) -> (r: Option<i32>)
    ensures
        r matches Some(v) ==> v == a - b,
        r is None ==> !(i32::MIN <= a - b <= i32::MAX),
{
    let s: i64 = a as i64 - b as i64;
    if s >= i32::MIN as i64 && s <= i32::MAX as i64 {
        Some(s as i32)
    } else {
        None
    }
}

/// The available rectangle shrunk by a margin on every side, or `None` when
/// a corner leaves `i32`.
fn shrink(avail: Rect, margin: i32) -> (r: Option<Rect>)
    ensures
        r matches Some(s) ==> s == spec_shrink(avail, margin as int),
{
    let min_x = checked_add(avail.min.x, margin as i64)?;
    let min_y = checked_add(avail.min.y, margin as i64)?;
    let max_x = checked_sub(avail.max.x, margin)?;
    let max_y = checked_sub(avail.max.y, margin)?;
    Some(Rect { min: Point { x: min_x, y: min_y }, max: Point { x: max_x, y: max_y } })
}

/// Creates a margin panel rule.
pub fn panel<Data>(size: PanelSize, margin: i32) -> (r: LayoutElement<Data>)
    ensures
        r.children@.len() == 0,
        r.data is None,
{
    LayoutElement::new(LayoutKind::Panel { size, margin })
}

/// Creates a centering rule.
pub fn centered<Data>(dimension: Option<Axis2D>) -> (r: LayoutElement<Data>)
    ensures
        r.children@.len() == 0,
        r.data is None,
{
    LayoutElement::new(LayoutKind::Centered { dimension })
}

/// Creates an edge-anchoring rule.
pub fn anchored<Data>(edge: AnchorEdge) -> (r: LayoutElement<Data>)
    ensures
        r.children@.len() == 0,
        r.data is None,
{
    LayoutElement::new(LayoutKind::Anchored { edge })
}

/// Creates a stacking rule.
pub fn stack<Data>(dimension: Axis2D) -> (r: LayoutElement<Data>)
    ensures
        r.children@.len() == 0,
        r.data is None,
{
    LayoutElement::new(LayoutKind::Stack { dimension })
}

} // verus!
