use scoundrel::{
    anchored, centered, panel, stack, AnchorEdge, Axis2D, LayoutElement, LayoutError,
    LayoutVisitor, PanelSize, Point, Rect,
};

fn screen() -> Rect {
    Rect::with_points(Point::new(0, 0), Point::new(80, 24))
}

#[test]
fn test_layout_panel_fill_and_margin() {
    let tree: LayoutElement<u8> =
        panel(PanelSize::Fill, 2).with_child(panel(PanelSize::Fill, 0).with_data(7));
    let computed = tree.compute(screen()).unwrap();

    assert_eq!(computed.rect, screen());
    assert_eq!(computed.children.len(), 1);
    assert_eq!(
        computed.children[0].rect,
        Rect::with_points(Point::new(2, 2), Point::new(78, 22))
    );
}

#[test]
fn test_layout_fixed_panel_centered() {
    let tree: LayoutElement<u8> =
        centered(None).with_child(panel(PanelSize::Fixed(Point::new(10, 4)), 0));
    let computed = tree.compute(screen()).unwrap();

    // The 10x4 panel sits around the center of the 80x24 screen.
    assert_eq!(
        computed.children[0].rect,
        Rect::with_points(Point::new(35, 10), Point::new(45, 14))
    );
}

#[test]
fn test_layout_anchored_bottom() {
    // The anchor pins the child within a full-screen panel.
    let tree: LayoutElement<u8> = panel(PanelSize::Fill, 0).with_child(
        anchored(AnchorEdge::Bottom).with_child(panel(PanelSize::Fixed(Point::new(80, 3)), 0)),
    );
    let computed = tree.compute(screen()).unwrap();

    assert_eq!(
        computed.children[0].children[0].rect,
        Rect::with_points(Point::new(0, 21), Point::new(80, 24))
    );
}

#[test]
fn test_layout_stack_splits_in_order() {
    let tree: LayoutElement<u8> = stack(Axis2D::Y)
        .with_child(panel(PanelSize::Fixed(Point::new(80, 4)), 0))
        .with_child(panel(PanelSize::Fixed(Point::new(80, 6)), 0))
        .with_child(panel(PanelSize::Fixed(Point::new(80, 2)), 0));
    let computed = tree.compute(screen()).unwrap();

    // The whole stack spans the summed heights.
    assert_eq!(
        computed.rect,
        Rect::with_points(Point::new(0, 0), Point::new(80, 12))
    );
    assert_eq!(
        computed.children[0].rect,
        Rect::with_points(Point::new(0, 0), Point::new(80, 4))
    );
    assert_eq!(
        computed.children[1].rect,
        Rect::with_points(Point::new(0, 4), Point::new(80, 10))
    );
    assert_eq!(
        computed.children[2].rect,
        Rect::with_points(Point::new(0, 10), Point::new(80, 12))
    );
}

#[test]
fn test_layout_missing_inner() {
    let lonely: LayoutElement<u8> = centered(None);
    assert_eq!(lonely.size(screen()), Err(LayoutError::MissingInner));
    assert!(lonely.inner().is_err());
}

struct Collector {
    seen: Vec<(u8, Rect)>,
}

impl LayoutVisitor<u8> for &mut Collector {
    fn call(&mut self, data: &u8, element: &LayoutElement<u8>) {
        self.seen.push((*data, element.rect));
    }
}

#[test]
fn test_layout_visit_data() {
    let tree: LayoutElement<u8> = stack(Axis2D::X)
        .with_child(panel(PanelSize::Fixed(Point::new(10, 24)), 0).with_data(1))
        .with_child(panel(PanelSize::Fixed(Point::new(20, 24)), 0).with_data(2));
    let computed = tree.compute(screen()).unwrap();

    let mut visitor = Collector { seen: Vec::new() };
    computed.visit_data(&mut visitor).unwrap();

    // Children are visited back to front, each with its payload and
    // computed rectangle.
    assert_eq!(
        visitor.seen,
        vec![
            (2, Rect::with_points(Point::new(10, 0), Point::new(30, 24))),
            (1, Rect::with_points(Point::new(0, 0), Point::new(10, 24))),
        ]
    );
}
