use scoundrel::{Axis2D, AxialHalfSpace, OrthoLine, Point, Rect};

#[test]
fn ortholine_end() {
    let line = OrthoLine {
        axis: Axis2D::X,
        start: Point::new(1, 1),
        length: 4,
    };
    assert_eq!(line.end(), Point::new(4, 1));

    let line = OrthoLine {
        axis: Axis2D::Y,
        start: Point::new(5, 5),
        length: 3,
    };
    assert_eq!(line.end(), Point::new(5, 7));
}

#[test]
fn ortholine_contains() {
    let line = OrthoLine {
        axis: Axis2D::Y,
        start: Point::new(1, 1),
        length: 3,
    };
    assert!(line.contains(Point::new(1, 1)));
    assert!(line.contains(Point::new(1, 2)));
    assert!(line.contains(Point::new(1, 3)));
    assert!(!line.contains(Point::new(1, 4)));

    assert!(!line.contains(Point::new(2, 2)));

    let zero_line = OrthoLine {
        axis: Axis2D::X,
        start: Point::new(10, 10),
        length: 0,
    };
    assert!(!zero_line.contains(Point::new(10, 10)));
}

#[test]
fn ortholine_for_each() {
    let line = OrthoLine {
        axis: Axis2D::X,
        start: Point::new(1, 5),
        length: 3,
    };

    let mut visited = Vec::new();
    line.for_each(|pt| visited.push(pt));

    assert_eq!(visited.len(), 3);
    assert_eq!(visited[0], Point::new(1, 5));
    assert_eq!(visited[1], Point::new(2, 5));
    assert_eq!(visited[2], Point::new(3, 5));

    let line = OrthoLine {
        axis: Axis2D::Y,
        start: Point::new(5, 1),
        length: 2,
    };

    let mut visited = Vec::new();
    line.for_each(|pt| visited.push(pt));

    assert_eq!(visited.len(), 2);
    assert_eq!(visited[0], Point::new(5, 1));
    assert_eq!(visited[1], Point::new(5, 2));

    let zero_line = OrthoLine {
        axis: Axis2D::X,
        start: Point::new(0, 0),
        length: 0,
    };

    let mut visited = Vec::new();
    zero_line.for_each(|pt| visited.push(pt));

    assert_eq!(visited.len(), 0);
}

#[test]
fn halfspace_contains() {
    let halfspace = AxialHalfSpace {
        axis: Axis2D::X,
        offset: 2,
        positive: true,
    };
    assert!(!halfspace.contains(Point::new(1, 0)));
    assert!(halfspace.contains(Point::new(2, 0)));
    assert!(halfspace.contains(Point::new(3, 0)));

    let halfspace = AxialHalfSpace {
        axis: Axis2D::X,
        offset: 2,
        positive: false,
    };
    assert!(halfspace.contains(Point::new(1, 0)));
    assert!(!halfspace.contains(Point::new(2, 0)));
    assert!(!halfspace.contains(Point::new(3, 0)));

    let halfspace = AxialHalfSpace {
        axis: Axis2D::Y,
        offset: 5,
        positive: true,
    };
    assert!(!halfspace.contains(Point::new(10, 4)));
    assert!(halfspace.contains(Point::new(10, 5)));
    assert!(halfspace.contains(Point::new(10, 6)));
}

#[test]
fn halfspace_opposite() {
    let halfspace = AxialHalfSpace {
        axis: Axis2D::Y,
        offset: 1,
        positive: false,
    };
    let opposite = halfspace.opposite();
    assert_eq!(opposite.axis, Axis2D::Y);
    assert_eq!(opposite.offset, 1);
    assert_eq!(opposite.positive, true);

    let original = opposite.opposite();
    assert_eq!(original.axis, Axis2D::Y);
    assert_eq!(original.offset, 1);
    assert_eq!(original.positive, false);
}

#[test]
fn halfspace_intersects_rect() {
    let halfspace = AxialHalfSpace {
        axis: Axis2D::X,
        offset: 2,
        positive: true,
    };
    let rect = Rect::with_points(Point::new(0, 0), Point::new(4, 4));
    assert!(halfspace.intersects_rect(rect));

    let halfspace = AxialHalfSpace {
        axis: Axis2D::X,
        offset: 5,
        positive: true,
    };
    let rect = Rect::with_points(Point::new(0, 0), Point::new(4, 4));
    assert!(!halfspace.intersects_rect(rect));

    let halfspace = AxialHalfSpace {
        axis: Axis2D::Y,
        offset: 3,
        positive: false,
    };
    let rect = Rect::with_points(Point::new(0, 0), Point::new(4, 4));
    assert!(halfspace.intersects_rect(rect));

    let halfspace = AxialHalfSpace {
        axis: Axis2D::Y,
        offset: 0,
        positive: false,
    };
    let rect = Rect::with_points(Point::new(0, 0), Point::new(4, 4));
    assert!(!halfspace.intersects_rect(rect));
}

#[test]
fn halfspace_clip_rect() {
    let halfspace = AxialHalfSpace {
        axis: Axis2D::X,
        offset: 2,
        positive: true,
    };
    let rect = Rect::with_points(Point::new(0, 0), Point::new(4, 4));
    let clipped = halfspace.clip_rect(rect).unwrap();
    assert_eq!(clipped.min, Point::new(2, 0));
    assert_eq!(clipped.max, Point::new(4, 4));

    let halfspace = AxialHalfSpace {
        axis: Axis2D::X,
        offset: 3,
        positive: false,
    };
    let rect = Rect::with_points(Point::new(0, 0), Point::new(4, 4));
    let clipped = halfspace.clip_rect(rect).unwrap();
    assert_eq!(clipped.min, Point::new(0, 0));
    assert_eq!(clipped.max, Point::new(3, 4));

    let halfspace = AxialHalfSpace {
        axis: Axis2D::Y,
        offset: 2,
        positive: true,
    };
    let rect = Rect::with_points(Point::new(0, 0), Point::new(4, 4));
    let clipped = halfspace.clip_rect(rect).unwrap();
    assert_eq!(clipped.min, Point::new(0, 2));
    assert_eq!(clipped.max, Point::new(4, 4));

    let halfspace = AxialHalfSpace {
        axis: Axis2D::X,
        offset: 10,
        positive: true,
    };
    let rect = Rect::with_points(Point::new(0, 0), Point::new(4, 4));
    assert!(halfspace.clip_rect(rect).is_none());
}

#[test]
fn halfspace_clip_line_different_axis() {
    let halfspace = AxialHalfSpace {
        axis: Axis2D::X,
        offset: 2,
        positive: true,
    };
    let line = OrthoLine {
        axis: Axis2D::Y,
        start: Point::new(1, 1),
        length: 3,
    };
    let clipped = halfspace.clip_line(line);
    assert!(clipped.is_none());

    let halfspace = AxialHalfSpace {
        axis: Axis2D::X,
        offset: 2,
        positive: true,
    };
    let line = OrthoLine {
        axis: Axis2D::Y,
        start: Point::new(3, 1),
        length: 3,
    };
    let clipped = halfspace.clip_line(line).unwrap();
    assert_eq!(clipped.axis, Axis2D::Y);
    assert_eq!(clipped.start, Point::new(3, 1));
    assert_eq!(clipped.length, 3);

    let halfspace = AxialHalfSpace {
        axis: Axis2D::Y,
        offset: 5,
        positive: false,
    };
    let line = OrthoLine {
        axis: Axis2D::X,
        start: Point::new(1, 3),
        length: 5,
    };
    let clipped = halfspace.clip_line(line).unwrap();
    assert_eq!(clipped.axis, Axis2D::X);
    assert_eq!(clipped.start, Point::new(1, 3));
    assert_eq!(clipped.length, 5);
}

#[test]
fn halfspace_clip_line_same_axis() {
    let halfspace = AxialHalfSpace {
        axis: Axis2D::X,
        offset: 3,
        positive: true,
    };
    let line = OrthoLine {
        axis: Axis2D::X,
        start: Point::new(1, 5),
        length: 5,
    };
    let clipped = halfspace.clip_line(line).unwrap();
    assert_eq!(clipped.axis, Axis2D::X);
    assert_eq!(clipped.start, Point::new(3, 5));
    assert_eq!(clipped.length, 3);

    let halfspace = AxialHalfSpace {
        axis: Axis2D::X,
        offset: 4,
        positive: false,
    };
    let line = OrthoLine {
        axis: Axis2D::X,
        start: Point::new(1, 5),
        length: 5,
    };
    let clipped = halfspace.clip_line(line).unwrap();
    assert_eq!(clipped.axis, Axis2D::X);
    assert_eq!(clipped.start, Point::new(1, 5));
    assert_eq!(clipped.length, 3);

    let halfspace = AxialHalfSpace {
        axis: Axis2D::X,
        offset: 10,
        positive: true,
    };
    let line = OrthoLine {
        axis: Axis2D::X,
        start: Point::new(1, 5),
        length: 5,
    };
    let clipped = halfspace.clip_line(line);
    assert!(clipped.is_none());

    let halfspace = AxialHalfSpace {
        axis: Axis2D::X,
        offset: 1,
        positive: true,
    };
    let line = OrthoLine {
        axis: Axis2D::X,
        start: Point::new(5, 5),
        length: 3,
    };
    let clipped = halfspace.clip_line(line).unwrap();
    assert_eq!(clipped.axis, Axis2D::X);
    assert_eq!(clipped.start, Point::new(5, 5));
    assert_eq!(clipped.length, 3);
}

#[test]
fn halfspace_clip_line_edge_cases() {
    let halfspace = AxialHalfSpace {
        axis: Axis2D::X,
        offset: 5,
        positive: true,
    };
    let line = OrthoLine {
        axis: Axis2D::X,
        start: Point::new(5, 10),
        length: 5,
    };
    let clipped = halfspace.clip_line(line).unwrap();
    assert_eq!(clipped.start, Point::new(5, 10));
    assert_eq!(clipped.length, 5);

    let halfspace = AxialHalfSpace {
        axis: Axis2D::X,
        offset: 5,
        positive: false,
    };
    let line = OrthoLine {
        axis: Axis2D::X,
        start: Point::new(0, 10),
        length: 5,
    };
    let clipped = halfspace.clip_line(line).unwrap();
    assert_eq!(clipped.start, Point::new(0, 10));
    assert_eq!(clipped.length, 5);

    let halfspace = AxialHalfSpace {
        axis: Axis2D::Y,
        offset: 3,
        positive: true,
    };
    let line = OrthoLine {
        axis: Axis2D::Y,
        start: Point::new(0, 2),
        length: 4,
    };
    let clipped = halfspace.clip_line(line).unwrap();
    assert_eq!(clipped.axis, Axis2D::Y);
    assert_eq!(clipped.start, Point::new(0, 3));
    assert_eq!(clipped.length, 3);
}
