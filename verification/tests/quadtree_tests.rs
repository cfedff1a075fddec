use scoundrel::{build_quadtree, Node, NodePayload, Point, Rect};

fn child<T>(children: &(Node<T>, Node<T>, Node<T>, Node<T>), i: usize) -> &Node<T> {
    match i {
        0 => &children.0,
        1 => &children.1,
        2 => &children.2,
        _ => &children.3,
    }
}

#[test]
fn test_node_nearest() {
    let node = Node {
        bounds: Rect::with_points(Point::new(-5, -5), Point::new(5, 5)),
        payload: NodePayload::Contents(vec![(0, Point::new(-3, -3)), (1, Point::new(3, 3))]),
    };

    let query1 = Point::new(-4, -4);
    let nearest1 = node.nearest(query1, None).unwrap().1;
    assert_eq!(nearest1, &(0, Point::new(-3, -3)));

    let query2 = Point::new(4, 4);
    let nearest2 = node.nearest(query2, None).unwrap().1;
    assert_eq!(nearest2, &(1, Point::new(3, 3)));

    let query3 = Point::new(0, 0);
    let nearest3 = node.nearest(query3, None).unwrap().1;
    assert!(nearest3 == &(0, Point::new(-3, -3)) || nearest3 == &(1, Point::new(3, 3)));
}

#[test]
fn test_node_query_rect() {
    let node = Node {
        bounds: Rect::with_points(Point::new(0, 0), Point::new(100, 100)),
        payload: NodePayload::Contents(vec![(0, Point::new(50, 50)), (1, Point::new(25, 25))]),
    };

    let mut results = Vec::new();
    node.query_rect(
        Rect::with_points(Point::new(0, 0), Point::new(40, 40)),
        &mut |&(id, _): &(i32, Point)| {
            results.push(id);
        },
    );
    assert_eq!(results, vec![1]);

    results.clear();
    node.query_rect(
        Rect::with_points(Point::new(30, 30), Point::new(70, 70)),
        &mut |&(id, _): &(i32, Point)| {
            results.push(id);
        },
    );
    assert_eq!(results, vec![0]);
}

#[test]
fn test_node_query_rect_empty() {
    let node = Node {
        bounds: Rect::with_points(Point::new(0, 0), Point::new(100, 100)),
        payload: NodePayload::Contents(vec![(0, Point::new(50, 50)), (1, Point::new(25, 25))]),
    };

    let mut results = Vec::new();
    node.query_rect(
        Rect::with_points(Point::new(200, 200), Point::new(300, 300)),
        &mut |&(id, _): &(i32, Point)| {
            results.push(id);
        },
    );
    assert_eq!(results, Vec::<i32>::new());
}

#[test]
fn test_node_query_rect_nested() {
    let node = Node {
        bounds: Rect::with_points(Point::new(0, 0), Point::new(100, 100)),
        payload: NodePayload::Children(Box::new((
            Node {
                bounds: Rect::with_points(Point::new(50, 50), Point::new(100, 100)),
                payload: NodePayload::Contents(vec![(3, Point::new(74, 74))]),
            },
            Node {
                bounds: Rect::with_points(Point::new(0, 50), Point::new(50, 100)),
                payload: NodePayload::Contents(vec![(2, Point::new(25, 74))]),
            },
            Node {
                bounds: Rect::with_points(Point::new(0, 0), Point::new(50, 50)),
                payload: NodePayload::Contents(vec![(0, Point::new(25, 25))]),
            },
            Node {
                bounds: Rect::with_points(Point::new(50, 0), Point::new(100, 50)),
                payload: NodePayload::Contents(vec![(1, Point::new(74, 25))]),
            },
        ))),
    };

    let mut results = Vec::new();
    node.query_rect(
        Rect::with_points(Point::new(25, 25), Point::new(75, 75)),
        &mut |&(id, _): &(i32, Point)| {
            results.push(id);
        },
    );
    results.sort();
    assert_eq!(results, vec![0, 1, 2, 3]);

    results.clear();
    node.query_rect(
        Rect::with_points(Point::new(0, 0), Point::new(26, 26)),
        &mut |&(id, _): &(i32, Point)| {
            results.push(id);
        },
    );
    assert_eq!(results, vec![0]);
}

#[test]
fn test_build_quadtree() {
    let items = vec![
        (1, Point { x: 0, y: 0 }),
        (2, Point { x: 2, y: 2 }),
        (3, Point { x: 4, y: 4 }),
        (4, Point { x: 6, y: 6 }),
    ];
    let bounds = Rect {
        min: Point { x: 0, y: 0 },
        max: Point { x: 8, y: 8 },
    };
    let max_depth = 2;

    let quadtree = build_quadtree(items, bounds, max_depth);

    assert_eq!(
        quadtree.bounds,
        Rect {
            min: Point { x: 0, y: 0 },
            max: Point { x: 8, y: 8 },
        }
    );

    if let NodePayload::Children(children) = &quadtree.payload {
        assert_eq!(
            child(children, 0).bounds,
            Rect {
                min: Point { x: 4, y: 4 },
                max: Point { x: 8, y: 8 },
            }
        );
        if let NodePayload::Contents(contents) = &child(children, 0).payload {
            assert_eq!(
                contents,
                &[(3, Point { x: 4, y: 4 }), (4, Point { x: 6, y: 6 })]
            );
        }

        assert_eq!(
            child(children, 1).bounds,
            Rect {
                min: Point { x: 0, y: 4 },
                max: Point { x: 4, y: 8 },
            }
        );
        if let NodePayload::Contents(contents) = &child(children, 1).payload {
            assert_eq!(contents, &[]);
        }

        assert_eq!(
            child(children, 2).bounds,
            Rect {
                min: Point { x: 0, y: 0 },
                max: Point { x: 4, y: 4 },
            }
        );
        if let NodePayload::Contents(contents) = &child(children, 2).payload {
            assert_eq!(
                contents,
                &[(1, Point { x: 0, y: 0 }), (2, Point { x: 2, y: 2 })]
            );
        }

        assert_eq!(
            child(children, 3).bounds,
            Rect {
                min: Point { x: 4, y: 0 },
                max: Point { x: 8, y: 4 },
            }
        );
        if let NodePayload::Contents(contents) = &child(children, 3).payload {
            assert_eq!(contents, &[]);
        }
    } else {
        panic!("expected quadtree with children");
    }
}

#[test]
fn test_empty_quadtree() {
    let items: Vec<(i32, Point)> = vec![];
    let bounds = Rect::with_points(Point::new(0, 0), Point::new(10, 10));
    let tree = build_quadtree(items, bounds, 3);

    if let NodePayload::Contents(contents) = &tree.payload {
        assert!(contents.is_empty());
    } else {
        panic!("Expected empty quadtree to be a leaf node");
    }

    let mut results = Vec::new();
    tree.query_rect(
        Rect::with_points(Point::new(0, 0), Point::new(10, 10)),
        &mut |&(id, _): &(i32, Point)| {
            results.push(id);
        },
    );
    assert!(results.is_empty());

    let nearest = tree.nearest(Point::new(5, 5), None);
    assert!(nearest.is_none());
}

#[test]
fn test_build_quadtree_max_depth_zero() {
    let items = vec![
        (1, Point::new(1, 1)),
        (2, Point::new(5, 5)),
        (3, Point::new(8, 8)),
    ];
    let bounds = Rect::with_points(Point::new(0, 0), Point::new(10, 10));
    let tree = build_quadtree(items.clone(), bounds, 0);

    if let NodePayload::Contents(contents) = &tree.payload {
        assert_eq!(contents.len(), 3);
        assert!(contents.contains(&(1, Point::new(1, 1))));
        assert!(contents.contains(&(2, Point::new(5, 5))));
        assert!(contents.contains(&(3, Point::new(8, 8))));
    } else {
        panic!("Expected tree with max_depth=0 to be a leaf node");
    }
}

#[test]
fn test_all_points_in_same_quadrant() {
    let items = vec![
        (1, Point::new(1, 1)),
        (2, Point::new(2, 2)),
        (3, Point::new(3, 3)),
    ];
    let bounds = Rect::with_points(Point::new(0, 0), Point::new(10, 10));
    let tree = build_quadtree(items, bounds, 1);

    if let NodePayload::Children(children) = &tree.payload {
        if let NodePayload::Contents(contents) = &child(children, 2).payload {
            assert_eq!(contents.len(), 3);
        } else {
            panic!("Expected bottom-left child to be a leaf node");
        }

        for i in [0, 1, 3] {
            if let NodePayload::Contents(contents) = &child(children, i).payload {
                assert!(contents.is_empty());
            } else {
                panic!("Expected empty quadrant to be a leaf node");
            }
        }
    } else {
        panic!("Expected tree to have children");
    }
}

#[test]
fn test_nearest_with_priority() {
    let node = Node {
        bounds: Rect::with_points(Point::new(0, 0), Point::new(10, 10)),
        payload: NodePayload::Contents(vec![(1, Point::new(5, 4)), (2, Point::new(7, 7))]),
    };

    let query = Point::new(6, 6);

    let nearest = node.nearest(query, None).unwrap();
    assert_eq!(nearest.1, &(2, Point::new(7, 7)));

    let best_candidate = (0, &(0, Point::new(6, 6)));
    let nearest_with_best = node.nearest(query, Some(best_candidate)).unwrap();
    assert_eq!(nearest_with_best.1, &(0, Point::new(6, 6)));
}

#[test]
fn test_nearest_point_outside_bounds() {
    let node = Node {
        bounds: Rect::with_points(Point::new(0, 0), Point::new(10, 10)),
        payload: NodePayload::Contents(vec![(1, Point::new(1, 1)), (2, Point::new(9, 9))]),
    };

    let query = Point::new(15, 15);

    let nearest = node.nearest(query, None).unwrap();
    assert_eq!(nearest.1, &(2, Point::new(9, 9)));
}

#[test]
fn test_nested_nearest() {
    let tree = build_quadtree(
        vec![
            (0, Point::new(25, 25)),
            (1, Point::new(75, 75)),
            (2, Point::new(10, 90)),
            (3, Point::new(25, 75)),
            (4, Point::new(60, 40)),
            (5, Point::new(60, 10)),
        ],
        Rect::with_points(Point::new(0, 0), Point::new(100, 100)),
        2,
    );

    assert_eq!(tree.nearest(Point::new(50, 50), None).unwrap().1 .0, 4);
    assert_eq!(tree.nearest(Point::new(90, 90), None).unwrap().1 .0, 1);
    assert_eq!(tree.nearest(Point::new(100, 10), None).unwrap().1 .0, 5);
}
