use std::collections::{HashMap, HashSet};

use scoundrel::{cast_light_2d, field_of_view, Grid2D, Opacity, Point, TileGeometry};

fn compute_fov(map: &Grid2D<Opacity>, origin: Point, radius: i32) -> HashSet<Point> {
    let mut visible = HashSet::new();
    cast_light_2d(map, origin, radius, |point: Point| {
        visible.insert(point);
    });
    visible
}

#[test]
fn test_fov_origin_always_visible() {
    let maps = [
        Grid2D::new(20, 20, Opacity::Transparent),
        Grid2D::from_sparse_points(
            20,
            20,
            Opacity::Transparent,
            vec![Point::new(5, 5)],
            Opacity::Opaque,
        ),
        Grid2D::from_sparse_points(
            20,
            20,
            Opacity::Opaque,
            vec![
                Point::new(6, 5),
                Point::new(5, 6),
                Point::new(4, 5),
                Point::new(5, 4),
            ],
            Opacity::Transparent,
        ),
    ];

    for map in &maps {
        let origin = Point::new(5, 5);
        let radius = 10;

        let visible = compute_fov(map, origin, radius);
        assert!(visible.contains(&origin), "Origin should always be visible");
    }
}

#[test]
fn test_fov_walls_block_vision() {
    let walls = vec![
        Point::new(3, 0),
        Point::new(3, 1),
        Point::new(3, 2),
        Point::new(3, 3),
        Point::new(3, 4),
        Point::new(3, 5),
        Point::new(7, 0),
        Point::new(7, 1),
        Point::new(7, 2),
        Point::new(7, 3),
        Point::new(7, 4),
        Point::new(7, 5),
    ];

    let map = Grid2D::from_sparse_points(11, 11, Opacity::Transparent, walls, Opacity::Opaque);
    let origin = Point::new(5, 0);
    let radius = 10;

    let visible = compute_fov(&map, origin, radius);

    for y in 0..6 {
        for x in 4..7 {
            assert!(
                visible.contains(&Point::new(x, y)),
                "Point in corridor ({}, {}) should be visible",
                x,
                y
            );
        }
    }

    let behind_walls = [Point::new(2, 3), Point::new(8, 3)];

    for point in &behind_walls {
        assert!(
            !visible.contains(point),
            "Point behind wall {:?} should not be visible",
            point
        );
    }
}

#[test]
fn test_fov_radius_limits() {
    let map = Grid2D::new(20, 20, Opacity::Transparent);
    let origin = Point::new(10, 10);

    let radii = [1, 3, 5, 8];

    for &radius in &radii {
        let visible = compute_fov(&map, origin, radius);

        for point in &visible {
            let dx = point.x - origin.x;
            let dy = point.y - origin.y;
            let distance_squared = dx * dx + dy * dy;

            assert!(
                distance_squared <= radius * radius,
                "Point {:?} outside radius {} should not be visible",
                point,
                radius
            );
        }

        if radius > 1 {
            let smaller_radius = radius - 1;
            let visible_smaller = compute_fov(&map, origin, smaller_radius);

            assert!(
                visible.len() > visible_smaller.len(),
                "FOV with radius {} should show more points than radius {}",
                radius,
                smaller_radius
            );
        }
    }
}

#[test]
fn test_fov_complex_scenario() {
    let walls = vec![
        // Room 1 walls
        Point::new(2, 2),
        Point::new(3, 2),
        Point::new(4, 2),
        Point::new(5, 2),
        Point::new(6, 2),
        Point::new(7, 2),
        Point::new(2, 3),
        Point::new(7, 3),
        Point::new(2, 4),
        // doorway at (7, 4)
        Point::new(2, 5),
        Point::new(7, 5),
        Point::new(2, 6),
        Point::new(3, 6),
        Point::new(4, 6),
        Point::new(5, 6),
        Point::new(6, 6),
        Point::new(7, 6),
        // Room 2 walls
        Point::new(9, 2),
        Point::new(10, 2),
        Point::new(11, 2),
        Point::new(12, 2),
        Point::new(13, 2),
        Point::new(14, 2),
        Point::new(9, 3),
        Point::new(14, 3),
        // doorway at (9, 4)
        Point::new(14, 4),
        Point::new(9, 5),
        Point::new(14, 5),
        Point::new(9, 6),
        Point::new(10, 6),
        Point::new(11, 6),
        Point::new(12, 6),
        Point::new(13, 6),
        Point::new(14, 6),
        // pillar in center of room 2
        Point::new(11, 4),
    ];

    let map = Grid2D::from_sparse_points(18, 10, Opacity::Transparent, walls, Opacity::Opaque);

    let origin_room1 = Point::new(4, 4);
    let visible_room1 = compute_fov(&map, origin_room1, 10);

    let room1_points = [
        Point::new(3, 3),
        Point::new(6, 5),
        Point::new(3, 5),
        Point::new(6, 3),
    ];
    for point in &room1_points {
        assert!(
            visible_room1.contains(point),
            "Point in room 1 {:?} should be visible",
            point
        );
    }

    let visible_through_door = [Point::new(9, 4), Point::new(10, 4), Point::new(11, 4)];
    for point in &visible_through_door {
        assert!(
            visible_room1.contains(point),
            "Point visible through doorway {:?} should be visible",
            point
        );
    }

    assert!(
        !visible_room1.contains(&Point::new(14, 4)),
        "Point behind wall in room 2 should not be visible"
    );
}

#[test]
fn test_fov_symmetric_property() {
    let map = Grid2D::new(15, 15, Opacity::Transparent);
    let radius = 8;

    let mut can_see_from = HashMap::new();

    let sample_points = [
        Point::new(3, 3),
        Point::new(7, 7),
        Point::new(10, 3),
        Point::new(3, 10),
        Point::new(10, 10),
    ];

    for &origin in &sample_points {
        can_see_from.insert(origin, compute_fov(&map, origin, radius));
    }

    for &point_a in &sample_points {
        for &point_b in &sample_points {
            if point_a == point_b {
                continue;
            }

            let a_sees_b = can_see_from.get(&point_a).unwrap().contains(&point_b);
            let b_sees_a = can_see_from.get(&point_b).unwrap().contains(&point_a);

            assert_eq!(
                a_sees_b, b_sees_a,
                "FOV symmetry broken between {:?} and {:?}",
                point_a, point_b
            );
        }
    }
}

#[test]
fn test_fov_idempotent() {
    let walls = vec![Point::new(4, 4), Point::new(5, 4), Point::new(6, 4)];
    let map = Grid2D::from_sparse_points(12, 12, Opacity::Transparent, walls, Opacity::Opaque);
    let origin = Point::new(5, 7);

    for geometry in [
        TileGeometry::Square,
        TileGeometry::Diamond,
        TileGeometry::Beveled,
    ] {
        let first: HashSet<Point> = field_of_view(geometry, &map, origin, 6).into_iter().collect();
        let second: HashSet<Point> = field_of_view(geometry, &map, origin, 6).into_iter().collect();
        assert_eq!(first, second, "Two identical casts must agree");
    }
}

#[test]
fn test_fov_occlusion_gap() {
    // A wall column between origin and target: the target is visible only
    // while the wedge toward it stays open through a gap, and sealing the
    // gap occludes it.
    let wall = vec![
        Point::new(2, 0),
        Point::new(2, 1),
        Point::new(2, 3),
        Point::new(2, 4),
    ];
    let map = Grid2D::from_sparse_points(5, 5, Opacity::Transparent, wall, Opacity::Opaque);
    let origin = Point::new(0, 2);
    let target = Point::new(4, 2);

    let visible = compute_fov(&map, origin, 10);
    assert!(
        visible.contains(&target),
        "Target should be visible through the remaining gap"
    );

    let sealed_wall = vec![
        Point::new(2, 0),
        Point::new(2, 1),
        Point::new(2, 2),
        Point::new(2, 3),
        Point::new(2, 4),
    ];
    let sealed = Grid2D::from_sparse_points(5, 5, Opacity::Transparent, sealed_wall, Opacity::Opaque);
    let visible_sealed = compute_fov(&sealed, origin, 10);
    assert!(
        !visible_sealed.contains(&target),
        "Target should be hidden once the gap is sealed"
    );
}

#[test]
fn test_field_of_view_origin_first() {
    let map = Grid2D::new(9, 9, Opacity::Transparent);
    let origin = Point::new(4, 4);
    let points = field_of_view(TileGeometry::Square, &map, origin, 3);
    assert_eq!(points[0], origin);
}
