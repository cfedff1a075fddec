use scoundrel::{Axis4D, Bounds, Grid2D, Mat2, Point, Rect, Vector2, Vector3, Vector4};

#[test]
fn test_bounds_creation() {
    let bounds = Bounds::with_points(Vector2::new(2, 3), Vector2::new(5, 7));
    assert_eq!(bounds.min, Vector2::new(2, 3));
    assert_eq!(bounds.max, Vector2::new(5, 7));
}

#[test]
fn test_contains() {
    let b = Bounds::with_points(Vector2::new(0, 0), Vector2::new(10, 10));
    assert!(b.contains(Vector2::new(5, 5)));
    assert!(b.contains(Vector2::new(0, 0)));
    assert!(b.contains(Vector2::new(9, 9)));
    assert!(!b.contains(Vector2::new(10, 10)));
    assert!(!b.contains(Vector2::new(-1, -1)));
}

#[test]
fn test_intersects() {
    let b1 = Bounds::with_points(Vector2::new(0, 0), Vector2::new(10, 10));
    let b2 = Bounds::with_points(Vector2::new(5, 5), Vector2::new(15, 15));
    let b3 = Bounds::with_points(Vector2::new(-5, -5), Vector2::new(5, -1));
    assert!(b1.intersects(&b2));
    assert!(b2.intersects(&b1));
    assert!(b1.intersects(&b1));
    assert!(!b1.intersects(&b3));
    assert!(!b3.intersects(&b1));
    assert!(!b3.intersects(&b2));
    assert!(!b2.intersects(&b3));
}

#[test]
fn test_for_each() {
    let b = Bounds::with_points(Vector2::new(0, 0), Vector2::new(3, 3));
    let mut count = 0;
    b.for_each(|_| count += 1);
    assert_eq!(count, 9);
}

#[test]
fn test_contained_points() {
    let b = Bounds::with_points(Vector2::new(0, 0), Vector2::new(3, 3));
    let points = b.contained_points();
    assert_eq!(points.len(), 9);
    for x in 0..3 {
        for y in 0..3 {
            assert!(points.contains(&Vector2::new(x, y)));
        }
    }
}

#[test]
fn test_for_each_border() {
    let b = Bounds::with_points(Vector2::new(0, 0), Vector2::new(3, 3));
    let mut count = 0;
    b.for_each_border(|_| count += 1);
    assert_eq!(count, 8);
}

#[test]
fn bounds_test_size() {
    let b = Bounds::with_points(Vector2::new(0, 0), Vector2::new(10, 20));
    let size = b.size();
    assert_eq!(size.x, 10);
    assert_eq!(size.y, 20);
}

#[test]
fn test_with_size() {
    let b = Bounds::with_size(Vector2::new(0, 0), Vector2::new(10, 20));
    assert_eq!(b.min, Vector2::new(0, 0));
    assert_eq!(b.max, Vector2::new(10, 20));
}

#[test]
fn test_new() {
    let grid = Grid2D::new(2, 3, 0);
    assert_eq!(grid.width(), 2);
    assert_eq!(grid.height(), 3);
    assert_eq!(grid.get(Point::new(0, 0)), Some(&0));
    assert_eq!(grid.get(Point::new(1, 2)), Some(&0));
    assert_eq!(grid.get(Point::new(-1, 0)), None);
    assert_eq!(grid.get(Point::new(2, 2)), None);
}

#[test]
fn test_like() {
    let grid1 = Grid2D::new(3, 3, 1);
    let grid2 = Grid2D::like(&grid1, 0);
    assert_eq!(grid2.width(), 3);
    assert_eq!(grid2.height(), 3);
    assert_eq!(grid2.get(Point::new(0, 0)), Some(&0));
    assert_eq!(grid2.get(Point::new(1, 2)), Some(&0));
    assert_eq!(grid2.get(Point::new(-1, 0)), None);
    assert_eq!(grid2.get(Point::new(2, 3)), None);
}

#[test]
fn test_resize() {
    let mut grid = Grid2D::new(2, 2, 0);
    grid.resize(3, 3, 1);
    assert_eq!(grid.width(), 3);
    assert_eq!(grid.height(), 3);
    assert_eq!(grid.get(Point::new(0, 0)), Some(&1));
    assert_eq!(grid.get(Point::new(2, 2)), Some(&1));
    assert_eq!(grid.get(Point::new(-1, 0)), None);
    assert_eq!(grid.get(Point::new(3, 3)), None);
}

#[test]
fn grid2d_test_clear() {
    let mut grid = Grid2D::new(2, 3, 1);
    grid.clear(7);
    assert_eq!(grid.width(), 2);
    assert_eq!(grid.height(), 3);
    assert_eq!(grid.get(Point::new(0, 0)), Some(&7));
    assert_eq!(grid.get(Point::new(1, 2)), Some(&7));
}

#[test]
fn test_from_iter() {
    let data = vec![1, 2, 3, 4, 5, 6];
    let grid = Grid2D::from_iter(data.clone(), 3, 2);
    assert_eq!(grid.width(), 3);
    assert_eq!(grid.height(), 2);
    assert_eq!(grid.get(Point::new(0, 0)), Some(&1));
    assert_eq!(grid.get(Point::new(2, 1)), Some(&6));
}

#[test]
fn test_rect() {
    let grid = Grid2D::new(3, 4, 0);
    let rect = grid.rect();
    assert_eq!(rect.min, Point::zero());
    assert_eq!(rect.max, Point::new(3, 4));
}

#[test]
fn grid2d_test_size() {
    let grid = Grid2D::new(2, 5, 0);
    assert_eq!(grid.size(), Point::new(2, 5));
}

#[test]
fn test_index() {
    let grid = Grid2D::new(3, 3, 0);
    assert_eq!(grid.index(Point::new(1, 1)), Some(4));
    assert_eq!(grid.index(Point::new(-1, 0)), None);
}

#[test]
fn test_transpose() {
    let mat = Mat2::row_major(1, 2, 3, 4);
    let transposed = mat.transpose();
    assert_eq!(transposed.col1.x, mat.col1.x);
    assert_eq!(transposed.col1.y, mat.col2.x);
    assert_eq!(transposed.col2.x, mat.col1.y);
    assert_eq!(transposed.col2.y, mat.col2.y);
}

#[test]
fn test_zero() {
    let mat = Mat2::zero();
    assert_eq!(mat.col1.x, 0);
    assert_eq!(mat.col1.y, 0);
    assert_eq!(mat.col2.x, 0);
    assert_eq!(mat.col2.y, 0);
}

#[test]
fn test_ident() {
    let mat = Mat2::ident();
    assert_eq!(mat.col1.x, 1);
    assert_eq!(mat.col1.y, 0);
    assert_eq!(mat.col2.x, 0);
    assert_eq!(mat.col2.y, 1);
}

#[test]
fn test_mat2_integer_inverse() {
    let mat = Mat2::row_major(1, 0, 0, 1);
    let inv = mat.inverse().unwrap();
    assert_eq!(inv, Mat2::ident());

    let singular = Mat2::row_major(1, 2, 2, 4);
    assert!(singular.inverse().is_none());
}

#[test]
fn test_vector_creation() {
    let v = Vector2::new(1, 2);
    assert_eq!(v.x, 1);
    assert_eq!(v.y, 2);

    let v = Vector3::new(1, 2, 3);
    assert_eq!(v.x, 1);
    assert_eq!(v.y, 2);
    assert_eq!(v.z, 3);

    let v = Vector4::new(1, 2, 3, 4);
    assert_eq!(v.x, 1);
    assert_eq!(v.y, 2);
    assert_eq!(v.z, 3);
    assert_eq!(v.w, 4);
}

#[test]
fn test_dot() {
    let vec1 = Vector3::new(1, 2, 3);
    let vec2 = Vector3::new(2, 3, 4);
    let res = vec1.dot(&vec2);
    assert_eq!(res, 20);
}

#[test]
fn test_cross() {
    let vec1 = Vector3::new(1, 0, 0);
    let vec2 = Vector3::new(0, 1, 0);
    let res = vec1.cross(vec2);
    assert_eq!(res.x, 0);
    assert_eq!(res.y, 0);
    assert_eq!(res.z, 1);
}

#[test]
fn test_vector2_arithmetic() {
    let v1 = Vector2::new(1, 2);
    let v2 = Vector2::new(2, 3);
    let v3 = v1 + v2;
    assert_eq!(v3.x, 3);
    assert_eq!(v3.y, 5);
    let v4 = v3 - v1;
    assert_eq!(v4, v2);
    let v5 = v1 * 3;
    assert_eq!(v5, Vector2::new(3, 6));
    assert_eq!(v1.sqr_magnitude(), 5);
}

#[test]
fn test_quadrants_partition() {
    let b = Rect::with_points(Point::new(0, 0), Point::new(8, 8));
    assert_eq!(b.center(), Point::new(4, 4));
    assert_eq!(
        b.quadrant(0),
        Rect::with_points(Point::new(4, 4), Point::new(8, 8))
    );
    assert_eq!(
        b.quadrant(2),
        Rect::with_points(Point::new(0, 0), Point::new(4, 4))
    );
    assert_eq!(b.containing_quadrant_idx(Point::new(1, 1)), 2);
    assert_eq!(b.containing_quadrant_idx(Point::new(5, 1)), 3);
    assert_eq!(b.containing_quadrant_idx(Point::new(5, 5)), 0);
    assert_eq!(b.containing_quadrant_idx(Point::new(1, 5)), 1);
}

#[test]
fn test_vector_addition() {
    let v1 = Vector2::new(1, 2);
    let v2 = Vector2::new(2, 3);
    let v3 = v1 + v2;
    assert_eq!(v3.x, 3);
    assert_eq!(v3.y, 5);

    let v1 = Vector3::new(1, 2, 3);
    let v2 = Vector3::new(2, 3, 4);
    let v3 = v1 + v2;
    assert_eq!(v3.x, 3);
    assert_eq!(v3.y, 5);
    assert_eq!(v3.z, 7);
}

#[test]
fn test_map() {
    let vec = Vector4::new(1, 2, 3, 4);
    let res = vec.map(|x| x + 1);
    assert_eq!(res.x, 2);
    assert_eq!(res.y, 3);
    assert_eq!(res.z, 4);
    assert_eq!(res.w, 5);
}

#[test]
fn test_axis_creation() {
    let vec = Vector4::along_axis(Axis4D::X, 7);
    assert_eq!(vec.x, 7);
    assert_eq!(vec.y, 0);
    assert_eq!(vec.z, 0);
    assert_eq!(vec.w, 0);

    let vec = Vector4::along_axis(Axis4D::Y, 7);
    assert_eq!(vec.x, 0);
    assert_eq!(vec.y, 7);
    assert_eq!(vec.z, 0);
    assert_eq!(vec.w, 0);

    let vec = Vector4::along_axis(Axis4D::Z, 7);
    assert_eq!(vec.z, 7);
    let vec = Vector4::along_axis(Axis4D::W, 7);
    assert_eq!(vec.w, 7);
}
