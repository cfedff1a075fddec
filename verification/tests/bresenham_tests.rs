use scoundrel::{Bresenham, Point};

fn collect_line(mut b: Bresenham) -> Vec<Point> {
    let mut line = Vec::new();
    while let Some(p) = b.next() {
        line.push(p);
    }
    line
}

#[test]
fn test_line_basic() {
    let line = collect_line(Bresenham::new(Point::new(0, 0), Point::new(3, 2)));
    assert_eq!(
        line,
        vec![
            Point::new(0, 0),
            Point::new(1, 1),
            Point::new(2, 1),
            Point::new(3, 2)
        ]
    );
}

#[test]
fn test_line_reverse() {
    let line = collect_line(Bresenham::new(Point::new(3, 2), Point::new(0, 0)));
    assert_eq!(
        line,
        vec![
            Point::new(3, 2),
            Point::new(2, 1),
            Point::new(1, 1),
            Point::new(0, 0)
        ]
    );
}

#[test]
fn test_horizontal_line() {
    let line = collect_line(Bresenham::new(Point::new(0, 0), Point::new(5, 0)));
    assert_eq!(
        line,
        vec![
            Point::new(0, 0),
            Point::new(1, 0),
            Point::new(2, 0),
            Point::new(3, 0),
            Point::new(4, 0),
            Point::new(5, 0)
        ]
    );
}

#[test]
fn test_vertical_line() {
    let line = collect_line(Bresenham::new(Point::new(0, 0), Point::new(0, 5)));
    assert_eq!(
        line,
        vec![
            Point::new(0, 0),
            Point::new(0, 1),
            Point::new(0, 2),
            Point::new(0, 3),
            Point::new(0, 4),
            Point::new(0, 5)
        ]
    );
}

#[test]
fn test_steep_line() {
    let line = collect_line(Bresenham::new(Point::new(0, 0), Point::new(2, 7)));
    assert_eq!(line[0], Point::new(0, 0));
    assert_eq!(line[line.len() - 1], Point::new(2, 7));
    assert_eq!(line.len(), 8); // Start, end, and 6 points between
}

#[test]
fn test_single_point() {
    let point = Point::new(2, 3);
    let line = collect_line(Bresenham::new(point, point));
    assert_eq!(line, vec![point]);
}

#[test]
fn test_negative_coordinates() {
    let line = collect_line(Bresenham::new(Point::new(-2, -3), Point::new(2, 3)));
    assert_eq!(line[0], Point::new(-2, -3));
    assert_eq!(line[line.len() - 1], Point::new(2, 3));

    for i in 1..line.len() {
        let current = line[i];
        let previous = line[i - 1];
        let distance = (current.x - previous.x).pow(2) + (current.y - previous.y).pow(2);
        assert!(
            distance <= 2,
            "Points should be adjacent: {:?} and {:?}",
            previous,
            current
        );
    }
}

#[test]
fn test_different_quadrants() {
    let quadrants = [
        (Point::new(0, 0), Point::new(5, 5)),
        (Point::new(0, 0), Point::new(-5, 5)),
        (Point::new(0, 0), Point::new(-5, -5)),
        (Point::new(0, 0), Point::new(5, -5)),
    ];

    for (start, end) in quadrants.iter() {
        let line = collect_line(Bresenham::new(*start, *end));
        assert_eq!(line[0], *start);
        assert_eq!(line[line.len() - 1], *end);

        for i in 1..line.len() {
            let a = line[i - 1];
            let b = line[i];
            let dx = (b.x - a.x).abs();
            let dy = (b.y - a.y).abs();
            assert!(dx <= 1 && dy <= 1, "Points should be adjacent");
        }
    }
}

#[test]
fn test_bresenham_connectivity() {
    let test_cases = [
        (Point::new(0, 0), Point::new(10, 15)),
        (Point::new(-5, -8), Point::new(7, 12)),
        (Point::new(20, 10), Point::new(5, 30)),
    ];

    for (start, end) in test_cases.iter() {
        let line = collect_line(Bresenham::new(*start, *end));

        assert_eq!(&line[0], start);
        assert_eq!(&line[line.len() - 1], end);

        for i in 1..line.len() {
            let current = line[i];
            let previous = line[i - 1];

            let manhattan_distance =
                (current.x - previous.x).abs() + (current.y - previous.y).abs();
            assert!(
                manhattan_distance <= 2,
                "Points should be adjacent: {:?} and {:?}, but Manhattan distance is {}",
                previous,
                current,
                manhattan_distance
            );
        }
    }
}

#[test]
fn test_bresenham_approximate_symmetry() {
    let test_cases = [
        (Point::new(0, 0), Point::new(10, 7)),
        (Point::new(-5, -3), Point::new(5, 8)),
    ];

    for (start, end) in test_cases.iter() {
        let forward = collect_line(Bresenham::new(*start, *end));
        let mut backward = collect_line(Bresenham::new(*end, *start));

        backward.reverse();

        assert_eq!(
            forward.len(),
            backward.len(),
            "Forward and backward lines should have the same length"
        );

        assert_eq!(forward[0], backward[0], "Starting points should match");
        assert_eq!(
            forward[forward.len() - 1],
            backward[backward.len() - 1],
            "Ending points should match"
        );

        let differences = forward
            .iter()
            .zip(backward.iter())
            .filter(|(a, b)| a != b)
            .count();

        assert!(
            differences <= 2,
            "Forward and backward lines should be similar, but {} points differ.",
            differences
        );

        for (i, (a, b)) in forward.iter().zip(backward.iter()).enumerate() {
            let distance = (a.x - b.x).abs() + (a.y - b.y).abs();
            assert!(
                distance <= 2,
                "Point at index {} differs too much: {:?} vs {:?}",
                i,
                a,
                b
            );
        }
    }
}

#[test]
fn test_bresenham_special_cases() {
    let point = Point::new(42, 42);
    let line = collect_line(Bresenham::new(point, point));
    assert_eq!(
        line,
        vec![point],
        "Single point line should only contain that point"
    );

    let horiz_line = collect_line(Bresenham::new(Point::new(3, 5), Point::new(8, 5)));
    assert_eq!(
        horiz_line.len(),
        6,
        "Horizontal line should have correct length"
    );
    for point in &horiz_line {
        assert_eq!(point.y, 5, "All points should have the same y coordinate");
    }

    let vert_line = collect_line(Bresenham::new(Point::new(3, 5), Point::new(3, 10)));
    assert_eq!(
        vert_line.len(),
        6,
        "Vertical line should have correct length"
    );
    for point in &vert_line {
        assert_eq!(point.x, 3, "All points should have the same x coordinate");
    }
}

#[test]
fn test_bresenham_line_properties() {
    let diagonal = collect_line(Bresenham::new(Point::new(0, 0), Point::new(10, 10)));
    assert_eq!(diagonal.len(), 11, "Diagonal should have correct length");

    for i in 1..diagonal.len() {
        assert_eq!(
            diagonal[i].x - diagonal[i - 1].x,
            1,
            "X should increment by 1"
        );
        assert_eq!(
            diagonal[i].y - diagonal[i - 1].y,
            1,
            "Y should increment by 1"
        );
    }

    let steep_line = collect_line(Bresenham::new(Point::new(0, 0), Point::new(5, 10)));

    let mut y_steps = 0;
    for i in 1..steep_line.len() {
        y_steps += (steep_line[i].y - steep_line[i - 1].y).abs();
    }

    assert_eq!(
        y_steps, 10,
        "Line should have correct number of y increments"
    );
}
