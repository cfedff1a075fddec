use std::marker::PhantomData;

use scoundrel::{
    AsciiGlyph, Chebyshev, HasOne, HasZero, InternID, InternPool, Manhattan, MinHeapEntry,
    Rgb8, VectorMetric,
};

#[test]
fn test_manhattan() {
    let metric = Manhattan;
    assert_eq!(metric.distance(vec![0, 0], vec![0, 0]), 0);
    assert_eq!(metric.distance(vec![0, 0], vec![1, 1]), 2);
    assert_eq!(metric.distance(vec![0, 0], vec![3, 4]), 7);
}

#[test]
fn test_chebyshev() {
    let metric = Chebyshev;
    assert_eq!(metric.distance(vec![0, 0], vec![0, 0]), 0);
    assert_eq!(metric.distance(vec![0, 0], vec![1, 1]), 1);
    assert_eq!(metric.distance(vec![0, 0], vec![3, 4]), 4);
}

#[test]
fn test_sqr_distance_monotonic() {
    let metric = scoundrel::Euclidean;
    assert_eq!(metric.distance_fast_monotonic(vec![0, 0], vec![0, 0]), 0);
    assert_eq!(metric.distance_fast_monotonic(vec![0, 0], vec![1, 1]), 2);
    assert_eq!(metric.distance_fast_monotonic(vec![0, 0], vec![3, 4]), 25);
}

#[test]
fn test_has_zero_integers() {
    assert_eq!(u8::zero(), 0u8);
    assert_eq!(i8::zero(), 0i8);
    assert_eq!(u16::zero(), 0u16);
    assert_eq!(i16::zero(), 0i16);
    assert_eq!(u32::zero(), 0u32);
    assert_eq!(i32::zero(), 0i32);
    assert_eq!(u64::zero(), 0u64);
    assert_eq!(i64::zero(), 0i64);
    assert_eq!(usize::zero(), 0usize);
    assert_eq!(isize::zero(), 0isize);
}

#[test]
fn test_has_one_integers() {
    assert_eq!(u8::one(), 1u8);
    assert_eq!(i8::one(), 1i8);
    assert_eq!(u16::one(), 1u16);
    assert_eq!(i16::one(), 1i16);
    assert_eq!(u32::one(), 1u32);
    assert_eq!(i32::one(), 1i32);
    assert_eq!(u64::one(), 1u64);
    assert_eq!(i64::one(), 1i64);
    assert_eq!(usize::one(), 1usize);
    assert_eq!(isize::one(), 1isize);
}

#[derive(Debug, PartialEq, Eq)]
struct TestRing(i32);

impl std::ops::Add for TestRing {
    type Output = Self;

    fn add(self, other: Self) -> Self {
        TestRing(self.0 + other.0)
    }
}

impl std::ops::Mul for TestRing {
    type Output = Self;

    fn mul(self, other: Self) -> Self {
        TestRing(self.0 * other.0)
    }
}

#[test]
fn test_ring_trait() {
    let a = TestRing(5);
    let b = TestRing(10);

    let sum = a + b;
    assert_eq!(sum, TestRing(15));

    let a = TestRing(3);
    let b = TestRing(4);
    let product = a * b;
    assert_eq!(product, TestRing(12));

    fn takes_ring<T: scoundrel::Ring>(_: T) {}
    takes_ring(TestRing(0));
}

#[test]
fn test_from_u8() {
    let glyph = AsciiGlyph::from(65); // ASCII 'A'
    assert_eq!(glyph.0, 65);
}

#[test]
fn test_to_u8() {
    let glyph = AsciiGlyph(97); // ASCII 'a'
    let value: u8 = glyph.into();
    assert_eq!(value, 97);
}

#[test]
fn test_to_char() {
    let glyph = AsciiGlyph(66); // ASCII 'B'
    let c: char = glyph.into();
    assert_eq!(c, 'B');
}

#[test]
fn ascii_glyph_test_equality() {
    let glyph1 = AsciiGlyph(68); // ASCII 'D'
    let glyph2 = AsciiGlyph(68);
    let glyph3 = AsciiGlyph(69); // ASCII 'E'

    assert_eq!(glyph1, glyph2);
    assert_ne!(glyph1, glyph3);
}

#[test]
fn ascii_glyph_test_debug_output() {
    let glyph = AsciiGlyph(70); // ASCII 'F'
    assert_eq!(format!("{:?}", glyph), "AsciiGlyph(70)");
}

#[test]
fn test_special_characters() {
    let tab = AsciiGlyph(9);
    assert_eq!(char::from(tab), '\t');

    let newline = AsciiGlyph(10);
    assert_eq!(char::from(newline), '\n');

    let space = AsciiGlyph(32);
    assert_eq!(char::from(space), ' ');
}

#[test]
fn ascii_glyph_test_clone() {
    let glyph1 = AsciiGlyph(71); // ASCII 'G'
    let glyph2 = glyph1;
    assert_eq!(glyph1, glyph2);
}

#[test]
fn test_add_get() {
    let mut pool = InternPool::new();
    let id1 = pool.add(1);
    let id2 = pool.add(2);
    let id3 = pool.add(3);

    assert_eq!(pool.get(id1), Some(&1));
    assert_eq!(pool.get(id2), Some(&2));
    assert_eq!(pool.get(id3), Some(&3));
    assert_eq!(pool.get(InternID(3, PhantomData)), None);
}

#[test]
fn test_add_duplicate() {
    let mut pool = InternPool::new();
    let id1 = pool.add(1);
    let id2 = pool.add(2);
    let id1_duplicate = pool.add(1);
    let id2_duplicate = pool.add(2);

    assert_eq!(id1, id1_duplicate);
    assert_eq!(id2, id2_duplicate);
}

#[test]
fn test_construction() {
    let entry = MinHeapEntry {
        value: "item1",
        priority: 10,
    };
    assert_eq!(entry.value, "item1");
    assert_eq!(entry.priority, 10);

    let entry = MinHeapEntry {
        value: vec![1, 2, 3],
        priority: 'A',
    };
    assert_eq!(entry.value, vec![1, 2, 3]);
    assert_eq!(entry.priority, 'A');
}

#[test]
fn min_heap_entry_test_clone() {
    let entry1 = MinHeapEntry {
        value: "original",
        priority: 5,
    };

    let entry2 = entry1.clone();

    assert_eq!(entry2.value, "original");
    assert_eq!(entry2.priority, 5);
}

#[test]
fn min_heap_entry_test_debug_output() {
    let entry = MinHeapEntry {
        value: "test",
        priority: 42,
    };

    let debug_str = format!("{:?}", entry);
    assert!(debug_str.contains("test"));
    assert!(debug_str.contains("42"));
}

#[test]
fn min_heap_entry_test_equality() {
    let entry1 = MinHeapEntry {
        value: "value1",
        priority: 10,
    };

    let entry2 = MinHeapEntry {
        value: "different_value",
        priority: 10,
    };

    let entry3 = MinHeapEntry {
        value: "value1",
        priority: 20,
    };

    assert_eq!(entry1, entry2);
    assert_ne!(entry1, entry3);
}

#[test]
fn test_ordering() {
    let low_priority = MinHeapEntry {
        value: "low",
        priority: 5,
    };

    let high_priority = MinHeapEntry {
        value: "high",
        priority: 10,
    };

    // For a min-heap, higher priority should be "less than" lower priority
    assert!(high_priority < low_priority);
    assert!(low_priority > high_priority);

    assert_eq!(
        high_priority.partial_cmp(&low_priority),
        Some(std::cmp::Ordering::Less)
    );
    assert_eq!(
        low_priority.partial_cmp(&high_priority),
        Some(std::cmp::Ordering::Greater)
    );

    let equal_priority = MinHeapEntry {
        value: "equal",
        priority: 10,
    };

    assert_eq!(high_priority, equal_priority);
    assert_eq!(
        high_priority.partial_cmp(&equal_priority),
        Some(std::cmp::Ordering::Equal)
    );
}

#[test]
fn test_pq_entry_ordering() {
    let a = scoundrel::PQEntry {
        value: "a",
        priority: 3,
    };
    let b = scoundrel::PQEntry {
        value: "b",
        priority: 7,
    };
    assert!(a < b);
    assert_eq!(a.partial_cmp(&b), Some(std::cmp::Ordering::Less));
    let c = scoundrel::PQEntry {
        value: "c",
        priority: 3,
    };
    assert_eq!(a, c);
}

#[test]
fn test_rgb8_channels() {
    let c = Rgb8::new(1, 2, 3);
    assert_eq!((c.r, c.g, c.b), (1, 2, 3));
    assert_eq!(Rgb8::black(), Rgb8::new(0, 0, 0));
    assert_eq!(Rgb8::grey(9), Rgb8::new(9, 9, 9));
}
