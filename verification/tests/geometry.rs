use starfighter::geom::{centered_at, intersects, Rect};

fn rect(x: i32, y: i32, w: i32, h: i32) -> Rect {
    Rect { x, y, w, h }
}

#[test]
fn intersects_requires_area_overlap() {
    assert!(intersects(rect(0, 0, 10, 10), rect(5, 5, 10, 10)));
    assert!(intersects(rect(0, 0, 10, 10), rect(9, 9, 2, 2)));
    // A rectangle contained in another overlaps it.
    assert!(intersects(rect(0, 0, 10, 10), rect(3, 3, 2, 2)));
    assert!(!intersects(rect(0, 0, 10, 10), rect(20, 0, 10, 10)));
}

#[test]
fn touching_edges_do_not_intersect() {
    // Sharing only an edge is not overlap.
    assert!(!intersects(rect(0, 0, 10, 10), rect(10, 0, 10, 10)));
    assert!(!intersects(rect(0, 0, 10, 10), rect(0, 10, 10, 10)));
    // Sharing only a corner is not overlap either.
    assert!(!intersects(rect(0, 0, 10, 10), rect(10, 10, 5, 5)));
    // One pixel inside is overlap.
    assert!(intersects(rect(0, 0, 10, 10), rect(9, 0, 10, 10)));
}

#[test]
fn intersects_is_symmetric() {
    let pairs = [
        (rect(0, 0, 10, 10), rect(5, 5, 10, 10)),
        (rect(0, 0, 10, 10), rect(10, 0, 10, 10)),
        (rect(-20, -20, 5, 5), rect(-18, -18, 1, 1)),
        (rect(393, 433, 15, 35), rect(385, 375, 30, 50)),
        (rect(0, 0, 0, 0), rect(0, 0, 0, 0)),
    ];
    for (a, b) in pairs {
        assert_eq!(intersects(a, b), intersects(b, a));
    }
}

#[test]
fn centered_at_anchors_on_the_center() {
    let r = centered_at(400, 450, 15, 35);
    assert_eq!(r, rect(393, 433, 15, 35));
    let r = centered_at(400, 400, 30, 50);
    assert_eq!(r, rect(385, 375, 30, 50));
    let r = centered_at(0, 0, 5, 15);
    assert_eq!(r, rect(-2, -7, 5, 15));
}
