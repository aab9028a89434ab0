use cengine::geometry::{Color, RectCorners, Triangle2, Vec2, Vec2i, Vec3, WindowSize};

fn corners_of(x: f32, y: f32, w: f32, h: f32) -> RectCorners<f32> {
    RectCorners {
        a: Vec2 { x, y },
        b: Vec2 { x: x + w, y },
        c: Vec2 { x: x + w, y: y + h },
        d: Vec2 { x, y: y + h },
    }
}

#[test]
fn corner_split_covers_the_four_corners() {
    let q = corners_of(0.0, 0.0, 100.0, 50.0);
    let t1 = q.tri1();
    let t2 = q.tri2();
    // First triangle: top-left, top-right, bottom-right.
    assert_eq!(t1.a, q.a);
    assert_eq!(t1.b, q.b);
    assert_eq!(t1.c, q.c);
    // Second triangle: top-left, bottom-right, bottom-left.
    assert_eq!(t2.a, q.a);
    assert_eq!(t2.b, q.c);
    assert_eq!(t2.c, q.d);
    // Together they touch exactly the four corners.
    let seen = [t1.a, t1.b, t1.c, t2.a, t2.b, t2.c];
    for corner in [q.a, q.b, q.c, q.d] {
        assert!(seen.contains(&corner));
    }
    for v in seen {
        assert!([q.a, q.b, q.c, q.d].contains(&v));
    }
    // The shared diagonal is traversed c->a by the first triangle (closing
    // edge) and a->c by the second (opening edge): consistent winding.
    assert_eq!((t1.c, t1.a), (t2.b, t2.a));
}

#[test]
fn corner_split_concrete_values() {
    let q = corners_of(0.0, 0.0, 100.0, 50.0);
    assert_eq!(q.a, Vec2 { x: 0.0, y: 0.0 });
    assert_eq!(q.b, Vec2 { x: 100.0, y: 0.0 });
    assert_eq!(q.c, Vec2 { x: 100.0, y: 50.0 });
    assert_eq!(q.d, Vec2 { x: 0.0, y: 50.0 });
}

#[test]
fn constructors_store_components() {
    assert_eq!(Vec2::new(1.5f32, -2.0), Vec2 { x: 1.5, y: -2.0 });
    assert_eq!(Vec3::new(1.0f32, 2.0, 3.0), Vec3 { x: 1.0, y: 2.0, z: 3.0 });
    assert_eq!(
        Color::new(0.1f32, 0.2, 0.3, 1.0),
        Color { r: 0.1, g: 0.2, b: 0.3, a: 1.0 }
    );
    let t = Triangle2::new(
        Vec2 { x: 0.0f32, y: 0.0 },
        Vec2 { x: 1.0, y: 0.0 },
        Vec2 { x: 0.0, y: 1.0 },
    );
    assert_eq!(t.b, Vec2 { x: 1.0, y: 0.0 });
    let s = WindowSize { x: 800, y: 600 };
    assert_eq!((s.x, s.y), (800, 600));
    let v = Vec2i { x: -3, y: 9 };
    assert_eq!((v.x, v.y), (-3, 9));
}
