use cengine::texture::Texture;

#[test]
fn new_texture_is_zeroed() {
    let t = Texture::new(4, 3, 2);
    assert_eq!(t.width, 4);
    assert_eq!(t.height, 3);
    assert_eq!(t.channels, 2);
    assert_eq!(t.data.len(), 24);
    assert!(t.data.iter().all(|&b| b == 0));
}

#[test]
fn set_pixel_writes_all_channels() {
    let mut t = Texture::new(4, 3, 2);
    t.set_pixel(1, 2, &[9, 8]);
    let idx = (2 * 4 + 1) * 2;
    for k in 0..t.data.len() {
        if k == idx {
            assert_eq!(t.data[k], 9);
        } else if k == idx + 1 {
            assert_eq!(t.data[k], 8);
        } else {
            assert_eq!(t.data[k], 0);
        }
    }
}

#[test]
fn set_pixel_out_of_bounds_is_ignored() {
    let mut t = Texture::new(4, 3, 1);
    t.set_pixel(-1, 0, &[7]);
    t.set_pixel(0, -1, &[7]);
    t.set_pixel(4, 0, &[7]);
    t.set_pixel(0, 3, &[7]);
    assert!(t.data.iter().all(|&b| b == 0));
}

#[test]
fn draw_circle_sets_exactly_squared_distance_pixels() {
    let mut t = Texture::new(100, 100, 1);
    // A prior value outside the circle must survive.
    t.set_pixel(10, 10, &[42]);
    t.draw_circle(50, 50, 10, &[255]);
    for y in 0..100i32 {
        for x in 0..100i32 {
            let d2 = (x - 50) * (x - 50) + (y - 50) * (y - 50);
            let got = t.data[(y * 100 + x) as usize];
            if d2 <= 100 {
                assert_eq!(got, 255, "pixel ({x},{y}) inside circle");
            } else if x == 10 && y == 10 {
                assert_eq!(got, 42, "prior value overwritten");
            } else {
                assert_eq!(got, 0, "pixel ({x},{y}) outside circle");
            }
        }
    }
}

#[test]
fn draw_circle_multichannel() {
    let mut t = Texture::new(8, 8, 3);
    t.draw_circle(4, 4, 2, &[1, 2, 3]);
    for y in 0..8i32 {
        for x in 0..8i32 {
            let base = ((y * 8 + x) * 3) as usize;
            let d2 = (x - 4) * (x - 4) + (y - 4) * (y - 4);
            if d2 <= 4 {
                assert_eq!(&t.data[base..base + 3], &[1, 2, 3]);
            } else {
                assert_eq!(&t.data[base..base + 3], &[0, 0, 0]);
            }
        }
    }
}

#[test]
fn draw_circle_negative_radius_paints_nothing() {
    let mut t = Texture::new(8, 8, 1);
    t.draw_circle(4, 4, -3, &[9]);
    assert!(t.data.iter().all(|&b| b == 0));
}

#[test]
fn draw_circle_clipped_at_edges() {
    let mut t = Texture::new(5, 5, 1);
    t.draw_circle(0, 0, 3, &[7]);
    for y in 0..5i32 {
        for x in 0..5i32 {
            let d2 = x * x + y * y;
            let got = t.data[(y * 5 + x) as usize];
            if d2 <= 9 {
                assert_eq!(got, 7);
            } else {
                assert_eq!(got, 0);
            }
        }
    }
}
