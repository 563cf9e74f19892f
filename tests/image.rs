use ray_tracer::color::Color;
use ray_tracer::image::{Ppm, MAX_COLOR};

#[test]
fn new_image_is_black_and_sixteen_by_nine() {
    let image = Ppm::new();
    assert_eq!(image.width, 400);
    assert_eq!(image.height, 225);
    assert_eq!(image.pixels.len(), 225);
    for row in &image.pixels {
        assert_eq!(row.len(), 400);
        for c in row {
            assert_eq!((c.r(), c.g(), c.b()), (0, 0, 0));
        }
    }
}

#[test]
fn plot_sets_row_then_column() {
    let mut image = Ppm::new();
    image.plot(3, 7, Color::from([1, 2, 3]));
    assert_eq!(image.pixels[3][7].g(), 2);
    assert_eq!(image.pixels[7][3].g(), 0);
    image.plot(224, 399, Color::from([9, 9, 9]));
    assert_eq!(image.pixels[224][399].b(), 9);
}

fn small(width: usize, height: usize) -> Ppm {
    Ppm {
        width,
        height,
        pixels: vec![vec![Color::default(); width]; height],
    }
}

#[test]
fn encode_lists_rows_from_the_top() {
    let mut image = small(2, 2);
    image.plot(0, 0, Color::from([1, 2, 3]));
    image.plot(0, 1, Color::from([4, 5, 6]));
    image.plot(1, 0, Color::from([7, 8, 9]));
    image.plot(1, 1, Color::from([10, 11, 255]));
    let text = String::from_utf8(image.encode()).unwrap();
    assert_eq!(text, "P3\n2 2\n255\n7 8 9\n10 11 255\n1 2 3\n4 5 6\n");
}

#[test]
fn encode_of_empty_image_is_header_only() {
    let image = small(0, 0);
    assert_eq!(String::from_utf8(image.encode()).unwrap(), "P3\n0 0\n255\n");
}

#[test]
fn encode_of_new_image_has_one_line_per_pixel() {
    let text = String::from_utf8(Ppm::new().encode()).unwrap();
    assert!(text.starts_with("P3\n400 225\n255\n0 0 0\n"));
    assert_eq!(text.lines().count(), 3 + 400 * 225);
    assert_eq!(MAX_COLOR, 255);
}
