use raytracer::color::Color;
use raytracer::ppm::ImageError;
use raytracer::ppm::PPMImage;

#[test]
fn color_new_keeps_channels() {
    let c = Color::new(12, 200, 7);
    assert_eq!(c.r, 12);
    assert_eq!(c.g, 200);
    assert_eq!(c.b, 7);
}

#[test]
fn new_image_is_black() {
    let img = PPMImage::new(3, 2);
    assert_eq!(img.width, 3);
    assert_eq!(img.height, 2);
    assert_eq!(img.data.len(), 6);
    for y in 0..2 {
        for x in 0..3 {
            assert_eq!(img.get_pixel(x, y), Ok(Color::new(0, 0, 0)));
        }
    }
}

#[test]
fn set_then_get_round_trip() {
    let mut img = PPMImage::new(4, 4);
    let c = Color::new(1, 2, 3);
    assert_eq!(img.set_pixel(2, 3, &c), Ok(()));
    assert_eq!(img.get_pixel(2, 3), Ok(c));
    assert_eq!(img.get_pixel(3, 2), Ok(Color::new(0, 0, 0)));
}

#[test]
fn out_of_bounds_is_rejected() {
    let mut img = PPMImage::new(2, 2);
    let c = Color::new(9, 9, 9);
    assert_eq!(img.set_pixel(0, 2, &c), Err(ImageError::OutOfBounds));
    assert_eq!(img.get_pixel(5, 5), Err(ImageError::OutOfBounds));
    assert_eq!(
        ImageError::OutOfBounds.message(),
        "Pixel coordinates out of bounds"
    );
}

#[test]
fn x_beyond_width_is_rejected_even_when_the_flat_index_fits() {
    let mut img = PPMImage::new(2, 3);
    let c = Color::new(9, 9, 9);
    // (3, 1) flattens to index 5, which is inside the buffer, but x >= width.
    assert_eq!(img.set_pixel(3, 1, &c), Err(ImageError::OutOfBounds));
    assert_eq!(img.get_pixel(3, 1), Err(ImageError::OutOfBounds));
    assert!(img.get_pixel_mut(3, 1).is_err());
    // The cell that flat index would have named, pixel (1, 2), is untouched.
    assert_eq!(img.get_pixel(1, 2), Ok(Color::new(0, 0, 0)));
}

#[test]
fn get_pixel_mut_writes_through() {
    let mut img = PPMImage::new(2, 1);
    {
        let p = img.get_pixel_mut(1, 0).unwrap();
        *p = Color::new(7, 8, 9);
    }
    assert_eq!(img.get_pixel(1, 0), Ok(Color::new(7, 8, 9)));
    assert_eq!(img.get_pixel(0, 0), Ok(Color::new(0, 0, 0)));
    assert!(img.get_pixel_mut(2, 0).is_err());
}

#[test]
fn from_rows_concatenates_in_row_major_order() {
    let rows = vec![
        vec![Color::new(1, 1, 1), Color::new(2, 2, 2)],
        vec![Color::new(3, 3, 3), Color::new(4, 4, 4)],
        vec![Color::new(5, 5, 5), Color::new(6, 6, 6)],
    ];
    let img = PPMImage::from_rows(rows);
    assert_eq!(img.width, 2);
    assert_eq!(img.height, 3);
    assert_eq!(
        img.data,
        vec![
            Color::new(1, 1, 1),
            Color::new(2, 2, 2),
            Color::new(3, 3, 3),
            Color::new(4, 4, 4),
            Color::new(5, 5, 5),
            Color::new(6, 6, 6),
        ]
    );
}

#[test]
fn to_ppm_matches_the_text_format() {
    let mut img = PPMImage::new(2, 2);
    img.set_pixel(0, 0, &Color::new(255, 0, 0)).unwrap();
    img.set_pixel(1, 0, &Color::new(0, 255, 0)).unwrap();
    img.set_pixel(0, 1, &Color::new(0, 0, 255)).unwrap();
    img.set_pixel(1, 1, &Color::new(128, 30, 7)).unwrap();
    let expected = b"P3\n2 2\n255\n255 0 0\n0 255 0\n0 0 255\n128 30 7\n".to_vec();
    assert_eq!(img.to_ppm(), expected);
}

#[test]
fn to_ppm_of_single_black_pixel() {
    let img = PPMImage::new(1, 1);
    assert_eq!(img.to_ppm(), b"P3\n1 1\n255\n0 0 0\n".to_vec());
}
