use random_field::{
    checked_area, encode_pixel, fill_field, fill_row, fill_rows_in_order, fill_segment,
    generate_field, generate_random_pixels, schedule_rows, FieldError, GenerationMode,
    PixelSample,
};

fn gray(v: u8) -> PixelSample {
    PixelSample { r: v, g: v, b: v }
}

#[test]
fn golden_gray_field_for_seed_42() {
    let rows = generate_random_pixels(42, 4, 2, GenerationMode::Grayscale);
    let expected: Vec<PixelSample> =
        [207u8, 140, 161, 47, 126, 133, 60, 11].iter().map(|v| gray(*v)).collect();
    assert_eq!(rows, expected);
}

#[test]
fn golden_gray_field_comes_from_the_two_row_generators() {
    let rngs = schedule_rows(42, 2);
    assert_eq!(rngs.len(), 2);
    let rows = generate_random_pixels(42, 4, 2, GenerationMode::Grayscale);
    assert_eq!(rows.len(), 8);
    for (row, start) in rngs.iter().enumerate() {
        let mut rng = *start;
        for col in 0..4 {
            let raw = rng.next();
            assert_eq!(rows[row * 4 + col], gray((raw % 256) as u8));
        }
    }
}

#[test]
fn golden_colour_field_for_seed_42() {
    let rows = generate_random_pixels(42, 4, 2, GenerationMode::Colorful);
    let expected: Vec<PixelSample> = [
        (207u8, 134u8, 94u8),
        (140, 43, 106),
        (161, 45, 104),
        (47, 97, 83),
        (126, 45, 24),
        (133, 1, 67),
        (60, 133, 9),
        (11, 36, 111),
    ]
    .iter()
    .map(|(r, g, b)| PixelSample { r: *r, g: *g, b: *b })
    .collect();
    assert_eq!(rows, expected);
}

#[test]
fn golden_colour_field_for_seed_7() {
    let rows = generate_random_pixels(7, 3, 3, GenerationMode::Colorful);
    let expected: Vec<PixelSample> = [
        (104u8, 49u8, 38u8),
        (77, 195, 104),
        (237, 57, 39),
        (176, 224, 173),
        (205, 104, 195),
        (32, 228, 134),
        (53, 54, 109),
        (224, 42, 213),
        (164, 70, 169),
    ]
    .iter()
    .map(|(r, g, b)| PixelSample { r: *r, g: *g, b: *b })
    .collect();
    assert_eq!(rows, expected);
}

#[test]
fn two_runs_give_the_same_field() {
    for mode in [GenerationMode::Grayscale, GenerationMode::Colorful] {
        let first = generate_random_pixels(2024, 37, 19, mode);
        let second = generate_random_pixels(2024, 37, 19, mode);
        assert_eq!(first, second);
        assert_eq!(first.len(), 37 * 19);
    }
}

#[test]
fn fill_order_does_not_show() {
    let width = 5usize;
    let rngs = schedule_rows(99, 6);
    for mode in [GenerationMode::Grayscale, GenerationMode::Colorful] {
        let expected = generate_random_pixels(99, 5, 6, mode);
        for order in [
            [0usize, 1, 2, 3, 4, 5],
            [5, 4, 3, 2, 1, 0],
            [3, 0, 5, 1, 4, 2],
            [1, 3, 5, 0, 2, 4],
        ] {
            let mut buf = vec![PixelSample::black(); width * 6];
            for row in order {
                fill_segment(&mut buf[row * width..(row + 1) * width], rngs[row], mode);
            }
            assert_eq!(buf, expected);
        }
    }
}

#[test]
fn rows_filled_in_any_order_give_the_field() {
    let rngs = schedule_rows(99, 6);
    for mode in [GenerationMode::Grayscale, GenerationMode::Colorful] {
        let expected = generate_random_pixels(99, 5, 6, mode);
        for order in [
            vec![0usize, 1, 2, 3, 4, 5],
            vec![5, 4, 3, 2, 1, 0],
            vec![3, 0, 5, 1, 4, 2],
            vec![2, 2, 0, 1, 5, 3, 4, 0],
        ] {
            let mut buf = vec![PixelSample { r: 1, g: 2, b: 3 }; 30];
            fill_rows_in_order(&mut buf, 5, &rngs, mode, &order);
            assert_eq!(buf, expected);
        }
    }
}

#[test]
fn rows_left_out_keep_what_they_held() {
    let rngs = schedule_rows(99, 3);
    let expected = generate_random_pixels(99, 4, 3, GenerationMode::Colorful);
    let stale = PixelSample { r: 1, g: 2, b: 3 };
    let mut buf = vec![stale; 12];
    fill_rows_in_order(&mut buf, 4, &rngs, GenerationMode::Colorful, &vec![2, 0]);
    assert_eq!(&buf[..4], &expected[..4]);
    assert_eq!(&buf[4..8], &[stale; 4]);
    assert_eq!(&buf[8..], &expected[8..]);
}

#[test]
fn fill_row_touches_its_segment_only() {
    let rngs = schedule_rows(42, 2);
    let mut buf = vec![PixelSample::black(); 8];
    fill_row(&mut buf, 4, 1, rngs[1], GenerationMode::Grayscale);
    assert_eq!(&buf[..4], &[PixelSample::black(); 4]);
    assert_eq!(&buf[4..], &[gray(126), gray(133), gray(60), gray(11)]);
}

#[test]
fn every_slot_holds_its_own_draw() {
    let (width, height) = (9u32, 7u32);
    let rngs = schedule_rows(5, height);
    let rows = generate_random_pixels(5, width, height, GenerationMode::Colorful);
    assert_eq!(rows.len() as u32, width * height);
    for row in 0..height as usize {
        let mut rng = rngs[row];
        for col in 0..width as usize {
            let raw = rng.next();
            assert_eq!(
                rows[row * width as usize + col],
                encode_pixel(raw, GenerationMode::Colorful)
            );
        }
    }
}

#[test]
fn gray_field_has_equal_channels_everywhere() {
    let rows = generate_random_pixels(31337, 64, 48, GenerationMode::Grayscale);
    assert_eq!(rows.len(), 64 * 48);
    for p in rows {
        assert_eq!(p.r, p.g);
        assert_eq!(p.g, p.b);
    }
}

#[test]
fn fill_segment_draws_left_to_right() {
    let start = schedule_rows(42, 1)[0];
    let mut row = vec![PixelSample::black(); 4];
    fill_segment(&mut row, start, GenerationMode::Grayscale);
    assert_eq!(row, vec![gray(207), gray(140), gray(161), gray(47)]);
}

#[test]
fn fill_segment_overwrites_what_was_there() {
    let start = schedule_rows(42, 1)[0];
    let mut row = vec![PixelSample { r: 9, g: 8, b: 7 }; 4];
    fill_segment(&mut row, start, GenerationMode::Grayscale);
    assert_eq!(row, vec![gray(207), gray(140), gray(161), gray(47)]);
}

#[test]
fn fill_segment_on_an_empty_row() {
    let start = schedule_rows(42, 1)[0];
    let mut row: Vec<PixelSample> = Vec::new();
    fill_segment(&mut row, start, GenerationMode::Colorful);
    assert!(row.is_empty());
}

#[test]
fn fill_field_binds_row_i_to_generator_i() {
    let rngs = schedule_rows(42, 2);
    let swapped = vec![rngs[1], rngs[0]];
    let straight = fill_field(4, 2, GenerationMode::Grayscale, rngs);
    let crossed = fill_field(4, 2, GenerationMode::Grayscale, swapped);
    assert_eq!(&straight[..4], &crossed[4..]);
    assert_eq!(&straight[4..], &crossed[..4]);
    assert_eq!(straight, generate_random_pixels(42, 4, 2, GenerationMode::Grayscale));
}

#[test]
fn rows_of_a_wider_field_start_alike() {
    let narrow = generate_random_pixels(11, 3, 4, GenerationMode::Colorful);
    let wide = generate_random_pixels(11, 8, 4, GenerationMode::Colorful);
    for row in 0..4 {
        assert_eq!(&narrow[row * 3..row * 3 + 3], &wide[row * 8..row * 8 + 3]);
    }
}

#[test]
fn a_field_without_rows_is_empty() {
    assert!(generate_random_pixels(42, 4, 0, GenerationMode::Grayscale).is_empty());
}

#[test]
fn a_field_without_columns_is_empty() {
    assert!(generate_random_pixels(42, 0, 4, GenerationMode::Grayscale).is_empty());
    assert!(generate_random_pixels(42, 0, 0, GenerationMode::Colorful).is_empty());
}

#[test]
fn a_large_field_is_filled_to_the_last_slot() {
    let (width, height) = (257u32, 129u32);
    let rngs = schedule_rows(1, height);
    let rows = generate_random_pixels(1, width, height, GenerationMode::Colorful);
    assert_eq!(rows.len() as u32, width * height);
    let mut last = rngs[128].step_forward(256);
    assert_eq!(rows[rows.len() - 1], encode_pixel(last.next(), GenerationMode::Colorful));
}

#[test]
fn overflowing_dimensions_are_refused() {
    assert_eq!(checked_area(0xFFFF_FFFF, 2), Err(FieldError::DimensionOverflow));
    assert_eq!(
        generate_field(42, 0xFFFF_FFFF, 2, GenerationMode::Grayscale),
        Err(FieldError::DimensionOverflow)
    );
    assert_eq!(
        generate_field(42, 65536, 65536, GenerationMode::Colorful),
        Err(FieldError::DimensionOverflow)
    );
}

#[test]
fn area_is_the_product_when_it_fits() {
    assert_eq!(checked_area(4, 2), Ok(8));
    assert_eq!(checked_area(0, 0xFFFF_FFFF), Ok(0));
    assert_eq!(checked_area(0xFFFF_FFFF, 1), Ok(0xFFFF_FFFF));
    assert_eq!(checked_area(65535, 65537), Ok(0xFFFF_FFFF));
    assert_eq!(checked_area(65536, 65536), Err(FieldError::DimensionOverflow));
}

#[test]
fn generate_field_agrees_with_generate_random_pixels() {
    assert_eq!(
        generate_field(42, 4, 2, GenerationMode::Grayscale),
        Ok(generate_random_pixels(42, 4, 2, GenerationMode::Grayscale))
    );
}
