use raytracer::image_output::{get_ppm_header, ppm_bytes, Image};

#[test]
fn the_header_names_the_format_the_size_and_the_depth() {
    assert_eq!(get_ppm_header(500, 400), "P6\n500 400\n255\n");
    assert_eq!(get_ppm_header(1, 1), "P6\n1 1\n255\n");
}

#[test]
fn the_header_writes_zero_and_large_sizes() {
    assert_eq!(get_ppm_header(0, 0), "P6\n0 0\n255\n");
    assert_eq!(get_ppm_header(10, 100), "P6\n10 100\n255\n");
    assert_eq!(get_ppm_header(1009, 9), "P6\n1009 9\n255\n");
    let largest = format!("P6\n{} {}\n255\n", usize::MAX, usize::MAX - 1);
    assert_eq!(get_ppm_header(usize::MAX, usize::MAX - 1), largest);
}

#[test]
fn pixels_are_written_row_by_row() {
    // three columns of two rows: image[x][y]
    let image: Image = vec![
        vec![[1, 2, 3], [4, 5, 6]],
        vec![[7, 8, 9], [10, 11, 12]],
        vec![[13, 14, 15], [16, 17, 18]],
    ];
    let mut expected = b"P6\n3 2\n255\n".to_vec();
    expected.extend_from_slice(&[1, 2, 3, 7, 8, 9, 13, 14, 15]);
    expected.extend_from_slice(&[4, 5, 6, 10, 11, 12, 16, 17, 18]);
    assert_eq!(ppm_bytes(&image), expected);
}

#[test]
fn a_single_pixel_is_three_bytes_after_the_header() {
    let image: Image = vec![vec![[255, 0, 128]]];
    let bytes = ppm_bytes(&image);
    assert_eq!(bytes, b"P6\n1 1\n255\n\xff\x00\x80".to_vec());
}

#[test]
fn an_image_without_rows_is_its_header() {
    let image: Image = vec![vec![], vec![]];
    assert_eq!(ppm_bytes(&image), b"P6\n2 0\n255\n".to_vec());
}

#[test]
fn what_a_column_holds_below_the_height_is_left_out() {
    let image: Image = vec![vec![[1, 1, 1]], vec![[2, 2, 2], [9, 9, 9]]];
    assert_eq!(ppm_bytes(&image), b"P6\n2 1\n255\n\x01\x01\x01\x02\x02\x02".to_vec());
}

#[test]
fn the_file_has_three_bytes_a_pixel() {
    let width = 12;
    let height = 7;
    let image: Image = (0..width)
        .map(|x| (0..height).map(|y| [x as u8, y as u8, (x * y) as u8]).collect())
        .collect();
    let bytes = ppm_bytes(&image);
    let header = get_ppm_header(width, height);
    assert_eq!(bytes.len(), header.len() + 3 * width * height);
    assert_eq!(&bytes[..header.len()], header.as_bytes());
    for y in 0..height {
        for x in 0..width {
            let at = header.len() + 3 * (y * width + x);
            assert_eq!(&bytes[at..at + 3], &image[x][y]);
        }
    }
}
