use ttf_render::raster::fill_row;
use ttf_render::raster::fill_scanline;
use ttf_render::raster::sort_crossings;

#[test]
fn crossings_are_sorted_from_left_to_right() {
    assert_eq!(sort_crossings(&vec![]), Vec::<i32>::new());
    assert_eq!(sort_crossings(&vec![5]), vec![5]);
    assert_eq!(sort_crossings(&vec![3, 1, 2]), vec![1, 2, 3]);
    assert_eq!(sort_crossings(&vec![640, -64, 640, 0, i32::MIN, i32::MAX]), vec![
        i32::MIN,
        -64,
        0,
        640,
        640,
        i32::MAX
    ]);
}

#[test]
fn spans_between_pairs_of_crossings_are_filled() {
    let mut row = vec![0u8; 8];
    fill_row(&mut row, &vec![64, 192, 320, 448]);
    assert_eq!(row, vec![0, 255, 255, 0, 0, 255, 255, 0]);
    let mut row = vec![7u8; 6];
    fill_row(&mut row, &vec![100, 200]);
    assert_eq!(row, vec![7, 255, 255, 7, 7, 7]);
    let mut row = vec![7u8; 6];
    fill_row(&mut row, &vec![64, 128, 192]);
    assert_eq!(row, vec![7, 255, 7, 7, 7, 7]);
    let mut row = vec![7u8; 4];
    fill_row(&mut row, &vec![-500, 128, 192, 9999]);
    assert_eq!(row, vec![255, 255, 7, 255]);
    let mut row = vec![7u8; 4];
    fill_row(&mut row, &vec![192, 64]);
    assert_eq!(row, vec![7, 7, 7, 7]);
    let mut row = vec![7u8; 4];
    fill_row(&mut row, &vec![]);
    assert_eq!(row, vec![7, 7, 7, 7]);
    let mut row: Vec<u8> = vec![];
    fill_row(&mut row, &vec![0, 640]);
    assert_eq!(row, Vec::<u8>::new());
}

#[test]
fn scan_line_is_filled_by_the_even_odd_rule() {
    let mut row = vec![0u8; 8];
    fill_scanline(&mut row, &vec![448, 64, 320, 192]);
    assert_eq!(row, vec![0, 255, 255, 0, 0, 255, 255, 0]);
    let mut row = vec![0u8; 8];
    fill_scanline(&mut row, &vec![448, 64]);
    assert_eq!(row, vec![0, 255, 255, 255, 255, 255, 255, 0]);
    let mut again = vec![0u8; 8];
    fill_scanline(&mut again, &vec![64, 448]);
    assert_eq!(row, again);
}
