use wordle::get_centered_top_left;

#[test]
fn gets_centered_top_left() {
    assert_eq!(get_centered_top_left((10, 10), (8, 8)), (2, 2));
    assert_eq!(get_centered_top_left((5, 5), (8, 8)), (1, 1));
}
