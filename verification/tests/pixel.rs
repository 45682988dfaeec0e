use dofus_vision::pixel::convert;

#[test]
fn convert_swaps_red_and_blue() {
    let raw: Vec<u8> = vec![1, 2, 3, 4, 5, 6, 7, 8];
    let out = convert(&raw);
    assert_eq!(out, vec![3, 2, 1, 4, 7, 6, 5, 8]);
}

#[test]
fn convert_empty_input_yields_empty() {
    let raw: Vec<u8> = vec![];
    let out = convert(&raw);
    assert!(out.is_empty());
}

#[test]
fn convert_length_preserved_for_whole_pixels() {
    let raw: Vec<u8> = (0u8..48).collect();
    let out = convert(&raw);
    assert_eq!(out.len(), 48);
    for p in 0..12 {
        assert_eq!(out[4 * p], raw[4 * p + 2]);
        assert_eq!(out[4 * p + 1], raw[4 * p + 1]);
        assert_eq!(out[4 * p + 2], raw[4 * p]);
        assert_eq!(out[4 * p + 3], raw[4 * p + 3]);
    }
}

#[test]
fn convert_drops_trailing_partial_pixel() {
    let raw: Vec<u8> = vec![10, 20, 30, 40, 99, 98, 97];
    let out = convert(&raw);
    assert_eq!(out.len(), 4);
    assert_eq!(out, vec![30, 20, 10, 40]);
}

#[test]
fn convert_alpha_passes_through() {
    let raw: Vec<u8> = vec![0, 0, 0, 255, 0, 0, 0, 17];
    let out = convert(&raw);
    assert_eq!(out[3], 255);
    assert_eq!(out[7], 17);
}
