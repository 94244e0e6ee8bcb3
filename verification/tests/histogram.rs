use component_ui::rgb8_histograms;

#[test]
fn histogram_of_no_pixels_is_all_zero() {
    let h = rgb8_histograms(&[]);
    assert_eq!(h.red, vec![0u64; 256]);
    assert_eq!(h.green, vec![0u64; 256]);
    assert_eq!(h.blue, vec![0u64; 256]);
}

#[test]
fn histogram_counts_each_channel_apart() {
    let rgb = [255u8, 0, 0, 255, 0, 7, 1, 0, 7];
    let h = rgb8_histograms(&rgb);
    assert_eq!(h.red.len(), 256);
    assert_eq!(h.red[255], 2);
    assert_eq!(h.red[1], 1);
    assert_eq!(h.red[0], 0);
    assert_eq!(h.green[0], 3);
    assert_eq!(h.green[255], 0);
    assert_eq!(h.blue[0], 1);
    assert_eq!(h.blue[7], 2);
    assert_eq!(h.red.iter().sum::<u64>(), 3);
    assert_eq!(h.green.iter().sum::<u64>(), 3);
    assert_eq!(h.blue.iter().sum::<u64>(), 3);
}

#[test]
fn histogram_leaves_out_an_incomplete_pixel() {
    let h = rgb8_histograms(&[9u8, 9, 9, 9, 9]);
    assert_eq!(h.red[9], 1);
    assert_eq!(h.green[9], 1);
    assert_eq!(h.blue[9], 1);
    let h = rgb8_histograms(&[9u8, 9]);
    assert_eq!(h.red.iter().sum::<u64>(), 0);
    assert_eq!(h.green.iter().sum::<u64>(), 0);
}
