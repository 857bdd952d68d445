use hdricalibrationtool::exposure::{
    brightness_ranks, circle_mask, filter_images, keep_flagged, measure_exposure, select_exposures,
    select_well_exposed,
    ExposureStats, FisheyeGeometry, Raster,
};
use hdricalibrationtool::formats::{is_jpeg, is_raw, is_supported_format};

fn stats(underexposed: u64, overexposed: u64, luma_sum: u128) -> ExposureStats {
    ExposureStats {
        underexposed,
        overexposed,
        luma_sum,
    }
}

fn uniform(width: u32, height: u32, value: u8) -> Raster {
    Raster {
        width,
        height,
        samples: vec![value; (3 * width * height) as usize],
    }
}

#[test]
fn circle_mask_marks_the_disc() {
    let mask = circle_mask(
        4,
        4,
        FisheyeGeometry {
            diameter: 4,
            xleft: 0,
            ydown: 0,
        },
    );
    // Center (2, 2), radius 2: the corners of the grid lie outside.
    let expected = vec![
        false, false, true, false, //
        false, true, true, true, //
        true, true, true, true, //
        false, true, true, true,
    ];
    assert_eq!(mask, expected);
}

#[test]
fn measure_counts_dark_bright_and_luma() {
    let img = Raster {
        width: 3,
        height: 1,
        samples: vec![0, 0, 0, 255, 255, 255, 100, 150, 200],
    };
    let all = measure_exposure(&img, &vec![true, true, true]);
    assert_eq!(all.underexposed, 1);
    assert_eq!(all.overexposed, 1);
    assert_eq!(all.luma_sum, 255_000 + 299 * 100 + 587 * 150 + 114 * 200);
    let masked = measure_exposure(&img, &vec![false, true, false]);
    assert_eq!(masked.underexposed, 0);
    assert_eq!(masked.overexposed, 1);
    assert_eq!(masked.luma_sum, 255_000);
}

#[test]
fn ranks_order_by_brightness_keeping_ties() {
    let s = vec![stats(0, 0, 10), stats(0, 0, 30), stats(0, 0, 10), stats(0, 0, 20)];
    assert_eq!(brightness_ranks(&s), vec![2, 0, 3, 1]);
}

/// Black, mid-gray and white images, as a bracket: the white one is the
/// brightest and has no near-black pixel, so the selection starts there; the
/// gray and black ones have no near-white pixel, so it runs to the black one.
#[test]
fn black_gray_white_bracket() {
    let mask = circle_mask(
        8,
        8,
        FisheyeGeometry {
            diameter: 8,
            xleft: 0,
            ydown: 0,
        },
    );
    let a = measure_exposure(&uniform(8, 8, 0), &mask);
    let b = measure_exposure(&uniform(8, 8, 128), &mask);
    let c = measure_exposure(&uniform(8, 8, 255), &mask);
    assert!(a.underexposed > 0 && a.overexposed == 0);
    assert!(b.underexposed == 0 && b.overexposed == 0);
    assert!(c.underexposed == 0 && c.overexposed > 0);
    let keep = select_exposures(&vec![a, b, c]);
    assert_eq!(keep, vec![true, true, true]);
}

#[test]
fn selection_trims_both_tails() {
    // Brightness order: 1, 3, 0, 2. Image 1 has near-black pixels, image 3
    // is the first clean one; image 0 is the last one past it without
    // near-white pixels.
    let s = vec![stats(0, 0, 30), stats(5, 9, 50), stats(9, 4, 10), stats(0, 3, 40)];
    assert_eq!(select_exposures(&s), vec![true, false, false, true]);
}

#[test]
fn no_clean_start_defaults_to_brightest() {
    let s = vec![stats(1, 0, 10), stats(2, 0, 30), stats(3, 0, 20)];
    // Start at the brightest (image 1); the last clean one is image 0.
    assert_eq!(select_exposures(&s), vec![true, true, true]);
    let s = vec![stats(1, 5, 10), stats(2, 0, 30), stats(3, 5, 20)];
    // Nothing past the start is free of near-white pixels: keep all.
    assert_eq!(select_exposures(&s), vec![true, true, true]);
}

#[test]
fn no_clean_end_keeps_the_rest() {
    let s = vec![stats(4, 1, 10), stats(0, 1, 30), stats(0, 1, 20)];
    assert_eq!(select_exposures(&s), vec![true, true, true]);
    let s = vec![stats(4, 1, 10), stats(7, 1, 30), stats(0, 1, 20)];
    assert_eq!(select_exposures(&s), vec![true, false, true]);
}

#[test]
fn single_image_is_kept() {
    assert_eq!(select_exposures(&vec![stats(3, 3, 1)]), vec![true]);
}

#[test]
fn keep_flagged_preserves_order() {
    let items = vec!["a".to_string(), "b".to_string(), "c".to_string()];
    assert_eq!(keep_flagged(&items, &vec![true, false, true]), vec!["a", "c"]);
}

#[test]
fn filter_passes_non_jpeg_brackets_through() {
    let g = FisheyeGeometry {
        diameter: 100,
        xleft: 0,
        ydown: 0,
    };
    let tiffs = vec!["/x/a.tif".to_string(), "/x/b.tif".to_string()];
    assert_eq!(filter_images(tiffs.clone(), g).unwrap(), tiffs);
    assert_eq!(filter_images(vec![], g).unwrap(), Vec::<String>::new());
}

#[test]
fn filter_reports_unreadable_image() {
    let g = FisheyeGeometry {
        diameter: 100,
        xleft: 0,
        ydown: 0,
    };
    let missing = vec!["/nonexistent/hdri/a.jpg".to_string()];
    assert!(filter_images(missing, g).is_err());
}

#[test]
fn formats_by_extension() {
    assert!(is_jpeg("/x/IMG_1.JPG"));
    assert!(is_jpeg("a.jpeg"));
    assert!(!is_jpeg("a.tif"));
    assert!(!is_jpeg("/x.jpg/readme"));
    assert!(is_raw("a.CR2"));
    assert!(is_raw("noextension"));
    assert!(!is_raw("a.TIFF"));
    assert!(is_supported_format("a.NEF"));
    assert!(is_supported_format("a.x3f"));
    assert!(!is_supported_format("a.png"));
    assert!(!is_supported_format(".jpg"));
}

fn write_jpeg(name: &str, pixel: impl Fn(u32, u32) -> [u8; 3]) -> String {
    let nanos = std::time::SystemTime::now()
        .duration_since(std::time::UNIX_EPOCH)
        .unwrap()
        .as_nanos();
    let path = format!("/tmp/hdricalibrationtool-filter-{nanos}-{name}.jpg");
    let img = image::RgbImage::from_fn(32, 32, |x, y| image::Rgb(pixel(x, y)));
    img.save(&path).unwrap();
    path
}

#[test]
fn filter_keeps_clean_part_of_real_bracket() {
    let contrast = write_jpeg("contrast", |x, _| if x < 16 { [0, 0, 0] } else { [255, 255, 255] });
    let mid = write_jpeg("mid", |_, _| [200, 200, 200]);
    let bright = write_jpeg("bright", |_, _| [250, 250, 250]);
    let g = FisheyeGeometry {
        diameter: 32,
        xleft: 0,
        ydown: 0,
    };
    let kept = filter_images(vec![contrast, mid.clone(), bright.clone()], g).unwrap();
    assert_eq!(kept, vec![mid, bright]);
}

#[test]
fn filter_rejects_mismatched_sizes() {
    let a = write_jpeg("size-a", |_, _| [100, 100, 100]);
    let nanos = std::time::SystemTime::now()
        .duration_since(std::time::UNIX_EPOCH)
        .unwrap()
        .as_nanos();
    let b = format!("/tmp/hdricalibrationtool-filter-{nanos}-size-b.jpg");
    image::RgbImage::from_pixel(16, 16, image::Rgb([100, 100, 100]))
        .save(&b)
        .unwrap();
    let g = FisheyeGeometry {
        diameter: 16,
        xleft: 0,
        ydown: 0,
    };
    assert!(filter_images(vec![a, b], g).is_err());
}

#[test]
fn decoded_bracket_of_one_size_is_selected() {
    let names = vec!["x.jpg".to_string(), "y.jpg".to_string(), "z.jpg".to_string()];
    let mut contrast = uniform(8, 8, 255);
    for i in 0..(3 * 8 * 4) {
        contrast.samples[i] = 0;
    }
    let images = vec![contrast, uniform(8, 8, 200), uniform(8, 8, 250)];
    let g = FisheyeGeometry {
        diameter: 8,
        xleft: 0,
        ydown: 0,
    };
    assert_eq!(
        select_well_exposed(&names, &images, g).unwrap(),
        vec!["y.jpg", "z.jpg"]
    );
}

#[test]
fn decoded_bracket_of_mixed_sizes_fails() {
    let names = vec!["x.jpg".to_string(), "y.jpg".to_string()];
    let g = FisheyeGeometry {
        diameter: 8,
        xleft: 0,
        ydown: 0,
    };
    let images = vec![uniform(8, 8, 100), uniform(8, 4, 100)];
    assert!(select_well_exposed(&names, &images, g).is_err());
    let mut short = uniform(8, 8, 100);
    short.samples.pop();
    let images = vec![uniform(8, 8, 100), short];
    assert!(select_well_exposed(&names, &images, g).is_err());
    assert_eq!(
        select_well_exposed(&vec![], &vec![], g).unwrap(),
        Vec::<String>::new()
    );
}
