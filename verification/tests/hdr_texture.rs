use egone::hdr::{
    downscale_hdr_rgba16f, downscale_to, plan_downscale, Downscale, DownscalePlan, HdrTextureData,
    ROWS_PER_PROGRESS,
};

const ONE_BITS: u16 = 0x3C00;

/// A texture whose every channel is distinct: channel `c` of texel `(x, y)`
/// holds `(y * width + x) * 4 + c`.
fn numbered(width: u32, height: u32) -> HdrTextureData {
    let count = (width * height * 4) as usize;
    let pixels: Vec<u16> = (0..count).map(|i| i as u16).collect();
    HdrTextureData { pixels, width, height }
}

#[test]
fn from_rgb_adds_alpha_to_every_texel() {
    let rgb = vec![1, 2, 3, 4, 5, 6];
    let data = HdrTextureData::from_rgb(&rgb, 2, 1, ONE_BITS);
    assert_eq!(data.width, 2);
    assert_eq!(data.height, 1);
    assert_eq!(data.pixels, vec![1, 2, 3, ONE_BITS, 4, 5, 6, ONE_BITS]);
}

#[test]
fn from_rgb_of_empty_image_is_empty() {
    let data = HdrTextureData::from_rgb(&Vec::new(), 0, 7, ONE_BITS);
    assert!(data.pixels.is_empty());
    assert_eq!(data.height, 7);
}

#[test]
fn single_texel_holds_its_channels() {
    let data = HdrTextureData::single_texel(0, 0, 0, ONE_BITS);
    assert_eq!(data.pixels, vec![0, 0, 0, ONE_BITS]);
    assert_eq!((data.width, data.height), (1, 1));
}

#[test]
fn fits_within_checks_both_sides() {
    let data = numbered(4, 2);
    assert!(data.fits_within(4));
    assert!(!data.fits_within(3));
    let tall = numbered(1, 5);
    assert!(!tall.fits_within(4));
    assert!(tall.fits_within(5));
}

#[test]
fn bytes_per_row_is_eight_per_texel() {
    assert_eq!(numbered(3, 1).bytes_per_row(), Some(24));
    let wide = HdrTextureData { pixels: Vec::new(), width: 0x2000_0000, height: 0 };
    assert_eq!(wide.bytes_per_row(), None);
    let widest_ok = HdrTextureData { pixels: Vec::new(), width: 0x1FFF_FFFF, height: 0 };
    assert_eq!(widest_ok.bytes_per_row(), Some(0xFFFF_FFF8));
}

#[test]
fn pixel_bytes_has_two_bytes_per_channel() {
    let data = HdrTextureData::single_texel(0x0102, 0x0304, 0x0506, ONE_BITS);
    let bytes = data.pixel_bytes();
    assert_eq!(bytes.len(), 8);
    let mut back = Vec::new();
    for pair in bytes.chunks(2) {
        back.push(u16::from_ne_bytes([pair[0], pair[1]]));
    }
    assert_eq!(back, data.pixels);
}

#[test]
fn downscale_picks_nearest_source_texel() {
    // 4x2 down to 2x1: output (x, 0) samples source (2x, 0).
    let data = numbered(4, 2);
    let out = downscale_to(data, 2, 1);
    assert_eq!((out.width, out.height), (2, 1));
    assert_eq!(out.pixels, vec![0, 1, 2, 3, 8, 9, 10, 11]);
}

#[test]
fn downscale_samples_scaled_rows() {
    // 3x3 down to 2x2: columns and rows 0 and 1 map to source 0 and 1.
    let data = numbered(3, 3);
    let out = downscale_to(data, 2, 2);
    let texel = |x: u32, y: u32| -> Vec<u16> {
        let start = ((y * 3 + x) * 4) as u16;
        (start..start + 4).collect()
    };
    let mut expected = Vec::new();
    for (x, y) in [(0, 0), (1, 0), (0, 1), (1, 1)] {
        expected.extend(texel(x, y));
    }
    assert_eq!(out.pixels, expected);
}

#[test]
fn stepping_reports_rows_in_chunks_and_matches_one_shot() {
    let data = numbered(2, 150);
    let copy = HdrTextureData { pixels: data.pixels.clone(), width: 2, height: 150 };
    let mut job = Downscale::new(data, 1, 70);
    let mut reported = Vec::new();
    while !job.is_done() {
        reported.push(job.rows_done());
        job.step();
    }
    assert_eq!(reported, vec![0, 32, 64]);
    assert!(reported.iter().all(|r| r % ROWS_PER_PROGRESS == 0));
    assert_eq!(job.rows_done(), 70);
    let stepped = job.finish();
    let at_once = downscale_to(copy, 1, 70);
    assert_eq!(stepped.pixels, at_once.pixels);
    assert_eq!((stepped.width, stepped.height), (1, 70));
}

#[test]
fn texture_that_fits_is_kept() {
    let data = numbered(3, 2);
    let out = downscale_hdr_rgba16f(data, 3, 1, 1);
    assert_eq!((out.width, out.height), (3, 2));
    assert_eq!(out.pixels, numbered(3, 2).pixels);
}

#[test]
fn texture_that_does_not_fit_is_resampled() {
    let data = numbered(4, 2);
    let out = downscale_hdr_rgba16f(data, 2, 2, 1);
    assert_eq!((out.width, out.height), (2, 1));
    assert_eq!(out.pixels, vec![0, 1, 2, 3, 8, 9, 10, 11]);
}

#[test]
fn upscaling_repeats_texels() {
    let data = numbered(1, 1);
    let out = downscale_to(data, 2, 2);
    assert_eq!(out.pixels, vec![0, 1, 2, 3, 0, 1, 2, 3, 0, 1, 2, 3, 0, 1, 2, 3]);
}

#[test]
fn plan_keeps_texture_that_fits() {
    match plan_downscale(numbered(3, 2), 3, 1, 1) {
        DownscalePlan::Keep(kept) => assert_eq!(kept.pixels, numbered(3, 2).pixels),
        DownscalePlan::Resample(_) => panic!("expected the texture to be kept"),
    }
}

#[test]
fn plan_resamples_texture_that_does_not_fit() {
    match plan_downscale(numbered(4, 2), 2, 2, 1) {
        DownscalePlan::Keep(_) => panic!("expected a resampling job"),
        DownscalePlan::Resample(mut job) => {
            assert_eq!(job.rows_done(), 0);
            while !job.is_done() {
                job.step();
            }
            let out = job.finish();
            assert_eq!(out.pixels, vec![0, 1, 2, 3, 8, 9, 10, 11]);
        }
    }
}
