use pixel_adjust::Error;
use pixel_adjust::frame::{Frame, FrameData};
use pixel_adjust::pixel::{CANON_ONE, Pixel8, Pixel16, PixelF32};
use pixel_adjust::render::{render, smart_render_iterate};

fn frame8(width: usize, height: usize, pixels: Vec<Pixel8>) -> Frame {
    Frame { width, height, data: FrameData::Data8(pixels) }
}

fn pixels8(f: &Frame) -> Vec<Pixel8> {
    match &f.data {
        FrameData::Data8(v) => v.clone(),
        _ => panic!("expected an 8-bit frame"),
    }
}

#[test]
fn render_transforms_every_pixel_in_extent() {
    let input = frame8(
        2,
        2,
        vec![
            Pixel8 { red: 100, green: 0, blue: 255, alpha: 9 },
            Pixel8 { red: 1, green: 2, blue: 3, alpha: 4 },
            Pixel8 { red: 50, green: 60, blue: 70, alpha: 80 },
            Pixel8 { red: 255, green: 255, blue: 255, alpha: 255 },
        ],
    );
    let blank = Pixel8 { red: 0, green: 0, blue: 0, alpha: 0 };
    let mut output = frame8(2, 2, vec![blank; 4]);
    let r = render(&input, &mut output, 2, 5_000);
    assert_eq!(r, Ok(()));
    let got = pixels8(&output);
    let expected: Vec<Pixel8> = pixels8(&input)
        .iter()
        .map(|p| p.to_pixel32().add(5_000).to_pixel8())
        .collect();
    assert_eq!(got, expected);
    assert_eq!(got[0], Pixel8 { red: 227, green: 127, blue: 255, alpha: 9 });
}

#[test]
fn render_leaves_rows_past_the_extent_untouched() {
    let input = frame8(2, 3, vec![Pixel8 { red: 10, green: 10, blue: 10, alpha: 10 }; 6]);
    let prior = Pixel8 { red: 1, green: 2, blue: 3, alpha: 4 };
    let mut output = frame8(2, 3, vec![prior; 6]);
    let r = render(&input, &mut output, 1, 10_000);
    assert_eq!(r, Ok(()));
    let got = pixels8(&output);
    // First row processed, the two rows past the extent in their prior state.
    assert_eq!(got[0], Pixel8 { red: 255, green: 255, blue: 255, alpha: 10 });
    assert_eq!(got[1], Pixel8 { red: 255, green: 255, blue: 255, alpha: 10 });
    assert_eq!(&got[2..], &[prior; 4]);
}

#[test]
fn encoding_mismatch_fails_and_writes_nothing() {
    let input = frame8(2, 1, vec![Pixel8 { red: 9, green: 9, blue: 9, alpha: 9 }; 2]);
    let prior = Pixel16 { red: 7, green: 8, blue: 9, alpha: 10 };
    let mut output = Frame { width: 2, height: 1, data: FrameData::Data16(vec![prior; 2]) };
    let r = render(&input, &mut output, 1, 5_000);
    assert_eq!(r, Err(Error::BadCallbackParameter));
    match &output.data {
        FrameData::Data16(v) => assert_eq!(v.as_slice(), &[prior; 2]),
        _ => panic!("output buffer changed encoding"),
    }
}

#[test]
fn sixteen_bit_pair_renders() {
    let input = Frame {
        width: 1,
        height: 1,
        data: FrameData::Data16(vec![Pixel16 { red: 16384, green: 0, blue: 32768, alpha: 32768 }]),
    };
    let mut output = Frame {
        width: 1,
        height: 1,
        data: FrameData::Data16(vec![Pixel16 { red: 0, green: 0, blue: 0, alpha: 0 }]),
    };
    assert_eq!(render(&input, &mut output, 1, 2_500), Ok(()));
    match &output.data {
        FrameData::Data16(v) => {
            assert_eq!(v[0], Pixel16 { red: 24576, green: 8192, blue: 32768, alpha: 32768 })
        },
        _ => panic!("output buffer changed encoding"),
    }
}

#[test]
fn float_pair_is_rejected_on_the_direct_path() {
    let pf = PixelF32 { red: 0, green: 0, blue: 0, alpha: 0 };
    let input = Frame { width: 1, height: 1, data: FrameData::DataF32(vec![pf]) };
    let prior = PixelF32 { red: 11, green: 22, blue: 33, alpha: 44 };
    let mut output = Frame { width: 1, height: 1, data: FrameData::DataF32(vec![prior]) };
    let r = render(&input, &mut output, 1, 5_000);
    assert_eq!(r, Err(Error::BadCallbackParameter));
    match &output.data {
        FrameData::DataF32(v) => assert_eq!(v[0], prior),
        _ => panic!("output buffer changed encoding"),
    }
}

#[test]
fn float_pair_renders_on_the_smart_path() {
    let pf = PixelF32 { red: 0, green: CANON_ONE, blue: CANON_ONE / 2, alpha: 123 };
    let input = Frame { width: 1, height: 1, data: FrameData::DataF32(vec![pf]) };
    let mut output = Frame {
        width: 1,
        height: 1,
        data: FrameData::DataF32(vec![PixelF32 { red: 0, green: 0, blue: 0, alpha: 0 }]),
    };
    assert_eq!(smart_render_iterate(&input, &mut output, 1, 1_000), Ok(()));
    match &output.data {
        FrameData::DataF32(v) => {
            // The float path adjusts in place: no conversion, alpha kept.
            assert_eq!(
                v[0],
                PixelF32 {
                    red: 104_448_000,
                    green: CANON_ONE,
                    blue: CANON_ONE / 2 + 104_448_000,
                    alpha: 123,
                }
            )
        },
        _ => panic!("output buffer changed encoding"),
    }
}

#[test]
fn smart_path_still_rejects_a_true_mismatch() {
    let input = frame8(1, 1, vec![Pixel8 { red: 1, green: 1, blue: 1, alpha: 1 }]);
    let prior = PixelF32 { red: 5, green: 6, blue: 7, alpha: 8 };
    let mut output = Frame { width: 1, height: 1, data: FrameData::DataF32(vec![prior]) };
    assert_eq!(smart_render_iterate(&input, &mut output, 1, 0), Err(Error::BadCallbackParameter));
    match &output.data {
        FrameData::DataF32(v) => assert_eq!(v[0], prior),
        _ => panic!("output buffer changed encoding"),
    }
}

#[test]
fn empty_frame_renders_trivially() {
    let input = frame8(0, 0, vec![]);
    let mut output = frame8(0, 0, vec![]);
    assert_eq!(render(&input, &mut output, 0, 5_000), Ok(()));
}
