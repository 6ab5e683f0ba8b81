use binvid::args::{EmbedOutputMode, EmbedParams, EmbedPreset};
use binvid::embed::run_embed;
use binvid::error::EtchError;
use binvid::etcher::etch;
use binvid::render::{is_renderable, render, Frame};
use binvid::settings::{Data, Settings};

fn settings(size: i32, width: i32, height: i32) -> Settings {
    Settings { size, threads: 1, fps: 1, width, height }
}

fn pixel(frame: &Frame, x: u32, y: u32) -> [u8; 3] {
    let i = 3 * (y as usize * frame.width as usize + x as usize);
    [frame.samples[i], frame.samples[i + 1], frame.samples[i + 2]]
}

const WHITE: [u8; 3] = [255, 255, 255];
const BLACK: [u8; 3] = [0, 0, 0];

#[test]
fn bits_become_white_and_black_blocks_row_by_row() {
    let data = Data::from_binary(vec![true, false, true, true, false, true]);
    let frame = render(&data, &settings(2, 6, 4)).unwrap();
    assert_eq!((frame.width, frame.height), (6, 4));
    assert_eq!(frame.samples.len(), 3 * 6 * 4);
    let blocks = [[WHITE, BLACK, WHITE], [WHITE, BLACK, WHITE]];
    for y in 0..4u32 {
        for x in 0..6u32 {
            assert_eq!(pixel(&frame, x, y), blocks[(y / 2) as usize][(x / 2) as usize]);
        }
    }
}

#[test]
fn blocks_past_the_payload_stay_black() {
    let data = Data::from_binary(vec![true, true, true]);
    let frame = render(&data, &settings(1, 2, 3)).unwrap();
    assert_eq!(
        frame.samples,
        vec![255, 255, 255, 255, 255, 255, 255, 255, 255, 0, 0, 0, 0, 0, 0, 0, 0, 0]
    );
}

#[test]
fn blocks_are_cut_off_at_the_edges() {
    let data = Data::from_binary(vec![false, true, true, false]);
    let frame = render(&data, &settings(3, 5, 4)).unwrap();
    for y in 0..4u32 {
        for x in 0..5u32 {
            let white = (x >= 3) != (y >= 3);
            assert_eq!(pixel(&frame, x, y), if white { WHITE } else { BLACK });
        }
    }
}

#[test]
fn payload_past_the_canvas_is_not_drawn() {
    let data = Data::from_binary(vec![false, false, true, true, true]);
    let frame = render(&data, &settings(1, 2, 1)).unwrap();
    assert_eq!(frame.samples, vec![0; 6]);
}

#[test]
fn one_block_larger_than_the_canvas() {
    let data = Data::from_binary(vec![true]);
    let frame = render(&data, &settings(100, 3, 2)).unwrap();
    assert_eq!(frame.samples, vec![255; 18]);
}

#[test]
fn color_blocks_take_three_bytes_each() {
    let data = Data::from_color(vec![10, 20, 30, 40, 50, 60, 70, 80, 90]);
    let frame = render(&data, &settings(1, 2, 2)).unwrap();
    assert_eq!(frame.samples, vec![10, 20, 30, 40, 50, 60, 70, 80, 90, 0, 0, 0]);
}

#[test]
fn color_drops_one_or_two_bytes_left_over() {
    let four = render(&Data::from_color(vec![1, 2, 3, 4]), &settings(1, 2, 1)).unwrap();
    assert_eq!(four.samples, vec![1, 2, 3, 0, 0, 0]);
    let five = render(&Data::from_color(vec![1, 2, 3, 4, 5]), &settings(1, 2, 1)).unwrap();
    assert_eq!(five.samples, vec![1, 2, 3, 0, 0, 0]);
    let two = render(&Data::from_color(vec![1, 2]), &settings(1, 2, 1)).unwrap();
    assert_eq!(two.samples, vec![0; 6]);
}

#[test]
fn color_blocks_of_side_two() {
    let data = Data::from_color(vec![1, 2, 3, 4, 5, 6]);
    let frame = render(&data, &settings(2, 3, 2)).unwrap();
    for y in 0..2u32 {
        assert_eq!(pixel(&frame, 0, y), [1, 2, 3]);
        assert_eq!(pixel(&frame, 1, y), [1, 2, 3]);
        assert_eq!(pixel(&frame, 2, y), [4, 5, 6]);
    }
}

#[test]
fn empty_canvas_and_empty_payload() {
    let none = render(&Data::from_binary(vec![true]), &settings(1, 0, 5)).unwrap();
    assert_eq!((none.width, none.height), (0, 5));
    assert!(none.samples.is_empty());
    let flat = render(&Data::from_binary(vec![true]), &settings(1, 5, 0)).unwrap();
    assert!(flat.samples.is_empty());
    let blank = render(&Data::from_binary(vec![]), &settings(1, 2, 2)).unwrap();
    assert_eq!(blank.samples, vec![0; 12]);
}

#[test]
fn settings_without_a_canvas_are_refused() {
    let data = Data::from_binary(vec![true]);
    for bad in [settings(0, 4, 4), settings(-1, 4, 4), settings(1, -4, 4), settings(1, 4, -4)] {
        assert!(!is_renderable(&bad));
        assert!(matches!(render(&data, &bad), Err(EtchError::InvalidSettings)));
        let data = Data::from_binary(vec![true]);
        assert!(matches!(etch(data, bad), Err(EtchError::InvalidSettings)));
    }
    assert!(is_renderable(&settings(1, 4, 4)));
    assert!(is_renderable(&settings(i32::MAX, 0, 0)));
    assert!(!is_renderable(&settings(1, i32::MAX, i32::MAX)));
}

#[test]
fn etching_counts_blocks_and_frames() {
    let data = Data::from_binary(vec![true; 25]);
    let etching = etch(data, settings(2, 7, 5)).unwrap();
    assert_eq!(etching.pixels_per_frame, 6);
    assert_eq!(etching.frames_needed, 5);
    assert_eq!(&etching.container[0..6], b"BINVID");
    assert_eq!(&etching.container[6..10], &[25, 0, 0, 0]);
    assert_eq!(&etching.container[10..], &[0xFF, 0xFF, 0xFF, 0x01]);
    assert_eq!((etching.sample.width, etching.sample.height), (7, 5));
    assert_eq!(pixel(&etching.sample, 6, 4), WHITE);

    let exact = etch(Data::from_binary(vec![true; 24]), settings(2, 7, 5)).unwrap();
    assert_eq!(exact.frames_needed, 4);
    let none = etch(Data::from_binary(vec![]), settings(2, 7, 5)).unwrap();
    assert_eq!(none.frames_needed, 0);
}

#[test]
fn color_frames_hold_three_bytes_a_block() {
    let etching = etch(Data::from_color(vec![7; 19]), settings(2, 4, 4)).unwrap();
    assert_eq!(etching.pixels_per_frame, 4);
    assert_eq!(etching.frames_needed, 2);
    let full = etch(Data::from_color(vec![7; 12]), settings(2, 4, 4)).unwrap();
    assert_eq!(full.frames_needed, 1);
}

#[test]
fn frame_that_holds_no_block() {
    let etching = etch(Data::from_binary(vec![true]), settings(5, 4, 4)).unwrap();
    assert_eq!(etching.pixels_per_frame, 0);
    assert_eq!(etching.frames_needed, u32::MAX);
    assert_eq!(etching.sample.samples, vec![255; 48]);
    let nothing = etch(Data::from_binary(vec![]), settings(5, 4, 4)).unwrap();
    assert_eq!(nothing.frames_needed, 0);
}

#[test]
fn embed_in_binary_mode_with_the_balanced_preset() {
    let mut params = EmbedParams::default();
    params.preset = Some(EmbedPreset::Optimal);
    let input = vec![0x01, 0x02, 0x03, 0x04];
    let etching = run_embed(&params, input.clone()).unwrap();
    assert_eq!(&etching.container[0..6], b"BINVID");
    assert_eq!(&etching.container[6..10], &[32, 0, 0, 0]);
    assert_eq!(&etching.container[10..], &input[..]);
    assert_eq!(binvid::container::read(&etching.container), Ok(input));
    assert_eq!(etching.pixels_per_frame, 640 * 360);
    assert_eq!(etching.frames_needed, 1);
    assert_eq!((etching.sample.width, etching.sample.height), (1280, 720));
    // 0x01 is the bits 1000_0000: the first block is white, the next black
    assert_eq!(pixel(&etching.sample, 0, 0), WHITE);
    assert_eq!(pixel(&etching.sample, 1, 1), WHITE);
    assert_eq!(pixel(&etching.sample, 2, 0), BLACK);
    // 0x02 is the bits 0100_0000: block 9 is white
    assert_eq!(pixel(&etching.sample, 18, 0), WHITE);
    assert_eq!(pixel(&etching.sample, 0, 2), BLACK);
}

#[test]
fn embed_in_color_mode() {
    let mut params = EmbedParams::default();
    params.preset = Some(EmbedPreset::MaxEfficiency);
    let input = vec![200, 100, 50, 25];
    let etching = run_embed(&params, input.clone()).unwrap();
    assert_eq!(&etching.container[0..6], b"COLVID");
    assert_eq!(&etching.container[6..10], &[4, 0, 0, 0]);
    assert_eq!(&etching.container[10..], &input[..]);
    assert_eq!(binvid::container::read(&etching.container), Ok(input));
    assert_eq!(pixel(&etching.sample, 0, 0), [200, 100, 50]);
    assert_eq!(pixel(&etching.sample, 1, 0), BLACK);
    assert_eq!(etching.pixels_per_frame, 256 * 144);
    assert_eq!(etching.frames_needed, 1);
}

#[test]
fn embed_without_a_block_size_is_refused() {
    let params = EmbedParams::default();
    assert!(matches!(run_embed(&params, vec![1, 2, 3, 4]), Err(EtchError::InvalidSettings)));
    let mut colored = EmbedParams::default();
    colored.mode = Some(EmbedOutputMode::Colored);
    assert!(matches!(run_embed(&colored, vec![1, 2, 3, 4]), Err(EtchError::InvalidSettings)));
    let mut sized = EmbedParams::default();
    sized.block_size = Some(8);
    let etching = run_embed(&sized, vec![1, 2, 3, 4]).unwrap();
    assert_eq!((etching.sample.width, etching.sample.height), (640, 360));
    assert_eq!(etching.pixels_per_frame, 80 * 45);
}

#[test]
fn sample_frame_is_an_image_of_the_image_crate() {
    let data = Data::from_color(vec![1, 2, 3, 4, 5, 6]);
    let frame = render(&data, &settings(1, 2, 1)).unwrap();
    let img = image::RgbImage::from_raw(frame.width, frame.height, frame.samples).unwrap();
    assert_eq!(img.get_pixel(0, 0), &image::Rgb([1, 2, 3]));
    assert_eq!(img.get_pixel(1, 0), &image::Rgb([4, 5, 6]));
}
