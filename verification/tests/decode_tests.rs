use std::time::Duration;

use asusctl::decode::decode;
use asusctl::error::AnimeError;
use asusctl::frame::Disposal;
use asusctl::geometry::Brightness;
use asusctl::geometry::Resample;
use asusctl::gif::AnimTime;
use asusctl::gif::AnimeGif;
use asusctl::layout::LED_COUNT;

const PALETTE: [u8; 12] = [0, 0, 0, 200, 10, 20, 90, 120, 150, 255, 255, 255];

struct Picture {
    width: u16,
    height: u16,
    top: u16,
    left: u16,
    pixels: Vec<u8>,
    transparent: Option<u8>,
    delay: u16,
    dispose: gif::DisposalMethod,
}

fn filled(width: u16, height: u16, index: u8) -> Picture {
    Picture {
        width,
        height,
        top: 0,
        left: 0,
        pixels: vec![index; width as usize * height as usize],
        transparent: None,
        delay: 0,
        dispose: gif::DisposalMethod::Keep,
    }
}

fn gif_of(width: u16, height: u16, pictures: &[Picture]) -> Vec<u8> {
    let mut bytes = Vec::new();
    {
        let mut encoder = gif::Encoder::new(&mut bytes, width, height, &PALETTE).unwrap();
        for picture in pictures {
            let mut frame =
                gif::Frame::from_indexed_pixels(picture.width, picture.height, picture.pixels.clone(), picture.transparent);
            frame.top = picture.top;
            frame.left = picture.left;
            frame.delay = picture.delay;
            frame.dispose = picture.dispose;
            encoder.write_frame(&frame).unwrap();
        }
    }
    bytes
}

#[test]
fn decoding_expands_the_palette_to_rgba() {
    let mut picture = filled(2, 1, 1);
    picture.pixels[1] = 2;
    let source = decode(&gif_of(2, 1, &[picture])).unwrap();
    assert_eq!((source.width, source.height), (2, 1));
    assert_eq!(source.frames.len(), 1);
    assert_eq!(source.frames[0].rgba, vec![200, 10, 20, 255, 90, 120, 150, 255]);
    assert_eq!((source.frames[0].width, source.frames[0].height), (2, 1));
}

#[test]
fn decoding_keeps_offsets_delays_and_disposal() {
    let mut first = filled(3, 2, 1);
    first.top = 4;
    first.left = 5;
    first.delay = 7;
    first.dispose = gif::DisposalMethod::Background;
    let mut second = filled(1, 1, 2);
    second.delay = 9;
    second.dispose = gif::DisposalMethod::Previous;
    let mut third = filled(1, 1, 3);
    third.dispose = gif::DisposalMethod::Any;
    let source = decode(&gif_of(33, 55, &[first, second, third, filled(1, 1, 0)])).unwrap();
    assert_eq!((source.width, source.height), (33, 55));
    assert_eq!(source.frames.len(), 4);
    let frame = &source.frames[0];
    assert_eq!((frame.width, frame.height, frame.top, frame.left, frame.delay), (3, 2, 4, 5, 7));
    assert_eq!(frame.dispose, Disposal::Background);
    assert_eq!(frame.rgba.len(), 3 * 2 * 4);
    assert_eq!(source.frames[1].delay, 9);
    assert_eq!(source.frames[1].dispose, Disposal::Previous);
    assert_eq!(source.frames[2].dispose, Disposal::Any);
    assert_eq!(source.frames[3].dispose, Disposal::Keep);
    assert_eq!(source.frames[3].rgba, vec![0, 0, 0, 255]);
}

#[test]
fn decoded_frames_hold_all_their_pixels() {
    let mut first = filled(7, 3, 1);
    first.top = 50;
    first.left = 30;
    let source = decode(&gif_of(33, 55, &[first, filled(33, 55, 2), filled(1, 1, 3)])).unwrap();
    assert_eq!(source.frames.len(), 3);
    for frame in &source.frames {
        assert!(frame.is_complete());
        assert_eq!(frame.rgba.len(), 4 * frame.width as usize * frame.height as usize);
    }
}

#[test]
fn decoding_twice_gives_the_same() {
    let mut first = filled(3, 2, 1);
    first.delay = 7;
    let bytes = gif_of(33, 55, &[first, filled(2, 2, 3)]);
    let one = decode(&bytes).unwrap();
    let two = decode(&bytes).unwrap();
    assert_eq!((one.width, one.height), (two.width, two.height));
    assert_eq!(one.frames.len(), two.frames.len());
    for (a, b) in one.frames.iter().zip(two.frames.iter()) {
        assert_eq!(a.rgba, b.rgba);
        assert_eq!((a.width, a.height, a.top, a.left, a.delay, a.dispose), (b.width, b.height, b.top, b.left, b.delay, b.dispose));
    }
}

#[test]
fn decoding_marks_the_transparent_index() {
    let mut picture = filled(2, 1, 1);
    picture.pixels[1] = 2;
    picture.transparent = Some(2);
    let source = decode(&gif_of(2, 1, &[picture])).unwrap();
    assert_eq!(source.frames[0].rgba[3], 255);
    assert_eq!(source.frames[0].rgba[7], 0);
}

#[test]
fn solid_gif_lights_every_led_with_its_red() {
    let mut picture = filled(33, 55, 1);
    picture.delay = 5;
    let bytes = gif_of(33, 55, &[picture]);
    let anim = AnimeGif::create_diagonal_gif(&bytes, AnimTime::Infinite, Brightness::full()).unwrap();
    assert_eq!(anim.frames().len(), 1);
    assert_eq!(anim.frames()[0].delay(), Duration::from_millis(50));
    assert_eq!(anim.frames()[0].frame().get().iter().filter(|b| **b == 200).count(), LED_COUNT);
    assert_eq!(anim.frames()[0].frame().get().iter().filter(|b| **b == 0).count(), 1254 - LED_COUNT);
    assert!(matches!(anim.duration(), AnimTime::Infinite));
}

#[test]
fn gif_frames_are_composited_in_order() {
    let mut first = filled(2, 1, 1);
    first.delay = 1;
    let mut second = filled(1, 1, 3);
    second.top = 10;
    second.left = 5;
    second.delay = 2;
    let mut third = filled(1, 1, 2);
    third.top = 20;
    third.left = 20;
    third.delay = 3;
    third.dispose = gif::DisposalMethod::Background;
    let bytes = gif_of(33, 55, &[first, second, third]);
    let anim = AnimeGif::create_diagonal_gif(&bytes, AnimTime::Cycles(4), Brightness::new(32768)).unwrap();
    assert_eq!(anim.frames().len(), 3);
    let lit = |i: usize| anim.frames()[i].frame().get().iter().filter(|b| **b != 0).count();
    assert_eq!(lit(0), 2);
    assert_eq!(lit(1), 3);
    assert_eq!(lit(2), 1);
    assert_eq!(anim.frames()[0].frame().led(0, 1), Some(100));
    assert_eq!(anim.frames()[1].frame().led(0, 1), Some(100));
    assert_eq!(anim.frames()[1].frame().led(10, 5), Some(127));
    assert_eq!(anim.frames()[2].frame().led(20, 20), Some(45));
    assert_eq!(anim.frames()[2].delay(), Duration::from_millis(30));
    assert!(matches!(anim.duration(), AnimTime::Cycles(4)));
}

#[test]
fn transparent_gif_pixels_stay_unset() {
    let first = filled(2, 1, 1);
    let mut second = filled(2, 1, 3);
    second.pixels[0] = 2;
    second.transparent = Some(2);
    let bytes = gif_of(33, 55, &[first, second]);
    let anim = AnimeGif::create_diagonal_gif(&bytes, AnimTime::Infinite, Brightness::full()).unwrap();
    assert_eq!(anim.frames()[1].frame().led(0, 0), Some(200));
    assert_eq!(anim.frames()[1].frame().led(0, 1), Some(255));
}

#[test]
fn resampled_gif_shows_the_mean_of_the_channels() {
    let bytes = gif_of(33, 55, &[filled(33, 55, 2)]);
    let anim =
        AnimeGif::create_png_gif(&bytes, Resample::identity(), AnimTime::Infinite, Brightness::new(1)).unwrap();
    assert_eq!(anim.frames().len(), 1);
    assert_eq!(anim.frames()[0].frame().get().iter().filter(|b| **b == 120).count(), LED_COUNT);
}

#[test]
fn resampled_gif_is_centred_and_scaled() {
    let mut dot = filled(2, 2, 3);
    dot.top = 99;
    dot.left = 99;
    let bytes = gif_of(200, 200, &[dot]);
    let same = AnimeGif::create_png_gif(&bytes, Resample::identity(), AnimTime::Infinite, Brightness::full()).unwrap();
    assert_eq!(same.frames()[0].frame().get().iter().filter(|b| **b != 0).count(), 4);
    assert_eq!(same.frames()[0].frame().led(26, 15), Some(255));
    assert_eq!(same.frames()[0].frame().led(27, 16), Some(255));
    assert_eq!(same.frames()[0].frame().led(28, 17), Some(0));
    let doubled = Resample::new(131072, 65536, 0, 0, 0).unwrap();
    let large = AnimeGif::create_png_gif(&bytes, doubled, AnimTime::Infinite, Brightness::full()).unwrap();
    assert_eq!(large.frames()[0].frame().get().iter().filter(|b| **b != 0).count(), 16);
}

#[test]
fn truncated_gif_is_a_decode_error() {
    let bytes = gif_of(33, 55, &[filled(33, 55, 1), filled(33, 55, 2)]);
    for cut in [0, 1, 5, 6, 12, 13, bytes.len() / 2, bytes.len() - 40, bytes.len() - 2] {
        assert_eq!(decode(&bytes[..cut]).unwrap_err(), AnimeError::Decode);
        let made = AnimeGif::create_diagonal_gif(&bytes[..cut], AnimTime::Infinite, Brightness::full());
        assert_eq!(made.unwrap_err(), AnimeError::Decode);
    }
}

#[test]
fn corrupt_gif_is_a_decode_error() {
    assert_eq!(decode(b"").unwrap_err(), AnimeError::Decode);
    assert_eq!(decode(b"this is no image at all").unwrap_err(), AnimeError::Decode);
    let mut bytes = gif_of(33, 55, &[filled(33, 55, 1)]);
    bytes[0] = b'J';
    assert_eq!(decode(&bytes).unwrap_err(), AnimeError::Decode);
    let made = AnimeGif::create_png_gif(&bytes, Resample::identity(), AnimTime::Infinite, Brightness::full());
    assert_eq!(made.unwrap_err(), AnimeError::Decode);
}

fn looping_gif_without_frames(width: u16, height: u16) -> Vec<u8> {
    let mut bytes = Vec::new();
    {
        let mut encoder = gif::Encoder::new(&mut bytes, width, height, &PALETTE).unwrap();
        encoder.set_repeat(gif::Repeat::Infinite).unwrap();
    }
    bytes
}

#[test]
fn gif_that_ends_after_its_header_is_a_decode_error() {
    let bytes = gif_of(33, 55, &[]);
    assert_eq!(decode(&bytes).unwrap_err(), AnimeError::Decode);
}

#[test]
fn gif_without_frames_gives_no_animation() {
    let bytes = looping_gif_without_frames(33, 55);
    let source = decode(&bytes).unwrap();
    assert_eq!((source.width, source.height), (33, 55));
    assert!(source.frames.is_empty());
    let made = AnimeGif::create_diagonal_gif(&bytes, AnimTime::Infinite, Brightness::full());
    assert_eq!(made.unwrap_err(), AnimeError::NoFrames);
}

#[test]
fn corrupt_source_leaves_the_active_animation() {
    let good = gif_of(33, 55, &[filled(33, 55, 1)]);
    let mut active = AnimeGif::create_diagonal_gif(&good, AnimTime::Cycles(3), Brightness::full()).unwrap();
    let before = active.frames()[0].frame().to_vec();
    let made = AnimeGif::create_diagonal_gif(&good[..good.len() / 2], AnimTime::Infinite, Brightness::full());
    assert_eq!(active.install(made), Err(AnimeError::Decode));
    assert_eq!(active.frames().len(), 1);
    assert_eq!(active.frames()[0].frame().to_vec(), before);
    assert!(matches!(active.duration(), AnimTime::Cycles(3)));
}
