use asusctl::data::AnimeDataBuffer;
use asusctl::frame::Disposal;
use asusctl::frame::RawFrame;
use asusctl::frame::Rgb;
use asusctl::geometry::Brightness;
use asusctl::geometry::Geometry;
use asusctl::grid::AnimeGrid;
use asusctl::grid::Pixel;
use asusctl::layout::is_addressable;
use asusctl::layout::led_slot;
use asusctl::layout::DATA_LEN;
use asusctl::layout::GRID_COLS;
use asusctl::layout::GRID_ROWS;

fn frame_of(width: u16, height: u16, top: u16, left: u16, rgba: [u8; 4], dispose: Disposal) -> RawFrame {
    let mut bytes = Vec::new();
    for _ in 0..(width as usize * height as usize) {
        bytes.extend_from_slice(&rgba);
    }
    RawFrame { rgba: bytes, width, height, top, left, delay: 0, dispose }
}

#[test]
fn pixel_level_is_intensity_weighted_by_alpha() {
    assert_eq!(Pixel { intensity: 100, alpha: 255 }.led_level(), 100);
    assert_eq!(Pixel { intensity: 100, alpha: 128 }.led_level(), 50);
    assert_eq!(Pixel { intensity: 100, alpha: 0 }.led_level(), 0);
    assert_eq!(Pixel { intensity: 255, alpha: 255 }.led_level(), 255);
    assert_eq!(Pixel { intensity: 255, alpha: 254 }.led_level(), 254);
    assert_eq!(Pixel { intensity: 0, alpha: 255 }.led_level(), 0);
}

#[test]
fn new_grid_is_blank() {
    let grid = AnimeGrid::new();
    for row in 0..GRID_ROWS {
        for col in 0..GRID_COLS {
            assert_eq!(grid.get(row, col), Some(Pixel { intensity: 0, alpha: 0 }));
        }
    }
    assert_eq!(grid.get(GRID_ROWS, 0), None);
    assert_eq!(grid.get(0, GRID_COLS), None);
}

#[test]
fn with_pixel_changes_one_cell() {
    let grid = AnimeGrid::new().with_pixel(3, 4, Pixel { intensity: 9, alpha: 255 });
    assert_eq!(grid.get(3, 4), Some(Pixel { intensity: 9, alpha: 255 }));
    assert_eq!(grid.get(4, 3), Some(Pixel { intensity: 0, alpha: 0 }));
    assert_eq!(grid.get(3, 5), Some(Pixel { intensity: 0, alpha: 0 }));
    let same = grid.with_pixel(GRID_ROWS, 0, Pixel { intensity: 1, alpha: 255 });
    assert_eq!(same.get(3, 4), Some(Pixel { intensity: 9, alpha: 255 }));
    assert_eq!(same.get(0, 0), Some(Pixel { intensity: 0, alpha: 0 }));
}

#[test]
fn blank_grid_encodes_to_zeros() {
    let buffer = AnimeDataBuffer::from_grid(&AnimeGrid::new());
    assert_eq!(buffer.get().len(), DATA_LEN);
    assert!(buffer.get().iter().all(|b| *b == 0));
    assert_eq!(buffer.get(), AnimeDataBuffer::new().get());
}

#[test]
fn encoding_puts_each_led_at_its_slot() {
    let grid = AnimeGrid::new()
        .with_pixel(0, 0, Pixel { intensity: 11, alpha: 255 })
        .with_pixel(1, 0, Pixel { intensity: 12, alpha: 255 })
        .with_pixel(7, 1, Pixel { intensity: 13, alpha: 255 })
        .with_pixel(54, 32, Pixel { intensity: 14, alpha: 255 });
    let buffer = AnimeDataBuffer::from_grid(&grid);
    let bytes = buffer.get();
    assert_eq!(bytes[1], 11);
    assert_eq!(bytes[34], 12);
    assert_eq!(bytes[237], 13);
    assert_eq!(bytes[1244], 14);
    assert_eq!(bytes.iter().filter(|b| **b != 0).count(), 4);
    assert_eq!(buffer.led(7, 1), Some(13));
    assert_eq!(buffer.led(7, 0), None);
    assert_eq!(buffer.led(54, 32), Some(14));
}

#[test]
fn encoding_drops_cells_without_led() {
    let grid = AnimeGrid::new()
        .with_pixel(7, 0, Pixel { intensity: 200, alpha: 255 })
        .with_pixel(54, 0, Pixel { intensity: 200, alpha: 255 })
        .with_pixel(54, 23, Pixel { intensity: 200, alpha: 255 });
    let buffer = AnimeDataBuffer::from_grid(&grid);
    assert!(buffer.get().iter().all(|b| *b == 0));
}

#[test]
fn encoding_weights_by_alpha() {
    let grid = AnimeGrid::new().with_pixel(0, 0, Pixel { intensity: 100, alpha: 128 });
    assert_eq!(AnimeDataBuffer::from_grid(&grid).led(0, 0), Some(50));
}

#[test]
fn encoding_is_the_same_every_time() {
    let mut grid = AnimeGrid::new();
    for row in 0..GRID_ROWS {
        for col in 0..GRID_COLS {
            grid = grid.with_pixel(row, col, Pixel { intensity: (row * 3 + col) as u8, alpha: 255 });
        }
    }
    let first = AnimeDataBuffer::from_grid(&grid);
    let second = AnimeDataBuffer::from_grid(&grid);
    assert_eq!(first.get(), second.get());
    for row in 0..GRID_ROWS {
        for col in 0..GRID_COLS {
            if is_addressable(row, col) {
                assert_eq!(first.get()[led_slot(row, col).unwrap()], (row * 3 + col) as u8);
                assert_eq!(first.led(row, col), Some((row * 3 + col) as u8));
            }
        }
    }
}

#[test]
fn head_padding_and_tail_stay_zero() {
    let mut grid = AnimeGrid::new();
    for row in 0..GRID_ROWS {
        for col in 0..GRID_COLS {
            grid = grid.with_pixel(row, col, Pixel { intensity: 255, alpha: 255 });
        }
    }
    let buffer = AnimeDataBuffer::from_grid(&grid);
    let bytes = buffer.get();
    assert_eq!(bytes[0], 0);
    assert_eq!(bytes[33 + 1], 255);
    assert_eq!(bytes[67], 0);
    assert_eq!(bytes[68], 0);
    assert_eq!(bytes[203], 0);
    for tail in 1245..DATA_LEN {
        assert_eq!(bytes[tail], 0);
    }
    assert_eq!(bytes.iter().filter(|b| **b == 255).count(), 1215);
    assert_eq!(bytes.iter().filter(|b| **b == 0).count(), DATA_LEN - 1215);
}

#[test]
fn buffer_from_vec_checks_the_length() {
    assert!(AnimeDataBuffer::from_vec(vec![0; DATA_LEN - 1]).is_none());
    assert!(AnimeDataBuffer::from_vec(vec![0; DATA_LEN + 1]).is_none());
    assert!(AnimeDataBuffer::from_vec(Vec::new()).is_none());
    let mut data = vec![0u8; DATA_LEN];
    data[5] = 77;
    let buffer = AnimeDataBuffer::from_vec(data.clone()).unwrap();
    assert_eq!(buffer.get(), &data[..]);
    assert_eq!(buffer.to_vec(), data);
    assert_eq!(buffer.clone().get(), &data[..]);
    assert_eq!(buffer.led(0, 4), Some(77));
}

#[test]
fn opaque_pixel_is_found_by_position() {
    let frame = RawFrame {
        rgba: vec![1, 2, 3, 255, 4, 5, 6, 254, 7, 8, 9, 255, 10, 11, 12, 0],
        width: 2,
        height: 2,
        top: 0,
        left: 0,
        delay: 0,
        dispose: Disposal::Keep,
    };
    assert_eq!(frame.opaque_pixel(0, 0), Some(Rgb { red: 1, green: 2, blue: 3 }));
    assert_eq!(frame.opaque_pixel(1, 0), None);
    assert_eq!(frame.opaque_pixel(0, 1), Some(Rgb { red: 7, green: 8, blue: 9 }));
    assert_eq!(frame.opaque_pixel(1, 1), None);
    assert_eq!(frame.opaque_pixel(2, 0), None);
    assert_eq!(frame.opaque_pixel(0, 2), None);
    assert_eq!(frame.opaque_pixel(-1, 0), None);
    assert_eq!(frame.opaque_pixel(0, -1), None);
    assert_eq!(frame.opaque_pixel(i64::MAX, i64::MIN), None);
}

#[test]
fn pixel_without_all_its_bytes_is_absent() {
    let frame = RawFrame {
        rgba: vec![1, 2, 3, 255, 4, 5, 6],
        width: 2,
        height: 1,
        top: 0,
        left: 0,
        delay: 0,
        dispose: Disposal::Keep,
    };
    assert_eq!(frame.opaque_pixel(0, 0), Some(Rgb { red: 1, green: 2, blue: 3 }));
    assert_eq!(frame.opaque_pixel(1, 0), None);
    assert!(!frame.is_complete());
    let empty = RawFrame { rgba: Vec::new(), width: 0, height: 0, top: 0, left: 0, delay: 0, dispose: Disposal::Any };
    assert_eq!(empty.opaque_pixel(0, 0), None);
    assert!(empty.is_complete());
    assert!(frame_of(3, 2, 0, 0, [1, 2, 3, 4], Disposal::Keep).is_complete());
    let huge = RawFrame { rgba: Vec::new(), width: u16::MAX, height: u16::MAX, top: 0, left: 0, delay: 0, dispose: Disposal::Any };
    assert!(!huge.is_complete());
}

#[test]
fn frame_delay_is_ten_milliseconds_per_unit() {
    let mut frame = frame_of(1, 1, 0, 0, [0, 0, 0, 255], Disposal::Keep);
    frame.delay = 7;
    assert_eq!(frame.millis(), 70);
    frame.delay = 0;
    assert_eq!(frame.millis(), 0);
    frame.delay = u16::MAX;
    assert_eq!(frame.millis(), 655350);
}

#[test]
fn grey_is_the_mean_of_the_channels() {
    assert_eq!(Rgb { red: 10, green: 20, blue: 31 }.mean(), 20);
    assert_eq!(Rgb { red: 255, green: 255, blue: 255 }.mean(), 255);
    assert_eq!(Rgb { red: 0, green: 0, blue: 2 }.mean(), 0);
    assert_eq!(Rgb { red: 0, green: 0, blue: 3 }.mean(), 1);
}

#[test]
fn native_frame_is_placed_at_its_offset() {
    let frame = frame_of(2, 3, 10, 5, [80, 1, 2, 255], Disposal::Keep);
    let grid = AnimeGrid::new().compose(&frame, 33, 55, &Geometry::Native, Brightness::full());
    for row in 0..GRID_ROWS {
        for col in 0..GRID_COLS {
            let inside = (10..13).contains(&row) && (5..7).contains(&col);
            let expected = if inside { Pixel { intensity: 80, alpha: 255 } } else { Pixel { intensity: 0, alpha: 0 } };
            assert_eq!(grid.get(row, col), Some(expected));
        }
    }
}

#[test]
fn native_frame_is_scaled_by_brightness() {
    let frame = frame_of(1, 1, 0, 0, [200, 1, 2, 255], Disposal::Keep);
    let half = AnimeGrid::new().compose(&frame, 33, 55, &Geometry::Native, Brightness::new(32768));
    assert_eq!(half.get(0, 0), Some(Pixel { intensity: 100, alpha: 255 }));
    let dark = AnimeGrid::new().compose(&frame, 33, 55, &Geometry::Native, Brightness::new(0));
    assert_eq!(dark.get(0, 0), Some(Pixel { intensity: 0, alpha: 255 }));
}

#[test]
fn native_frame_beyond_the_grid_is_cut_off() {
    let frame = frame_of(4, 4, 53, 31, [9, 9, 9, 255], Disposal::Keep);
    let grid = AnimeGrid::new().compose(&frame, 33, 55, &Geometry::Native, Brightness::full());
    let mut lit = 0;
    for row in 0..GRID_ROWS {
        for col in 0..GRID_COLS {
            if grid.get(row, col) != Some(Pixel { intensity: 0, alpha: 0 }) {
                lit += 1;
            }
        }
    }
    assert_eq!(lit, 4);
    assert_eq!(grid.get(54, 32), Some(Pixel { intensity: 9, alpha: 255 }));
    let far = frame_of(2, 2, 60000, 60000, [9, 9, 9, 255], Disposal::Keep);
    let untouched = AnimeGrid::new().compose(&far, 33, 55, &Geometry::Native, Brightness::full());
    assert_eq!(AnimeDataBuffer::from_grid(&untouched).get(), AnimeDataBuffer::new().get());
}

#[test]
fn partly_transparent_pixel_leaves_the_cell() {
    let first = frame_of(2, 1, 0, 0, [50, 0, 0, 255], Disposal::Keep);
    let mut second = frame_of(2, 1, 0, 0, [90, 0, 0, 254], Disposal::Keep);
    second.rgba[7] = 255;
    let grid = AnimeGrid::new().compose(&first, 33, 55, &Geometry::Native, Brightness::full());
    let next = grid.compose(&second, 33, 55, &Geometry::Native, Brightness::full());
    assert_eq!(next.get(0, 0), Some(Pixel { intensity: 50, alpha: 255 }));
    assert_eq!(next.get(0, 1), Some(Pixel { intensity: 90, alpha: 255 }));
    assert_eq!(grid.get(0, 1), Some(Pixel { intensity: 50, alpha: 255 }));
}

#[test]
fn frame_without_background_disposal_keeps_what_was_drawn() {
    let first = frame_of(2, 2, 0, 0, [50, 0, 0, 255], Disposal::Keep);
    for dispose in [Disposal::Any, Disposal::Keep, Disposal::Previous] {
        let second = frame_of(1, 1, 10, 5, [80, 0, 0, 255], dispose);
        let grid = AnimeGrid::new().compose(&first, 33, 55, &Geometry::Native, Brightness::full());
        let next = grid.compose(&second, 33, 55, &Geometry::Native, Brightness::full());
        assert_eq!(next.get(0, 0), Some(Pixel { intensity: 50, alpha: 255 }));
        assert_eq!(next.get(1, 1), Some(Pixel { intensity: 50, alpha: 255 }));
        assert_eq!(next.get(10, 5), Some(Pixel { intensity: 80, alpha: 255 }));
        assert_eq!(next.get(20, 20), Some(Pixel { intensity: 0, alpha: 0 }));
    }
}

#[test]
fn frame_with_background_disposal_clears_first() {
    let first = frame_of(2, 2, 0, 0, [50, 0, 0, 255], Disposal::Keep);
    let second = frame_of(1, 1, 10, 5, [80, 0, 0, 255], Disposal::Background);
    let grid = AnimeGrid::new().compose(&first, 33, 55, &Geometry::Native, Brightness::full());
    let next = grid.compose(&second, 33, 55, &Geometry::Native, Brightness::full());
    assert_eq!(next.get(0, 0), Some(Pixel { intensity: 0, alpha: 0 }));
    assert_eq!(next.get(1, 1), Some(Pixel { intensity: 0, alpha: 0 }));
    assert_eq!(next.get(10, 5), Some(Pixel { intensity: 80, alpha: 255 }));
    let bytes = AnimeDataBuffer::from_grid(&next);
    assert_eq!(bytes.get().iter().filter(|b| **b != 0).count(), 1);
}
