use torus_life::cell::Cell;
use torus_life::grid::Grid;
use torus_life::render::{render, FrameSizeMismatch, BYTES_PER_PIXEL};

fn two_by_two() -> Grid {
    let cells = vec![
        Cell { alive: false, brightness: 10 },
        Cell { alive: false, brightness: 20 },
        Cell { alive: false, brightness: 30 },
        Cell { alive: false, brightness: 40 },
    ];
    Grid::from_cells(2, 2, cells).unwrap()
}

#[test]
fn two_by_two_renders_four_grey_pixels() {
    let mut frame = vec![0u8; 16];
    assert_eq!(render(&two_by_two(), &mut frame), Ok(()));
    assert_eq!(frame, vec![10, 10, 10, 10, 20, 20, 20, 20, 30, 30, 30, 30, 40, 40, 40, 40]);
}

#[test]
fn render_overwrites_what_the_frame_held() {
    let mut frame = vec![0xabu8; 16];
    assert_eq!(render(&two_by_two(), &mut frame), Ok(()));
    assert_eq!(frame, vec![10, 10, 10, 10, 20, 20, 20, 20, 30, 30, 30, 30, 40, 40, 40, 40]);
}

#[test]
fn a_pixel_has_four_bytes() {
    assert_eq!(BYTES_PER_PIXEL, 4);
}

#[test]
fn living_cells_are_white_and_dark_cells_black() {
    let cells = vec![
        Cell { alive: true, brightness: 255 },
        Cell { alive: false, brightness: 0 },
        Cell { alive: false, brightness: 242 },
    ];
    let grid = Grid::from_cells(3, 1, cells).unwrap();
    let mut frame = vec![7u8; 12];
    assert_eq!(render(&grid, &mut frame), Ok(()));
    assert_eq!(frame, vec![255, 255, 255, 255, 0, 0, 0, 0, 242, 242, 242, 242]);
}

#[test]
fn brightness_is_drawn_and_not_life() {
    let cells = vec![Cell { alive: true, brightness: 1 }, Cell { alive: false, brightness: 200 }];
    let grid = Grid::from_cells(1, 2, cells).unwrap();
    let mut frame = vec![0u8; 8];
    assert_eq!(render(&grid, &mut frame), Ok(()));
    assert_eq!(frame, vec![1, 1, 1, 1, 200, 200, 200, 200]);
}

#[test]
fn pixels_follow_the_rows_top_row_first() {
    let cells: Vec<Cell> = (0..12).map(|i| Cell { alive: false, brightness: i as u8 }).collect();
    let grid = Grid::from_cells(4, 3, cells).unwrap();
    let mut frame = vec![0u8; 48];
    assert_eq!(render(&grid, &mut frame), Ok(()));
    for (pixel, bytes) in frame.chunks_exact(4).enumerate() {
        let x = pixel % 4;
        let y = pixel / 4;
        let brightness = grid.cell(x, y).brightness;
        assert_eq!(bytes, [brightness; 4]);
        assert_eq!(brightness as usize, y * 4 + x);
    }
}

#[test]
fn a_short_frame_is_refused_and_left_alone() {
    let mut frame = vec![9u8; 15];
    assert_eq!(
        render(&two_by_two(), &mut frame),
        Err(FrameSizeMismatch { frame_len: 15, cell_count: 4 })
    );
    assert_eq!(frame, vec![9u8; 15]);
}

#[test]
fn a_long_frame_is_refused_and_left_alone() {
    let mut frame = vec![9u8; 20];
    assert_eq!(
        render(&two_by_two(), &mut frame),
        Err(FrameSizeMismatch { frame_len: 20, cell_count: 4 })
    );
    assert_eq!(frame, vec![9u8; 20]);
    let mut frame = vec![9u8; 17];
    assert_eq!(
        render(&two_by_two(), &mut frame),
        Err(FrameSizeMismatch { frame_len: 17, cell_count: 4 })
    );
    assert_eq!(frame, vec![9u8; 17]);
}

#[test]
fn an_empty_frame_is_refused() {
    let mut frame: Vec<u8> = Vec::new();
    assert_eq!(
        render(&two_by_two(), &mut frame),
        Err(FrameSizeMismatch { frame_len: 0, cell_count: 4 })
    );
}

#[test]
fn part_of_a_larger_buffer_can_be_the_frame() {
    let mut buffer = vec![0u8; 24];
    assert_eq!(render(&two_by_two(), &mut buffer[4..20]), Ok(()));
    assert_eq!(
        buffer,
        vec![0, 0, 0, 0, 10, 10, 10, 10, 20, 20, 20, 20, 30, 30, 30, 30, 40, 40, 40, 40, 0, 0, 0, 0]
    );
}
