use pedals::geometry::Rect;
use pedals::raster::{BALL_COLOR, FRAME_BYTES, BOTTOM_PADDLE_COLOR, TOP_PADDLE_COLOR};
use pedals::world::World;

const CLEARED: [u8; 4] = [0, 0, 0, 0];

fn pixel(frame: &[u8], col: usize, row: usize) -> [u8; 4] {
    let at = (col + row * 320) * 4;
    [frame[at], frame[at + 1], frame[at + 2], frame[at + 3]]
}

fn count(frame: &[u8], color: [u8; 4]) -> usize {
    let mut n = 0;
    for row in 0..240 {
        for col in 0..320 {
            if pixel(frame, col, row) == color {
                n += 1;
            }
        }
    }
    n
}

fn inside(rect: Rect, col: usize, row: usize) -> bool {
    let (col, row) = (col as i64, row as i64);
    rect.x as i64 <= col
        && col < rect.x as i64 + rect.width as i64
        && rect.y as i64 <= row
        && row < rect.y as i64 + rect.height as i64
}

#[test]
fn the_frame_and_the_colours() {
    assert_eq!(FRAME_BYTES, 320 * 240 * 4);
    assert_eq!(BOTTOM_PADDLE_COLOR, [0xff, 0, 0, 0xff]);
    assert_eq!(TOP_PADDLE_COLOR, [0, 0xff, 0, 0xff]);
    assert_eq!(BALL_COLOR, [0xff, 0xff, 0xff, 0xff]);
}

#[test]
fn draw_paints_the_bottom_paddle_and_clears_the_rest() {
    let w = World::new();
    let mut frame = vec![0x5a_u8; FRAME_BYTES];
    w.draw(&mut frame);
    assert_eq!(count(&frame, BOTTOM_PADDLE_COLOR), 32 * 5);
    for row in 234..239 {
        for col in 160..192 {
            assert_eq!(pixel(&frame, col, row), BOTTOM_PADDLE_COLOR);
        }
    }
    assert_eq!(count(&frame, TOP_PADDLE_COLOR), 32 * 5);
    assert_eq!(count(&frame, BALL_COLOR), 5 * 5);
    assert_eq!(count(&frame, CLEARED), 320 * 240 - 2 * 32 * 5 - 5 * 5);
}

#[test]
fn draw_gives_every_pixel_the_colour_of_what_covers_it() {
    let mut w = World::new();
    w.ball.rect = Rect { x: 170, y: 3, width: 5, height: 5 };
    w.p1.rect.y = 4;
    let mut frame = vec![0xff_u8; FRAME_BYTES];
    w.draw(&mut frame);
    for row in 0..240 {
        for col in 0..320 {
            let expected = if inside(w.ball.rect, col, row) {
                BALL_COLOR
            } else if inside(w.p2.rect, col, row) {
                TOP_PADDLE_COLOR
            } else if inside(w.p1.rect, col, row) {
                BOTTOM_PADDLE_COLOR
            } else {
                CLEARED
            };
            assert_eq!(pixel(&frame, col, row), expected, "{} {}", col, row);
        }
    }
    assert_eq!(pixel(&frame, 172, 4), BALL_COLOR);
    assert_eq!(pixel(&frame, 165, 4), TOP_PADDLE_COLOR);
    assert_eq!(pixel(&frame, 165, 7), BOTTOM_PADDLE_COLOR);
}

#[test]
fn draw_overwrites_what_an_earlier_draw_left() {
    let mut w = World::new();
    let mut frame = vec![0_u8; FRAME_BYTES];
    w.draw(&mut frame);
    w.update();
    w.draw(&mut frame);
    assert_eq!(pixel(&frame, 160, 120), CLEARED);
    assert_eq!(pixel(&frame, 161, 121), BALL_COLOR);
    assert_eq!(count(&frame, BALL_COLOR), 25);
}

#[test]
fn draw_rect_sets_only_the_pixels_of_the_box() {
    let w = World::new();
    let mut frame = vec![7_u8; FRAME_BYTES];
    let rect = Rect { x: 10, y: 20, width: 3, height: 2 };
    w.draw_rect(&mut frame, rect, [1, 2, 3, 4]);
    for row in 0..240 {
        for col in 0..320 {
            let expected = if inside(rect, col, row) { [1, 2, 3, 4] } else { [7, 7, 7, 7] };
            assert_eq!(pixel(&frame, col, row), expected);
        }
    }
    assert_eq!(&frame[(10 + 20 * 320) * 4..(10 + 20 * 320) * 4 + 4], &[1, 2, 3, 4]);
    assert_eq!(count(&frame, [1, 2, 3, 4]), 6);
}

#[test]
fn draw_rect_clips_at_every_edge() {
    let w = World::new();
    for rect in [
        Rect { x: -3, y: -2, width: 5, height: 5 },
        Rect { x: 318, y: 100, width: 5, height: 5 },
        Rect { x: 100, y: 238, width: 5, height: 5 },
        Rect { x: -10, y: -10, width: 400, height: 300 },
    ] {
        let mut frame = vec![0_u8; FRAME_BYTES];
        w.draw_rect(&mut frame, rect, [9, 9, 9, 9]);
        for row in 0..240 {
            for col in 0..320 {
                let expected = if inside(rect, col, row) { [9, 9, 9, 9] } else { CLEARED };
                assert_eq!(pixel(&frame, col, row), expected);
            }
        }
    }
}

#[test]
fn draw_rect_clipped_counts() {
    let w = World::new();
    let mut frame = vec![0_u8; FRAME_BYTES];
    w.draw_rect(&mut frame, Rect { x: -3, y: -2, width: 5, height: 5 }, [9, 9, 9, 9]);
    assert_eq!(count(&frame, [9, 9, 9, 9]), 2 * 3);
    w.draw_rect(&mut frame, Rect { x: 318, y: 238, width: 5, height: 5 }, [8, 8, 8, 8]);
    assert_eq!(count(&frame, [8, 8, 8, 8]), 2 * 2);
    assert_eq!(pixel(&frame, 319, 239), [8, 8, 8, 8]);
}

#[test]
fn draw_rect_outside_the_frame_changes_nothing() {
    let w = World::new();
    for rect in [
        Rect { x: 320, y: 0, width: 5, height: 5 },
        Rect { x: 0, y: 240, width: 5, height: 5 },
        Rect { x: -5, y: 0, width: 5, height: 5 },
        Rect { x: 0, y: -5, width: 5, height: 5 },
        Rect { x: i32::MAX, y: i32::MAX, width: i32::MAX, height: i32::MAX },
        Rect { x: i32::MIN, y: i32::MIN, width: i32::MAX, height: i32::MAX },
    ] {
        let mut frame = vec![3_u8; FRAME_BYTES];
        w.draw_rect(&mut frame, rect, [9, 9, 9, 9]);
        assert!(frame.iter().all(|b| *b == 3));
    }
}

#[test]
fn draw_rect_of_no_extent_changes_nothing() {
    let w = World::new();
    for rect in [
        Rect { x: 10, y: 10, width: 0, height: 5 },
        Rect { x: 10, y: 10, width: 5, height: 0 },
        Rect { x: 10, y: 10, width: -4, height: 5 },
        Rect { x: 10, y: 10, width: 5, height: -4 },
    ] {
        let mut frame = vec![3_u8; FRAME_BYTES];
        w.draw_rect(&mut frame, rect, [9, 9, 9, 9]);
        assert!(frame.iter().all(|b| *b == 3));
    }
}

#[test]
fn draw_shows_the_visible_part_of_a_ball_that_leaves_the_field() {
    let mut w = World::new();
    w.ball.rect = Rect { x: 100, y: -3, width: 5, height: 5 };
    let mut frame = vec![0_u8; FRAME_BYTES];
    w.draw(&mut frame);
    assert_eq!(count(&frame, BALL_COLOR), 5 * 2);
    w.ball.rect.y = -5;
    w.draw(&mut frame);
    assert_eq!(count(&frame, BALL_COLOR), 0);
}
