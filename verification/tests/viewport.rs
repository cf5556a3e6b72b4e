use nos_reader::state::Mode;
use nos_reader::viewport::Viewport;

fn position(viewport: &Viewport) -> (usize, usize) {
    (viewport.selected(), viewport.offset())
}

#[test]
fn new_viewport_is_at_the_origin() {
    let viewport = Viewport::new();
    assert_eq!(position(&viewport), (0, 0));
}

#[test]
fn short_list_never_scrolls() {
    let mut viewport = Viewport::new();
    viewport.move_down(Mode::Select, 5, 3);
    assert_eq!(position(&viewport), (1, 0));
    viewport.move_down(Mode::Select, 5, 3);
    assert_eq!(position(&viewport), (2, 0));
    viewport.move_down(Mode::Select, 5, 3);
    assert_eq!(position(&viewport), (2, 0));
    viewport.page_down(Mode::Select, 5, 3);
    assert_eq!(position(&viewport), (2, 0));
    viewport.page_up(Mode::Select, 5, 3);
    assert_eq!(position(&viewport), (0, 0));
    viewport.goto_bottom(Mode::Select, 5, 3);
    assert_eq!(position(&viewport), (2, 0));
    viewport.move_up(Mode::Select, 5, 3);
    assert_eq!(position(&viewport), (1, 0));
    viewport.goto_top(Mode::Select);
    assert_eq!(position(&viewport), (0, 0));
    viewport.move_up(Mode::Select, 5, 3);
    assert_eq!(position(&viewport), (0, 0));
}

#[test]
fn moving_down_drags_the_window() {
    let mut viewport = Viewport::new();
    viewport.move_down(Mode::Select, 3, 10);
    viewport.move_down(Mode::Select, 3, 10);
    assert_eq!(position(&viewport), (2, 0));
    viewport.move_down(Mode::Select, 3, 10);
    assert_eq!(position(&viewport), (3, 1));
    viewport.move_down(Mode::Select, 3, 10);
    assert_eq!(position(&viewport), (4, 2));
    assert_eq!(viewport.relative_selected(), 2);
    assert_eq!(viewport.window(3, 10), (2, 5));
}

#[test]
fn moving_up_drags_the_window() {
    let mut viewport = Viewport::new();
    viewport.goto_bottom(Mode::Select, 3, 10);
    assert_eq!(position(&viewport), (9, 7));
    viewport.move_up(Mode::Select, 3, 10);
    viewport.move_up(Mode::Select, 3, 10);
    assert_eq!(position(&viewport), (7, 7));
    viewport.move_up(Mode::Select, 3, 10);
    assert_eq!(position(&viewport), (6, 6));
    assert_eq!(viewport.relative_selected(), 0);
}

#[test]
fn bottom_of_a_short_list_does_not_underflow() {
    let mut viewport = Viewport::new();
    viewport.goto_bottom(Mode::Select, 10, 5);
    assert_eq!(position(&viewport), (4, 0));
    assert_eq!(viewport.window(10, 5), (0, 5));
}

#[test]
fn empty_sequence_stays_at_the_origin() {
    let mut viewport = Viewport::new();
    viewport.move_down(Mode::Select, 4, 0);
    assert_eq!(position(&viewport), (0, 0));
    viewport.page_down(Mode::Select, 4, 0);
    assert_eq!(position(&viewport), (0, 0));
    viewport.goto_bottom(Mode::Select, 4, 0);
    assert_eq!(position(&viewport), (0, 0));
    viewport.move_up(Mode::Select, 4, 0);
    viewport.page_up(Mode::Select, 4, 0);
    assert_eq!(position(&viewport), (0, 0));
    assert_eq!(viewport.window(4, 0), (0, 0));
    viewport.move_down(Mode::Article, 4, 0);
    viewport.goto_bottom(Mode::Article, 4, 0);
    assert_eq!(position(&viewport), (0, 0));
}

#[test]
fn paging_moves_selection_and_window_together() {
    let mut viewport = Viewport::new();
    viewport.move_down(Mode::Select, 3, 10);
    viewport.page_down(Mode::Select, 3, 10);
    assert_eq!(position(&viewport), (4, 3));
    viewport.page_down(Mode::Select, 3, 10);
    assert_eq!(position(&viewport), (7, 6));
    viewport.page_down(Mode::Select, 3, 10);
    assert_eq!(position(&viewport), (9, 7));
    viewport.page_down(Mode::Select, 3, 10);
    assert_eq!(position(&viewport), (9, 7));
    viewport.page_up(Mode::Select, 3, 10);
    assert_eq!(position(&viewport), (6, 4));
    viewport.page_up(Mode::Select, 3, 10);
    assert_eq!(position(&viewport), (3, 1));
    viewport.page_up(Mode::Select, 3, 10);
    assert_eq!(position(&viewport), (0, 0));
}

#[test]
fn reading_scrolls_the_window_only() {
    let mut viewport = Viewport::new();
    viewport.select(6);
    viewport.move_down(Mode::Article, 3, 5);
    assert_eq!(position(&viewport), (6, 1));
    viewport.move_down(Mode::Article, 3, 5);
    assert_eq!(position(&viewport), (6, 2));
    viewport.move_down(Mode::Article, 3, 5);
    assert_eq!(position(&viewport), (6, 2));
    assert_eq!(viewport.window(3, 5), (2, 5));
    viewport.move_up(Mode::Article, 3, 5);
    assert_eq!(position(&viewport), (6, 1));
    viewport.page_up(Mode::Article, 3, 5);
    assert_eq!(position(&viewport), (6, 0));
    viewport.move_up(Mode::Article, 3, 5);
    assert_eq!(position(&viewport), (6, 0));
    viewport.page_down(Mode::Article, 3, 5);
    assert_eq!(position(&viewport), (6, 2));
    viewport.goto_top(Mode::Article);
    assert_eq!(position(&viewport), (6, 0));
    viewport.goto_bottom(Mode::Article, 3, 5);
    assert_eq!(position(&viewport), (6, 2));
    viewport.goto_bottom(Mode::Article, 8, 5);
    assert_eq!(position(&viewport), (6, 0));
}

#[test]
fn top_bottom_top_ends_at_the_top() {
    let mut viewport = Viewport::new();
    viewport.move_down(Mode::Select, 4, 9);
    viewport.move_down(Mode::Select, 4, 9);
    viewport.goto_top(Mode::Select);
    viewport.goto_bottom(Mode::Select, 4, 9);
    assert_eq!(position(&viewport), (8, 5));
    viewport.goto_top(Mode::Select);
    assert_eq!(position(&viewport), (0, 0));
    viewport.goto_top(Mode::Select);
    viewport.goto_bottom(Mode::Select, 4, 9);
    viewport.goto_top(Mode::Select);
    assert_eq!(position(&viewport), (0, 0));
}

#[test]
fn every_move_keeps_the_invariants() {
    let heights: [usize; 4] = [1, 2, 3, 7];
    let lengths: [usize; 5] = [0, 1, 2, 5, 11];
    for height in heights {
        for length in lengths {
            let mut viewport = Viewport::new();
            let mut step: usize = 0;
            while step < 60 {
                match (step * 7 + step / 3) % 6 {
                    0 => viewport.move_down(Mode::Select, height, length),
                    1 => viewport.page_down(Mode::Select, height, length),
                    2 => viewport.move_up(Mode::Select, height, length),
                    3 => viewport.goto_bottom(Mode::Select, height, length),
                    4 => viewport.page_up(Mode::Select, height, length),
                    _ => viewport.goto_top(Mode::Select),
                }
                let (selected, offset) = position(&viewport);
                assert!(offset <= length.saturating_sub(height));
                assert!(offset <= selected && selected < offset + height);
                assert!(selected <= length.saturating_sub(1));
                assert!(viewport.relative_selected() < height);
                step += 1;
            }
        }
    }
}
