use pueue_tui::app::App;
use pueue_tui::scroll::{scroll_distance, ScrollAxis};

#[test]
fn five_down_then_page_up_stops_at_zero() {
    let mut app = App::new(false, 0);
    for _ in 0..5 {
        app.scroll_down(None);
    }
    assert_eq!(app.vertical_scroll(), 5);
    app.scroll_up(Some(20));
    assert_eq!(app.vertical_scroll(), 0);
}

#[test]
fn default_step_is_one() {
    let mut app = App::new(false, 0);
    app.scroll_down(None);
    assert_eq!(app.vertical_scroll(), 1);
    app.scroll_right(None);
    assert_eq!(app.horizontal_scroll(), 1);
    app.scroll_up(None);
    assert_eq!(app.vertical_scroll(), 0);
    app.scroll_left(None);
    assert_eq!(app.horizontal_scroll(), 0);
}

#[test]
fn page_steps_add_up() {
    let mut app = App::new(false, 0);
    app.scroll_down(Some(20));
    app.scroll_down(Some(20));
    app.scroll_down(None);
    assert_eq!(app.vertical_scroll(), 41);
    app.scroll_up(Some(20));
    assert_eq!(app.vertical_scroll(), 21);
    app.scroll_right(Some(20));
    app.scroll_left(Some(7));
    assert_eq!(app.horizontal_scroll(), 13);
}

#[test]
fn scroll_up_and_left_stop_at_zero() {
    let mut app = App::new(false, 0);
    app.scroll_up(None);
    app.scroll_left(Some(20));
    assert_eq!(app.vertical_scroll(), 0);
    assert_eq!(app.horizontal_scroll(), 0);
    app.scroll_down(Some(3));
    app.scroll_up(Some(4));
    assert_eq!(app.vertical_scroll(), 0);
}

#[test]
fn scroll_down_and_right_stop_at_the_largest_word() {
    let mut app = App::new(false, 0);
    app.scroll_down(Some(-1));
    assert_eq!(app.vertical_scroll(), usize::MAX);
    app.scroll_down(None);
    assert_eq!(app.vertical_scroll(), usize::MAX);
    app.scroll_down(Some(20));
    assert_eq!(app.vertical_scroll(), usize::MAX);
    app.scroll_right(Some(-128));
    assert_eq!(app.horizontal_scroll(), usize::MAX - 127);
    app.scroll_right(Some(127));
    assert_eq!(app.horizontal_scroll(), usize::MAX);
    app.scroll_right(Some(1));
    assert_eq!(app.horizontal_scroll(), usize::MAX);
}

#[test]
fn negative_amount_scrolls_back_to_the_start() {
    let mut app = App::new(false, 0);
    app.scroll_down(Some(100));
    app.scroll_up(Some(-1));
    assert_eq!(app.vertical_scroll(), 0);
}

#[test]
fn scroll_distance_values() {
    assert_eq!(scroll_distance(None), 1);
    assert_eq!(scroll_distance(Some(0)), 0);
    assert_eq!(scroll_distance(Some(1)), 1);
    assert_eq!(scroll_distance(Some(20)), 20);
    assert_eq!(scroll_distance(Some(127)), 127);
    assert_eq!(scroll_distance(Some(-1)), usize::MAX);
    assert_eq!(scroll_distance(Some(-128)), usize::MAX - 127);
    assert_eq!(scroll_distance(Some(-128)), -128i8 as usize);
    assert_eq!(scroll_distance(Some(-7)), -7i8 as usize);
}

#[test]
fn position_is_not_bounded_by_content_length() {
    let mut app = App::new(false, 0);
    app.load_output(b"one\ntwo\n".to_vec(), 1);
    assert_eq!(app.vertical_scroll_state().content_length, 2);
    for _ in 0..10 {
        app.scroll_down(None);
    }
    assert_eq!(app.vertical_scroll(), 10);
    assert_eq!(app.vertical_scroll_state().position, 10);
    assert_eq!(app.vertical_scroll_state().content_length, 2);
}

#[test]
fn axes_are_independent() {
    let mut app = App::new(false, 0);
    app.scroll_down(Some(5));
    app.scroll_right(Some(9));
    assert_eq!(app.vertical_scroll(), 5);
    assert_eq!(app.horizontal_scroll(), 9);
    app.scroll_left(Some(20));
    assert_eq!(app.vertical_scroll(), 5);
    assert_eq!(app.horizontal_scroll(), 0);
}

#[test]
fn axis_scrolls_keep_the_content_length() {
    let axis = ScrollAxis { position: 3, content_length: 40 };
    assert_eq!(axis.scroll_forward(Some(20)), ScrollAxis { position: 23, content_length: 40 });
    assert_eq!(axis.scroll_backward(None), ScrollAxis { position: 2, content_length: 40 });
    assert_eq!(axis.scroll_backward(Some(20)), ScrollAxis { position: 0, content_length: 40 });
    let far = ScrollAxis { position: usize::MAX - 1, content_length: 0 };
    assert_eq!(far.scroll_forward(Some(20)), ScrollAxis { position: usize::MAX, content_length: 0 });
}

#[test]
fn scrolling_leaves_the_editor_alone() {
    let mut app = App::new(false, 0);
    app.toggle_popup();
    app.enter_char('x');
    app.scroll_down(Some(20));
    app.scroll_right(None);
    assert_eq!(app.input(), "x");
    assert_eq!(app.character_index(), 1);
    assert!(app.show_popup());
}
