use pixel_display::apps::launcher::Input;
use pixel_display::pixel_display::input_handler::{InputHandler, Level};

#[test]
fn press_200ms_emits_exactly_one_pressed() {
    let mut h = InputHandler::new();
    assert_eq!(h.sample_button(Level::Low, 1000), None);
    assert_eq!(h.sample_button(Level::High, 1200), Some(Input::Pressed));
    // The release consumed the press: the next idle sample emits nothing.
    assert_eq!(h.sample_button(Level::High, 1300), None);
}

#[test]
fn press_1500ms_emits_exactly_one_held() {
    let mut h = InputHandler::new();
    assert_eq!(h.sample_button(Level::Low, 0), None);
    assert_eq!(h.sample_button(Level::Low, 700), None);
    assert_eq!(h.sample_button(Level::High, 1500), Some(Input::Held));
    assert_eq!(h.sample_button(Level::High, 1600), None);
}

#[test]
fn press_700ms_is_discarded() {
    let mut h = InputHandler::new();
    assert_eq!(h.sample_button(Level::Low, 100), None);
    assert_eq!(h.sample_button(Level::High, 800), None);
}

#[test]
fn contact_bounce_below_75ms_is_discarded() {
    let mut h = InputHandler::new();
    assert_eq!(h.sample_button(Level::Low, 100), None);
    assert_eq!(h.sample_button(Level::High, 150), None);
}

#[test]
fn press_boundaries() {
    // Exactly 75ms: not yet a press.
    let mut h = InputHandler::new();
    assert_eq!(h.sample_button(Level::Low, 0), None);
    assert_eq!(h.sample_button(Level::High, 75), None);
    // 76ms: a press.
    assert_eq!(h.sample_button(Level::Low, 1000), None);
    assert_eq!(h.sample_button(Level::High, 1076), Some(Input::Pressed));
    // Exactly 500ms: discarded.
    assert_eq!(h.sample_button(Level::Low, 2000), None);
    assert_eq!(h.sample_button(Level::High, 2500), None);
    // Exactly 1000ms: discarded.
    assert_eq!(h.sample_button(Level::Low, 3000), None);
    assert_eq!(h.sample_button(Level::High, 4000), None);
    // 1001ms: a held press.
    assert_eq!(h.sample_button(Level::Low, 5000), None);
    assert_eq!(h.sample_button(Level::High, 6001), Some(Input::Held));
}

#[test]
fn encoder_transition_with_disagreeing_data_is_next() {
    let mut h = InputHandler::new();
    // Clock falls; data line still high disagrees with the new level.
    assert_eq!(h.sample_encoder(Some(Level::Low), Level::High), Some(Input::Next));
}

#[test]
fn encoder_transition_with_agreeing_data_is_prev() {
    let mut h = InputHandler::new();
    assert_eq!(h.sample_encoder(Some(Level::Low), Level::Low), Some(Input::Prev));
}

#[test]
fn encoder_without_transition_is_silent() {
    let mut h = InputHandler::new();
    assert_eq!(h.sample_encoder(Some(Level::High), Level::Low), None);
    assert_eq!(h.sample_encoder(Some(Level::Low), Level::High), Some(Input::Next));
    // Now the clock stays low: no event.
    assert_eq!(h.sample_encoder(Some(Level::Low), Level::Low), None);
}

#[test]
fn encoder_read_error_counts_as_no_transition() {
    let mut h = InputHandler::new();
    assert_eq!(h.sample_encoder(None, Level::Low), None);
    // The failed read left the remembered level untouched.
    assert_eq!(h.sample_encoder(Some(Level::High), Level::Low), None);
}

#[test]
fn full_rotation_click_sequence() {
    let mut h = InputHandler::new();
    // One detent click: clock falls then rises; data trails behind.
    assert_eq!(h.sample_encoder(Some(Level::Low), Level::High), Some(Input::Next));
    assert_eq!(h.sample_encoder(Some(Level::High), Level::High), Some(Input::Prev));
}
