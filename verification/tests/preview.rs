use neothesia_logic::preview::{toggle_preview_playback, Preview};

#[test]
fn preview_starts_paused_and_toggles() {
    let mut preview = Some(Preview::new());
    assert!(preview.as_ref().unwrap().is_paused());
    toggle_preview_playback(&mut preview);
    assert!(!preview.as_ref().unwrap().is_paused());
    toggle_preview_playback(&mut preview);
    assert!(preview.as_ref().unwrap().is_paused());

    let mut none: Option<Preview> = None;
    toggle_preview_playback(&mut none);
    assert!(none.is_none());
}

#[test]
fn finished_playback_pauses_once() {
    let mut preview = Preview::new();
    preview.pause_resume();
    assert!(!preview.update(false));
    assert!(!preview.is_paused());
    assert!(preview.update(true));
    assert!(preview.is_paused());
    assert!(!preview.update(true));
    assert!(preview.is_paused());
}
