use elikar_egui::render::{
    clipboard_text, ime_area, ime_command, resize, ImeArea, ImeCommand, SurfaceSize,
    IME_AREA_HEIGHT, IME_AREA_WIDTH,
};

#[test]
fn empty_copy_does_not_touch_the_clipboard() {
    assert_eq!(clipboard_text(String::new()), None);
    assert_eq!(clipboard_text("copied".to_string()), Some("copied".to_string()));
    assert_eq!(clipboard_text(" ".to_string()), Some(" ".to_string()));
}

#[test]
fn ime_follows_keyboard_focus() {
    assert_eq!(ime_command(true), ImeCommand::Start);
    assert_eq!(ime_command(false), ImeCommand::Stop);
}

#[test]
fn ime_area_is_a_fixed_box_at_the_cursor() {
    assert_eq!(IME_AREA_WIDTH, 100);
    assert_eq!(IME_AREA_HEIGHT, 50);
    assert_eq!(
        ime_area(true, Some((12, -7))),
        Some(ImeArea { x: 12, y: -7, width: 100, height: 50 })
    );
    assert_eq!(ime_area(false, Some((12, -7))), None);
    assert_eq!(ime_area(true, None), None);
    assert_eq!(ime_area(false, None), None);
}

#[test]
fn resize_to_zero_is_ignored() {
    let mut size = SurfaceSize { width: 1280, height: 800 };
    assert!(!resize(&mut size, 0, 600));
    assert_eq!(size, SurfaceSize { width: 1280, height: 800 });
    assert!(!resize(&mut size, 800, 0));
    assert_eq!(size, SurfaceSize { width: 1280, height: 800 });
    assert!(!resize(&mut size, 0, 0));
    assert_eq!(size, SurfaceSize { width: 1280, height: 800 });
}

#[test]
fn resize_to_positive_size_reconfigures() {
    let mut size = SurfaceSize { width: 1280, height: 800 };
    assert!(resize(&mut size, 1, 1));
    assert_eq!(size, SurfaceSize { width: 1, height: 1 });
    assert!(resize(&mut size, 1920, 1080));
    assert_eq!(size, SurfaceSize { width: 1920, height: 1080 });
    assert!(resize(&mut size, u32::MAX, u32::MAX));
    assert_eq!(size, SurfaceSize { width: u32::MAX, height: u32::MAX });
    assert!(resize(&mut size, 1920, 1080));
    assert_eq!(size, SurfaceSize { width: 1920, height: 1080 });
}
