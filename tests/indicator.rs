use pasteimg::{render_frame, Spinner, SpinnerAction, FRAME_COUNT, TICK_MILLIS};

fn line(glyph: &str) -> String {
    format!("\r\x1b[36m{}\x1b[0m \x1b[1mProcessing clipboard image\x1b[0m", glyph)
}

#[test]
fn first_frame_is_drawn_at_start() {
    let (s, first) = Spinner::start();
    assert_eq!(first, line("⠋"));
    assert!(!s.stopped);
    assert_eq!(s.frame, 1);
    assert_eq!(TICK_MILLIS, 120);
}

#[test]
fn frames_cycle() {
    let (mut s, _) = Spinner::start();
    let glyphs = ["⠙", "⠹", "⠸", "⠼", "⠴", "⠦", "⠧", "⠇", "⠏", "⠋", "⠙"];
    for g in glyphs {
        match s.tick(false) {
            SpinnerAction::Render(l) => assert_eq!(l, line(g)),
            _ => panic!("expected a frame"),
        }
    }
    assert_eq!(render_frame(FRAME_COUNT + 3), line("⠸"));
}

#[test]
fn stop_erases_then_stays_silent() {
    let (mut s, _) = Spinner::start();
    assert!(matches!(s.tick(false), SpinnerAction::Render(_)));
    assert!(matches!(s.tick(true), SpinnerAction::Erase));
    assert!(s.stopped);
    for stop in [false, true, false] {
        assert!(matches!(s.tick(stop), SpinnerAction::Idle));
    }
}

#[test]
fn stop_before_any_tick() {
    let (mut s, _) = Spinner::start();
    assert!(matches!(s.tick(true), SpinnerAction::Erase));
    assert!(matches!(s.tick(false), SpinnerAction::Idle));
}
