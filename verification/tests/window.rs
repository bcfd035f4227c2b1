use desktop_shell::error::CommandError;
use desktop_shell::window::{
    main_window_label, on_tray_event, show_main_window, MainWindow, Reveal, TrayEvent, Visibility,
    WindowAction,
};

fn hidden(focusable: bool) -> MainWindow {
    MainWindow { visibility: Visibility::Hidden, focusable }
}

fn visible(focusable: bool) -> MainWindow {
    MainWindow { visibility: Visibility::Visible, focusable }
}

#[test]
fn main_window_goes_by_the_name_main() {
    assert_eq!(main_window_label(), "main");
}

#[test]
fn unveil_shows_and_focuses_where_it_can() {
    assert_eq!(
        hidden(true).unveil(false),
        Reveal {
            window: visible(true),
            transitioned: true,
            actions: vec![WindowAction::Show, WindowAction::Focus],
        }
    );
    assert_eq!(
        hidden(false).unveil(false),
        Reveal { window: visible(false), transitioned: true, actions: vec![WindowAction::Show] }
    );
    assert_eq!(
        hidden(false).unveil(true),
        Reveal {
            window: visible(false),
            transitioned: true,
            actions: vec![WindowAction::Show, WindowAction::Focus],
        }
    );
    assert_eq!(
        visible(false).unveil(false),
        Reveal { window: visible(false), transitioned: false, actions: vec![WindowAction::Show] }
    );
}

#[test]
fn show_main_window_reveals_a_hidden_window() {
    let outcome = show_main_window(Some(hidden(true)));
    assert_eq!(
        outcome,
        Ok(Reveal {
            window: visible(true),
            transitioned: true,
            actions: vec![WindowAction::Show, WindowAction::Focus],
        })
    );
}

#[test]
fn second_reveal_is_a_no_op_and_no_error() {
    let first = show_main_window(Some(hidden(true))).expect("the window is there");
    assert!(first.transitioned);
    assert_eq!(first.window.visibility, Visibility::Visible);

    let second = show_main_window(Some(first.window)).expect("the window is still there");
    assert!(!second.transitioned);
    assert_eq!(second.window, first.window);

    let transitions = [first.transitioned, second.transitioned].iter().filter(|t| **t).count();
    assert_eq!(transitions, 1);
}

#[test]
fn show_main_window_without_a_window_fails() {
    assert_eq!(show_main_window(None), Err(CommandError::WindowNotFound));
    // The failure belongs to that call alone: the next one works.
    assert!(show_main_window(Some(hidden(false))).is_ok());
}

#[test]
fn tray_left_click_reveals_and_focuses() {
    let outcome = on_tray_event(TrayEvent::LeftClick, Some(hidden(false)));
    assert_eq!(
        outcome,
        Ok(Some(Reveal {
            window: visible(false),
            transitioned: true,
            actions: vec![WindowAction::Show, WindowAction::Focus],
        }))
    );
}

#[test]
fn tray_click_then_command_changes_nothing_more() {
    let clicked = on_tray_event(TrayEvent::LeftClick, Some(hidden(true)))
        .expect("the window is there")
        .expect("a left click is not ignored");
    assert_eq!(clicked.window.visibility, Visibility::Visible);
    assert!(clicked.transitioned);
    assert!(clicked.actions.contains(&WindowAction::Focus));

    let shown = show_main_window(Some(clicked.window)).expect("the window is still there");
    assert!(!shown.transitioned);
    assert_eq!(shown.window, clicked.window);
}

#[test]
fn tray_left_click_on_a_visible_window_keeps_it_visible() {
    let outcome = on_tray_event(TrayEvent::LeftClick, Some(visible(true)));
    assert_eq!(
        outcome,
        Ok(Some(Reveal {
            window: visible(true),
            transitioned: false,
            actions: vec![WindowAction::Show, WindowAction::Focus],
        }))
    );
}

#[test]
fn tray_left_click_without_a_window_fails() {
    assert_eq!(on_tray_event(TrayEvent::LeftClick, None), Err(CommandError::WindowNotFound));
}

#[test]
fn other_tray_events_are_ignored() {
    for event in [TrayEvent::RightClick, TrayEvent::DoubleClick, TrayEvent::Other] {
        assert_eq!(on_tray_event(event, Some(hidden(true))), Ok(None));
        assert_eq!(on_tray_event(event, Some(visible(false))), Ok(None));
        assert_eq!(on_tray_event(event, None), Ok(None));
    }
}
