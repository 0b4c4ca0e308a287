use window_coordinator::event::{events, filter, Event, Key, Modifiers, RawEvent, Status, WindowEvent};
use window_coordinator::ui::command::Subscription;
use window_coordinator::ui::window::WindowId;

fn mods(shift: bool, command: bool) -> Modifiers {
    Modifiers { shift, command }
}

#[test]
fn delete_counts_only_where_no_widget_took_it() {
    assert_eq!(filter(RawEvent::KeyReleased(Key::Delete, mods(false, false)), Status::Ignored), Some(Event::Delete));
    assert_eq!(filter(RawEvent::KeyReleased(Key::Delete, mods(true, false)), Status::Ignored), Some(Event::Clear));
    assert_eq!(filter(RawEvent::KeyReleased(Key::Delete, mods(false, false)), Status::Captured), None);
    assert_eq!(filter(RawEvent::KeyReleased(Key::Delete, mods(true, true)), Status::Captured), None);
}

#[test]
fn command_keys_save_and_load() {
    let s = || Key::Character(String::from("s"));
    let m = || Key::Character(String::from("m"));
    assert_eq!(filter(RawEvent::KeyReleased(s(), mods(false, true)), Status::Ignored), Some(Event::Save));
    assert_eq!(filter(RawEvent::KeyReleased(s(), mods(false, true)), Status::Captured), Some(Event::Save));
    assert_eq!(filter(RawEvent::KeyReleased(m(), mods(true, true)), Status::Ignored), Some(Event::Load));
    assert_eq!(filter(RawEvent::KeyReleased(s(), mods(false, false)), Status::Ignored), None);
    assert_eq!(filter(RawEvent::KeyReleased(m(), mods(true, false)), Status::Ignored), None);
    assert_eq!(filter(RawEvent::KeyReleased(Key::Character(String::from("S")), mods(false, true)), Status::Ignored), None);
    assert_eq!(filter(RawEvent::KeyReleased(Key::Character(String::from("sm")), mods(false, true)), Status::Ignored), None);
    assert_eq!(filter(RawEvent::KeyReleased(Key::Other, mods(false, true)), Status::Ignored), None);
}

#[test]
fn window_events_carry_their_window() {
    let w = WindowId { raw: 4 };
    assert_eq!(filter(RawEvent::Window(w, WindowEvent::CloseRequested), Status::Ignored), Some(Event::CloseRequested));
    assert_eq!(filter(RawEvent::Window(w, WindowEvent::Closed), Status::Captured), Some(Event::Closed(w)));
    assert_eq!(filter(RawEvent::Window(w, WindowEvent::Focused), Status::Ignored), Some(Event::Focused(w)));
    assert_eq!(filter(RawEvent::Window(w, WindowEvent::Other), Status::Ignored), None);
    assert_eq!(filter(RawEvent::Other, Status::Ignored), None);
    assert_eq!(events(), Subscription::Events);
}
