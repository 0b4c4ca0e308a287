use window_coordinator::ui::main_app::View;
use window_coordinator::ui::registry::WindowRegistry;
use window_coordinator::ui::window::WindowId;

fn id(raw: u64) -> WindowId {
    WindowId { raw }
}

#[test]
fn registry_registers_resolves_and_unregisters() {
    let mut r = WindowRegistry::new();
    assert_eq!(r.len(), 0);
    assert_eq!(r.resolve(id(3)), None);
    r.register(id(3), View::Login);
    r.register(id(0), View::Main);
    assert_eq!(r.len(), 2);
    assert_eq!(r.resolve(id(3)), Some(View::Login));
    assert_eq!(r.resolve(id(0)), Some(View::Main));
    assert_eq!(r.resolve(id(4)), None);
    assert_eq!(r.unregister(id(3)), Some(View::Login));
    assert_eq!(r.unregister(id(3)), None);
    assert_eq!(r.len(), 1);
    assert_eq!(r.resolve(id(3)), None);
}

#[test]
fn registry_drain_hands_out_every_window_once() {
    let mut r = WindowRegistry::new();
    r.register(id(5), View::Log);
    r.register(id(1), View::Login);
    r.register(id(0), View::Main);
    let mut out = r.drain();
    out.sort_by_key(|e| e.0.raw);
    assert_eq!(out, vec![(id(0), View::Main), (id(1), View::Login), (id(5), View::Log)]);
    assert_eq!(r.len(), 0);
    assert_eq!(r.resolve(id(5)), None);
    assert!(r.drain().is_empty());
}
