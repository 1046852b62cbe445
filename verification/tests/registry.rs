use wl_crosshair::action::{Action, PixelSource};
use wl_crosshair::globals::GlobalKind;
use wl_crosshair::state::{Event, State, Variant};

fn global(name: u32, interface: &str, version: u32) -> Event {
    Event::global(name, interface, version)
}

#[test]
fn known_interfaces_are_recognised() {
    assert_eq!(GlobalKind::of_interface("zwlr_layer_shell_v1"), Some(GlobalKind::LayerShell));
    assert_eq!(GlobalKind::of_interface("wl_compositor"), Some(GlobalKind::Compositor));
    assert_eq!(GlobalKind::of_interface("wl_shm"), Some(GlobalKind::Shm));
    assert_eq!(GlobalKind::of_interface("xdg_wm_base"), Some(GlobalKind::WmBase));
    assert_eq!(GlobalKind::of_interface("wl_seat"), Some(GlobalKind::Seat));
}

#[test]
fn unknown_interfaces_are_not_recognised() {
    for name in ["", "wl_output", "wl_shm_pool", "WL_SHM", "wl_shm ", "zwlr_layer_surface_v1", "xdg_wm"] {
        assert_eq!(GlobalKind::of_interface(name), None, "{name:?}");
    }
}

#[test]
fn global_event_carries_the_kind() {
    assert_eq!(
        global(7, "wl_shm", 1),
        Event::Global { name: 7, kind: Some(GlobalKind::Shm), version: 1 }
    );
    assert_eq!(global(8, "wl_output", 4), Event::Global { name: 8, kind: None, version: 4 });
}

#[test]
fn layer_shell_is_bound_at_the_advertised_version() {
    let mut state = State::new(Variant::ImageDriven);
    let actions = state.handle(global(12, "zwlr_layer_shell_v1", 4));
    assert_eq!(actions, vec![Action::Bind { name: 12, version: 4, kind: GlobalKind::LayerShell }]);
    assert!(state.is_bound(GlobalKind::LayerShell));
    assert!(!state.has_surface());
}

#[test]
fn compositor_binding_creates_the_surface() {
    let mut state = State::new(Variant::ImageDriven);
    let actions = state.handle(global(1, "wl_compositor", 5));
    assert_eq!(
        actions,
        vec![
            Action::Bind { name: 1, version: 5, kind: GlobalKind::Compositor },
            Action::CreateSurface,
        ]
    );
    assert!(state.is_bound(GlobalKind::Compositor));
    assert!(state.has_surface());
    assert_eq!(state.layer_surface(), None);
}

#[test]
fn shm_binding_asks_for_the_buffer() {
    let mut state = State::new(Variant::ImageDriven);
    let actions = state.handle(global(2, "wl_shm", 1));
    assert_eq!(
        actions,
        vec![
            Action::Bind { name: 2, version: 1, kind: GlobalKind::Shm },
            Action::ProduceBuffer { source: PixelSource::Image },
        ]
    );
    assert!(state.buffer().is_none());

    let mut state = State::new(Variant::PointerAware);
    let actions = state.handle(global(2, "wl_shm", 1));
    assert_eq!(
        actions,
        vec![
            Action::Bind { name: 2, version: 1, kind: GlobalKind::Shm },
            Action::ProduceBuffer { source: PixelSource::Crosshair },
        ]
    );
}

#[test]
fn wm_base_is_bound_at_version_one() {
    let mut state = State::new(Variant::ImageDriven);
    let actions = state.handle(global(9, "xdg_wm_base", 6));
    assert_eq!(actions, vec![Action::Bind { name: 9, version: 1, kind: GlobalKind::WmBase }]);
    assert!(state.is_bound(GlobalKind::WmBase));
}

#[test]
fn seat_is_bound_only_by_the_pointer_aware_variant() {
    let mut state = State::new(Variant::ImageDriven);
    assert_eq!(state.handle(global(4, "wl_seat", 8)), vec![]);
    assert!(!state.is_bound(GlobalKind::Seat));

    let mut state = State::new(Variant::PointerAware);
    assert_eq!(
        state.handle(global(4, "wl_seat", 8)),
        vec![Action::Bind { name: 4, version: 8, kind: GlobalKind::Seat }]
    );
    assert!(state.is_bound(GlobalKind::Seat));
    assert!(!state.has_pointer());
}

#[test]
fn pointer_is_taken_once_the_seat_reports_it() {
    let mut state = State::new(Variant::PointerAware);
    state.handle(global(4, "wl_seat", 8));
    assert_eq!(state.handle(Event::Capabilities { pointer: false }), vec![]);
    assert!(!state.has_pointer());
    assert_eq!(state.handle(Event::Capabilities { pointer: true }), vec![Action::GetPointer]);
    assert!(state.has_pointer());
    assert_eq!(state.handle(Event::Capabilities { pointer: true }), vec![]);
    assert_eq!(state.handle(Event::Capabilities { pointer: false }), vec![]);
    assert!(state.has_pointer());
}

#[test]
fn pointer_needs_the_seat() {
    let mut state = State::new(Variant::PointerAware);
    assert_eq!(state.handle(Event::Capabilities { pointer: true }), vec![]);
    assert!(!state.has_pointer());

    let mut state = State::new(Variant::ImageDriven);
    state.handle(global(4, "wl_seat", 8));
    assert_eq!(state.handle(Event::Capabilities { pointer: true }), vec![]);
    assert!(!state.has_pointer());
}

#[test]
fn unknown_global_is_ignored() {
    let mut state = State::new(Variant::ImageDriven);
    assert_eq!(state.handle(global(3, "wl_output", 4)), vec![]);
    for kind in [
        GlobalKind::LayerShell,
        GlobalKind::Compositor,
        GlobalKind::Shm,
        GlobalKind::WmBase,
        GlobalKind::Seat,
    ] {
        assert!(!state.is_bound(kind));
    }
    assert!(!state.has_surface());
}

#[test]
fn duplicate_global_is_not_bound_again() {
    let mut state = State::new(Variant::PointerAware);
    for interface in ["zwlr_layer_shell_v1", "wl_compositor", "wl_shm", "xdg_wm_base", "wl_seat"] {
        assert!(!state.handle(global(1, interface, 1)).is_empty());
        assert_eq!(state.handle(global(2, interface, 1)), vec![], "{interface}");
        assert_eq!(state.handle(global(1, interface, 3)), vec![], "{interface}");
    }
    assert!(state.has_surface());
}

#[test]
fn new_state_runs_with_nothing_bound() {
    let state = State::new(Variant::ImageDriven);
    assert!(state.is_running());
    assert_eq!(state.variant(), Variant::ImageDriven);
    assert_eq!(state.cursor_width(), 10);
    assert_eq!(state.cursor_height(), 10);
    assert!(!state.has_surface());
    assert!(!state.is_ready());
    assert_eq!(state.layer_surface(), None);
    assert!(state.buffer().is_none());

    let state = State::with_size(Variant::PointerAware, 24, 16);
    assert_eq!(state.variant(), Variant::PointerAware);
    assert_eq!(state.cursor_width(), 24);
    assert_eq!(state.cursor_height(), 16);
}

#[test]
fn events_never_stop_the_loop() {
    let mut state = State::new(Variant::PointerAware);
    let events = vec![
        global(1, "wl_compositor", 5),
        global(2, "wl_shm", 1),
        global(3, "zwlr_layer_shell_v1", 4),
        global(4, "xdg_wm_base", 6),
        global(5, "wl_seat", 8),
        Event::Capabilities { pointer: true },
        Event::Configure { serial: 1 },
    ];
    state.handle_batch(&events);
    assert!(state.is_running());
}

#[test]
fn stop_ends_the_loop_and_nothing_else() {
    let mut state = State::new(Variant::ImageDriven);
    state.handle(global(1, "wl_compositor", 5));
    state.stop();
    assert!(!state.is_running());
    assert!(state.has_surface());
    assert!(state.is_bound(GlobalKind::Compositor));
    assert_eq!((state.cursor_width(), state.cursor_height()), (10, 10));
    state.handle(global(2, "wl_shm", 1));
    assert!(!state.is_running());
}
