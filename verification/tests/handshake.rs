use wl_crosshair::action::{namespace, Action, KeyboardFocus, Layer, PixelFormat};
use wl_crosshair::globals::GlobalKind;
use wl_crosshair::state::{DrawError, Event, LayerSurfaceState, PointerEvent, State, Variant};

const ENTER: Event = Event::Pointer { event: PointerEvent::Enter };
const LEAVE: Event = Event::Pointer { event: PointerEvent::Leave };

fn bound(variant: Variant) -> State {
    let mut state = State::new(variant);
    state.handle(Event::global(1, "wl_compositor", 5));
    state.handle(Event::global(2, "wl_shm", 1));
    state.handle(Event::global(3, "zwlr_layer_shell_v1", 4));
    state.handle(Event::global(4, "xdg_wm_base", 6));
    state.handle(Event::global(5, "wl_seat", 8));
    state.handle(Event::Capabilities { pointer: true });
    state
}

fn shown(variant: Variant) -> State {
    let mut state = bound(variant);
    state.draw_crosshair().unwrap();
    state.start();
    state.handle(Event::Configure { serial: 1 });
    state
}

fn setup(width: u32, height: u32, click_through: bool) -> Vec<Action> {
    let mut actions = vec![
        Action::GetLayerSurface { layer: Layer::Overlay },
        Action::SetAnchor { top: true, right: true, bottom: true, left: true },
        Action::SetKeyboardInteractivity { focus: KeyboardFocus::Never },
        Action::SetSize { width, height },
        Action::SetExclusiveZone { zone: -1 },
    ];
    if click_through {
        actions.push(Action::SetEmptyInputRegion);
    }
    actions.push(Action::Commit);
    actions
}

fn reply(serial: u32) -> Vec<Action> {
    vec![Action::AckConfigure { serial }, Action::Attach { x: 0, y: 0 }, Action::Commit]
}

#[test]
fn namespace_is_crosshair() {
    assert_eq!(namespace(), "crosshair");
}

#[test]
fn start_sets_up_the_layer_surface() {
    let mut state = bound(Variant::ImageDriven);
    assert!(state.is_ready());
    assert_eq!(state.start(), setup(10, 10, true));
    assert_eq!(state.layer_surface(), Some(LayerSurfaceState::AwaitingConfigure));
    assert!(!state.is_ready());
}

#[test]
fn pointer_aware_surface_takes_input() {
    let mut state = bound(Variant::PointerAware);
    assert_eq!(state.start(), setup(10, 10, false));
}

#[test]
fn start_twice_sets_up_once() {
    let mut state = bound(Variant::ImageDriven);
    assert!(!state.start().is_empty());
    assert_eq!(state.start(), vec![]);
    assert_eq!(state.layer_surface(), Some(LayerSurfaceState::AwaitingConfigure));
}

#[test]
fn start_waits_for_every_binding() {
    for missing in ["wl_compositor", "zwlr_layer_shell_v1", "xdg_wm_base"] {
        let mut state = State::new(Variant::ImageDriven);
        for (name, interface) in
            [(1, "wl_compositor"), (2, "wl_shm"), (3, "zwlr_layer_shell_v1"), (4, "xdg_wm_base")]
        {
            if interface != missing {
                state.handle(Event::global(name, interface, 1));
            }
        }
        assert!(!state.is_ready(), "{missing}");
        assert_eq!(state.start(), vec![], "{missing}");
        assert_eq!(state.layer_surface(), None, "{missing}");
    }
}

#[test]
fn start_does_not_need_the_buffer() {
    let mut state = State::new(Variant::ImageDriven);
    state.handle(Event::global(1, "wl_compositor", 5));
    state.handle(Event::global(3, "zwlr_layer_shell_v1", 4));
    state.handle(Event::global(4, "xdg_wm_base", 6));
    assert_eq!(state.start(), setup(10, 10, true));
}

#[test]
fn init_layer_surface_uses_the_current_size() {
    let mut state = State::with_size(Variant::PointerAware, 32, 24);
    state.handle(Event::global(1, "wl_compositor", 5));
    state.handle(Event::global(3, "zwlr_layer_shell_v1", 4));
    assert_eq!(state.init_layer_surface(), setup(32, 24, false));
    assert_eq!(state.layer_surface(), Some(LayerSurfaceState::AwaitingConfigure));
}

#[test]
fn configure_is_acknowledged_and_the_buffer_attached() {
    let mut state = bound(Variant::ImageDriven);
    state.draw_crosshair().unwrap();
    state.start();
    assert_eq!(state.handle(Event::Configure { serial: 77 }), reply(77));
    assert_eq!(state.layer_surface(), Some(LayerSurfaceState::Configured));
}

#[test]
fn configure_without_buffer_is_only_acknowledged() {
    let mut state = State::new(Variant::ImageDriven);
    state.handle(Event::global(1, "wl_compositor", 5));
    state.handle(Event::global(3, "zwlr_layer_shell_v1", 4));
    state.handle(Event::global(4, "xdg_wm_base", 6));
    state.start();
    assert_eq!(
        state.handle(Event::Configure { serial: 5 }),
        vec![Action::AckConfigure { serial: 5 }]
    );
    assert_eq!(state.layer_surface(), Some(LayerSurfaceState::Configured));
}

#[test]
fn every_configure_gets_its_own_answer() {
    let mut state = bound(Variant::ImageDriven);
    state.draw_crosshair().unwrap();
    state.start();
    let pixels = state.buffer().unwrap().bytes().clone();
    let serials = [3u32, 9, 4, 4, 0, u32::MAX];
    let events: Vec<Event> = serials.iter().map(|&serial| Event::Configure { serial }).collect();
    let actions = state.handle_batch(&events);
    let expected: Vec<Action> = serials.iter().flat_map(|&serial| reply(serial)).collect();
    assert_eq!(actions, expected);
    assert_eq!(state.layer_surface(), Some(LayerSurfaceState::Configured));
    assert_eq!(state.buffer().unwrap().bytes(), &pixels);
}

#[test]
fn batch_is_handled_in_arrival_order() {
    let events = vec![
        Event::global(1, "wl_compositor", 5),
        Event::global(2, "wl_output", 4),
        Event::global(3, "zwlr_layer_shell_v1", 4),
        Event::global(4, "xdg_wm_base", 6),
    ];
    let mut one_by_one = State::new(Variant::ImageDriven);
    let mut expected = Vec::new();
    for event in &events {
        expected.extend(one_by_one.handle(*event));
    }
    let mut batched = State::new(Variant::ImageDriven);
    assert_eq!(batched.handle_batch(&events), expected);
    assert_eq!(batched.is_ready(), one_by_one.is_ready());
    assert!(batched.is_ready());
    assert_eq!(State::new(Variant::ImageDriven).handle_batch(&Vec::new()), vec![]);
}

#[test]
fn draw_crosshair_hands_the_buffer_over() {
    let mut state = State::with_size(Variant::PointerAware, 12, 8);
    state.handle(Event::global(2, "wl_shm", 1));
    let actions = state.draw_crosshair().unwrap();
    assert_eq!(
        actions,
        vec![
            Action::WritePixels,
            Action::FlushPixels,
            Action::CreatePool { size: 12 * 8 * 4 },
            Action::CreateBuffer {
                offset: 0,
                width: 12,
                height: 8,
                stride: 48,
                format: PixelFormat::Argb8888,
            },
        ]
    );
    let buffer = state.buffer().unwrap();
    assert_eq!(buffer.bytes().len(), 12 * 8 * 4);
    assert_eq!((buffer.width(), buffer.height()), (12, 8));
    assert_eq!((state.cursor_width(), state.cursor_height()), (12, 8));
}

#[test]
fn draw_needs_shared_memory() {
    let mut state = State::new(Variant::PointerAware);
    assert_eq!(state.draw_crosshair(), Err(DrawError::NoSharedMemory));
    assert!(state.buffer().is_none());
}

#[test]
fn buffer_is_drawn_once() {
    let mut state = State::new(Variant::PointerAware);
    state.handle(Event::global(2, "wl_shm", 1));
    assert!(state.draw_crosshair().is_ok());
    let pixels = state.buffer().unwrap().bytes().clone();
    assert_eq!(state.draw_crosshair(), Err(DrawError::AlreadyDrawn));
    assert_eq!(state.buffer().unwrap().bytes(), &pixels);
}

#[test]
fn draw_refuses_what_the_protocol_cannot_express() {
    let mut state = State::with_size(Variant::PointerAware, 0x10000, 0x10000);
    state.handle(Event::global(2, "wl_shm", 1));
    assert_eq!(state.draw_crosshair(), Err(DrawError::TooLarge));
    assert!(state.buffer().is_none());
    assert_eq!((state.cursor_width(), state.cursor_height()), (0x10000, 0x10000));
}

#[test]
fn pointer_enter_destroys_the_surface() {
    let mut state = shown(Variant::PointerAware);
    assert_eq!(state.handle(ENTER), vec![Action::DestroySurface]);
    assert!(!state.has_surface());
    assert_eq!(state.layer_surface(), None);
    assert!(state.buffer().is_some());
}

#[test]
fn pointer_leave_brings_the_surface_back() {
    let mut state = shown(Variant::PointerAware);
    state.handle(ENTER);
    let mut expected = vec![Action::CreateSurface];
    expected.extend(setup(10, 10, false));
    assert_eq!(state.handle(LEAVE), expected);
    assert!(state.has_surface());
    assert_eq!(state.layer_surface(), Some(LayerSurfaceState::AwaitingConfigure));
}

#[test]
fn enter_then_leave_leaves_one_unmapped_surface() {
    let mut state = shown(Variant::PointerAware);
    let actions = state.handle_batch(&vec![ENTER, LEAVE]);
    let created = actions.iter().filter(|a| **a == Action::CreateSurface).count();
    let destroyed = actions.iter().filter(|a| **a == Action::DestroySurface).count();
    assert_eq!((created, destroyed), (1, 1));
    assert_eq!(actions[0], Action::DestroySurface);
    assert_eq!(actions[1], Action::CreateSurface);
    assert!(state.has_surface());
    assert_eq!(state.layer_surface(), Some(LayerSurfaceState::AwaitingConfigure));
    // Nothing but a configure event maps it.
    for event in [PointerEvent::Motion, PointerEvent::Button, PointerEvent::Axis, PointerEvent::Frame] {
        assert_eq!(state.handle(Event::Pointer { event }), vec![]);
        assert_eq!(state.layer_surface(), Some(LayerSurfaceState::AwaitingConfigure));
    }
    assert_eq!(state.handle(Event::Configure { serial: 2 }), reply(2));
    assert_eq!(state.layer_surface(), Some(LayerSurfaceState::Configured));
}

#[test]
fn at_most_one_surface_is_ever_live() {
    let mut state = State::new(Variant::PointerAware);
    let events = vec![
        LEAVE,
        ENTER,
        Event::global(1, "wl_compositor", 5),
        LEAVE,
        Event::global(6, "wl_compositor", 5),
        Event::global(2, "wl_shm", 1),
        Event::global(3, "zwlr_layer_shell_v1", 4),
        ENTER,
        ENTER,
        LEAVE,
        LEAVE,
        Event::Configure { serial: 1 },
        ENTER,
        LEAVE,
        ENTER,
    ];
    let mut live = 0i32;
    for event in events {
        for action in state.handle(event) {
            match action {
                Action::CreateSurface => live += 1,
                Action::DestroySurface => live -= 1,
                _ => {}
            }
            assert!(live == 0 || live == 1, "{live} surfaces after {action:?}");
        }
        assert_eq!(live == 1, state.has_surface());
    }
}

#[test]
fn same_pixels_are_attached_after_hover() {
    let mut state = bound(Variant::PointerAware);
    state.draw_crosshair().unwrap();
    state.start();
    let first = state.handle(Event::Configure { serial: 1 });
    let before = state.buffer().unwrap().bytes().clone();
    state.handle(ENTER);
    state.handle(LEAVE);
    let second = state.handle(Event::Configure { serial: 2 });
    assert_eq!(first, reply(1));
    assert_eq!(second, reply(2));
    assert_eq!(state.buffer().unwrap().bytes(), &before);
    assert_eq!((state.cursor_width(), state.cursor_height()), (10, 10));
}

#[test]
fn image_driven_variant_ignores_the_pointer() {
    let mut state = shown(Variant::ImageDriven);
    for event in [
        PointerEvent::Enter,
        PointerEvent::Leave,
        PointerEvent::Motion,
        PointerEvent::Button,
        PointerEvent::Axis,
        PointerEvent::Frame,
    ] {
        assert_eq!(state.handle(Event::Pointer { event }), vec![]);
        assert!(state.has_surface());
        assert_eq!(state.layer_surface(), Some(LayerSurfaceState::Configured));
    }
}

#[test]
fn other_pointer_events_change_nothing() {
    let mut state = shown(Variant::PointerAware);
    for event in [PointerEvent::Motion, PointerEvent::Button, PointerEvent::Axis, PointerEvent::Frame] {
        assert_eq!(state.handle(Event::Pointer { event }), vec![]);
        assert!(state.has_surface());
        assert_eq!(state.layer_surface(), Some(LayerSurfaceState::Configured));
    }
}

#[test]
fn enter_without_surface_and_leave_with_surface_do_nothing() {
    let mut state = shown(Variant::PointerAware);
    assert_eq!(state.handle(LEAVE), vec![]);
    assert!(state.has_surface());
    state.handle(ENTER);
    assert_eq!(state.handle(ENTER), vec![]);
    assert!(!state.has_surface());
}

#[test]
fn leave_without_layer_shell_only_creates_the_surface() {
    let mut state = State::new(Variant::PointerAware);
    state.handle(Event::global(1, "wl_compositor", 5));
    state.handle(ENTER);
    assert_eq!(state.handle(LEAVE), vec![Action::CreateSurface]);
    assert_eq!(state.layer_surface(), None);
    assert!(!state.is_bound(GlobalKind::LayerShell));
}
