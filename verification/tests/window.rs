use mechanix_keyboard::layout::{KeyboardView, Keymap, ViewWidth};
use mechanix_keyboard::request::{
    Anchor, Global, Interface, KeyboardInteractivity, Layer, RegistryEvent, Request,
};
use mechanix_keyboard::state::MechanixKeyboardState;
use mechanix_keyboard::window::{
    configure_in_range, create_window, handle_rect, install_slots, on_buffer_release, on_callback,
    on_configure, on_output, on_registry, on_start, set_visibility, settled_width,
    toggle_in_range, toggle_visibility, view_and_width, visibility_applies, visibility_in_range,
    HandleRect, LayerSurfaceEvent, OutputEvent, Slot, HANDLE_HEIGHT,
};

fn advertise(s: &mut MechanixKeyboardState, name: u32, interface: Interface) {
    on_registry(s, &RegistryEvent::Global { name, interface, version: 1 });
}

fn created() -> MechanixKeyboardState {
    let mut s = MechanixKeyboardState::new();
    advertise(&mut s, 1, Interface::Compositor);
    advertise(&mut s, 2, Interface::LayerShell);
    advertise(&mut s, 3, Interface::LinuxDmabuf);
    s.keymap = Some(Keymap {
        views: vec![KeyboardView { name: "base".to_string(), width: ViewWidth::Positive, keys: vec![] }],
    });
    create_window(&mut s);
    s.take_requests();
    s
}

fn configure(serial: u32, width: u32) -> LayerSurfaceEvent {
    LayerSurfaceEvent::Configure { serial, width, height: 999 }
}

fn mapped() -> MechanixKeyboardState {
    let mut s = created();
    on_configure(&mut s, &configure(1, 400), 100);
    s.take_requests();
    install_slots(
        &mut s,
        [Slot { buffer_id: 7, released: false }, Slot { buffer_id: 8, released: false }],
    );
    s
}

#[test]
fn start_asks_for_the_registry() {
    let mut s = MechanixKeyboardState::new();
    on_start(&mut s);
    assert_eq!(s.take_requests(), vec![Request::GetRegistry, Request::Sync]);
}

#[test]
fn globals_are_bound() {
    let mut s = MechanixKeyboardState::new();
    advertise(&mut s, 1, Interface::Compositor);
    advertise(&mut s, 2, Interface::LayerShell);
    advertise(&mut s, 3, Interface::Output);
    advertise(&mut s, 4, Interface::LinuxDmabuf);
    advertise(&mut s, 5, Interface::Other);
    advertise(&mut s, 6, Interface::Seat);
    on_registry(&mut s, &RegistryEvent::GlobalRemove { name: 1 });
    assert_eq!(s.globals.compositor, Some(Global { name: 1, version: 1 }));
    assert_eq!(s.globals.layer_shell, Some(Global { name: 2, version: 1 }));
    assert_eq!(s.globals.output, Some(Global { name: 3, version: 1 }));
    assert_eq!(s.globals.dmabuf, Some(Global { name: 4, version: 1 }));
    assert_eq!(s.outbox.len(), 4);
}

#[test]
fn scale_follows_the_output() {
    let mut s = MechanixKeyboardState::new();
    on_output(&mut s, &OutputEvent::Scale { factor: 2 });
    assert_eq!(s.scale, 2);
    on_output(&mut s, &OutputEvent::Scale { factor: 0 });
    on_output(&mut s, &OutputEvent::Scale { factor: -3 });
    on_output(&mut s, &OutputEvent::Other);
    assert_eq!(s.scale, 2);
}

#[test]
fn window_starts_hidden_and_is_created_once() {
    let mut s = MechanixKeyboardState::new();
    create_window(&mut s);
    assert!(s.window.is_none());
    advertise(&mut s, 1, Interface::Compositor);
    advertise(&mut s, 2, Interface::LayerShell);
    s.take_requests();
    create_window(&mut s);
    assert_eq!(
        s.take_requests(),
        vec![
            Request::CreateLayerSurface {
                layer: Layer::Top,
                namespace: "mechanix-keyboard".to_string()
            },
            Request::SetSize { width: 0, height: 40 },
            Request::SetAnchor(Anchor { top: false, bottom: true, left: true, right: true }),
            Request::SetExclusiveZone { zone: 40 },
            Request::SetKeyboardInteractivity(KeyboardInteractivity::Never),
            Request::CommitSurface,
        ]
    );
    let window = s.window.unwrap();
    assert!(!window.visible);
    assert_eq!(window.requested_height, HANDLE_HEIGHT);
    assert!(window.slots.is_none());
    create_window(&mut s);
    assert!(s.outbox.is_empty());
}

#[test]
fn callbacks_repaint_or_create() {
    let mut s = MechanixKeyboardState::new();
    advertise(&mut s, 1, Interface::Compositor);
    advertise(&mut s, 2, Interface::LayerShell);
    s.take_requests();
    on_callback(&mut s, None);
    assert!(s.window.is_none());
    s.frame_callbacks.insert(12);
    on_callback(&mut s, Some(12));
    assert_eq!(s.take_requests(), vec![Request::Render]);
    assert!(s.window.is_none());
    on_callback(&mut s, Some(12));
    assert!(s.window.is_some());
}

#[test]
fn hidden_bar_is_painted_at_the_first_configure() {
    let mut s = created();
    on_output(&mut s, &OutputEvent::Scale { factor: 2 });
    on_configure(&mut s, &configure(5, 400), 100);
    assert_eq!(
        s.take_requests(),
        vec![
            Request::AckConfigure { serial: 5 },
            Request::SetBufferScale { scale: 2 },
            Request::AllocSlots { width: 800, height: 80 },
            Request::Render,
        ]
    );
    let window = s.window.unwrap();
    assert_eq!((window.logical_width, window.logical_height), (400, 40));
    assert_eq!((window.physical_width, window.physical_height), (800, 80));
}

#[test]
fn same_size_is_repainted_without_allocation() {
    let mut s = mapped();
    on_configure(&mut s, &configure(6, 0), 100);
    assert_eq!(s.take_requests(), vec![Request::AckConfigure { serial: 6 }, Request::Render]);
    assert_eq!(s.window.unwrap().logical_width, 400);
}

#[test]
fn height_settles_after_one_exchange() {
    let mut s = mapped();
    let mut window = s.window.unwrap();
    window.visible = true;
    s.window = Some(window);
    on_configure(&mut s, &configure(6, 500), 125);
    assert_eq!(
        s.take_requests(),
        vec![
            Request::AckConfigure { serial: 6 },
            Request::SetSize { width: 0, height: 165 },
            Request::CommitSurface,
        ]
    );
    on_configure(&mut s, &configure(7, 500), 125);
    assert_eq!(
        s.take_requests(),
        vec![
            Request::AckConfigure { serial: 7 },
            Request::SetBufferScale { scale: 1 },
            Request::AllocSlots { width: 500, height: 165 },
            Request::Render,
        ]
    );
    // A configure that grants no width settles on the same one.
    on_configure(&mut s, &configure(8, 0), 125);
    let requests = s.take_requests();
    assert_eq!(requests.first(), Some(&Request::AckConfigure { serial: 8 }));
    assert_eq!(requests.last(), Some(&Request::Render));
    assert_eq!(requests.iter().filter(|r| matches!(r, Request::Render)).count(), 1);
    assert!(!requests.iter().any(|r| matches!(r, Request::SetSize { .. })));
    assert!(!requests.contains(&Request::CommitSurface));
    assert_eq!(s.window.unwrap().requested_height, 165);
}

#[test]
fn width_that_is_not_a_number_is_acknowledged() {
    let mut s = created();
    s.keymap.as_mut().unwrap().views[0].width = ViewWidth::NotANumber;
    on_configure(&mut s, &configure(5, 400), 0);
    assert_eq!(
        s.take_requests(),
        vec![
            Request::AckConfigure { serial: 5 },
            Request::SetBufferScale { scale: 1 },
            Request::AllocSlots { width: 400, height: 40 },
            Request::Render,
        ]
    );
    assert!(view_and_width(&s).is_some());
    // Showing needs a positive width.
    assert!(!visibility_applies(&s, true));
    set_visibility(&mut s, true, 0);
    toggle_visibility(&mut s, 0);
    assert!(!s.window.unwrap().visible);
    assert!(s.outbox.is_empty());
    // Shown, there is no height to ask for.
    let mut window = s.window.unwrap();
    window.visible = true;
    s.window = Some(window);
    on_configure(&mut s, &configure(6, 500), 0);
    assert_eq!(s.take_requests(), vec![Request::AckConfigure { serial: 6 }]);
}

#[test]
fn shown_keyboard_without_height_only_acknowledges() {
    let mut s = mapped();
    let mut window = s.window.unwrap();
    window.visible = true;
    s.window = Some(window);
    on_configure(&mut s, &configure(6, 500), 0);
    assert_eq!(s.take_requests(), vec![Request::AckConfigure { serial: 6 }]);
    assert_eq!(s.window.unwrap().logical_width, 500);
    assert_eq!(s.window.unwrap().requested_height, 40);
}

#[test]
fn configure_needs_buffers_view_and_window() {
    let mut s = created();
    on_configure(&mut s, &LayerSurfaceEvent::Closed, 100);
    s.globals.dmabuf = None;
    on_configure(&mut s, &configure(1, 400), 100);
    let mut s2 = created();
    s2.keymap = None;
    on_configure(&mut s2, &configure(1, 400), 100);
    let mut s3 = created();
    s3.window = None;
    on_configure(&mut s3, &configure(1, 400), 100);
    let mut s4 = created();
    s4.keymap.as_mut().unwrap().views[0].width = ViewWidth::NotPositive;
    on_configure(&mut s4, &configure(1, 400), 100);
    for s in [s, s2, s3, s4] {
        assert!(s.outbox.is_empty());
    }
}

#[test]
fn width_settles_on_at_least_one() {
    let mut s = created();
    assert_eq!(settled_width(&s, 300), Some(300));
    assert_eq!(settled_width(&s, 0), Some(1));
    on_configure(&mut s, &configure(1, 400), 100);
    assert_eq!(settled_width(&s, 0), Some(400));
    s.window = None;
    assert_eq!(settled_width(&s, 300), None);
}

#[test]
fn configure_range_is_checked() {
    let mut s = created();
    assert!(configure_in_range(&s, &configure(1, 400), u32::MAX));
    s.scale = 2;
    assert!(!configure_in_range(&s, &configure(1, u32::MAX), 100));
    assert!(configure_in_range(&s, &LayerSurfaceEvent::Closed, 100));
    let mut window = s.window.unwrap();
    window.visible = true;
    s.window = Some(window);
    assert!(!configure_in_range(&s, &configure(1, 400), u32::MAX - 39));
    assert!(configure_in_range(&s, &configure(1, 400), u32::MAX - 40));
    s.globals.dmabuf = None;
    assert!(configure_in_range(&s, &configure(1, 400), u32::MAX));
}

#[test]
fn visibility_asks_for_the_matching_height() {
    let mut s = mapped();
    assert!(!visibility_applies(&s, false));
    set_visibility(&mut s, false, 100);
    assert!(s.outbox.is_empty());
    set_visibility(&mut s, true, 100);
    set_visibility(&mut s, true, 100);
    assert_eq!(
        s.take_requests(),
        vec![Request::SetSize { width: 0, height: 140 }, Request::CommitSurface]
    );
    assert_eq!(s.window.unwrap().requested_height, 140);
    on_configure(&mut s, &configure(9, 400), 100);
    assert_eq!(s.take_requests().last(), Some(&Request::Render));
}

#[test]
fn visibility_range_is_checked() {
    let mut s = mapped();
    assert!(visibility_in_range(&s, true, u32::MAX - 40));
    assert!(!visibility_in_range(&s, true, u32::MAX - 39));
    assert!(visibility_in_range(&s, false, u32::MAX));
    assert!(toggle_in_range(&s, u32::MAX - 40));
    assert!(!toggle_in_range(&s, u32::MAX - 39));
    toggle_visibility(&mut s, 100);
    assert!(visibility_in_range(&s, true, u32::MAX));
    assert!(toggle_in_range(&s, u32::MAX));
    s.window = None;
    assert!(visibility_in_range(&s, true, u32::MAX));
    assert!(toggle_in_range(&s, u32::MAX));
}

#[test]
fn toggling_twice_asks_for_each_height() {
    let mut s = mapped();
    let mut window = s.window.unwrap();
    window.visible = true;
    window.requested_height = 77;
    s.window = Some(window);
    toggle_visibility(&mut s, 100);
    toggle_visibility(&mut s, 100);
    assert_eq!(
        s.take_requests(),
        vec![
            Request::SetSize { width: 0, height: 40 },
            Request::CommitSurface,
            Request::SetSize { width: 0, height: 140 },
            Request::CommitSurface,
        ]
    );
    assert!(s.window.unwrap().visible);
    assert_eq!(s.window.unwrap().requested_height, 140);
}

#[test]
fn toggling_twice_comes_back() {
    let mut s = mapped();
    toggle_visibility(&mut s, 100);
    assert!(s.window.unwrap().visible);
    toggle_visibility(&mut s, 100);
    assert!(!s.window.unwrap().visible);
    assert_eq!(s.window.unwrap().requested_height, 40);
    assert_eq!(s.outbox.len(), 4);
    let zone = s.outbox.iter().any(|r| matches!(r, Request::SetExclusiveZone { .. }));
    assert!(!zone);
}

#[test]
fn visibility_waits_for_the_width() {
    let mut s = created();
    set_visibility(&mut s, true, 100);
    assert!(!s.window.unwrap().visible);
    let mut bare = MechanixKeyboardState::new();
    set_visibility(&mut bare, true, 100);
    assert!(s.outbox.is_empty());
    assert!(bare.outbox.is_empty());
}

#[test]
fn handle_is_the_bottom_band() {
    let mut s = created();
    assert_eq!(handle_rect(&s), None);
    on_configure(&mut s, &configure(1, 400), 100);
    assert_eq!(handle_rect(&s), Some(HandleRect { x: 0, y: 0, width: 400, height: 40 }));
    let mut window = s.window.unwrap();
    window.logical_height = 165;
    s.window = Some(window);
    assert_eq!(handle_rect(&s), Some(HandleRect { x: 0, y: 125, width: 400, height: 40 }));
    s.window = None;
    assert_eq!(handle_rect(&s), None);
}

#[test]
fn released_buffers_can_be_drawn() {
    let mut s = mapped();
    on_buffer_release(&mut s, None);
    on_buffer_release(&mut s, Some(99));
    assert_eq!(s.window.unwrap().slots.unwrap().map(|slot| slot.released), [false, false]);
    on_buffer_release(&mut s, Some(8));
    assert_eq!(s.window.unwrap().slots.unwrap().map(|slot| slot.released), [false, true]);
    assert!(s.outbox.is_empty());
    let mut window = s.window.unwrap();
    window.pending_frame = true;
    s.window = Some(window);
    on_buffer_release(&mut s, Some(7));
    assert_eq!(s.window.unwrap().slots.unwrap().map(|slot| slot.released), [true, true]);
    assert_eq!(s.take_requests(), vec![Request::Render]);
}

#[test]
fn live_view_needs_width_and_view() {
    let mut s = created();
    assert!(view_and_width(&s).is_none());
    on_configure(&mut s, &configure(1, 400), 100);
    let (view, width) = view_and_width(&s).unwrap();
    assert_eq!((view.name.as_str(), width), ("base", 400));
    s.current_view = 3;
    assert!(view_and_width(&s).is_none());
}
