//! What each event does to the bar's surface: which fields of the window it
//! changes, to what, and what it asks for.

use crate::layout::ViewWidth;
use crate::request::{
    Anchor, Global, Interface, KeyboardInteractivity, Layer, RegistryEvent, RequestModel,
};
use crate::state::KeyboardModel;
use crate::window::{
    bar_height, effective_scale, LayerSurfaceEvent, OutputEvent, WaylandGlobals, WindowModel,
    WindowState,
};
use vstd::prelude::*;

verus! {

/// The showing view of a layout is there, and its width is none of those left
/// out.
pub open spec fn shows_view_of_width(s: KeyboardModel, left_out: Set<ViewWidth>) -> bool {
    s.keymap matches Some(views) && s.current_view < views.len() && !left_out.contains(
        views[s.current_view as int].width,
    )
}

/// Scaling needs a view whose width is not zero or less; showing and hiding needs
/// one whose width is greater than zero.
pub proof fn law_views_that_can_be_scaled(s: KeyboardModel)
    ensures
        s.has_scalable_view() <==> shows_view_of_width(s, set![ViewWidth::NotPositive]),
        s.has_measurable_view() <==> shows_view_of_width(
            s,
            set![ViewWidth::NotPositive, ViewWidth::NotANumber],
        ),
        s.has_live_view() <==> s.has_scalable_view() && s.window is Some
            && s.window->0.logical_width != 0,
{
}

/// The bar is forty pixels tall while hidden, and that much taller than the
/// keyboard while shown.
pub proof fn law_bar_height(kb_height: u32)
    ensures
        bar_height(false, kb_height) == 40,
        bar_height(true, kb_height) - kb_height == 40,
{
}

/// The scale in force is the output's, unless that is less than one.
pub proof fn law_effective_scale(scale: i32)
    ensures
        effective_scale(scale) >= 1,
        scale >= 1 ==> effective_scale(scale) == scale,
        scale < 1 ==> effective_scale(scale) == 1,
{
}

/// The scale follows the output's factor as long as that is positive, and nothing
/// else changes.
pub proof fn law_scale_follows_the_output(s: KeyboardModel, factor: i32)
    ensures
        factor >= 1 ==> s.output_event(OutputEvent::Scale { factor }).scale == factor,
        factor <= 0 ==> s.output_event(OutputEvent::Scale { factor }).scale == s.scale,
        s.output_event(OutputEvent::Scale { factor }) == (KeyboardModel {
            scale: s.output_event(OutputEvent::Scale { factor }).scale,
            ..s
        }),
        s.output_event(OutputEvent::Other) == s,
{
}

/// Starting asks for the registry and then for the callback, and changes nothing
/// else.
pub proof fn law_start_asks_for_the_registry(s: KeyboardModel)
    ensures
        ({
            let after = s.started();
            &&& after.outbox.skip(s.outbox.len() as int) =~= seq![
                RequestModel::GetRegistry,
                RequestModel::Sync,
            ]
            &&& after.outbox.take(s.outbox.len() as int) =~= s.outbox
            &&& after == (KeyboardModel { outbox: after.outbox, ..s })
        }),
{
}

// ── globals and creation ───────────────────────────────────────────────────

/// Each global the bar needs is bound under its name and version when it is
/// advertised, the latest one if several are; nothing else is.
pub proof fn law_window_globals_are_bound(
    s: KeyboardModel,
    name: u32,
    interface: Interface,
    version: u32,
)
    ensures
        s.window_registry(RegistryEvent::GlobalRemove { name }) == s,
        ({
            let after = s.window_registry(RegistryEvent::Global { name, interface, version });
            let bound = Some(Global { name, version });
            let wanted = interface == Interface::Compositor || interface == Interface::LayerShell
                || interface == Interface::Output || interface == Interface::LinuxDmabuf;
            &&& after.globals.compositor == if interface == Interface::Compositor {
                bound
            } else {
                s.globals.compositor
            }
            &&& after.globals.layer_shell == if interface == Interface::LayerShell {
                bound
            } else {
                s.globals.layer_shell
            }
            &&& after.globals.output == if interface == Interface::Output {
                bound
            } else {
                s.globals.output
            }
            &&& after.globals.dmabuf == if interface == Interface::LinuxDmabuf {
                bound
            } else {
                s.globals.dmabuf
            }
            &&& wanted ==> after.outbox == s.outbox.push(
                RequestModel::Bind { interface, name, version },
            )
            &&& !wanted ==> after.outbox == s.outbox
            &&& after == (KeyboardModel { globals: after.globals, outbox: after.outbox, ..s })
        }),
{
}

/// A state starts with no global bound.
pub proof fn law_no_global_at_the_start()
    ensures
        WaylandGlobals::unbound().compositor is None,
        WaylandGlobals::unbound().output is None,
        WaylandGlobals::unbound().layer_shell is None,
        WaylandGlobals::unbound().dmabuf is None,
{
}

/// The surface is created as soon as the compositor and the layer shell are bound
/// and there is none: hidden, of unknown size, on the top layer, as wide as the
/// output, at its bottom edge, taking no keyboard focus, with the Handle's height
/// asked for and reserved. The commit comes last.
pub proof fn law_surface_is_created_hidden(s: KeyboardModel)
    requires
        s.window is None,
        s.globals.compositor is Some,
        s.globals.layer_shell is Some,
    ensures
        ({
            let after = s.window_created();
            let window = after.window->0;
            let asked = after.outbox.skip(s.outbox.len() as int);
            &&& after.window is Some
            &&& !window.visible && !window.pending_frame && window.slots is None
            &&& window.back == 0
            &&& window.logical_width == 0 && window.logical_height == 0
            &&& window.physical_width == 0 && window.physical_height == 0
            &&& window.requested_height == 40
            &&& after.outbox.take(s.outbox.len() as int) == s.outbox
            &&& asked.len() == 6
            &&& asked.first() == (RequestModel::CreateLayerSurface {
                layer: Layer::Top,
                namespace: "mechanix-keyboard"@,
            })
            &&& asked.last() == RequestModel::CommitSurface
            &&& asked.contains(RequestModel::SetSize { width: 0, height: 40 })
            &&& asked.contains(
                RequestModel::SetAnchor(
                    Anchor { top: false, bottom: true, left: true, right: true },
                ),
            )
            &&& asked.contains(RequestModel::SetExclusiveZone { zone: 40 })
            &&& asked.contains(
                RequestModel::SetKeyboardInteractivity(KeyboardInteractivity::Never),
            )
            &&& after == (KeyboardModel { window: after.window, outbox: after.outbox, ..s })
        }),
{
    let asked = s.window_created().outbox.skip(s.outbox.len() as int);
    assert(s.window_created().outbox.take(s.outbox.len() as int) =~= s.outbox);
    assert(asked[1] == (RequestModel::SetSize { width: 0, height: 40 }));
    assert(asked[2] is SetAnchor);
    assert(asked[3] is SetExclusiveZone);
    assert(asked[4] is SetKeyboardInteractivity);
}

/// No surface is created without the compositor or the layer shell, nor a second
/// one.
pub proof fn law_surface_waits_for_its_globals(s: KeyboardModel)
    requires
        s.window is Some || s.globals.compositor is None || s.globals.layer_shell is None,
    ensures
        s.window_created() == s,
{
}

/// A callback that was waited for repaints and is waited for no longer; another
/// creates the surface; one whose object is gone does nothing.
pub proof fn law_callbacks_repaint_or_create(s: KeyboardModel, id: u32)
    ensures
        s.callback_done(None) == s,
        !s.frame_callbacks.contains(id) ==> s.callback_done(Some(id)) == s.window_created(),
        s.frame_callbacks.contains(id) ==> {
            let after = s.callback_done(Some(id));
            &&& after.outbox == s.outbox.push(RequestModel::Render)
            &&& !after.frame_callbacks.contains(id)
            &&& after.frame_callbacks.insert(id) =~= s.frame_callbacks
            &&& after == (KeyboardModel {
                frame_callbacks: after.frame_callbacks,
                outbox: after.outbox,
                ..s
            })
        },
{
}

// ── sizing ─────────────────────────────────────────────────────────────────

/// The width settles on what is granted; where nothing is, it stays, and is one
/// pixel if it was unknown.
pub proof fn law_settled_width(window: WindowModel, granted: u32)
    ensures
        granted > 0 ==> window.settled_width(granted) == granted,
        granted == 0 && window.logical_width > 0 ==> window.settled_width(granted)
            == window.logical_width,
        granted == 0 && window.logical_width == 0 ==> window.settled_width(granted) == 1,
{
}

/// A configure is ignored exactly if it is none, there is no window, no way to
/// make buffers, or no view to scale.
pub proof fn law_configure_is_ignored_without_a_surface(
    s: KeyboardModel,
    event: LayerSurfaceEvent,
    kb_height: u32,
)
    ensures
        s.configure_applies(event) <==> event is Configure && s.window is Some && s.globals.dmabuf
            is Some && shows_view_of_width(s, set![ViewWidth::NotPositive]),
        !s.configure_applies(event) ==> s.configured(event, kb_height) == s,
{
}

/// A configure that is not ignored is acknowledged first, with its serial, and
/// settles the width. It shows or hides nothing, and leaves everything but the
/// window and the queue alone.
pub proof fn law_configure_acknowledges(
    s: KeyboardModel,
    serial: u32,
    width: u32,
    height: u32,
    kb_height: u32,
)
    requires
        s.configure_applies(LayerSurfaceEvent::Configure { serial, width, height }),
    ensures
        ({
            let after = s.configured(
                LayerSurfaceEvent::Configure { serial, width, height },
                kb_height,
            );
            let from = s.outbox.len() as int;
            let before = s.window->0;
            let window = after.window->0;
            &&& after.outbox.len() > from
            &&& after.outbox.take(from) == s.outbox
            &&& after.outbox[from] == (RequestModel::AckConfigure { serial })
            &&& after.window is Some
            &&& window.logical_width == before.settled_width(width)
            &&& window.visible == before.visible
            &&& window.slots == before.slots
            &&& window.back == before.back
            &&& window.pending_frame == before.pending_frame
            &&& after == (KeyboardModel { window: after.window, outbox: after.outbox, ..s })
        }),
{
    let after = s.configured(LayerSurfaceEvent::Configure { serial, width, height }, kb_height);
    assert(after.outbox.take(s.outbox.len() as int) =~= s.outbox);
}

/// What a configure does besides acknowledging it and settling the width. With a
/// shown keyboard that has no height, nothing.
pub proof fn law_configure_without_height_only_acknowledges(
    s: KeyboardModel,
    event: LayerSurfaceEvent,
)
    requires
        s.configure_applies(event),
        s.window->0.visible,
    ensures
        ({
            let after = s.configured(event, 0);
            let before = s.window->0;
            &&& after.outbox.len() == s.outbox.len() + 1
            &&& after.window->0.requested_height == before.requested_height
            &&& after.window->0.logical_height == before.logical_height
            &&& after.window->0.physical_width == before.physical_width
            &&& after.window->0.physical_height == before.physical_height
        }),
{
}

/// A bar whose height is not the one last asked for has it asked for, and is not
/// painted: a size, a commit, and no change to what was painted before.
pub proof fn law_configure_asks_for_a_new_height(
    s: KeyboardModel,
    event: LayerSurfaceEvent,
    kb_height: u32,
    height: u32,
)
    requires
        s.configure_applies(event),
        s.window->0.visible ==> kb_height > 0 && height == kb_height + 40,
        !s.window->0.visible ==> height == 40,
        s.window->0.requested_height != height,
    ensures
        ({
            let after = s.configured(event, kb_height);
            let before = s.window->0;
            &&& after.outbox.skip(s.outbox.len() as int + 1) =~= seq![
                RequestModel::SetSize { width: 0, height },
                RequestModel::CommitSurface,
            ]
            &&& after.window->0.requested_height == height
            &&& after.window->0.logical_height == before.logical_height
            &&& after.window->0.physical_width == before.physical_width
            &&& after.window->0.physical_height == before.physical_height
        }),
{
}

/// A bar whose height was asked for is painted, in buffers of its logical size
/// times the scale. If those have to be made anew, at the first map or because the
/// size changed, the scale is set and both are allocated before the repaint, and
/// the window has the height it is painted at, whether or not there were buffers
/// before; so the Handle ends where the buffer does. Otherwise it is only
/// repainted.
pub proof fn law_configure_paints_at_the_bar_height(
    s: KeyboardModel,
    event: LayerSurfaceEvent,
    kb_height: u32,
    height: u32,
    scale: i32,
)
    requires
        s.configure_applies(event),
        s.window->0.visible ==> kb_height > 0 && height == kb_height + 40,
        !s.window->0.visible ==> height == 40,
        s.window->0.requested_height == height,
        scale == if s.scale < 1 {
            1
        } else {
            s.scale
        },
        s.window->0.settled_width(event->Configure_width) * scale <= u32::MAX,
        height * scale <= u32::MAX,
    ensures
        ({
            let after = s.configured(event, kb_height);
            let before = s.window->0;
            let window = after.window->0;
            let behind = after.outbox.skip(s.outbox.len() as int + 1);
            let anew = before.slots is None || before.physical_width != window.logical_width
                * scale || before.physical_height != height * scale;
            &&& window.requested_height == height
            &&& window.physical_width == window.logical_width * scale
            &&& window.physical_height == height * scale
            &&& anew ==> {
                &&& window.logical_height == height
                &&& window.logical_height * scale == window.physical_height
                &&& behind =~= seq![
                    RequestModel::SetBufferScale { scale },
                    RequestModel::AllocSlots {
                        width: window.physical_width,
                        height: window.physical_height,
                    },
                    RequestModel::Render,
                ]
                &&& window.handle() matches Some(rect) && (rect.y + rect.height) * scale
                    == window.physical_height
            }
            &&& !anew ==> window.logical_height == before.logical_height && behind =~= seq![
                RequestModel::Render,
            ]
        }),
{
    let window = s.configured(event, kb_height).window->0;
    assert(height >= 40);
    assert(window.logical_width > 0);
}

/// Once a fresh bar has been painted at a width, the Handle is the bottom forty
/// pixels of it; after it is shown or hidden and painted again in its new size,
/// the Handle is at the bottom edge again.
pub proof fn law_handle_follows_the_bar(
    s: KeyboardModel,
    visible: bool,
    event: LayerSurfaceEvent,
    kb_height: u32,
)
    requires
        s.visibility_applies(visible),
        s.globals.dmabuf is Some,
        visible ==> kb_height > 0,
        visible ==> kb_height + 40 <= u32::MAX,
        event is Configure,
        s.with_visibility(visible, kb_height).configure_in_range(event, kb_height),
        // The bar was last painted at another height, and the scale is the same.
        s.window->0.physical_height != (if visible {
            kb_height + 40
        } else {
            40
        }) * (if s.scale < 1 {
            1int
        } else {
            s.scale as int
        }),
    ensures
        ({
            let height = if visible {
                kb_height + 40
            } else {
                40
            };
            let painted = s.with_visibility(visible, kb_height).configured(event, kb_height);
            &&& painted.window->0.handle() matches Some(rect)
            &&& rect.x == 0
            &&& rect.y == height - 40
            &&& rect.width == painted.window->0.logical_width
            &&& rect.height == 40
        }),
{
}

/// A configure stays in range exactly if the bar's height can be said and, where
/// the bar is painted, both sides of its buffer can.
pub proof fn law_configure_range(
    s: KeyboardModel,
    event: LayerSurfaceEvent,
    kb_height: u32,
    scale: int,
    height: int,
)
    requires
        s.configure_applies(event),
        scale == if s.scale < 1 {
            1int
        } else {
            s.scale as int
        },
        height == if s.window->0.visible {
            kb_height + 40
        } else {
            40
        },
    ensures
        ({
            let window = s.window->0;
            let paints = window.requested_height == height && (window.visible ==> kb_height != 0);
            s.configure_in_range(event, kb_height) <==> height <= 0xffff_ffff && (paints ==> {
                &&& window.settled_width(event->Configure_width) * scale <= 0xffff_ffff
                &&& height * scale <= 0xffff_ffff
            })
        }),
{
}

/// A configure that is ignored is in range.
pub proof fn law_ignored_configure_is_in_range(
    s: KeyboardModel,
    event: LayerSurfaceEvent,
    kb_height: u32,
)
    requires
        !s.configure_applies(event),
    ensures
        s.configure_in_range(event, kb_height),
{
}

// ── visibility ─────────────────────────────────────────────────────────────

/// Showing or hiding has an effect exactly if there is a window that has a width
/// and is not so already, and a view of positive width.
pub proof fn law_when_visibility_applies(s: KeyboardModel, visible: bool)
    ensures
        s.visibility_applies(visible) <==> s.window is Some && s.window->0.visible != visible
            && s.window->0.logical_width > 0 && shows_view_of_width(
            s,
            set![ViewWidth::NotPositive, ViewWidth::NotANumber],
        ),
{
}

/// Showing asks for the keyboard's height and the Handle's, hiding for the
/// Handle's alone, each with a commit. Nothing of the window changes but the
/// visibility and the height asked for; without effect nothing changes at all.
pub proof fn law_showing_and_hiding(s: KeyboardModel, visible: bool, kb_height: u32)
    ensures
        !s.visibility_applies(visible) ==> s.with_visibility(visible, kb_height) == s,
        s.visibility_applies(visible) && (visible ==> kb_height + 40 <= u32::MAX) ==> {
            let after = s.with_visibility(visible, kb_height);
            let window = after.window->0;
            let height = (if visible {
                kb_height + 40
            } else {
                40
            }) as u32;
            &&& window.visible == visible
            &&& window.requested_height == height
            &&& after.window == Some(
                WindowModel {
                    visible: window.visible,
                    requested_height: window.requested_height,
                    ..s.window->0
                },
            )
            &&& after.outbox =~= s.outbox.push(RequestModel::SetSize { width: 0, height }).push(
                RequestModel::CommitSurface,
            )
            &&& after == (KeyboardModel { window: after.window, outbox: after.outbox, ..s })
        },
{
}

/// Toggling shows a hidden keyboard and hides a shown one.
pub proof fn law_toggling_flips(s: KeyboardModel, kb_height: u32)
    requires
        s.window is Some,
    ensures
        s.window->0.visible ==> s.toggled_visibility(kb_height) == s.with_visibility(
            false,
            kb_height,
        ),
        !s.window->0.visible ==> s.toggled_visibility(kb_height) == s.with_visibility(
            true,
            kb_height,
        ),
{
}

/// Showing and hiding stays in range exactly if it has no effect, hides, or shows
/// a bar whose height can be said; toggling, if the state it goes to does.
pub proof fn law_visibility_range(s: KeyboardModel, visible: bool, kb_height: u32)
    ensures
        s.visibility_in_range(visible, kb_height) <==> !s.visibility_applies(visible) || !visible
            || kb_height + 40 <= 0xffff_ffff,
        s.window is Some ==> (s.toggle_in_range(kb_height) <==> s.visibility_in_range(
            !s.window->0.visible,
            kb_height,
        )),
        s.window is None ==> s.toggle_in_range(kb_height),
{
}

// ── buffers and the Handle ─────────────────────────────────────────────────

/// The Handle is forty pixels tall, as wide as the surface, and ends at its
/// bottom edge; it is there once both sides are known.
pub proof fn law_handle_is_forty_pixels(window: WindowModel)
    ensures
        window.logical_width > 0 && window.logical_height > 0 ==> {
            &&& window.handle() matches Some(rect)
            &&& rect.x == 0
            &&& rect.y == window.logical_height - 40
            &&& rect.width == window.logical_width
            &&& rect.height == 40
        },
        window.logical_width == 0 || window.logical_height == 0 ==> window.handle() is None,
{
}

/// A buffer handed back is drawable; nothing else of the window changes, and a
/// frame is painted if one waited.
pub proof fn law_buffer_release(s: KeyboardModel, id: u32)
    ensures
        s.buffer_released(None) == s,
        s.window is None ==> s.buffer_released(Some(id)) == s,
        s.window is Some ==> {
            let after = s.buffer_released(Some(id));
            let before = s.window->0;
            let window = after.window->0;
            &&& after.window == Some(WindowModel { slots: window.slots, ..before })
            &&& before.slots is None ==> window.slots is None
            &&& before.slots is Some ==> {
                &&& window.slots is Some
                &&& window.slots->0.len() == before.slots->0.len()
                &&& forall|i: int|
                    0 <= i < before.slots->0.len() ==> {
                        let slot = #[trigger] window.slots->0[i];
                        &&& slot.buffer_id == before.slots->0[i].buffer_id
                        &&& slot.released <==> before.slots->0[i].released
                            || before.slots->0[i].buffer_id == id
                    }
            }
            &&& before.pending_frame ==> after.outbox == s.outbox.push(RequestModel::Render)
            &&& !before.pending_frame ==> after.outbox == s.outbox
            &&& after == (KeyboardModel { window: after.window, outbox: after.outbox, ..s })
        },
{
}

/// The model of a window holds what the window holds.
pub proof fn law_window_model_is_faithful(window: WindowState)
    ensures
        window.slots matches Some(slots) ==> window@.slots == Some(slots@),
        window.slots is None ==> window@.slots is None,
        window@.back == window.back,
        window@.physical_width == window.physical_width,
        window@.physical_height == window.physical_height,
        window@.logical_width == window.logical_width,
        window@.logical_height == window.logical_height,
        window@.requested_height == window.requested_height,
        window@.pending_frame == window.pending_frame,
        window@.visible == window.visible,
{
}

} // verus!
