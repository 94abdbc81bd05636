//! Requests: everything the keyboard asks the compositor and the renderer to do.
//!
//! Handlers never talk to the outside. They queue requests on the state's
//! outbox, in order, and whoever runs the event loop carries them out.

use crate::input_method::{DeleteSurrounding, Preedit, PreeditModel};
use vstd::prelude::*;

verus! {

/// A global interface the registry can advertise.
#[derive(Debug, Clone, Copy, PartialEq, Eq, Structural)]
pub enum Interface {
    Seat,
    VirtualKeyboardManager,
    InputMethodManager,
    Compositor,
    LayerShell,
    Output,
    LinuxDmabuf,
    /// Any interface the keyboard has no use for.
    Other,
}

/// The interface a global is advertised under.
pub open spec fn interface_called(name: Seq<char>) -> Interface {
    if name == "wl_seat"@ {
        Interface::Seat
    } else if name == "zwp_virtual_keyboard_manager_v1"@ {
        Interface::VirtualKeyboardManager
    } else if name == "zwp_input_method_manager_v2"@ {
        Interface::InputMethodManager
    } else if name == "wl_compositor"@ {
        Interface::Compositor
    } else if name == "zwlr_layer_shell_v1"@ {
        Interface::LayerShell
    } else if name == "wl_output"@ {
        Interface::Output
    } else if name == "zwp_linux_dmabuf_v1"@ {
        Interface::LinuxDmabuf
    } else {
        Interface::Other
    }
}

impl Interface {
    /// The interface that goes by a protocol name.
    pub fn from_name(name: &str) -> (interface: Interface)
        ensures
            interface == interface_called(name@),
    {
        let name: String = name.to_owned();
        if name == "wl_seat".to_owned() {
            Interface::Seat
        } else if name == "zwp_virtual_keyboard_manager_v1".to_owned() {
            Interface::VirtualKeyboardManager
        } else if name == "zwp_input_method_manager_v2".to_owned() {
            Interface::InputMethodManager
        } else if name == "wl_compositor".to_owned() {
            Interface::Compositor
        } else if name == "zwlr_layer_shell_v1".to_owned() {
            Interface::LayerShell
        } else if name == "wl_output".to_owned() {
            Interface::Output
        } else if name == "zwp_linux_dmabuf_v1".to_owned() {
            Interface::LinuxDmabuf
        } else {
            Interface::Other
        }
    }
}

/// A bound global: the registry name and the version it was bound with.
#[derive(Debug, Clone, Copy, PartialEq, Eq, Structural)]
pub struct Global {
    pub name: u32,
    pub version: u32,
}

/// A registry event.
#[derive(Debug, Clone, Copy, PartialEq, Eq, Structural)]
pub enum RegistryEvent {
    Global { name: u32, interface: Interface, version: u32 },
    GlobalRemove { name: u32 },
}

/// Whether a key goes down or comes up.
#[derive(Debug, Clone, Copy, PartialEq, Eq, Structural)]
pub enum KeyState {
    Pressed,
    Released,
}

/// The layer a layer surface sits on.
#[derive(Debug, Clone, Copy, PartialEq, Eq, Structural)]
pub enum Layer {
    Background,
    Bottom,
    Top,
    Overlay,
}

/// The edges a layer surface is anchored to.
#[derive(Debug, Clone, Copy, PartialEq, Eq, Structural)]
pub struct Anchor {
    pub top: bool,
    pub bottom: bool,
    pub left: bool,
    pub right: bool,
}

/// Whether a layer surface takes the keyboard focus.
#[derive(Debug, Clone, Copy, PartialEq, Eq, Structural)]
pub enum KeyboardInteractivity {
    Never,
    Exclusive,
    OnDemand,
}

/// One request, to be carried out in the order it was queued.
#[derive(Debug, PartialEq, Eq)]
pub enum Request {
    /// Get the registry of globals.
    GetRegistry,
    /// Ask for a callback once everything before has been handled.
    Sync,
    /// Bind an advertised global.
    Bind { interface: Interface, name: u32, version: u32 },
    /// Get the keyboard of the seat.
    GetKeyboard,
    /// Get the pointer of the seat.
    GetPointer,
    /// Get the touch device of the seat.
    GetTouch,
    /// Create a virtual keyboard from its manager and the seat. Until it gets a
    /// keymap, one that was created before stays in use.
    CreateVirtualKeyboard,
    /// Hand the virtual keyboard just created its XKB v1 keymap of `size` bytes,
    /// and use that keyboard from here on.
    UploadKeymap { size: u32 },
    /// Set the virtual keyboard's modifier masks and layout group.
    Modifiers { depressed: u32, latched: u32, locked: u32, group: u32 },
    /// Press or release an evdev keycode, stamped in milliseconds.
    Key { time: u32, code: u32, state: KeyState },
    /// Create the input method from its manager and the seat.
    GetInputMethod,
    /// Stage text to commit.
    CommitString(String),
    /// Stage a preedit string.
    SetPreedit(Preedit),
    /// Stage a deletion around the cursor.
    DeleteSurroundingText(DeleteSurrounding),
    /// Apply the staged edits.
    Commit { serial: u32 },
    /// Create the surface and its layer surface, under a namespace.
    CreateLayerSurface { layer: Layer, namespace: String },
    /// Ask for a surface size; a zero width leaves it to the compositor.
    SetSize { width: u32, height: u32 },
    /// Anchor the surface to edges of the output.
    SetAnchor(Anchor),
    /// Reserve a zone that other surfaces keep clear of.
    SetExclusiveZone { zone: i32 },
    /// Say whether the surface takes the keyboard focus.
    SetKeyboardInteractivity(KeyboardInteractivity),
    /// Acknowledge a configure.
    AckConfigure { serial: u32 },
    /// Set the scale of the surface's buffers.
    SetBufferScale { scale: i32 },
    /// Commit the surface.
    CommitSurface,
    /// Allocate both buffer slots at a physical size.
    AllocSlots { width: u32, height: u32 },
    /// Repaint.
    Render,
}

/// The mathematical model of a [`Request`]. It leaves out the time stamp of a
/// key, which is whatever the clock says.
pub enum RequestModel {
    GetRegistry,
    Sync,
    Bind { interface: Interface, name: u32, version: u32 },
    GetKeyboard,
    GetPointer,
    GetTouch,
    CreateVirtualKeyboard,
    UploadKeymap { size: u32 },
    Modifiers { depressed: u32, latched: u32, locked: u32, group: u32 },
    Key { code: u32, state: KeyState },
    GetInputMethod,
    CommitString(Seq<char>),
    SetPreedit(PreeditModel),
    DeleteSurroundingText(DeleteSurrounding),
    Commit { serial: u32 },
    CreateLayerSurface { layer: Layer, namespace: Seq<char> },
    SetSize { width: u32, height: u32 },
    SetAnchor(Anchor),
    SetExclusiveZone { zone: i32 },
    SetKeyboardInteractivity(KeyboardInteractivity),
    AckConfigure { serial: u32 },
    SetBufferScale { scale: i32 },
    CommitSurface,
    AllocSlots { width: u32, height: u32 },
    Render,
}

impl View for Request {
    type V = RequestModel;

    open spec fn view(&self) -> RequestModel {
        match self {
            Request::GetRegistry => RequestModel::GetRegistry,
            Request::Sync => RequestModel::Sync,
            Request::Bind { interface, name, version } => RequestModel::Bind {
                interface: *interface,
                name: *name,
                version: *version,
            },
            Request::GetKeyboard => RequestModel::GetKeyboard,
            Request::GetPointer => RequestModel::GetPointer,
            Request::GetTouch => RequestModel::GetTouch,
            Request::CreateVirtualKeyboard => RequestModel::CreateVirtualKeyboard,
            Request::UploadKeymap { size } => RequestModel::UploadKeymap { size: *size },
            Request::Modifiers { depressed, latched, locked, group } => RequestModel::Modifiers {
                depressed: *depressed,
                latched: *latched,
                locked: *locked,
                group: *group,
            },
            Request::Key { time, code, state } => RequestModel::Key { code: *code, state: *state },
            Request::GetInputMethod => RequestModel::GetInputMethod,
            Request::CommitString(text) => RequestModel::CommitString(text@),
            Request::SetPreedit(preedit) => RequestModel::SetPreedit(preedit@),
            Request::DeleteSurroundingText(delete) => RequestModel::DeleteSurroundingText(*delete),
            Request::Commit { serial } => RequestModel::Commit { serial: *serial },
            Request::CreateLayerSurface { layer, namespace } => RequestModel::CreateLayerSurface {
                layer: *layer,
                namespace: namespace@,
            },
            Request::SetSize { width, height } => RequestModel::SetSize {
                width: *width,
                height: *height,
            },
            Request::SetAnchor(anchor) => RequestModel::SetAnchor(*anchor),
            Request::SetExclusiveZone { zone } => RequestModel::SetExclusiveZone { zone: *zone },
            Request::SetKeyboardInteractivity(interactivity) =>
                RequestModel::SetKeyboardInteractivity(*interactivity),
            Request::AckConfigure { serial } => RequestModel::AckConfigure { serial: *serial },
            Request::SetBufferScale { scale } => RequestModel::SetBufferScale { scale: *scale },
            Request::CommitSurface => RequestModel::CommitSurface,
            Request::AllocSlots { width, height } => RequestModel::AllocSlots {
                width: *width,
                height: *height,
            },
            Request::Render => RequestModel::Render,
        }
    }
}

} // verus!
