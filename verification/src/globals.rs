//! The compositor's globals and the ones this client binds.

use vstd::prelude::*;
use wayland_client::protocol::wl_compositor::WlCompositor;
use wayland_client::protocol::wl_seat::WlSeat;
use wayland_client::protocol::wl_shm::WlShm;
use wayland_client::Proxy;
use wayland_protocols::xdg::shell::client::xdg_wm_base::XdgWmBase;
use wayland_protocols_wlr::layer_shell::v1::client::zwlr_layer_shell_v1::ZwlrLayerShellV1;

verus! {

/// A global that the client has a use for.
#[derive(Clone, Copy, Debug, PartialEq, Eq, Structural)]
pub enum GlobalKind {
    /// `zwlr_layer_shell_v1`: gives a surface the layer role.
    LayerShell,
    /// `wl_compositor`: makes surfaces and regions.
    Compositor,
    /// `wl_shm`: makes shared-memory pools.
    Shm,
    /// `xdg_wm_base`: the base shell.
    WmBase,
    /// `wl_seat`: gives access to the pointer.
    Seat,
}

/// The kind that an advertised interface name stands for, if the client knows it.
pub open spec fn interface_kind(interface: Seq<char>) -> Option<GlobalKind> {
    if interface == "zwlr_layer_shell_v1"@ {
        Some(GlobalKind::LayerShell)
    } else if interface == "wl_compositor"@ {
        Some(GlobalKind::Compositor)
    } else if interface == "wl_shm"@ {
        Some(GlobalKind::Shm)
    } else if interface == "xdg_wm_base"@ {
        Some(GlobalKind::WmBase)
    } else if interface == "wl_seat"@ {
        Some(GlobalKind::Seat)
    } else {
        None
    }
}

/// `<ZwlrLayerShellV1 as Proxy>::interface().name`: the name under which the
/// layer shell is advertised, `zwlr_layer_shell_v1` in the protocol description
/// that wayland-protocols-wlr generates its code from.
#[verifier::external_body]
fn layer_shell_interface() -> (name: &'static str)
    ensures
        name@ == "zwlr_layer_shell_v1"@,
{
    ZwlrLayerShellV1::interface().name
}

/// `<WlCompositor as Proxy>::interface().name`: `wl_compositor` in the core
/// protocol description of wayland-client.
#[verifier::external_body]
fn compositor_interface() -> (name: &'static str)
    ensures
        name@ == "wl_compositor"@,
{
    WlCompositor::interface().name
}

/// `<WlShm as Proxy>::interface().name`: `wl_shm` in the core protocol
/// description of wayland-client.
#[verifier::external_body]
fn shm_interface() -> (name: &'static str)
    ensures
        name@ == "wl_shm"@,
{
    WlShm::interface().name
}

/// `<XdgWmBase as Proxy>::interface().name`: `xdg_wm_base` in the xdg-shell
/// protocol description of wayland-protocols.
#[verifier::external_body]
fn wm_base_interface() -> (name: &'static str)
    ensures
        name@ == "xdg_wm_base"@,
{
    XdgWmBase::interface().name
}

/// `<WlSeat as Proxy>::interface().name`: `wl_seat` in the core protocol
/// description of wayland-client.
#[verifier::external_body]
fn seat_interface() -> (name: &'static str)
    ensures
        name@ == "wl_seat"@,
{
    WlSeat::interface().name
}

/// Whether two string slices hold the same characters.
fn same_name(a: &str, b: &str) -> (same: bool)
    ensures
        same == (a@ == b@),
{
    a.to_owned() == b.to_owned()
}

impl GlobalKind {
    /// Recognises an advertised interface by its name. Names that the client
    /// has no use for give `None`.
    pub fn of_interface(interface: &str) -> (kind: Option<GlobalKind>)
        ensures
            kind == interface_kind(interface@),
    {
        if same_name(interface, layer_shell_interface()) {
            Some(GlobalKind::LayerShell)
        } else if same_name(interface, compositor_interface()) {
            Some(GlobalKind::Compositor)
        } else if same_name(interface, shm_interface()) {
            Some(GlobalKind::Shm)
        } else if same_name(interface, wm_base_interface()) {
            Some(GlobalKind::WmBase)
        } else if same_name(interface, seat_interface()) {
            Some(GlobalKind::Seat)
        } else {
            None
        }
    }
}

} // verus!
