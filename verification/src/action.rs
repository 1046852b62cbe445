//! What the client asks of its host: protocol requests, and the two file
//! operations that put the pixels where the compositor can read them.

use crate::globals::GlobalKind;
use vstd::prelude::*;

verus! {

/// Layers of the layer shell, bottom-most first.
#[derive(Clone, Copy, Debug, PartialEq, Eq, Structural)]
pub enum Layer {
    Background,
    Bottom,
    Top,
    Overlay,
}

/// How a layer surface takes part in keyboard focus.
#[derive(Clone, Copy, Debug, PartialEq, Eq, Structural)]
pub enum KeyboardFocus {
    /// The surface never receives keyboard focus.
    Never,
    /// The surface holds keyboard focus while it is mapped.
    Exclusive,
    /// The surface takes focus as an ordinary window would.
    OnDemand,
}

/// Pixel formats of shared-memory buffers.
#[derive(Clone, Copy, Debug, PartialEq, Eq, Structural)]
pub enum PixelFormat {
    /// 32 bits per pixel: alpha, red, green, blue, as one little-endian word.
    Argb8888,
    /// 32 bits per pixel with the top byte ignored.
    Xrgb8888,
}

/// Where the pixels of the buffer are to come from.
#[derive(Clone, Copy, Debug, PartialEq, Eq, Structural)]
pub enum PixelSource {
    /// The configured image file.
    Image,
    /// The procedural crosshair.
    Crosshair,
}

/// One step for the host to carry out. Actions of one list are carried out in
/// order, and before the next event is handled.
#[allow(inconsistent_fields)]
#[derive(Clone, Copy, Debug, PartialEq, Eq, Structural)]
pub enum Action {
    /// Bind the global `name` as `kind`, at `version`.
    Bind { name: u32, version: u32, kind: GlobalKind },
    /// Ask the seat for its pointer.
    GetPointer,
    /// Create the base surface.
    CreateSurface,
    /// Destroy the base surface, and with it the layer surface built on it.
    DestroySurface,
    /// Open the backing file and have the buffer drawn from `source`.
    ProduceBuffer { source: PixelSource },
    /// Write the buffer's bytes to the backing file.
    WritePixels,
    /// Flush the backing file, so that every byte written is in it.
    FlushPixels,
    /// Create a shared-memory pool of `size` bytes over the backing file.
    CreatePool { size: i32 },
    /// Create the buffer from the pool.
    CreateBuffer { offset: i32, width: i32, height: i32, stride: i32, format: PixelFormat },
    /// Give the base surface the layer role, on `layer`, on an output of the
    /// compositor's choice.
    GetLayerSurface { layer: Layer },
    /// Anchor the layer surface to the given edges.
    SetAnchor { top: bool, right: bool, bottom: bool, left: bool },
    /// Set how the layer surface takes part in keyboard focus.
    SetKeyboardInteractivity { focus: KeyboardFocus },
    /// Set the size of the layer surface.
    SetSize { width: u32, height: u32 },
    /// Set the exclusive zone of the layer surface.
    SetExclusiveZone { zone: i32 },
    /// Create an empty region and make it the base surface's input region.
    SetEmptyInputRegion,
    /// Commit the base surface.
    Commit,
    /// Acknowledge the configure event that carried `serial`.
    AckConfigure { serial: u32 },
    /// Attach the buffer to the base surface at `(x, y)`.
    Attach { x: i32, y: i32 },
}

/// Namespace under which the layer surface is created.
pub fn namespace() -> (name: &'static str)
    ensures
        name@ == "crosshair"@,
{
    "crosshair"
}

} // verus!
