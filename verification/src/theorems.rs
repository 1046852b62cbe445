//! What holds of the client whatever the compositor sends.

use crate::action::{Action, PixelFormat};
use crate::buffer::{lemma_pixel_in_bounds, Pixels};
use crate::crosshair::{crosshair_distance, crosshair_intensity, crosshair_word, FRINGE, STROKE};
use crate::globals::{interface_kind, GlobalKind};
use crate::pixel::{argb_word, word_bytes, word_of_bytes};
use crate::session::Session;
use crate::state::{
    buffer_handover, draw_error, Event, LayerSurfaceState, PointerEvent, StateView, Variant,
};
use vstd::arithmetic::div_mod::{
    lemma_div_pos_is_pos, lemma_fundamental_div_mod, lemma_mod_bound, lemma_multiply_divide_lt,
};
use vstd::prelude::*;

verus! {

/// Interfaces are told apart by name: each of the five names stands for its
/// kind, and no other name stands for any.
pub proof fn theorem_known_interfaces()
    ensures
        interface_kind("zwlr_layer_shell_v1"@) == Some(GlobalKind::LayerShell),
        interface_kind("wl_compositor"@) == Some(GlobalKind::Compositor),
        interface_kind("wl_shm"@) == Some(GlobalKind::Shm),
        interface_kind("xdg_wm_base"@) == Some(GlobalKind::WmBase),
        interface_kind("wl_seat"@) == Some(GlobalKind::Seat),
        forall|name: Seq<char>|
            interface_kind(name) is Some ==> name == "zwlr_layer_shell_v1"@ || name
                == "wl_compositor"@ || name == "wl_shm"@ || name == "xdg_wm_base"@ || name
                == "wl_seat"@,
{
    reveal_strlit("zwlr_layer_shell_v1");
    reveal_strlit("wl_compositor");
    reveal_strlit("wl_shm");
    reveal_strlit("xdg_wm_base");
    reveal_strlit("wl_seat");
    assert("zwlr_layer_shell_v1"@.len() == 19);
    assert("wl_compositor"@.len() == 13);
    assert("wl_shm"@.len() == 6);
    assert("xdg_wm_base"@.len() == 11);
    assert("wl_seat"@.len() == 7);
}

/// Every event leaves a well-formed state well formed.
pub proof fn theorem_step_keeps_wf(s: StateView, event: Event)
    requires
        s.wf(),
    ensures
        s.after(event).wf(),
{
}

/// Every batch of events leaves a well-formed state well formed.
pub proof fn theorem_batch_keeps_wf(s: StateView, events: Seq<Event>)
    requires
        s.wf(),
    ensures
        s.after_all(events).wf(),
    decreases events.len(),
{
    if events.len() > 0 {
        theorem_batch_keeps_wf(s, events.drop_last());
        theorem_step_keeps_wf(s.after_all(events.drop_last()), events.last());
    }
}

/// The pool is exactly as large as the buffer: `width * height * 4` bytes,
/// which is what was written. The buffer object starts at offset 0 and spans
/// the pool, in rows of `width * 4` bytes.
pub proof fn theorem_pool_matches_buffer(buffer: Pixels)
    requires
        buffer.wf(),
    ensures
        buffer.bytes.len() == buffer.width * buffer.height * 4,
        buffer_handover(buffer) == seq![
            Action::WritePixels,
            Action::FlushPixels,
            Action::CreatePool { size: buffer.bytes.len() as i32 },
            Action::CreateBuffer {
                offset: 0,
                width: buffer.width as i32,
                height: buffer.height as i32,
                stride: (buffer.width * 4) as i32,
                format: PixelFormat::Argb8888,
            },
        ],
        buffer.bytes.len() as i32 == buffer.bytes.len(),
        (buffer.width * 4) as i32 * buffer.height as i32 == buffer.bytes.len(),
{
    assert((buffer.width * 4) * buffer.height == buffer.width * buffer.height * 4)
        by (nonlinear_arith);
}

/// From the shared-memory global to the buffer. Where shared memory is not
/// bound yet, its global is bound and the buffer asked for. Drawing a buffer
/// of dimensions that fit then succeeds, and what follows is: the bytes
/// written, the file flushed, one pool of `width * height * 4` bytes, which is
/// the length of what was written, and one buffer at offset 0 with the
/// buffer's width and height and a stride of `width * 4`, in ARGB. Every
/// number handed over fits a signed 32-bit number, and is positive where width
/// and height are. The state keeps the buffer and takes its size.
pub proof fn theorem_shm_to_buffer(s: StateView, name: u32, version: u32, buffer: Pixels)
    requires
        s.wf(),
        !s.shm,
        buffer.wf(),
    ensures
        ({
            let global = Event::Global { name, kind: Some(GlobalKind::Shm), version };
            let bound = s.after(global);
            let drawn = bound.with_buffer(buffer);
            let size = buffer.width * buffer.height * 4;
            &&& s.emits(global) == seq![
                Action::Bind { name, version, kind: GlobalKind::Shm },
                Action::ProduceBuffer { source: s.variant.source() },
            ]
            &&& bound.shm
            &&& bound.buffer is None
            &&& draw_error(bound, false, buffer.width, buffer.height) is None
            &&& buffer_handover(buffer) == seq![
                Action::WritePixels,
                Action::FlushPixels,
                Action::CreatePool { size: size as i32 },
                Action::CreateBuffer {
                    offset: 0,
                    width: buffer.width as i32,
                    height: buffer.height as i32,
                    stride: (buffer.width * 4) as i32,
                    format: PixelFormat::Argb8888,
                },
            ]
            &&& size == buffer.bytes.len()
            &&& 0 <= size <= i32::MAX
            &&& 0 <= buffer.width * 4 <= i32::MAX
            &&& buffer.width <= i32::MAX
            &&& buffer.height <= i32::MAX
            &&& buffer.width >= 1 && buffer.height >= 1 ==> size >= 4
            &&& drawn.buffer == Some(buffer)
            &&& drawn.cursor_width == buffer.width
            &&& drawn.cursor_height == buffer.height
            &&& drawn.wf()
        }),
{
    assert(buffer.width >= 1 && buffer.height >= 1 ==> buffer.width * buffer.height * 4 >= 4)
        by (nonlinear_arith);
    assert(0 <= buffer.width * buffer.height * 4) by (nonlinear_arith);
}

/// Whether an action makes, fills or shares the pixel buffer.
pub open spec fn touches_buffer(action: Action) -> bool {
    ||| action is ProduceBuffer
    ||| action is WritePixels
    ||| action is FlushPixels
    ||| action is CreatePool
    ||| action is CreateBuffer
}

/// Setting up the layer surface leaves the buffer alone: the state after it
/// differs from the state before in the layer surface and in nothing else,
/// and none of its actions makes, fills or shares the buffer.
pub proof fn theorem_setup_keeps_buffer(s: StateView)
    ensures
        s.with_layer_surface() == (StateView {
            layer_surface: Some(LayerSurfaceState::AwaitingConfigure),
            ..s
        }),
        s.with_layer_surface().buffer == s.buffer,
        s.with_layer_surface().cursor_width == s.cursor_width,
        s.with_layer_surface().cursor_height == s.cursor_height,
        s.with_layer_surface().running == s.running,
        s.with_layer_surface().surface == s.surface,
        forall|kind: GlobalKind| s.with_layer_surface().bound(kind) == s.bound(kind),
        forall|i: int|
            0 <= i < s.layer_surface_setup().len() ==> !touches_buffer(
                #[trigger] s.layer_surface_setup()[i],
            ),
{
    let setup = s.layer_surface_setup();
    let head = seq![
        Action::GetLayerSurface { layer: crate::action::Layer::Overlay },
        Action::SetAnchor { top: true, right: true, bottom: true, left: true },
        Action::SetKeyboardInteractivity { focus: crate::action::KeyboardFocus::Never },
        Action::SetSize { width: s.cursor_width, height: s.cursor_height },
        Action::SetExclusiveZone { zone: crate::state::EXCLUSIVE_ZONE },
    ];
    if s.variant.click_through() {
        assert(setup =~= head + seq![Action::SetEmptyInputRegion, Action::Commit]);
    } else {
        assert(setup =~= head + seq![Action::Commit]);
    }
}

/// What the pointer does to the overlay. In the pointer-aware variant,
/// entering destroys the live surface, once, and leaves none, with no layer
/// surface; leaving creates one surface where the compositor is bound and
/// none is live, and never a second; motion, button, axis and frame ask for
/// nothing and change nothing. The image-driven variant does not react to the
/// pointer at all. Whatever the event, at most one surface is live after it.
pub proof fn theorem_pointer_events(s: StateView, event: PointerEvent)
    requires
        s.wf(),
    ensures
        ({
            let after = s.after(Event::Pointer { event });
            let actions = s.emits(Event::Pointer { event });
            &&& after.wf()
            &&& 0 <= after.surfaces() <= 1
            &&& !s.variant.follows_pointer() ==> after == s && actions == Seq::<Action>::empty()
            &&& s.variant.follows_pointer() ==> match event {
                PointerEvent::Enter => {
                    &&& after.surfaces() == 0
                    &&& after.layer_surface is None
                    &&& actions == if s.surface {
                        seq![Action::DestroySurface]
                    } else {
                        Seq::<Action>::empty()
                    }
                },
                PointerEvent::Leave => {
                    &&& s.compositor ==> after.surfaces() == 1
                    &&& s.surface || !s.compositor ==> after == s && actions == Seq::<
                        Action,
                    >::empty()
                    &&& !s.surface && s.compositor ==> actions[0] == Action::CreateSurface
                        && surfaces_after(0, actions) == 1
                },
                _ => after == s && actions == Seq::<Action>::empty(),
            }
        }),
{
    if event == PointerEvent::Leave && s.reappears() {
        theorem_step_one_surface(
            s,
            Event::Pointer { event },
            s.emits(Event::Pointer { event }).len() as int,
        );
    }
}

/// The shape of the crosshair. Left of and at the middle column a pixel is
/// lit exactly when `x + y - height` is -1, 0 or 1; right of it exactly when
/// `y - x` is. A lit pixel has intensity `0xff` at distance 0 and `0x88` at
/// distance 1. Alpha, red, green and blue all hold the intensity.
pub proof fn theorem_crosshair_shape(width: u32, height: u32, x: u32, y: u32)
    ensures
        ({
            let v = crosshair_intensity(
                crosshair_distance(width as int, height as int, x as int, y as int),
            );
            &&& x <= width / 2 ==> (v != 0 <==> -1 <= x + y - height <= 1)
            &&& x <= width / 2 ==> (v == STROKE <==> x + y - height == 0)
            &&& x <= width / 2 ==> (v == FRINGE <==> x + y - height == 1 || x + y - height == -1)
            &&& x > width / 2 ==> (v != 0 <==> -1 <= y - x <= 1)
            &&& x > width / 2 ==> (v == STROKE <==> y - x == 0)
            &&& x > width / 2 ==> (v == FRINGE <==> y - x == 1 || y - x == -1)
            &&& v == STROKE || v == FRINGE || v == 0
            &&& crosshair_word(width as int, height as int, x as int, y as int) == argb_word(
                v,
                v,
                v,
                v,
            )
            &&& word_bytes(crosshair_word(width as int, height as int, x as int, y as int))
                == seq![v, v, v, v]
        }),
{
    let v = crosshair_intensity(crosshair_distance(width as int, height as int, x as int, y as int));
    crate::pixel::lemma_argb_word_bytes(v, v, v, v);
}

/// Two runs of four bytes that make the same word are the same bytes.
proof fn lemma_same_word_same_bytes(a0: u8, a1: u8, a2: u8, a3: u8, b0: u8, b1: u8, b2: u8, b3: u8)
    requires
        word_of_bytes(a0, a1, a2, a3) == word_of_bytes(b0, b1, b2, b3),
    ensures
        a0 == b0,
        a1 == b1,
        a2 == b2,
        a3 == b3,
{
    assert(a0 == b0 && a1 == b1 && a2 == b2 && a3 == b3) by (bit_vector)
        requires
            (a0 as u32) | ((a1 as u32) << 8) | ((a2 as u32) << 16) | ((a3 as u32) << 24) == (
            b0 as u32) | ((b1 as u32) << 8) | ((b2 as u32) << 16) | ((b3 as u32) << 24),
    ;
}

/// The pixels determine the bytes: two well-formed buffers of the same
/// dimensions in which every pixel holds the same word hold the same bytes.
/// So a buffer painted from a given source is one buffer and no other.
pub proof fn theorem_pixels_determine_bytes(a: Pixels, b: Pixels, f: spec_fn(int, int) -> u32)
    requires
        a.wf(),
        b.wf(),
        a.width == b.width,
        a.height == b.height,
        a.painted(f),
        b.painted(f),
    ensures
        a == b,
{
    let width = a.width as int;
    let height = a.height as int;
    assert forall|i: int| 0 <= i < a.bytes.len() implies a.bytes[i] == b.bytes[i] by {
        let n = i / 4;
        assert(width > 0) by (nonlinear_arith)
            requires
                0 <= width,
                0 < width * height * 4,
        ;
        let y = n / width;
        let x = n % width;
        lemma_fundamental_div_mod(n, width);
        lemma_mod_bound(n, width);
        lemma_div_pos_is_pos(n, width);
        lemma_multiply_divide_lt(n, width, height);
        assert(y * width == width * y) by (nonlinear_arith);
        assert(a.pixel(x, y) == f(x, y));
        assert(b.pixel(x, y) == f(x, y));
        lemma_same_word_same_bytes(
            a.bytes[4 * n],
            a.bytes[4 * n + 1],
            a.bytes[4 * n + 2],
            a.bytes[4 * n + 3],
            b.bytes[4 * n],
            b.bytes[4 * n + 1],
            b.bytes[4 * n + 2],
            b.bytes[4 * n + 3],
        );
    }
    assert(a.bytes =~= b.bytes);
}

/// Four bytes make the word of one grey level only if each of them is that level.
proof fn lemma_grey_bytes(b0: u8, b1: u8, b2: u8, b3: u8, v: u8)
    requires
        word_of_bytes(b0, b1, b2, b3) == argb_word(v, v, v, v),
    ensures
        b0 == v,
        b1 == v,
        b2 == v,
        b3 == v,
{
    assert(b0 == v && b1 == v && b2 == v && b3 == v) by (bit_vector)
        requires
            (b0 as u32) | ((b1 as u32) << 8) | ((b2 as u32) << 16) | ((b3 as u32) << 24) == ((
            v as u32) << 24) | ((v as u32) << 16) | ((v as u32) << 8) | (v as u32),
    ;
}

/// In a buffer that holds the crosshair, the four bytes of every pixel each
/// hold that pixel's intensity.
pub proof fn theorem_crosshair_bytes(buffer: Pixels, x: int, y: int)
    requires
        buffer.wf(),
        buffer.painted(
            |x: int, y: int| crosshair_word(buffer.width as int, buffer.height as int, x, y),
        ),
        0 <= x < buffer.width,
        0 <= y < buffer.height,
    ensures
        ({
            let v = crosshair_intensity(
                crosshair_distance(buffer.width as int, buffer.height as int, x, y),
            );
            let at = 4 * (y * buffer.width + x);
            &&& 0 <= at
            &&& at + 3 < buffer.bytes.len()
            &&& buffer.bytes[at] == v
            &&& buffer.bytes[at + 1] == v
            &&& buffer.bytes[at + 2] == v
            &&& buffer.bytes[at + 3] == v
        }),
{
    let v = crosshair_intensity(crosshair_distance(buffer.width as int, buffer.height as int, x, y));
    let at = 4 * (y * buffer.width + x);
    lemma_pixel_in_bounds(buffer.width as int, buffer.height as int, x, y);
    assert(buffer.pixel(x, y) == crosshair_word(buffer.width as int, buffer.height as int, x, y));
    lemma_grey_bytes(
        buffer.bytes[at],
        buffer.bytes[at + 1],
        buffer.bytes[at + 2],
        buffer.bytes[at + 3],
        v,
    );
}

/// No event touches the buffer, the size, the variant or the running flag:
/// once drawn, the pixels stay as they are through every bind, configure and
/// hover.
pub proof fn theorem_step_keeps_buffer(s: StateView, event: Event)
    ensures
        s.after(event).buffer == s.buffer,
        s.after(event).cursor_width == s.cursor_width,
        s.after(event).cursor_height == s.cursor_height,
        s.after(event).variant == s.variant,
        s.after(event).running == s.running,
{
}

/// No batch of events touches the buffer, the size, the variant or the
/// running flag.
pub proof fn theorem_batch_keeps_buffer(s: StateView, events: Seq<Event>)
    ensures
        s.after_all(events).buffer == s.buffer,
        s.after_all(events).cursor_width == s.cursor_width,
        s.after_all(events).cursor_height == s.cursor_height,
        s.after_all(events).variant == s.variant,
        s.after_all(events).running == s.running,
    decreases events.len(),
{
    if events.len() > 0 {
        theorem_batch_keeps_buffer(s, events.drop_last());
        theorem_step_keeps_buffer(s.after_all(events.drop_last()), events.last());
    }
}

/// A global is bound at most once. While a kind is bound, a further global
/// of that kind changes nothing and calls for nothing, and so does every
/// global whose interface the client does not know. A global that is accepted
/// is bound first of all, at the advertised version, the base shell at
/// version 1.
pub proof fn theorem_bind_once(s: StateView, name: u32, kind: GlobalKind, version: u32)
    ensures
        s.bound(kind) ==> s.after(Event::Global { name, kind: Some(kind), version }) == s
            && s.emits(Event::Global { name, kind: Some(kind), version }) == Seq::<Action>::empty(),
        s.after(Event::Global { name, kind: None, version }) == s,
        s.emits(Event::Global { name, kind: None, version }) == Seq::<Action>::empty(),
        s.accepts(kind) ==> s.after(Event::Global { name, kind: Some(kind), version }).bound(kind)
            && s.emits(Event::Global { name, kind: Some(kind), version })[0] == (Action::Bind {
            name,
            version: if kind == GlobalKind::WmBase {
                1
            } else {
                version
            },
            kind,
        }),
{
}

/// A binding, once made, stays: no event unbinds a global.
pub proof fn theorem_binding_stays(s: StateView, kind: GlobalKind, event: Event)
    requires
        s.bound(kind),
    ensures
        s.after(event).bound(kind),
{
}

/// A client that has seen no event is well formed, and the session of a
/// fresh connection is its session.
pub proof fn theorem_initial(variant: Variant, width: u32, height: u32)
    ensures
        StateView::initial(variant, width, height).wf(),
        Session::fresh().mirrors(StateView::initial(variant, width, height)),
        !StateView::initial(variant, width, height).ready(),
        StateView::initial(variant, width, height).surfaces() == 0,
{
}

/// A surface is shown again with the pixels it had: when the overlay is
/// configured, hidden, brought back and configured again, both configure
/// events are answered by acknowledging, attaching and committing, and the
/// buffer attached the second time is the buffer attached the first time.
pub proof fn theorem_same_pixels_after_hover(s: StateView, first: u32, second: u32)
    requires
        s.wf(),
        s.variant.follows_pointer(),
        s.surface,
        s.buffer is Some,
    ensures
        ({
            let enter = Event::Pointer { event: PointerEvent::Enter };
            let leave = Event::Pointer { event: PointerEvent::Leave };
            let shown = s.after(Event::Configure { serial: first });
            let back = shown.after(enter).after(leave);
            &&& s.emits(Event::Configure { serial: first }) == seq![
                Action::AckConfigure { serial: first },
                Action::Attach { x: 0, y: 0 },
                Action::Commit,
            ]
            &&& back.emits(Event::Configure { serial: second }) == seq![
                Action::AckConfigure { serial: second },
                Action::Attach { x: 0, y: 0 },
                Action::Commit,
            ]
            &&& shown.buffer == s.buffer
            &&& back.buffer == s.buffer
            &&& back.after(Event::Configure { serial: second }).buffer == s.buffer
        }),
{
}

/// The configure events that carry `serials`, in order.
pub open spec fn configures(serials: Seq<u32>) -> Seq<Event> {
    Seq::new(serials.len(), |i: int| Event::Configure { serial: serials[i] })
}

/// Every configure event of a run is answered on its own: with a surface
/// live and the buffer drawn, the `i`-th of them is acknowledged with its own
/// serial, once, and followed by one attach and one commit, and nothing else
/// is asked for. The buffer is the same throughout, and after the first event
/// the state no longer changes.
pub proof fn theorem_configure_each(s: StateView, serials: Seq<u32>)
    requires
        s.wf(),
        s.surface,
        s.buffer is Some,
    ensures
        s.emits_all(configures(serials)).len() == 3 * serials.len(),
        forall|i: int|
            0 <= i < serials.len() ==> {
                &&& #[trigger] s.emits_all(configures(serials))[3 * i] == (Action::AckConfigure {
                    serial: serials[i],
                })
                &&& s.emits_all(configures(serials))[3 * i + 1] == (Action::Attach { x: 0, y: 0 })
                &&& s.emits_all(configures(serials))[3 * i + 2] == Action::Commit
            },
        serials.len() > 0 ==> s.after_all(configures(serials)) == s.configured(),
        s.after_all(configures(serials)).buffer == s.buffer,
        s.configured().configured() == s.configured(),
    decreases serials.len(),
{
    let events = configures(serials);
    if serials.len() > 0 {
        let shorter = serials.drop_last();
        theorem_configure_each(s, shorter);
        assert(events.drop_last() =~= configures(shorter));
        assert(events.last() == Event::Configure { serial: serials.last() });
        let before = s.after_all(configures(shorter));
        assert(before.surface && before.buffer is Some) by {
            if shorter.len() == 0 {
                assert(before == s);
            } else {
                assert(before == s.configured());
            }
        }
        let trace = s.emits_all(events);
        assert(trace =~= s.emits_all(configures(shorter)) + seq![
            Action::AckConfigure { serial: serials.last() },
            Action::Attach { x: 0, y: 0 },
            Action::Commit,
        ]);
        assert forall|i: int| 0 <= i < serials.len() implies {
            &&& #[trigger] trace[3 * i] == (Action::AckConfigure { serial: serials[i] })
            &&& trace[3 * i + 1] == (Action::Attach { x: 0, y: 0 })
            &&& trace[3 * i + 2] == Action::Commit
        } by {
            if i < shorter.len() {
                assert(s.emits_all(configures(shorter))[3 * i] == (Action::AckConfigure {
                    serial: shorter[i],
                }));
            }
        }
    }
}

/// Base surfaces live after `actions`, where `live` were before.
pub open spec fn surfaces_after(live: int, actions: Seq<Action>) -> int
    decreases actions.len(),
{
    if actions.len() == 0 {
        live
    } else {
        let before = surfaces_after(live, actions.drop_last());
        match actions.last() {
            Action::CreateSurface => before + 1,
            Action::DestroySurface => before - 1,
            _ => before,
        }
    }
}

proof fn lemma_surfaces_concat(live: int, first: Seq<Action>, second: Seq<Action>)
    ensures
        surfaces_after(live, first + second) == surfaces_after(
            surfaces_after(live, first),
            second,
        ),
    decreases second.len(),
{
    if second.len() == 0 {
        assert(first + second =~= first);
    } else {
        lemma_surfaces_concat(live, first, second.drop_last());
        assert((first + second).drop_last() =~= first + second.drop_last());
        assert((first + second).last() == second.last());
    }
}

proof fn lemma_surfaces_unchanged(live: int, actions: Seq<Action>)
    requires
        forall|i: int|
            0 <= i < actions.len() ==> #[trigger] actions[i] != Action::CreateSurface && actions[i]
                != Action::DestroySurface,
    ensures
        surfaces_after(live, actions) == live,
    decreases actions.len(),
{
    if actions.len() > 0 {
        lemma_surfaces_unchanged(live, actions.drop_last());
    }
}

/// At most one base surface is live at any moment of a step: whatever the
/// event, after each of the actions it calls for there is one live surface
/// or none, and after the last of them as many as the new state records.
pub proof fn theorem_step_one_surface(s: StateView, event: Event, k: int)
    requires
        s.wf(),
        0 <= k <= s.emits(event).len(),
    ensures
        0 <= surfaces_after(s.surfaces(), s.emits(event).take(k)) <= 1,
        surfaces_after(s.surfaces(), s.emits(event)) == s.after(event).surfaces(),
{
    let actions = s.emits(event);
    let create = seq![Action::CreateSurface];
    let destroy = seq![Action::DestroySurface];
    assert(surfaces_after(s.surfaces(), create) == s.surfaces() + 1) by {
        assert(create.drop_last() =~= Seq::<Action>::empty());
        assert(surfaces_after(s.surfaces(), create.drop_last()) == s.surfaces());
    }
    assert(surfaces_after(s.surfaces(), destroy) == s.surfaces() - 1) by {
        assert(destroy.drop_last() =~= Seq::<Action>::empty());
        assert(surfaces_after(s.surfaces(), destroy.drop_last()) == s.surfaces());
    }
    assert(actions.take(0) =~= Seq::<Action>::empty());
    assert(actions.take(actions.len() as int) =~= actions);
    if actions.len() > 0 && actions[0] == Action::CreateSurface {
        // The overlay is brought back: one creation, then the setup.
        let rest = actions.skip(1);
        assert(actions =~= create + rest);
        lemma_surfaces_unchanged(s.surfaces() + 1, rest);
        lemma_surfaces_concat(s.surfaces(), create, rest);
        if k > 0 {
            assert(actions.take(k) =~= create + rest.take(k - 1));
            lemma_surfaces_unchanged(s.surfaces() + 1, rest.take(k - 1));
            lemma_surfaces_concat(s.surfaces(), create, rest.take(k - 1));
        }
    } else if actions.len() > 0 && actions[0] == Action::DestroySurface {
        assert(actions =~= destroy);
        if k > 0 {
            assert(actions.take(k) =~= destroy);
        }
    } else if actions.len() > 1 && actions[1] == Action::CreateSurface {
        // The compositor is bound: the binding, then the first surface.
        let bind = seq![actions[0]];
        assert(actions =~= bind + create);
        lemma_surfaces_unchanged(s.surfaces(), bind);
        lemma_surfaces_concat(s.surfaces(), bind, create);
        if k == 1 {
            assert(actions.take(k) =~= bind);
        } else if k == 2 {
            assert(actions.take(k) =~= actions);
        }
    } else {
        lemma_surfaces_unchanged(s.surfaces(), actions);
        lemma_surfaces_unchanged(s.surfaces(), actions.take(k));
    }
}

/// At most one base surface is live at any moment of a run: whatever the
/// batch of events, after each of the actions it calls for there is one live
/// surface or none, and at the end as many as the state records.
pub proof fn theorem_one_surface(s: StateView, events: Seq<Event>, k: int)
    requires
        s.wf(),
        0 <= k <= s.emits_all(events).len(),
    ensures
        0 <= surfaces_after(s.surfaces(), s.emits_all(events).take(k)) <= 1,
        surfaces_after(s.surfaces(), s.emits_all(events)) == s.after_all(events).surfaces(),
    decreases events.len(),
{
    let trace = s.emits_all(events);
    if events.len() == 0 {
        assert(trace.take(k) =~= trace);
    } else {
        let earlier = s.emits_all(events.drop_last());
        let middle = s.after_all(events.drop_last());
        let last = middle.emits(events.last());
        theorem_batch_keeps_wf(s, events.drop_last());
        theorem_one_surface(s, events.drop_last(), earlier.len() as int);
        assert(earlier.take(earlier.len() as int) =~= earlier);
        theorem_step_one_surface(middle, events.last(), last.len() as int);
        lemma_surfaces_concat(s.surfaces(), earlier, last);
        if k <= earlier.len() {
            theorem_one_surface(s, events.drop_last(), k);
            assert(trace.take(k) =~= earlier.take(k));
        } else {
            let part = last.take(k - earlier.len());
            theorem_step_one_surface(middle, events.last(), k - earlier.len());
            assert(trace.take(k) =~= earlier + part);
            lemma_surfaces_concat(s.surfaces(), earlier, part);
        }
    }
}

/// Hovering: when the pointer enters the overlay and leaves again before the
/// compositor configures anything, what is left is one live surface whose
/// layer surface was committed and awaits its configure event. Nothing is
/// mapped until that event arrives: every other event leaves it so, and the
/// configure event maps it.
pub proof fn theorem_hover(s: StateView, next: Event)
    requires
        s.wf(),
        s.variant.follows_pointer(),
        s.surface,
        s.layer_shell,
    ensures
        ({
            let enter = Event::Pointer { event: PointerEvent::Enter };
            let leave = Event::Pointer { event: PointerEvent::Leave };
            let gone = s.after(enter);
            let back = gone.after(leave);
            &&& s.emits(enter) == seq![Action::DestroySurface]
            &&& gone.surfaces() == 0
            &&& gone.layer_surface is None
            &&& gone.emits(leave) == seq![Action::CreateSurface] + back.layer_surface_setup()
            &&& back.surfaces() == 1
            &&& back.layer_surface == Some(LayerSurfaceState::AwaitingConfigure)
            &&& !back.mapped()
            &&& next is Configure ==> back.after(next).mapped() && back.after(next).surfaces() == 1
            &&& !(next is Configure) ==> !back.after(next).mapped()
        }),
{
}

/// A layer surface is mapped by a configure event and by nothing else.
pub proof fn theorem_mapped_by_configure(s: StateView, event: Event)
    requires
        !s.mapped(),
        s.after(event).mapped(),
    ensures
        event is Configure,
        s.layer_surface is Some,
{
}

} // verus!
