//! The compositor's side of the conversation.
//!
//! A request that arrives out of order is a protocol error, and a protocol
//! error ends the connection. `Session` records what the compositor knows of
//! the client's objects, `Session::permits` says which request is in order at
//! which point, and the theorems at the end show that the client never sends
//! one that is not.

use crate::action::Action;
use crate::buffer::Pixels;
use crate::globals::GlobalKind;
use crate::state::{buffer_handover, Event, LayerSurfaceState, StateView};
use vstd::prelude::*;

verus! {

/// How far the backing file of the buffer has come.
pub enum Backing {
    /// There is no file yet.
    Unopened,
    /// The file is open and empty.
    Open,
    /// The pixels are written, perhaps not all of them out of the writer yet.
    Written,
    /// Every byte written is in the file.
    Flushed,
}

/// What the compositor and the file system hold of the client.
pub struct Session {
    pub layer_shell: bool,
    pub compositor: bool,
    pub shm: bool,
    pub wm_base: bool,
    pub seat: bool,
    /// The seat has reported a pointer at some time.
    pub has_pointer: bool,
    /// The seat's pointer has been asked for.
    pub pointer: bool,
    /// A base surface is live.
    pub surface: bool,
    /// The layer role of the live surface and how far its handshake is.
    pub layer_surface: Option<LayerSurfaceState>,
    /// Serials of the configure events sent to the layer surface.
    pub configures: Set<u32>,
    /// A buffer has been attached to the live surface.
    pub attached: bool,
    pub backing: Backing,
    /// Size of the shared-memory pool, once it is created.
    pub pool: Option<i32>,
    /// The buffer object exists.
    pub buffer: bool,
}

impl Session {
    /// The session of a freshly connected client.
    pub open spec fn fresh() -> Session {
        Session {
            layer_shell: false,
            compositor: false,
            shm: false,
            wm_base: false,
            seat: false,
            has_pointer: false,
            pointer: false,
            surface: false,
            layer_surface: None,
            configures: Set::empty(),
            attached: false,
            backing: Backing::Unopened,
            pool: None,
            buffer: false,
        }
    }

    /// Whether a global of this kind is bound.
    pub open spec fn bound(self, kind: GlobalKind) -> bool {
        match kind {
            GlobalKind::LayerShell => self.layer_shell,
            GlobalKind::Compositor => self.compositor,
            GlobalKind::Shm => self.shm,
            GlobalKind::WmBase => self.wm_base,
            GlobalKind::Seat => self.seat,
        }
    }

    /// Whether `action` is in order now.
    ///
    /// A global is bound once. An object is made from the object that makes
    /// it, the pointer only from a seat that has reported one, and a second
    /// base surface is not made while one is live. The file is written, then
    /// flushed, and only then shared. The buffer lies inside the pool. A
    /// surface takes the layer role before anything is attached to it, its
    /// first commit carries no buffer, only a serial that the compositor sent
    /// is acknowledged, and a buffer is attached only once a configure event
    /// has been acknowledged.
    pub open spec fn permits(self, action: Action) -> bool {
        match action {
            Action::Bind { name, version, kind } => !self.bound(kind),
            Action::GetPointer => self.seat && self.has_pointer && !self.pointer,
            Action::CreateSurface => self.compositor && !self.surface,
            Action::DestroySurface => self.surface,
            Action::ProduceBuffer { source } => self.shm && self.backing is Unopened,
            Action::WritePixels => self.backing is Open,
            Action::FlushPixels => self.backing is Written,
            Action::CreatePool { size } => {
                &&& self.shm
                &&& self.backing is Flushed
                &&& self.pool is None
                &&& size >= 0
            },
            Action::CreateBuffer { offset, width, height, stride, format } => {
                &&& self.pool matches Some(size)
                &&& !self.buffer
                &&& offset >= 0
                &&& width >= 0
                &&& height >= 0
                &&& stride >= width * 4
                &&& offset + stride * height <= size
            },
            Action::GetLayerSurface { layer } => {
                &&& self.layer_shell
                &&& self.surface
                &&& self.layer_surface is None
                &&& !self.attached
            },
            Action::SetAnchor { top, right, bottom, left } => self.layer_surface is Some,
            Action::SetKeyboardInteractivity { focus } => self.layer_surface is Some,
            Action::SetSize { width, height } => self.layer_surface is Some,
            Action::SetExclusiveZone { zone } => self.layer_surface is Some,
            Action::SetEmptyInputRegion => self.compositor && self.surface,
            Action::Commit => {
                &&& self.surface
                &&& self.attached ==> self.layer_surface == Some(LayerSurfaceState::Configured)
            },
            Action::AckConfigure { serial } => {
                &&& self.configures.contains(serial)
                &&& self.layer_surface == Some(LayerSurfaceState::AwaitingConfigure)
                    || self.layer_surface == Some(LayerSurfaceState::Configured)
            },
            Action::Attach { x, y } => {
                &&& self.surface
                &&& self.buffer
                &&& self.layer_surface == Some(LayerSurfaceState::Configured)
                &&& x == 0
                &&& y == 0
            },
        }
    }

    /// The session once `action` is carried out.
    pub open spec fn apply(self, action: Action) -> Session {
        match action {
            Action::Bind { name, version, kind } => match kind {
                GlobalKind::LayerShell => Session { layer_shell: true, ..self },
                GlobalKind::Compositor => Session { compositor: true, ..self },
                GlobalKind::Shm => Session { shm: true, ..self },
                GlobalKind::WmBase => Session { wm_base: true, ..self },
                GlobalKind::Seat => Session { seat: true, ..self },
            },
            Action::GetPointer => Session { pointer: true, ..self },
            Action::CreateSurface => Session {
                surface: true,
                layer_surface: None,
                configures: Set::empty(),
                attached: false,
                ..self
            },
            Action::DestroySurface => Session {
                surface: false,
                layer_surface: None,
                configures: Set::empty(),
                attached: false,
                ..self
            },
            Action::ProduceBuffer { source } => Session { backing: Backing::Open, ..self },
            Action::WritePixels => Session { backing: Backing::Written, ..self },
            Action::FlushPixels => Session { backing: Backing::Flushed, ..self },
            Action::CreatePool { size } => Session { pool: Some(size), ..self },
            Action::CreateBuffer { offset, width, height, stride, format } => Session {
                buffer: true,
                ..self
            },
            Action::GetLayerSurface { layer } => Session {
                layer_surface: Some(LayerSurfaceState::Created),
                ..self
            },
            Action::Commit => if self.layer_surface == Some(LayerSurfaceState::Created) {
                Session { layer_surface: Some(LayerSurfaceState::AwaitingConfigure), ..self }
            } else {
                self
            },
            Action::AckConfigure { serial } => Session {
                layer_surface: Some(LayerSurfaceState::Configured),
                ..self
            },
            Action::Attach { x, y } => Session { attached: true, ..self },
            _ => self,
        }
    }

    /// The session after `actions`, carried out in order, or `None` if one of
    /// them was out of order when its turn came.
    pub open spec fn perform(self, actions: Seq<Action>) -> Option<Session>
        decreases actions.len(),
    {
        if actions.len() == 0 {
            Some(self)
        } else {
            match self.perform(actions.drop_last()) {
                Some(earlier) => if earlier.permits(actions.last()) {
                    Some(earlier.apply(actions.last()))
                } else {
                    None
                },
                None => None,
            }
        }
    }

    /// The session once the compositor has sent `event`: a seat that reports
    /// a pointer has one from then on, and the serial of a configure event is
    /// one that can be acknowledged.
    pub open spec fn told(self, event: Event) -> Session {
        match event {
            Event::Capabilities { pointer } => Session {
                has_pointer: self.has_pointer || pointer,
                ..self
            },
            Event::Configure { serial } => Session {
                configures: self.configures.insert(serial),
                ..self
            },
            _ => self,
        }
    }

    /// The session after the compositor has sent `events` to a client in
    /// state `s` and the client has answered each of them, or `None` if one
    /// of its answers was out of order.
    pub open spec fn converse(self, s: StateView, events: Seq<Event>) -> Option<Session>
        decreases events.len(),
    {
        if events.len() == 0 {
            Some(self)
        } else {
            match self.converse(s, events.drop_last()) {
                Some(earlier) => earlier.told(events.last()).perform(
                    s.after_all(events.drop_last()).emits(events.last()),
                ),
                None => None,
            }
        }
    }

    /// Whether the session is the one that a client in state `s` has with its
    /// compositor.
    pub open spec fn mirrors(self, s: StateView) -> bool {
        &&& self.layer_shell == s.layer_shell
        &&& self.compositor == s.compositor
        &&& self.shm == s.shm
        &&& self.wm_base == s.wm_base
        &&& self.seat == s.seat
        &&& self.pointer == s.pointer
        &&& self.surface == s.surface
        &&& self.layer_surface == s.layer_surface
        &&& self.attached ==> self.layer_surface == Some(LayerSurfaceState::Configured)
        &&& !s.shm ==> self.backing is Unopened && self.pool is None && !self.buffer
        &&& s.shm && s.buffer is None ==> self.backing is Open && self.pool is None && !self.buffer
        &&& s.buffer matches Some(buffer) ==> {
            &&& self.backing is Flushed
            &&& self.pool == Some(buffer.size() as i32)
            &&& self.buffer
        }
    }
}

impl StateView {
    /// Whether the compositor can send `event` to a client in this state. It
    /// configures a layer surface only after the commit that asks for it; a
    /// configure event for a layer surface that is gone is not among these.
    pub open spec fn expects(self, event: Event) -> bool {
        event is Configure ==> self.layer_surface is Some
    }

    /// Whether the compositor can send `events`, one after the other.
    pub open spec fn expects_all(self, events: Seq<Event>) -> bool
        decreases events.len(),
    {
        events.len() > 0 ==> self.expects_all(events.drop_last()) && self.after_all(
            events.drop_last(),
        ).expects(events.last())
    }
}

/// One more action in order extends a run of actions in order.
proof fn lemma_one_more(from: Session, done: Seq<Action>, now: Session, action: Action)
    requires
        from.perform(done) == Some(now),
        now.permits(action),
    ensures
        from.perform(done.push(action)) == Some(now.apply(action)),
{
    assert(done.push(action).drop_last() =~= done);
}

/// Runs of actions in order follow one another.
pub proof fn lemma_perform_concat(from: Session, first: Seq<Action>, second: Seq<Action>)
    ensures
        from.perform(first + second) == match from.perform(first) {
            Some(middle) => middle.perform(second),
            None => None,
        },
    decreases second.len(),
{
    if second.len() == 0 {
        assert(first + second =~= first);
    } else {
        lemma_perform_concat(from, first, second.drop_last());
        assert((first + second).drop_last() =~= first + second.drop_last());
        assert((first + second).last() == second.last());
    }
}

/// Setting up the layer surface is in order wherever the client does it: the
/// role is taken by a surface that has nothing attached, the properties are
/// set on the layer surface just made, and the commit that ends the setup
/// carries no buffer.
pub proof fn theorem_setup_in_order(c: Session, s: StateView)
    requires
        s.wf(),
        c.mirrors(s),
        s.can_init(),
    ensures
        c.perform(s.layer_surface_setup()) matches Some(after) && after.mirrors(
            s.with_layer_surface(),
        ),
{
    let setup = s.layer_surface_setup();
    let a0 = setup[0];
    let a1 = setup[1];
    let a2 = setup[2];
    let a3 = setup[3];
    let a4 = setup[4];
    let d0 = Seq::<Action>::empty();
    assert(c.perform(d0) == Some(c));
    lemma_one_more(c, d0, c, a0);
    let c1 = c.apply(a0);
    lemma_one_more(c, d0.push(a0), c1, a1);
    lemma_one_more(c, d0.push(a0).push(a1), c1, a2);
    lemma_one_more(c, d0.push(a0).push(a1).push(a2), c1, a3);
    lemma_one_more(c, d0.push(a0).push(a1).push(a2).push(a3), c1, a4);
    let d5 = d0.push(a0).push(a1).push(a2).push(a3).push(a4);
    if s.variant.click_through() {
        lemma_one_more(c, d5, c1, Action::SetEmptyInputRegion);
        lemma_one_more(c, d5.push(Action::SetEmptyInputRegion), c1, Action::Commit);
        assert(setup =~= d5.push(Action::SetEmptyInputRegion).push(Action::Commit));
    } else {
        lemma_one_more(c, d5, c1, Action::Commit);
        assert(setup =~= d5.push(Action::Commit));
    }
}

/// Handing the buffer over is in order once the buffer is asked for: the
/// bytes are written and flushed before the pool is made over them, the pool
/// has the buffer's size, and the buffer object fills it.
pub proof fn theorem_handover_in_order(c: Session, s: StateView, buffer: Pixels)
    requires
        s.wf(),
        c.mirrors(s),
        s.shm,
        s.buffer is None,
        buffer.wf(),
    ensures
        c.perform(buffer_handover(buffer)) matches Some(after) && after.mirrors(
            s.with_buffer(buffer),
        ),
{
    let handover = buffer_handover(buffer);
    assert((buffer.width * 4) * buffer.height == buffer.width * buffer.height * 4)
        by (nonlinear_arith);
    let d0 = Seq::<Action>::empty();
    assert(c.perform(d0) == Some(c));
    lemma_one_more(c, d0, c, handover[0]);
    let c1 = c.apply(handover[0]);
    lemma_one_more(c, d0.push(handover[0]), c1, handover[1]);
    let c2 = c1.apply(handover[1]);
    lemma_one_more(c, d0.push(handover[0]).push(handover[1]), c2, handover[2]);
    let c3 = c2.apply(handover[2]);
    lemma_one_more(
        c,
        d0.push(handover[0]).push(handover[1]).push(handover[2]),
        c3,
        handover[3],
    );
    assert(handover =~= d0.push(handover[0]).push(handover[1]).push(handover[2]).push(
        handover[3],
    ));
}

/// Whatever the compositor sends, the client answers in order: each action
/// that an event calls for is permitted when its turn comes, and the session
/// that results is the one of the client's new state.
pub proof fn theorem_step_in_order(before: Session, s: StateView, event: Event)
    requires
        s.wf(),
        before.mirrors(s),
        s.expects(event),
    ensures
        before.told(event).perform(s.emits(event)) matches Some(after) && after.mirrors(
            s.after(event),
        ),
{
    let c = before.told(event);
    let actions = s.emits(event);
    let d0 = Seq::<Action>::empty();
    assert(c.perform(d0) == Some(c));
    if actions.len() == 0 {
        assert(actions =~= d0);
    } else if actions[0] == Action::CreateSurface {
        let fresh = StateView { surface: true, layer_surface: None, ..s };
        let create = seq![Action::CreateSurface];
        lemma_one_more(c, d0, c, Action::CreateSurface);
        assert(create =~= d0.push(Action::CreateSurface));
        let c1 = c.apply(Action::CreateSurface);
        if fresh.can_init() {
            theorem_setup_in_order(c1, fresh);
            lemma_perform_concat(c, create, fresh.layer_surface_setup());
        } else {
            assert(actions =~= create);
        }
    } else {
        if let Event::Configure { serial } = event {
            assert(actions =~= if s.surface && s.buffer is Some {
                seq![
                    Action::AckConfigure { serial },
                    Action::Attach { x: 0, y: 0 },
                    Action::Commit,
                ]
            } else {
                seq![Action::AckConfigure { serial }]
            });
            assert(c.layer_surface == Some(LayerSurfaceState::AwaitingConfigure)
                || c.layer_surface == Some(LayerSurfaceState::Configured));
            assert(c.configures.contains(serial));
        }
        lemma_one_more(c, d0, c, actions[0]);
        let c1 = c.apply(actions[0]);
        if actions.len() == 1 {
            assert(actions =~= d0.push(actions[0]));
        } else {
            lemma_one_more(c, d0.push(actions[0]), c1, actions[1]);
            let c2 = c1.apply(actions[1]);
            if actions.len() == 2 {
                assert(actions =~= d0.push(actions[0]).push(actions[1]));
            } else {
                lemma_one_more(c, d0.push(actions[0]).push(actions[1]), c2, actions[2]);
                assert(actions =~= d0.push(actions[0]).push(actions[1]).push(actions[2]));
            }
        }
    }
}

/// A whole run is in order: from a session that mirrors the client's state,
/// every action by which the client answers a batch of events is permitted
/// when its turn comes, and the session at the end is the one of the client's
/// state at the end.
pub proof fn theorem_run_in_order(c: Session, s: StateView, events: Seq<Event>)
    requires
        s.wf(),
        c.mirrors(s),
        s.expects_all(events),
    ensures
        c.converse(s, events) matches Some(after) && after.mirrors(s.after_all(events)),
    decreases events.len(),
{
    if events.len() > 0 {
        let earlier = events.drop_last();
        theorem_run_in_order(c, s, earlier);
        crate::theorems::theorem_batch_keeps_wf(s, earlier);
        let middle = c.converse(s, earlier)->0;
        theorem_step_in_order(middle, s.after_all(earlier), events.last());
    }
}

} // verus!
