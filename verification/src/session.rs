//! The backend session manager. Sessions are stored in an explicit
//! registry, keyed by opaque nonzero handles that are issued in increasing
//! order and never reused. At most one session may be running its event
//! loop at any instant: entering the loop consumes the session out of
//! storage and marks its handle as current, so no other handle passes
//! validation until it is returned.
//!
//! Every handle-scoped operation validates its handle the same way: a zero
//! handle is a null-pointer error; a handle that is neither stored nor the
//! currently running one is an illegal-state error; a stored handle is
//! refused while a different handle is running, because only one session
//! may run its loop at a time.

use vstd::prelude::*;

use crate::error::RoastError;
use crate::renderer::RoastRenderer;
use crate::swapchain::VulkanState;

verus! {

/// How the window is made fullscreen, if at all.
#[derive(Clone, Copy, PartialEq, Eq, Structural, Debug)]
pub enum FullscreenMode {
    /// An ordinary window.
    Windowed,
    /// A borderless window covering the monitor.
    Borderless,
    /// Exclusive fullscreen.
    Exclusive,
}

/// What the host asks of the renderer at initialization. The window size
/// is a fraction of the display size per axis, carried as double bit
/// patterns; the backend only forwards them.
#[derive(Clone, Copy, PartialEq, Eq, Debug)]
pub struct RendererSettings {
    /// Window size as a fraction of the display, per axis.
    pub renderer_size: (u64, u64),
    /// Fullscreen mode.
    pub fullscreen_mode: FullscreenMode,
    /// Whether the window is transparent.
    pub transparent: bool,
}

/// One live backend instance: its settings and its renderer.
pub struct Roast {
    /// The settings the session was initialized with.
    pub settings: RendererSettings,
    /// The renderer, with its registries and swapchain state.
    pub renderer: RoastRenderer,
}

/// An event the windowing system delivered to the running session.
#[derive(Clone, Copy, PartialEq, Eq, Debug)]
pub enum BackendEvent {
    /// The window was asked to close.
    CloseRequested,
    /// The window was resized to this pixel extent.
    Resized { width: u32, height: u32 },
    /// All input events of this iteration were dispatched.
    MainEventsCleared,
    /// Anything else.
    Other,
}

/// What the event loop must do after an event was handled.
#[derive(Clone, Copy, PartialEq, Eq, Structural, Debug)]
pub enum EventAction {
    /// Leave the event loop.
    Stop,
    /// Begin a GUI frame and invoke the host's per-frame callback.
    RunStep,
    /// Nothing beyond the handling already done.
    Ignore,
}

impl Roast {
    /// A new session over a constructed renderer.
    pub fn new(settings: RendererSettings, renderer: RoastRenderer) -> (r: Roast)
        ensures
            r.settings == settings,
            r.renderer == renderer,
    {
        Roast { settings, renderer }
    }

    /// Decides how one event of the loop is handled: a close request stops
    /// the loop, a resize records the new surface extent and requests
    /// swapchain recreation, and the events-cleared marker triggers the
    /// per-frame step. Nothing else changes any state.
    pub fn handle_event(&mut self, event: BackendEvent) -> (a: EventAction)
        ensures
            final(self).settings == old(self).settings,
            final(self).renderer.textures == old(self).renderer.textures,
            final(self).renderer.meshes == old(self).renderer.meshes,
            final(self).renderer.default_texture == old(self).renderer.default_texture,
            match event {
                BackendEvent::CloseRequested => a == EventAction::Stop
                    && *final(self) == *old(self),
                BackendEvent::Resized { width, height } => a == EventAction::Ignore
                    && final(self).renderer.vulkan == (VulkanState {
                    surface_extent: (width, height),
                    should_recreate: true,
                    ..old(self).renderer.vulkan
                }),
                BackendEvent::MainEventsCleared => a == EventAction::RunStep
                    && *final(self) == *old(self),
                BackendEvent::Other => a == EventAction::Ignore && *final(self) == *old(self),
            },
    {
        match event {
            BackendEvent::CloseRequested => EventAction::Stop,
            BackendEvent::Resized { width, height } => {
                self.renderer.vulkan.set_surface_extent(width, height);
                self.renderer.vulkan.request_recreate_swapchain();
                EventAction::Ignore
            },
            BackendEvent::MainEventsCleared => EventAction::RunStep,
            BackendEvent::Other => EventAction::Ignore,
        }
    }

    /// The surface's current pixel size.
    pub fn get_surface_size(&self) -> (r: (u32, u32))
        ensures
            r == self.renderer.vulkan.surface_extent,
    {
        self.renderer.vulkan.surface_extent
    }
}

/// The session registry: storage slots by handle, and the handle of the
/// session currently running its event loop, if any. Handle `h` lives in
/// slot `h - 1`; zero is never issued, so it can stand for null.
pub struct BackendStorage {
    slots: Vec<Option<Roast>>,
    current: Option<u64>,
}

impl BackendStorage {
    /// The storage slots, by issued handle minus one.
    pub closed spec fn slots_spec(&self) -> Seq<Option<Roast>> {
        self.slots@
    }

    /// The handle of the running session, if one is running.
    pub closed spec fn current_spec(&self) -> Option<u64> {
        self.current
    }

    /// Whether `h` was ever issued.
    pub open spec fn handle_issued(&self, h: u64) -> bool {
        1 <= h <= self.slots_spec().len()
    }

    /// Whether `h` names a session at rest in storage.
    pub open spec fn stored(&self, h: u64) -> bool {
        self.handle_issued(h) && self.slots_spec()[h - 1] is Some
    }

    /// The complete validation contract for a handle-scoped call: the
    /// handle is nonzero, and either no session is running and the handle
    /// is stored, or the handle is exactly the running one.
    pub open spec fn check_ok_spec(&self, this: u64) -> bool {
        &&& this != 0
        &&& match self.current_spec() {
            None => self.stored(this),
            Some(running) => this == running,
        }
    }

    /// An empty registry: no sessions, nothing running.
    pub fn new() -> (r: BackendStorage)
        ensures
            r.slots_spec() == Seq::<Option<Roast>>::empty(),
            r.current_spec() is None,
    {
        BackendStorage { slots: Vec::new(), current: None }
    }

    /// Stores a new session and returns its handle: nonzero, strictly
    /// larger than every handle issued before, and never reused.
    pub fn init(&mut self, backend: Roast) -> (h: u64)
        ensures
            h != 0,
            h as int == old(self).slots_spec().len() + 1,
            !old(self).handle_issued(h),
            final(self).stored(h),
            final(self).slots_spec() == old(self).slots_spec().push(Some(backend)),
            final(self).current_spec() == old(self).current_spec(),
    {
        self.slots.push(Some(backend));
        self.slots.len() as u64
    }

    /// Validates a backend handle: zero is a null-pointer error; a handle
    /// that is neither stored nor currently running is an illegal-state
    /// error; a stored handle is an illegal-state error while a different
    /// session runs its loop, since only one may run at a time. On success
    /// the handle itself is returned.
    pub fn check_backend(&self, this: u64) -> (r: Result<u64, RoastError>)
        ensures
            r is Ok <==> self.check_ok_spec(this),
            match r {
                Ok(h) => h == this,
                Err(e) => if this == 0 {
                    e is NullPointer
                } else {
                    e is IllegalState
                },
            },
    {
        if this == 0 {
            return Err(RoastError::NullPointer("Backend pointer is null!".to_owned()));
        }
        match self.current {
            None => {
                // No backend is running, so check storage.
                if self.slot_occupied(this) {
                    Ok(this)
                } else {
                    Err(
                        RoastError::IllegalState(
                            "Backend pointer does not point to a valid struct".to_owned(),
                        ),
                    )
                }
            },
            Some(running) => {
                // A backend is running, so the handle must match it.
                if this == running {
                    Ok(this)
                } else {
                    Err(
                        RoastError::IllegalState(
                            "Only one backend can run its event loop at a time".to_owned(),
                        ),
                    )
                }
            },
        }
    }

    /// Validates the handle behind a GUI-building call. The GUI is drawn by
    /// the running session, so the check is exactly the backend check.
    pub fn check_roast_ui(&self, this: u64) -> (r: Result<u64, RoastError>)
        ensures
            r is Ok <==> self.check_ok_spec(this),
            match r {
                Ok(h) => h == this,
                Err(e) => if this == 0 {
                    e is NullPointer
                } else {
                    e is IllegalState
                },
            },
    {
        self.check_backend(this)
    }

    /// Whether the slot for handle `this` holds a session.
    fn slot_occupied(&self, this: u64) -> (r: bool)
        requires
            this != 0,
        ensures
            r == self.stored(this),
    {
        if this <= self.slots.len() as u64 {
            let idx = (this - 1) as usize;
            self.slots[idx].is_some()
        } else {
            false
        }
    }

    /// Takes a session out of storage to run its event loop, marking its
    /// handle as current. Fails, changing nothing, when the handle does not
    /// validate — in particular while any other session is running — and
    /// when the handle is the currently running one, whose session is
    /// already out of storage.
    pub fn start_run(&mut self, this: u64) -> (r: Result<Roast, RoastError>)
        ensures
            match r {
                Ok(backend) => {
                    &&& old(self).check_ok_spec(this)
                    &&& old(self).stored(this)
                    &&& old(self).slots_spec()[this - 1] == Some(backend)
                    &&& final(self).slots_spec() == old(self).slots_spec().update(
                        this - 1,
                        None::<Roast>,
                    )
                    &&& final(self).current_spec() == Some(this)
                },
                Err(e) => {
                    &&& *final(self) == *old(self)
                    &&& !(old(self).check_ok_spec(this) && old(self).stored(this))
                    &&& if this == 0 {
                        e is NullPointer
                    } else {
                        e is IllegalState
                    }
                },
            },
    {
        let checked = self.check_backend(this);
        match checked {
            Err(e) => Err(e),
            Ok(pointer) => {
                if self.slot_occupied(pointer) {
                    let slot_count = self.slots.len();
                    proof {
                        assert(1 <= pointer <= slot_count as u64);
                    }
                    let idx = (pointer - 1) as usize;
                    let taken = self.slots[idx].take();
                    let backend = taken.unwrap();
                    self.current = Some(pointer);
                    Ok(backend)
                } else {
                    // Validation passed but the slot is empty: the handle
                    // is the one already running its loop.
                    Err(RoastError::IllegalState("Cannot initialize backend twice".to_owned()))
                }
            },
        }
    }

    /// Returns a session to storage after its event loop stopped, clearing
    /// the running marker. Fails, changing nothing, unless `this` is the
    /// currently running handle.
    pub fn finish_run(&mut self, this: u64, backend: Roast) -> (r: Result<(), RoastError>)
        ensures
            match r {
                Ok(()) => {
                    &&& old(self).current_spec() == Some(this)
                    &&& old(self).handle_issued(this)
                    &&& final(self).slots_spec() == old(self).slots_spec().update(
                        this - 1,
                        Some(backend),
                    )
                    &&& final(self).current_spec() is None
                },
                Err(e) => {
                    &&& *final(self) == *old(self)
                    &&& !(old(self).current_spec() == Some(this) && old(self).handle_issued(this))
                    &&& e is IllegalState
                },
            },
    {
        let running = match self.current {
            Some(running) => running,
            None => {
                return Err(
                    RoastError::IllegalState("No backend is running its event loop".to_owned()),
                );
            },
        };
        if running != this || this == 0 || this > self.slots.len() as u64 {
            return Err(
                RoastError::IllegalState("Only the running backend can be surrendered".to_owned()),
            );
        }
        let idx = (this - 1) as usize;
        self.slots[idx] = Some(backend);
        self.current = None;
        Ok(())
    }
}

/// Only one session can run at a time: while handle `running` is current,
/// no other nonzero handle — stored or not — passes validation, so starting
/// another loop or making any handle-scoped call with it is refused.
pub proof fn lemma_single_active_session(reg: BackendStorage, running: u64, other: u64)
    requires
        reg.current_spec() == Some(running),
        other != running,
    ensures
        !reg.check_ok_spec(other),
{
}

} // verus!
