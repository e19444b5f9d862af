//! The plugin's state: the configuration captured at setup, the overlay
//! engine built from it on first use, and the access check that every panel
//! operation passes through.
//!
//! Building and driving the engine is asynchronous work done by the host;
//! this module decides. [`OverlayPluginState::begin_overlay`] says whether
//! an engine exists or must be built from the captured configuration (which
//! it hands out exactly once), [`OverlayPluginState::finish_overlay`] records
//! the outcome of a build, and each panel operation either yields the
//! [`EngineCall`] to perform or the error to return.

use vstd::prelude::*;

use crate::error::{Error, UNSUPPORTED_REASON};
use crate::{PanelOptions, Rect};

verus! {

/// `serde_json`'s JSON value, carried opaquely as a message payload.
#[verifier::external_type_specification]
#[verifier::external_body]
pub struct ExJsonValue(serde_json::Value);

/// Configuration captured at setup and consumed when the engine is built.
///
/// `P` is the type of a directory path, `L` that of a surface layout and
/// `Rt` that of an extra HTTP router for the engine's asset server.
pub struct OverlayConfig<P, L, Rt> {
    /// Directory holding the engine's injectable libraries.
    pub dll_dir: Option<P>,
    /// Directory that the asset server serves panels from.
    pub static_dir: Option<P>,
    /// The web view's user-data folder; `None` keeps the engine's default.
    pub user_data_folder: Option<P>,
    /// Size `(width, height)` of the composition surface in physical pixels.
    pub surface_size: Option<(u32, u32)>,
    /// Where the surface is composited in the game window.
    pub surface_layout: Option<L>,
    /// Extra routes mounted beside the built-in ones.
    pub extra_router: Option<Rt>,
    /// Scripts run at the start of every document, in registration order.
    pub document_created_scripts: Vec<String>,
}

/// One setting to apply to the engine's builder.
pub enum BuildStep<P, L, Rt> {
    DllDir(P),
    StaticDir(P),
    ExtraRouter(Rt),
    SurfaceSize(u32, u32),
    UserDataFolder(P),
    SurfaceLayout(L),
    DocumentCreatedScript(String),
}

/// The single step for an optional setting: none when it is absent.
pub open spec fn opt_step<T, S>(o: Option<T>, f: spec_fn(T) -> S) -> Seq<S> {
    match o {
        Some(v) => seq![f(v)],
        None => Seq::empty(),
    }
}

/// The builder settings for a configuration: each present option once, in
/// a fixed order, then every script in registration order.
pub open spec fn build_plan_of<P, L, Rt>(
    dll_dir: Option<P>,
    static_dir: Option<P>,
    extra_router: Option<Rt>,
    surface_size: Option<(u32, u32)>,
    user_data_folder: Option<P>,
    surface_layout: Option<L>,
    scripts: Seq<String>,
) -> Seq<BuildStep<P, L, Rt>> {
    opt_step(dll_dir, |d: P| BuildStep::<P, L, Rt>::DllDir(d))
        + opt_step(static_dir, |d: P| BuildStep::<P, L, Rt>::StaticDir(d))
        + opt_step(extra_router, |r: Rt| BuildStep::<P, L, Rt>::ExtraRouter(r))
        + opt_step(surface_size, |s: (u32, u32)| BuildStep::<P, L, Rt>::SurfaceSize(s.0, s.1))
        + opt_step(user_data_folder, |d: P| BuildStep::<P, L, Rt>::UserDataFolder(d))
        + opt_step(surface_layout, |l: L| BuildStep::<P, L, Rt>::SurfaceLayout(l))
        + scripts.map_values(|s: String| BuildStep::<P, L, Rt>::DocumentCreatedScript(s))
}

impl<P, L, Rt> OverlayConfig<P, L, Rt> {
    /// The builder settings of this configuration (see [`build_plan_of`]).
    pub open spec fn spec_build_plan(self) -> Seq<BuildStep<P, L, Rt>> {
        build_plan_of(
            self.dll_dir,
            self.static_dir,
            self.extra_router,
            self.surface_size,
            self.user_data_folder,
            self.surface_layout,
            self.document_created_scripts@,
        )
    }

    /// Turns the configuration into the list of builder settings to apply.
    pub fn build_plan(self) -> (plan: Vec<BuildStep<P, L, Rt>>)
        ensures
            plan@ == self.spec_build_plan(),
    {
        let ghost old_self = self;
        let OverlayConfig {
            dll_dir,
            static_dir,
            user_data_folder,
            surface_size,
            surface_layout,
            extra_router,
            document_created_scripts,
        } = self;
        let mut plan: Vec<BuildStep<P, L, Rt>> = Vec::new();
        if let Some(d) = dll_dir {
            plan.push(BuildStep::DllDir(d));
        }
        if let Some(d) = static_dir {
            plan.push(BuildStep::StaticDir(d));
        }
        if let Some(r) = extra_router {
            plan.push(BuildStep::ExtraRouter(r));
        }
        if let Some((w, h)) = surface_size {
            plan.push(BuildStep::SurfaceSize(w, h));
        }
        if let Some(d) = user_data_folder {
            plan.push(BuildStep::UserDataFolder(d));
        }
        if let Some(l) = surface_layout {
            plan.push(BuildStep::SurfaceLayout(l));
        }
        let ghost head = plan@;
        assert(head == opt_step(old_self.dll_dir, |d: P| BuildStep::<P, L, Rt>::DllDir(d))
            + opt_step(old_self.static_dir, |d: P| BuildStep::<P, L, Rt>::StaticDir(d))
            + opt_step(old_self.extra_router, |r: Rt| BuildStep::<P, L, Rt>::ExtraRouter(r))
            + opt_step(old_self.surface_size, |s: (u32, u32)| BuildStep::<P, L, Rt>::SurfaceSize(s.0, s.1))
            + opt_step(old_self.user_data_folder, |d: P| BuildStep::<P, L, Rt>::UserDataFolder(d))
            + opt_step(old_self.surface_layout, |l: L| BuildStep::<P, L, Rt>::SurfaceLayout(l)));
        let n: usize = document_created_scripts.len();
        let mut i: usize = 0;
        while i < n
            invariant
                n == document_created_scripts.len(),
                i <= n,
                plan@ == head + document_created_scripts@.take(i as int).map_values(
                    |s: String| BuildStep::<P, L, Rt>::DocumentCreatedScript(s),
                ),
            decreases n - i,
        {
            let s = document_created_scripts[i].clone();
            plan.push(BuildStep::DocumentCreatedScript(s));
            assert(document_created_scripts@.take(i + 1) == document_created_scripts@.take(
                i as int,
            ).push(document_created_scripts@[i as int]));
            i = i + 1;
        }
        assert(document_created_scripts@.take(n as int) == document_created_scripts@);
        plan
    }
}


/// A call to make on the built overlay engine.
pub enum EngineCall {
    /// Attach to the game process with this id.
    Attach(u32),
    /// Detach from the game process.
    Detach,
    CreatePanel(PanelOptions),
    ClosePanel(String),
    SetPanelBounds(String, Rect),
    SetPanelInteractive(String, bool),
    SetPanelZIndex(String, i32),
    /// Post a JSON payload to a panel.
    PostPanelMessage(String, serde_json::Value),
    /// Check that the engine's shell page responds.
    PingShell,
}

/// What [`OverlayPluginState::begin_overlay`] found.
pub enum Acquire<C> {
    /// The engine is built; use it.
    Existing,
    /// No engine yet: build one from this configuration, then report the
    /// outcome to [`OverlayPluginState::finish_overlay`].
    Build(C),
}

/// The next step of an attach.
pub enum AttachStep<C> {
    /// The engine is built: make this call on it.
    Call(EngineCall),
    /// No engine yet: build one from this configuration, then report the
    /// outcome to [`OverlayPluginState::finish_attach`].
    Build(C),
}

/// The abstract state of the plugin.
pub struct PluginModel<C, O> {
    /// Whether this platform can host the overlay.
    pub supported: bool,
    /// The configuration captured at setup, until a build consumes it.
    pub config: Option<C>,
    /// The engine, once built.
    pub overlay: Option<O>,
    /// Whether a build was handed out whose outcome is not yet recorded.
    pub building: bool,
}

impl<C, O> PluginModel<C, O> {
    /// Whether the engine is up (`is_attached` of the front end).
    pub open spec fn attached(self) -> bool {
        self.supported && self.overlay is Some
    }

    /// The check in front of every operation on the engine: unsupported
    /// platforms refuse, then a missing engine refuses.
    pub open spec fn access(self) -> Result<(), Error> {
        if !self.supported {
            Err(Error::Unsupported(UNSUPPORTED_REASON))
        } else if self.overlay is None {
            Err(Error::NotAttached)
        } else {
            Ok(())
        }
    }

    /// The result of a planned engine call: the call itself when access is
    /// granted, else the error of the access check.
    pub open spec fn plan(self, call: EngineCall) -> Result<EngineCall, Error> {
        match self.access() {
            Ok(_) => Ok(call),
            Err(e) => Err(e),
        }
    }

    /// Getting the engine: the existing one, or the configuration to build
    /// one from (which leaves the state), or why neither is possible.
    pub open spec fn begin(self) -> (PluginModel<C, O>, Result<Acquire<C>, Error>) {
        if !self.supported {
            (self, Err(Error::Unsupported(UNSUPPORTED_REASON)))
        } else if self.overlay is Some {
            (self, Ok(Acquire::Existing))
        } else {
            match self.config {
                Some(c) => (
                    PluginModel { config: None, building: true, ..self },
                    Ok(Acquire::Build(c)),
                ),
                None => (self, Err(Error::NotInitialized)),
            }
        }
    }

    /// Attaching to `pid`: getting the engine (building it from the
    /// captured configuration if there is none yet), then attaching with it.
    pub open spec fn attach_step(self, pid: u32) -> (PluginModel<C, O>, Result<AttachStep<C>, Error>) {
        let (next, r) = self.begin();
        (next, match r {
            Ok(Acquire::Existing) => Ok(AttachStep::Call(EngineCall::Attach(pid))),
            Ok(Acquire::Build(c)) => Ok(AttachStep::Build(c)),
            Err(e) => Err(e),
        })
    }

    /// Completing an attach that needed a build: keeps the engine and
    /// attaches to `pid` with it, or passes the build's error on.
    pub open spec fn finish_attach(self, built: Result<O, Error>, pid: u32) -> (PluginModel<C, O>, Result<EngineCall, Error>) {
        let (next, r) = self.finish(built);
        (next, match r {
            Ok(_) => Ok(EngineCall::Attach(pid)),
            Err(e) => Err(e),
        })
    }

    /// Recording the outcome of the build that was handed out.
    pub open spec fn finish(self, built: Result<O, Error>) -> (PluginModel<C, O>, Result<(), Error>) {
        if !self.supported {
            (self, Err(Error::Unsupported(UNSUPPORTED_REASON)))
        } else {
            match built {
                Ok(o) => (PluginModel { overlay: Some(o), building: false, ..self }, Ok(())),
                Err(e) => (PluginModel { building: false, ..self }, Err(e)),
            }
        }
    }

    /// The answer of the front end's `is_attached` command: refused where
    /// the platform cannot host the overlay, else whether the engine is up.
    pub open spec fn attached_status(self) -> Result<bool, Error> {
        if !self.supported {
            Err(Error::Unsupported(UNSUPPORTED_REASON))
        } else {
            Ok(self.attached())
        }
    }
}

/// The plugin's state, generic over its configuration `C` and the engine
/// handle `O`.
pub struct OverlayPluginState<C, O> {
    supported: bool,
    config: Option<C>,
    overlay: Option<O>,
    building: bool,
}

impl<C, O> View for OverlayPluginState<C, O> {
    type V = PluginModel<C, O>;

    closed spec fn view(&self) -> PluginModel<C, O> {
        PluginModel {
            supported: self.supported,
            config: self.config,
            overlay: self.overlay,
            building: self.building,
        }
    }
}

impl<C, O> OverlayPluginState<C, O> {
    /// A fresh state holding the setup configuration. Where the platform
    /// cannot host the overlay, the configuration is dropped.
    pub fn new(config: C, supported: bool) -> (s: Self)
        ensures
            s@ == (PluginModel::<C, O> {
                supported,
                config: if supported { Some(config) } else { None },
                overlay: None,
                building: false,
            }),
    {
        OverlayPluginState {
            supported,
            config: if supported { Some(config) } else { None },
            overlay: None,
            building: false,
        }
    }

    /// Whether the engine is up.
    pub fn is_attached(&self) -> (b: bool)
        ensures
            b == self@.attached(),
    {
        self.supported && self.overlay.is_some()
    }

    /// Whether a build was handed out whose outcome is not yet recorded.
    pub fn is_building(&self) -> (b: bool)
        ensures
            b == self@.building,
    {
        self.building
    }

    /// The answer of the front end's `is_attached` command (see
    /// [`PluginModel::attached_status`]).
    pub fn attached_status(&self) -> (r: Result<bool, Error>)
        ensures
            r == self@.attached_status(),
    {
        if !self.supported {
            Err(Error::unsupported())
        } else {
            Ok(self.overlay.is_some())
        }
    }

    /// First half of getting the engine (see [`PluginModel::begin`]).
    pub fn begin_overlay(&mut self) -> (r: Result<Acquire<C>, Error>)
        ensures
            (final(self)@, r) == old(self)@.begin(),
    {
        if !self.supported {
            return Err(Error::unsupported());
        }
        if self.overlay.is_some() {
            return Ok(Acquire::Existing);
        }
        match self.config.take() {
            Some(c) => {
                self.building = true;
                Ok(Acquire::Build(c))
            },
            None => Err(Error::NotInitialized),
        }
    }

    /// Second half: keeps the built engine, or passes the build's error on.
    /// Only the build that [`OverlayPluginState::begin_overlay`] handed out
    /// is recorded, once.
    pub fn finish_overlay(&mut self, built: Result<O, Error>) -> (r: Result<(), Error>)
        requires
            old(self)@.building,
        ensures
            (final(self)@, r) == old(self)@.finish(built),
    {
        if !self.supported {
            return Err(Error::unsupported());
        }
        self.building = false;
        match built {
            Ok(o) => {
                self.overlay = Some(o);
                Ok(())
            },
            Err(e) => Err(e),
        }
    }

    /// The engine, where access is granted.
    pub fn require_overlay(&self) -> (r: Result<&O, Error>)
        ensures
            match r {
                Ok(o) => self@.access() is Ok && self@.overlay == Some(*o),
                Err(e) => self@.access() == Err::<(), Error>(e),
            },
    {
        if !self.supported {
            return Err(Error::unsupported());
        }
        match &self.overlay {
            Some(o) => Ok(o),
            None => Err(Error::NotAttached),
        }
    }

    /// The engine if it is up; the host reads its asset origin from it.
    pub fn overlay(&self) -> (r: Option<&O>)
        ensures
            match r {
                Some(o) => self@.attached() && self@.overlay == Some(*o),
                None => !self@.attached(),
            },
    {
        if self.supported {
            match &self.overlay {
                Some(o) => Some(o),
                None => None,
            }
        } else {
            None
        }
    }

    fn planned(&self, call: EngineCall) -> (r: Result<EngineCall, Error>)
        ensures
            r == self@.plan(call),
    {
        if !self.supported {
            Err(Error::unsupported())
        } else if self.overlay.is_none() {
            Err(Error::NotAttached)
        } else {
            Ok(call)
        }
    }

    /// Attaching to the game process `pid`: with an engine, the attach call
    /// to make; without one, the configuration to build it from (handed out
    /// once), after which [`OverlayPluginState::finish_attach`] completes
    /// the attach.
    pub fn attach(&mut self, pid: u32) -> (r: Result<AttachStep<C>, Error>)
        ensures
            (final(self)@, r) == old(self)@.attach_step(pid),
    {
        match self.begin_overlay() {
            Ok(Acquire::Existing) => Ok(AttachStep::Call(EngineCall::Attach(pid))),
            Ok(Acquire::Build(c)) => Ok(AttachStep::Build(c)),
            Err(e) => Err(e),
        }
    }

    /// Completes an attach that needed a build: keeps the built engine and
    /// yields the attach call for `pid`, or passes the build's error on.
    pub fn finish_attach(&mut self, built: Result<O, Error>, pid: u32) -> (r: Result<EngineCall, Error>)
        requires
            old(self)@.building,
        ensures
            (final(self)@, r) == old(self)@.finish_attach(built, pid),
    {
        match self.finish_overlay(built) {
            Ok(()) => Ok(EngineCall::Attach(pid)),
            Err(e) => Err(e),
        }
    }

    /// Detaching from the game process.
    pub fn detach(&self) -> (r: Result<EngineCall, Error>)
        ensures
            r == self@.plan(EngineCall::Detach),
    {
        self.planned(EngineCall::Detach)
    }

    /// Creating a panel.
    pub fn create_panel(&self, options: PanelOptions) -> (r: Result<EngineCall, Error>)
        ensures
            r == self@.plan(EngineCall::CreatePanel(options)),
    {
        self.planned(EngineCall::CreatePanel(options))
    }

    /// Closing the panel `id`.
    pub fn close_panel(&self, id: String) -> (r: Result<EngineCall, Error>)
        ensures
            r == self@.plan(EngineCall::ClosePanel(id)),
    {
        self.planned(EngineCall::ClosePanel(id))
    }

    /// Moving and resizing the panel `id`.
    pub fn set_panel_bounds(&self, id: String, bounds: Rect) -> (r: Result<EngineCall, Error>)
        ensures
            r == self@.plan(EngineCall::SetPanelBounds(id, bounds)),
    {
        self.planned(EngineCall::SetPanelBounds(id, bounds))
    }

    /// Making the panel `id` take input or let it through.
    pub fn set_panel_interactive(&self, id: String, interactive: bool) -> (r: Result<
        EngineCall,
        Error,
    >)
        ensures
            r == self@.plan(EngineCall::SetPanelInteractive(id, interactive)),
    {
        self.planned(EngineCall::SetPanelInteractive(id, interactive))
    }

    /// Restacking the panel `id`.
    pub fn set_panel_z_index(&self, id: String, z_index: i32) -> (r: Result<EngineCall, Error>)
        ensures
            r == self@.plan(EngineCall::SetPanelZIndex(id, z_index)),
    {
        self.planned(EngineCall::SetPanelZIndex(id, z_index))
    }

    /// Posting `payload` to the panel `id`.
    pub fn post_panel_message(&self, id: String, payload: serde_json::Value) -> (r: Result<
        EngineCall,
        Error,
    >)
        ensures
            r == self@.plan(EngineCall::PostPanelMessage(id, payload)),
    {
        self.planned(EngineCall::PostPanelMessage(id, payload))
    }

    /// Pinging the engine's shell page.
    pub fn ping_shell(&self) -> (r: Result<EngineCall, Error>)
        ensures
            r == self@.plan(EngineCall::PingShell),
    {
        self.planned(EngineCall::PingShell)
    }
}


/// On a platform that cannot host the overlay, every operation is refused
/// with `Unsupported` and changes nothing, the plugin never reports itself
/// attached, and the front end's `is_attached` command is refused with
/// `Unsupported`.
pub proof fn lemma_unsupported_refuses_everything<C, O>(
    m: PluginModel<C, O>,
    built: Result<O, Error>,
    call: EngineCall,
    pid: u32,
)
    requires
        !m.supported,
    ensures
        m.begin() == (m, Err::<Acquire<C>, Error>(Error::Unsupported(UNSUPPORTED_REASON))),
        m.attach_step(pid) == (m, Err::<AttachStep<C>, Error>(Error::Unsupported(UNSUPPORTED_REASON))),
        m.finish_attach(built, pid) == (m, Err::<EngineCall, Error>(Error::Unsupported(UNSUPPORTED_REASON))),
        m.finish(built) == (m, Err::<(), Error>(Error::Unsupported(UNSUPPORTED_REASON))),
        m.plan(call) == Err::<EngineCall, Error>(Error::Unsupported(UNSUPPORTED_REASON)),
        !m.attached(),
        m.attached_status() == Err::<bool, Error>(Error::Unsupported(UNSUPPORTED_REASON)),
{
}

/// The plugin reports itself attached exactly when access to the engine
/// is granted.
pub proof fn lemma_attached_iff_access_granted<C, O>(m: PluginModel<C, O>)
    ensures
        m.attached() <==> m.access() is Ok,
{
}

/// Before any engine has been built, every engine operation is refused
/// with `NotAttached` on a supported platform.
pub proof fn lemma_no_engine_refuses_calls<C, O>(m: PluginModel<C, O>, call: EngineCall)
    requires
        m.supported,
        m.overlay is None,
    ensures
        m.plan(call) == Err::<EngineCall, Error>(Error::NotAttached),
        !m.attached(),
{
}

/// Once an engine exists it is reused: getting it again changes nothing
/// and hands back no configuration, and every engine operation goes
/// through with exactly the call that was asked for.
pub proof fn lemma_existing_engine_is_reused<C, O>(m: PluginModel<C, O>, call: EngineCall)
    requires
        m.attached(),
    ensures
        m.begin() == (m, Ok::<Acquire<C>, Error>(Acquire::Existing)),
        m.plan(call) == Ok::<EngineCall, Error>(call),
{
}

/// The configuration captured at setup serves one build only. A first
/// attempt hands it out and marks a build outstanding, during which no
/// other build is handed out; if that build fails its error is passed on,
/// nothing is outstanding any more, and from then on every attempt reports
/// `NotInitialized` and every engine operation `NotAttached`.
pub proof fn lemma_failed_build_leaves_uninitialized<C, O>(
    m: PluginModel<C, O>,
    e: Error,
    call: EngineCall,
)
    requires
        m.supported,
        m.overlay is None,
        m.config is Some,
    ensures
        ({
            let (m1, r1) = m.begin();
            let (m2, r2) = m1.finish(Err(e));
            &&& r1 == Ok::<Acquire<C>, Error>(Acquire::Build(m.config.unwrap()))
            &&& r2 == Err::<(), Error>(e)
            &&& m1.building
            &&& m1.begin().1 == Err::<Acquire<C>, Error>(Error::NotInitialized)
            &&& m2.config is None
            &&& !m2.building
            &&& m2.begin() == (m2, Err::<Acquire<C>, Error>(Error::NotInitialized))
            &&& m2.plan(call) == Err::<EngineCall, Error>(Error::NotAttached)
            &&& !m2.attached()
            &&& m2.attached_status() == Ok::<bool, Error>(false)
        }),
{
}

/// A successful build is kept: afterwards the plugin is attached to that
/// engine, getting the engine again reuses it, and every engine operation
/// goes through.
pub proof fn lemma_successful_build_is_kept<C, O>(m: PluginModel<C, O>, o: O, call: EngineCall)
    requires
        m.supported,
        m.overlay is None,
        m.config is Some,
    ensures
        ({
            let (m1, r1) = m.begin();
            let (m2, r2) = m1.finish(Ok(o));
            &&& r1 is Ok
            &&& m1.building
            &&& r2 == Ok::<(), Error>(())
            &&& !m2.building
            &&& m2.attached()
            &&& m2.attached_status() == Ok::<bool, Error>(true)
            &&& m2.overlay == Some(o)
            &&& m2.begin() == (m2, Ok::<Acquire<C>, Error>(Acquire::Existing))
            &&& m2.plan(call) == Ok::<EngineCall, Error>(call)
        }),
{
}


/// Attaching to a fresh plugin builds the engine first: the first attach
/// hands out the captured configuration; if the build succeeds, the attach
/// call for the same process follows and the plugin is attached, and a
/// later attach goes straight to the engine. If the build fails, its error
/// is passed on and later attaches report `NotInitialized`.
pub proof fn lemma_attach_builds_then_attaches<C, O>(
    m: PluginModel<C, O>,
    o: O,
    e: Error,
    pid: u32,
    later_pid: u32,
)
    requires
        m.supported,
        m.overlay is None,
        m.config is Some,
    ensures
        ({
            let (m1, r1) = m.attach_step(pid);
            let (ok, r_ok) = m1.finish_attach(Ok(o), pid);
            let (failed, r_failed) = m1.finish_attach(Err(e), pid);
            &&& r1 == Ok::<AttachStep<C>, Error>(AttachStep::Build(m.config.unwrap()))
            &&& r_ok == Ok::<EngineCall, Error>(EngineCall::Attach(pid))
            &&& ok.attached()
            &&& ok.attach_step(later_pid) == (ok, Ok::<AttachStep<C>, Error>(
                AttachStep::Call(EngineCall::Attach(later_pid)),
            ))
            &&& r_failed == Err::<EngineCall, Error>(e)
            &&& !failed.attached()
            &&& failed.attach_step(later_pid).1 == Err::<AttachStep<C>, Error>(Error::NotInitialized)
        }),
{
}

/// The number of optional settings that a configuration holds.
pub open spec fn present_options<P, L, Rt>(c: OverlayConfig<P, L, Rt>) -> int {
    (if c.dll_dir is Some { 1int } else { 0 }) + (if c.static_dir is Some { 1int } else { 0 })
        + (if c.extra_router is Some { 1int } else { 0 }) + (if c.surface_size is Some { 1int } else { 0 })
        + (if c.user_data_folder is Some { 1int } else { 0 }) + (if c.surface_layout is Some { 1int } else { 0 })
}

/// Scripts run in registration order: the build plan holds one step per
/// present option, followed by one step per registered script in the order
/// of registration.
pub proof fn lemma_plan_scripts_in_order<P, L, Rt>(c: OverlayConfig<P, L, Rt>)
    ensures
        c.spec_build_plan().len() == present_options(c) + c.document_created_scripts@.len(),
        forall|i: int|
            0 <= i < c.document_created_scripts@.len() ==> c.spec_build_plan()[present_options(c)
                + i] == BuildStep::<P, L, Rt>::DocumentCreatedScript(
                #[trigger] c.document_created_scripts@[i],
            ),
{
    let plan = c.spec_build_plan();
    let scripts = c.document_created_scripts@.map_values(
        |s: String| BuildStep::<P, L, Rt>::DocumentCreatedScript(s),
    );
    let head = opt_step(c.dll_dir, |d: P| BuildStep::<P, L, Rt>::DllDir(d))
        + opt_step(c.static_dir, |d: P| BuildStep::<P, L, Rt>::StaticDir(d))
        + opt_step(c.extra_router, |r: Rt| BuildStep::<P, L, Rt>::ExtraRouter(r))
        + opt_step(c.surface_size, |s: (u32, u32)| BuildStep::<P, L, Rt>::SurfaceSize(s.0, s.1))
        + opt_step(c.user_data_folder, |d: P| BuildStep::<P, L, Rt>::UserDataFolder(d))
        + opt_step(c.surface_layout, |l: L| BuildStep::<P, L, Rt>::SurfaceLayout(l));
    assert(plan == head + scripts);
    assert(head.len() == present_options(c));
    assert forall|i: int| 0 <= i < c.document_created_scripts@.len() implies plan[present_options(
        c,
    ) + i] == BuildStep::<P, L, Rt>::DocumentCreatedScript(
        #[trigger] c.document_created_scripts@[i],
    ) by {
        assert(plan[head.len() + i] == scripts[i]);
    }
}


/// Whether the step `s` occurs in `plan`.
pub open spec fn has_step<P, L, Rt>(plan: Seq<BuildStep<P, L, Rt>>, s: BuildStep<P, L, Rt>) -> bool {
    exists|i: int| 0 <= i < plan.len() && plan[i] == s
}

/// Whether the configuration asks for the step `s`: each setting for its
/// own step, with its own value.
pub open spec fn configured<P, L, Rt>(c: OverlayConfig<P, L, Rt>, s: BuildStep<P, L, Rt>) -> bool {
    match s {
        BuildStep::DllDir(d) => c.dll_dir == Some(d),
        BuildStep::StaticDir(d) => c.static_dir == Some(d),
        BuildStep::ExtraRouter(r) => c.extra_router == Some(r),
        BuildStep::SurfaceSize(w, h) => c.surface_size == Some((w, h)),
        BuildStep::UserDataFolder(d) => c.user_data_folder == Some(d),
        BuildStep::SurfaceLayout(l) => c.surface_layout == Some(l),
        BuildStep::DocumentCreatedScript(x) => c.document_created_scripts@.contains(x),
    }
}

proof fn lemma_has_step_add<P, L, Rt>(
    a: Seq<BuildStep<P, L, Rt>>,
    b: Seq<BuildStep<P, L, Rt>>,
    s: BuildStep<P, L, Rt>,
)
    ensures
        has_step(a + b, s) <==> has_step(a, s) || has_step(b, s),
{
    if has_step(a + b, s) {
        let i = choose|i: int| 0 <= i < (a + b).len() && (a + b)[i] == s;
        if i >= a.len() {
            assert(b[i - a.len()] == s);
        }
    }
    if has_step(a, s) {
        let i = choose|i: int| 0 <= i < a.len() && a[i] == s;
        assert((a + b)[i] == s);
    }
    if has_step(b, s) {
        let i = choose|i: int| 0 <= i < b.len() && b[i] == s;
        assert((a + b)[a.len() + i] == s);
    }
}

proof fn lemma_has_step_opt<T, P, L, Rt>(o: Option<T>, f: spec_fn(T) -> BuildStep<P, L, Rt>, s: BuildStep<P, L, Rt>)
    ensures
        has_step(opt_step(o, f), s) <==> (o matches Some(v) && f(v) == s),
{
    if let Some(v) = o {
        if f(v) == s {
            assert(opt_step(o, f)[0] == s);
        }
    }
}

proof fn lemma_has_step_scripts<P, L, Rt>(scripts: Seq<String>, s: BuildStep<P, L, Rt>)
    ensures
        has_step(scripts.map_values(|x: String| BuildStep::<P, L, Rt>::DocumentCreatedScript(x)), s)
            <==> (s matches BuildStep::DocumentCreatedScript(x) && scripts.contains(x)),
{
    let m = scripts.map_values(|x: String| BuildStep::<P, L, Rt>::DocumentCreatedScript(x));
    if has_step(m, s) {
        let i = choose|i: int| 0 <= i < m.len() && m[i] == s;
        assert(scripts[i] == scripts[i]);
    }
    if let BuildStep::DocumentCreatedScript(x) = s {
        if scripts.contains(x) {
            let i = choose|i: int| 0 <= i < scripts.len() && scripts[i] == x;
            assert(m[i] == s);
        }
    }
}

/// Each setting becomes its own step and nothing else does: a step occurs
/// in the build plan exactly when the configuration asks for it. The
/// libraries' directory gives `DllDir` with that directory, the asset
/// directory `StaticDir`, the user-data folder `UserDataFolder`, the router
/// `ExtraRouter`, the surface size `SurfaceSize` with its width and height,
/// the layout `SurfaceLayout`, and each registered script a
/// `DocumentCreatedScript`.
pub proof fn lemma_plan_steps_are_the_configured_ones<P, L, Rt>(c: OverlayConfig<P, L, Rt>)
    ensures
        forall|s: BuildStep<P, L, Rt>| #[trigger] has_step(c.spec_build_plan(), s) <==> configured(c, s),
{
    assert forall|s: BuildStep<P, L, Rt>| #[trigger] has_step(c.spec_build_plan(), s) <==> configured(c, s) by {
        let f1 = |d: P| BuildStep::<P, L, Rt>::DllDir(d);
        let f2 = |d: P| BuildStep::<P, L, Rt>::StaticDir(d);
        let f3 = |r: Rt| BuildStep::<P, L, Rt>::ExtraRouter(r);
        let f4 = |z: (u32, u32)| BuildStep::<P, L, Rt>::SurfaceSize(z.0, z.1);
        let f5 = |d: P| BuildStep::<P, L, Rt>::UserDataFolder(d);
        let f6 = |l: L| BuildStep::<P, L, Rt>::SurfaceLayout(l);
        let a1 = opt_step(c.dll_dir, f1);
        let a2 = opt_step(c.static_dir, f2);
        let a3 = opt_step(c.extra_router, f3);
        let a4 = opt_step(c.surface_size, f4);
        let a5 = opt_step(c.user_data_folder, f5);
        let a6 = opt_step(c.surface_layout, f6);
        let a7 = c.document_created_scripts@.map_values(
            |x: String| BuildStep::<P, L, Rt>::DocumentCreatedScript(x),
        );
        assert(c.spec_build_plan() == a1 + a2 + a3 + a4 + a5 + a6 + a7);
        lemma_has_step_add(a1 + a2 + a3 + a4 + a5 + a6, a7, s);
        lemma_has_step_add(a1 + a2 + a3 + a4 + a5, a6, s);
        lemma_has_step_add(a1 + a2 + a3 + a4, a5, s);
        lemma_has_step_add(a1 + a2 + a3, a4, s);
        lemma_has_step_add(a1 + a2, a3, s);
        lemma_has_step_add(a1, a2, s);
        lemma_has_step_opt(c.dll_dir, f1, s);
        lemma_has_step_opt(c.static_dir, f2, s);
        lemma_has_step_opt(c.extra_router, f3, s);
        lemma_has_step_opt(c.surface_size, f4, s);
        lemma_has_step_opt(c.user_data_folder, f5, s);
        lemma_has_step_opt(c.surface_layout, f6, s);
        lemma_has_step_scripts::<P, L, Rt>(c.document_created_scripts@, s);
        if let Some(z) = c.surface_size {
            assert(z == (z.0, z.1));
        }
    }
}


/// The front end's `is_attached` command answers, on a supported platform,
/// whether an engine is stored, and agrees with `is_attached`; where the
/// platform cannot host the overlay it is refused with `Unsupported`.
pub proof fn lemma_attached_status_reports_the_engine<C, O>(m: PluginModel<C, O>)
    ensures
        m.supported ==> m.attached_status() == Ok::<bool, Error>(m.overlay is Some),
        m.supported ==> m.attached_status() == Ok::<bool, Error>(m.attached()),
        !m.supported ==> m.attached_status() == Err::<bool, Error>(Error::Unsupported(UNSUPPORTED_REASON)),
{
}

} // verus!
