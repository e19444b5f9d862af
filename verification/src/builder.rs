//! Gathering the plugin's configuration before the host application runs,
//! and turning it into an [`OverlayConfig`] once the application exists.
//!
//! The settings are resolvers: functions of the running application (of
//! type `H`) that produce a directory, a surface size, a layout or a router
//! when setup runs. `D` is the type of a directory resolver, `S` of a size
//! resolver, `L` of a layout resolver, `X` of a router resolver and `Rt` of
//! a router given directly.

use vstd::prelude::*;
use vstd::string::*;

use crate::state::OverlayConfig;

verus! {

/// The settings a [`Builder`] has gathered.
pub struct BuilderModel<D, S, L, X, Rt> {
    pub dll_dir_resolver: Option<D>,
    pub static_dir_resolver: Option<D>,
    pub user_data_folder_resolver: Option<D>,
    pub surface_size_resolver: Option<S>,
    pub surface_layout_resolver: Option<L>,
    pub extra_router: Option<Rt>,
    pub extra_router_resolver: Option<X>,
    pub document_created_scripts: Seq<String>,
}

/// Plugin builder: each `with_` method records one setting, the last call
/// of each winning, while scripts accumulate in registration order.
pub struct Builder<D, S, L, X, Rt> {
    dll_dir_resolver: Option<D>,
    static_dir_resolver: Option<D>,
    user_data_folder_resolver: Option<D>,
    surface_size_resolver: Option<S>,
    surface_layout_resolver: Option<L>,
    extra_router: Option<Rt>,
    extra_router_resolver: Option<X>,
    document_created_scripts: Vec<String>,
}

impl<D, S, L, X, Rt> View for Builder<D, S, L, X, Rt> {
    type V = BuilderModel<D, S, L, X, Rt>;

    closed spec fn view(&self) -> BuilderModel<D, S, L, X, Rt> {
        BuilderModel {
            dll_dir_resolver: self.dll_dir_resolver,
            static_dir_resolver: self.static_dir_resolver,
            user_data_folder_resolver: self.user_data_folder_resolver,
            surface_size_resolver: self.surface_size_resolver,
            surface_layout_resolver: self.surface_layout_resolver,
            extra_router: self.extra_router,
            extra_router_resolver: self.extra_router_resolver,
            document_created_scripts: self.document_created_scripts@,
        }
    }
}

/// The settings of a builder that has recorded nothing.
pub open spec fn empty_settings<D, S, L, X, Rt>() -> BuilderModel<D, S, L, X, Rt> {
    BuilderModel {
        dll_dir_resolver: None,
        static_dir_resolver: None,
        user_data_folder_resolver: None,
        surface_size_resolver: None,
        surface_layout_resolver: None,
        extra_router: None,
        extra_router_resolver: None,
        document_created_scripts: Seq::empty(),
    }
}

impl<D, S, L, X, Rt> Default for Builder<D, S, L, X, Rt> {
    fn default() -> (b: Self)
        ensures
            b@ == empty_settings::<D, S, L, X, Rt>(),
    {
        Builder {
            dll_dir_resolver: None,
            static_dir_resolver: None,
            user_data_folder_resolver: None,
            surface_size_resolver: None,
            surface_layout_resolver: None,
            extra_router: None,
            extra_router_resolver: None,
            document_created_scripts: Vec::new(),
        }
    }
}

impl<D, S, L, X, Rt> Builder<D, S, L, X, Rt> {
    /// A builder with no settings.
    pub fn new() -> (b: Self)
        ensures
            b@ == empty_settings::<D, S, L, X, Rt>(),
    {
        Builder {
            dll_dir_resolver: None,
            static_dir_resolver: None,
            user_data_folder_resolver: None,
            surface_size_resolver: None,
            surface_layout_resolver: None,
            extra_router: None,
            extra_router_resolver: None,
            document_created_scripts: Vec::new(),
        }
    }

    /// Resolves the directory of the engine's libraries at setup.
    pub fn with_dll_dir_resolver(self, f: D) -> (b: Self)
        ensures
            b@ == (BuilderModel { dll_dir_resolver: Some(f), ..self@ }),
    {
        let mut b = self;
        b.dll_dir_resolver = Some(f);
        b
    }

    /// Resolves the directory that panel assets are served from at setup.
    pub fn with_static_dir_resolver(self, f: D) -> (b: Self)
        ensures
            b@ == (BuilderModel { static_dir_resolver: Some(f), ..self@ }),
    {
        let mut b = self;
        b.static_dir_resolver = Some(f);
        b
    }

    /// Resolves the web view's user-data folder at setup.
    pub fn with_user_data_folder_resolver(self, f: D) -> (b: Self)
        ensures
            b@ == (BuilderModel { user_data_folder_resolver: Some(f), ..self@ }),
    {
        let mut b = self;
        b.user_data_folder_resolver = Some(f);
        b
    }

    /// Mounts extra routes beside the built-in ones.
    pub fn with_extra_router(self, router: Rt) -> (b: Self)
        ensures
            b@ == (BuilderModel { extra_router: Some(router), ..self@ }),
    {
        let mut b = self;
        b.extra_router = Some(router);
        b
    }

    /// Resolves extra routes at setup; they take the place of a router
    /// given with [`Builder::with_extra_router`].
    pub fn with_extra_router_resolver(self, f: X) -> (b: Self)
        ensures
            b@ == (BuilderModel { extra_router_resolver: Some(f), ..self@ }),
    {
        let mut b = self;
        b.extra_router_resolver = Some(f);
        b
    }

    /// Resolves the size of the composition surface at setup.
    pub fn with_surface_size_resolver(self, f: S) -> (b: Self)
        ensures
            b@ == (BuilderModel { surface_size_resolver: Some(f), ..self@ }),
    {
        let mut b = self;
        b.surface_size_resolver = Some(f);
        b
    }

    /// Resolves where the surface is composited at setup; a resolver that
    /// gives no layout keeps the engine's default.
    pub fn with_surface_layout_resolver(self, f: L) -> (b: Self)
        ensures
            b@ == (BuilderModel { surface_layout_resolver: Some(f), ..self@ }),
    {
        let mut b = self;
        b.surface_layout_resolver = Some(f);
        b
    }

    /// Adds a script to run at the start of every document, after those
    /// registered before it.
    pub fn with_document_created_script(self, script: String) -> (b: Self)
        ensures
            b@ == (BuilderModel {
                document_created_scripts: self@.document_created_scripts.push(script),
                ..self@
            }),
    {
        let mut b = self;
        b.document_created_scripts.push(script);
        b
    }

    /// Runs every resolver against the application `app` and assembles the
    /// configuration: a resolved router takes the place of one given
    /// directly, and a layout resolver that gives nothing leaves the layout
    /// unset.
    pub fn resolve<H, P, Lay>(self, app: &H) -> (c: OverlayConfig<P, Lay, Rt>) where
        D: Fn(&H) -> P,
        S: Fn(&H) -> (u32, u32),
        L: Fn(&H) -> Option<Lay>,
        X: Fn(&H) -> Rt,

        requires
            self@.dll_dir_resolver matches Some(f) ==> call_requires(f, (app,)),
            self@.static_dir_resolver matches Some(f) ==> call_requires(f, (app,)),
            self@.user_data_folder_resolver matches Some(f) ==> call_requires(f, (app,)),
            self@.surface_size_resolver matches Some(f) ==> call_requires(f, (app,)),
            self@.surface_layout_resolver matches Some(f) ==> call_requires(f, (app,)),
            self@.extra_router_resolver matches Some(f) ==> call_requires(f, (app,)),
        ensures
            resolved(self@.dll_dir_resolver, app, c.dll_dir),
            resolved(self@.static_dir_resolver, app, c.static_dir),
            resolved(self@.user_data_folder_resolver, app, c.user_data_folder),
            resolved(self@.surface_size_resolver, app, c.surface_size),
            match self@.surface_layout_resolver {
                Some(f) => call_ensures(f, (app,), c.surface_layout),
                None => c.surface_layout is None,
            },
            match self@.extra_router_resolver {
                Some(f) => c.extra_router matches Some(r) && call_ensures(f, (app,), r),
                None => c.extra_router == self@.extra_router,
            },
            c.document_created_scripts@ == self@.document_created_scripts,
    {
        let dll_dir = match &self.dll_dir_resolver {
            Some(f) => Some(f(app)),
            None => None,
        };
        let static_dir = match &self.static_dir_resolver {
            Some(f) => Some(f(app)),
            None => None,
        };
        let user_data_folder = match &self.user_data_folder_resolver {
            Some(f) => Some(f(app)),
            None => None,
        };
        let surface_size = match &self.surface_size_resolver {
            Some(f) => Some(f(app)),
            None => None,
        };
        let surface_layout = match &self.surface_layout_resolver {
            Some(f) => f(app),
            None => None,
        };
        let extra_router = match &self.extra_router_resolver {
            Some(f) => Some(f(app)),
            None => self.extra_router,
        };
        OverlayConfig {
            dll_dir,
            static_dir,
            user_data_folder,
            surface_size,
            surface_layout,
            extra_router,
            document_created_scripts: self.document_created_scripts,
        }
    }
}

/// An optional setting after resolution: present exactly when its resolver
/// is, and then a value that the resolver can return for `app`.
pub open spec fn resolved<F: Fn(&H) -> T, H, T>(r: Option<F>, app: &H, v: Option<T>) -> bool {
    match r {
        Some(f) => v matches Some(x) && call_ensures(f, (app,), x),
        None => v is None,
    }
}

/// The builder's settings, held until setup takes them, exactly once.
pub struct PendingConfig<T> {
    pending: Option<T>,
}

/// The message of a second attempt to take the settings.
pub open spec fn consumed_twice_message() -> Seq<char> {
    "plugin builder consumed twice"@
}

impl<T> PendingConfig<T> {
    /// Holds `settings` for setup.
    pub fn new(settings: T) -> (p: Self)
        ensures
            p.is_pending(),
            p.spec_settings() == settings,
    {
        PendingConfig { pending: Some(settings) }
    }

    /// Whether the settings are still held.
    pub closed spec fn is_pending(&self) -> bool {
        self.pending is Some
    }

    /// The settings held.
    pub closed spec fn spec_settings(&self) -> T {
        self.pending.unwrap()
    }

    /// Hands the settings out the first time, and an error every time after.
    pub fn take(&mut self) -> (r: Result<T, String>)
        ensures
            !final(self).is_pending(),
            match r {
                Ok(t) => old(self).is_pending() && t == old(self).spec_settings(),
                Err(msg) => !old(self).is_pending() && msg@ == consumed_twice_message(),
            },
    {
        match self.pending.take() {
            Some(t) => Ok(t),
            None => Err(String::from_str("plugin builder consumed twice")),
        }
    }
}


/// Scripts registered one after the other are kept after those registered
/// before, in the order of registration.
pub proof fn lemma_scripts_keep_registration_order<D, S, L, X, Rt>(
    m: BuilderModel<D, S, L, X, Rt>,
    first: String,
    second: String,
)
    ensures
        ({
            let m1 = BuilderModel { document_created_scripts: m.document_created_scripts.push(first), ..m };
            let m2 = BuilderModel { document_created_scripts: m1.document_created_scripts.push(second), ..m1 };
            m2.document_created_scripts == m.document_created_scripts + seq![first, second]
        }),
{
    let m1 = BuilderModel { document_created_scripts: m.document_created_scripts.push(first), ..m };
    let m2 = BuilderModel { document_created_scripts: m1.document_created_scripts.push(second), ..m1 };
    assert(m2.document_created_scripts =~= m.document_created_scripts + seq![first, second]);
}

/// Recording the libraries' directory resolver, or the extra router, a
/// second time replaces the first value and leaves every other setting as
/// it was.
pub proof fn lemma_later_setting_replaces_earlier<D, S, L, X, Rt>(
    m: BuilderModel<D, S, L, X, Rt>,
    f: D,
    g: D,
    router: Rt,
    other_router: Rt,
)
    ensures
        (BuilderModel { dll_dir_resolver: Some(g), ..BuilderModel { dll_dir_resolver: Some(f), ..m } })
            == (BuilderModel { dll_dir_resolver: Some(g), ..m }),
        (BuilderModel { extra_router: Some(other_router), ..BuilderModel { extra_router: Some(router), ..m } })
            == (BuilderModel { extra_router: Some(other_router), ..m }),
{
}


/// Resolution keeps each setting to its own resolver: with no resolver the
/// setting stays absent, and with one it is a value that resolver can
/// return for the application.
pub proof fn lemma_resolved_follows_its_resolver<F: Fn(&H) -> T, H, T>(f: F, app: &H, v: Option<T>)
    ensures
        resolved(None::<F>, app, v) <==> v is None,
        resolved(Some(f), app, v) <==> (v is Some && call_ensures(f, (app,), v.unwrap())),
{
}

} // verus!
