//! The directory resolver: a host-owned context holding the two singleton
//! slots (resource directory, portable flag) together with the
//! platform-supplied inputs (user home, canonicalized executable directory,
//! application identity), and the accessors deriving every path from them.

use vstd::prelude::*;
use vstd::string::StringExecFns;
use crate::DirsError;
use crate::paths::{joined, home_of, joined_result, path_result_is, join_path};

verus! {

/// Mathematical model of a [`Resolver`]: every string as a `Seq<char>`.
#[verifier::ext_equal]
pub struct ResolverView {
    pub app_version: Seq<char>,
    pub app_dir: Seq<char>,
    pub home_dir: Option<Seq<char>>,
    pub exe_dir: Option<Seq<char>>,
    pub portable: Option<bool>,
    pub resource_dir: Option<Seq<char>>,
}

/// View of an optional string as an optional character sequence.
pub open spec fn opt_str_view(o: Option<String>) -> Option<Seq<char>> {
    match o {
        Some(s) => Some(s@),
        None => None,
    }
}

/// The directory resolver. Created once by the host at startup with the
/// platform-resolved inputs, then passed to every subsystem that needs
/// paths; each accessor is a pure function of this state.
pub struct Resolver {
    /// Application version string, fixed at build time.
    pub app_version: String,
    /// Application identity: the leaf folder name under `.config`,
    /// selected at build time (standard or development build).
    pub app_dir: String,
    /// The user's home directory, or absent if the platform could not
    /// determine one.
    pub home_dir: Option<String>,
    /// The canonicalized directory containing the running executable, or
    /// absent if it could not be determined or canonicalized.
    pub exe_dir: Option<String>,
    /// Portable flag: absent on platforms where portable mode does not
    /// exist, otherwise the current flag (default `false`).
    pub portable: Option<bool>,
    /// Cached resource directory: unset until resolved, then set.
    pub resource_dir: Option<String>,
}

impl View for Resolver {
    type V = ResolverView;

    open spec fn view(&self) -> ResolverView {
        ResolverView {
            app_version: self.app_version@,
            app_dir: self.app_dir@,
            home_dir: opt_str_view(self.home_dir),
            exe_dir: opt_str_view(self.exe_dir),
            portable: self.portable,
            resource_dir: opt_str_view(self.resource_dir),
        }
    }
}

/// Whether the resolver is in portable mode: the flag exists and is set.
pub open spec fn spec_portable_active(v: ResolverView) -> bool {
    v.portable == Some(true)
}

/// The home directory per mode: `<exe dir>/.config/<identity>` in portable
/// mode, `<user home>/.config/<identity>` otherwise; `NotFound` when the
/// root for the selected mode is undeterminable.
pub open spec fn spec_app_home_dir(v: ResolverView) -> Result<Seq<char>, DirsError> {
    if spec_portable_active(v) {
        match v.exe_dir {
            Some(e) => Ok(home_of(e, v.app_dir)),
            None => Err(DirsError::NotFound),
        }
    } else {
        match v.home_dir {
            Some(h) => Ok(home_of(h, v.app_dir)),
            None => Err(DirsError::NotFound),
        }
    }
}

/// The cached resource directory, or `NotFound` if never initialized.
pub open spec fn spec_resource_dir_strict(v: ResolverView) -> Result<Seq<char>, DirsError> {
    match v.resource_dir {
        Some(r) => Ok(r),
        None => Err(DirsError::NotFound),
    }
}

/// The portable-mode sentinel path `<exe dir>/.config/PORTABLE`, or an I/O
/// error when the executable's directory is undeterminable.
pub open spec fn spec_portable_marker_path(v: ResolverView) -> Result<Seq<char>, DirsError> {
    match v.exe_dir {
        Some(e) => Ok(joined(joined(e, ".config"@), "PORTABLE"@)),
        None => Err(DirsError::IoError),
    }
}

/// State after storing a resource directory: only that slot changes.
pub open spec fn spec_set_resource_dir(v: ResolverView, path: Seq<char>) -> ResolverView {
    ResolverView { resource_dir: Some(path), ..v }
}

/// State after the portable-flag probe: the flag becomes set exactly when
/// the sentinel exists and the platform has the flag at all; nothing else
/// changes, and an absent sentinel changes nothing.
pub open spec fn spec_init_portable_flag(v: ResolverView, sentinel_exists: bool) -> ResolverView {
    if sentinel_exists && v.portable is Some {
        ResolverView { portable: Some(true), ..v }
    } else {
        v
    }
}

/// The per-run service log directory: `<home>/logs/service`.
pub open spec fn spec_service_log_dir(v: ResolverView) -> Result<Seq<char>, DirsError> {
    joined_result(joined_result(spec_app_home_dir(v), "logs"@), "service"@)
}

impl Resolver {
    /// Creates a resolver from the platform-resolved inputs. The resource
    /// directory starts unset and the portable flag starts `false` (absent
    /// entirely where the platform has no portable mode).
    pub fn new(
        app_version: String,
        app_dir: String,
        home_dir: Option<String>,
        exe_dir: Option<String>,
        portable_supported: bool,
    ) -> (r: Resolver)
        ensures
            r@.app_version == app_version@,
            r@.app_dir == app_dir@,
            r@.home_dir == opt_str_view(home_dir),
            r@.exe_dir == opt_str_view(exe_dir),
            r@.portable == (if portable_supported { Some(false) } else { None::<bool> }),
            r@.resource_dir is None,
    {
        Resolver {
            app_version,
            app_dir,
            home_dir,
            exe_dir,
            portable: if portable_supported { Some(false) } else { None },
            resource_dir: None,
        }
    }

    /// The application version the resolver was built with.
    pub fn get_app_version(&self) -> (r: &str)
        ensures
            r@ == self@.app_version,
    {
        self.app_version.as_str()
    }

    /// Whether portable mode is active (always `false` where the platform
    /// has no portable mode).
    pub fn get_portable_flag(&self) -> (r: bool)
        ensures
            r == spec_portable_active(self@),
    {
        match self.portable {
            Some(b) => b,
            None => false,
        }
    }

    /// The cached resource directory; absence is a valid result and means
    /// it was never initialized.
    pub fn get_resource_dir(&self) -> (r: Option<String>)
        ensures
            match r {
                Some(p) => self@.resource_dir matches Some(q) && p@ == q,
                None => self@.resource_dir is None,
            },
    {
        match &self.resource_dir {
            Some(p) => Some(p.clone()),
            None => None,
        }
    }

    /// Stores the resolved resource directory. Last write wins, so calling
    /// it again with the same path leaves the state as after the first call.
    pub fn set_resource_dir(&mut self, path: String)
        ensures
            final(self)@ == spec_set_resource_dir(old(self)@, path@),
    {
        self.resource_dir = Some(path);
    }

    /// The sentinel path probed for portable mode:
    /// `<exe dir>/.config/PORTABLE`. Hosts test this path for existence and
    /// feed the answer to [`Resolver::init_portable_flag`].
    pub fn portable_marker_path(&self) -> (r: Result<String, DirsError>)
        ensures
            path_result_is(r, spec_portable_marker_path(self@)),
    {
        match &self.exe_dir {
            Some(e) => Ok(join_path(join_path(e.as_str(), ".config").as_str(), "PORTABLE")),
            None => Err(DirsError::IoError),
        }
    }

    /// Records the outcome of the portable-mode probe: `sentinel_exists`
    /// says whether the sentinel marker file is present next to the
    /// executable. Fails with an I/O error, changing nothing, when the
    /// executable's directory is undeterminable; otherwise sets the flag
    /// exactly when the sentinel exists. Safe to call repeatedly.
    pub fn init_portable_flag(&mut self, sentinel_exists: bool) -> (r: Result<(), DirsError>)
        ensures
            old(self)@.exe_dir is Some ==> (r matches Ok(_))
                && final(self)@ == spec_init_portable_flag(old(self)@, sentinel_exists),
            old(self)@.exe_dir is None ==> (r matches Err(e) && e == DirsError::IoError)
                && final(self)@ == old(self)@,
    {
        if self.exe_dir.is_none() {
            return Err(DirsError::IoError);
        }
        if sentinel_exists && self.portable.is_some() {
            self.portable = Some(true);
        }
        Ok(())
    }

    /// The application home directory: `<user home>/.config/<identity>` in
    /// installed mode, `<exe dir>/.config/<identity>` in portable mode.
    pub fn app_home_dir(&self) -> (r: Result<String, DirsError>)
        ensures
            path_result_is(r, spec_app_home_dir(self@)),
    {
        if self.get_portable_flag() {
            match &self.exe_dir {
                Some(e) => Ok(Self::home_under(e.as_str(), self.app_dir.as_str())),
                None => Err(DirsError::NotFound),
            }
        } else {
            match &self.home_dir {
                Some(h) => Ok(Self::home_under(h.as_str(), self.app_dir.as_str())),
                None => Err(DirsError::NotFound),
            }
        }
    }

    /// `<root>/.config/<identity>`, the home layout shared by both modes.
    fn home_under(root: &str, identity: &str) -> (r: String)
        ensures
            r@ == home_of(root@, identity@),
    {
        join_path(join_path(root, ".config").as_str(), identity)
    }

    /// Resolves and caches the resource directory from the platform bundle
    /// layer's answer: the bundle directory joined with the fixed
    /// `resources` subfolder. Fails with `NotFound`, changing nothing, when
    /// the platform could not locate a bundle directory.
    pub fn app_resources_dir(&mut self, bundle_dir: Option<String>) -> (r: Result<
        String,
        DirsError,
    >)
        ensures
            bundle_dir matches Some(b) ==> (r matches Ok(p) && p@ == joined(b@, "resources"@))
                && final(self)@ == spec_set_resource_dir(old(self)@, joined(b@, "resources"@)),
            bundle_dir is None ==> (r matches Err(e) && e == DirsError::NotFound)
                && final(self)@ == old(self)@,
    {
        match bundle_dir {
            Some(b) => {
                let res = join_path(b.as_str(), "resources");
                self.set_resource_dir(res.clone());
                Ok(res)
            },
            None => Err(DirsError::NotFound),
        }
    }

    /// `<home>/profiles`, the profile documents folder.
    pub fn app_profiles_dir(&self) -> (r: Result<String, DirsError>)
        ensures
            path_result_is(r, joined_result(spec_app_home_dir(self@), "profiles"@)),
    {
        self.home_join("profiles")
    }

    /// `<home>/logs`, the log output folder.
    pub fn app_logs_dir(&self) -> (r: Result<String, DirsError>)
        ensures
            path_result_is(r, joined_result(spec_app_home_dir(self@), "logs"@)),
    {
        self.home_join("logs")
    }

    /// `<home>/config.yaml`, the proxy-core configuration file.
    pub fn clash_path(&self) -> (r: Result<String, DirsError>)
        ensures
            path_result_is(r, joined_result(spec_app_home_dir(self@), "config.yaml"@)),
    {
        self.home_join("config.yaml")
    }

    /// `<home>/verge.yaml`, the application settings file.
    pub fn verge_path(&self) -> (r: Result<String, DirsError>)
        ensures
            path_result_is(r, joined_result(spec_app_home_dir(self@), "verge.yaml"@)),
    {
        self.home_join("verge.yaml")
    }

    /// `<home>/profiles.yaml`, the profile index file.
    pub fn profiles_path(&self) -> (r: Result<String, DirsError>)
        ensures
            path_result_is(r, joined_result(spec_app_home_dir(self@), "profiles.yaml"@)),
    {
        self.home_join("profiles.yaml")
    }

    /// `<home>/storage`, the local key-value store folder.
    pub fn storage_path(&self) -> (r: Result<String, DirsError>)
        ensures
            path_result_is(r, joined_result(spec_app_home_dir(self@), "storage"@)),
    {
        self.home_join("storage")
    }

    /// The home directory joined with a fixed leaf, propagating a home
    /// failure.
    fn home_join(&self, leaf: &str) -> (r: Result<String, DirsError>)
        ensures
            path_result_is(r, joined_result(spec_app_home_dir(self@), leaf@)),
    {
        match self.app_home_dir() {
            Ok(h) => Ok(join_path(h.as_str(), leaf)),
            Err(e) => Err(e),
        }
    }

    /// The cached resource directory, or `NotFound` if it was never
    /// initialized — never a default or guessed path.
    pub fn app_res_dir(&self) -> (r: Result<String, DirsError>)
        ensures
            path_result_is(r, spec_resource_dir_strict(self@)),
    {
        match &self.resource_dir {
            Some(p) => Ok(p.clone()),
            None => Err(DirsError::NotFound),
        }
    }

    /// `<resource dir>/clash.pid`, the proxy-core process id file.
    pub fn clash_pid_path(&self) -> (r: Result<String, DirsError>)
        ensures
            path_result_is(r, joined_result(spec_resource_dir_strict(self@), "clash.pid"@)),
    {
        match self.app_res_dir() {
            Ok(d) => Ok(join_path(d.as_str(), "clash.pid")),
            Err(e) => Err(e),
        }
    }

    /// `<resource dir>/clash-verge-service.exe`, the service helper
    /// executable.
    pub fn service_path(&self) -> (r: Result<String, DirsError>)
        ensures
            path_result_is(
                r,
                joined_result(spec_resource_dir_strict(self@), "clash-verge-service.exe"@),
            ),
    {
        match self.app_res_dir() {
            Ok(d) => Ok(join_path(d.as_str(), "clash-verge-service.exe")),
            Err(e) => Err(e),
        }
    }

    /// `<home>/logs/service/<stamp>.log`: the service log file for a given
    /// timestamp, propagating a home failure. This computes the path only;
    /// hosts create the `service` directory best-effort before writing.
    pub fn service_log_file_at(&self, stamp: &str) -> (r: Result<String, DirsError>)
        ensures
            path_result_is(r, joined_result(spec_service_log_dir(self@), stamp@ + ".log"@)),
    {
        match self.app_logs_dir() {
            Ok(logs) => {
                let dir = join_path(logs.as_str(), "service");
                let mut name = stamp.to_owned();
                name.append(".log");
                Ok(join_path(dir.as_str(), name.as_str()))
            },
            Err(e) => Err(e),
        }
    }
}

} // verus!
