//! Crate-level laws: how the home-directory modes relate, and how the two
//! singleton slots behave under repeated initialization.

use vstd::prelude::*;
use crate::DirsError;
use crate::paths::{home_of, joined_result};
use crate::resolver::{
    ResolverView, spec_portable_active, spec_app_home_dir, spec_resource_dir_strict,
    spec_set_resource_dir, spec_init_portable_flag,
};

verus! {

/// Two roots give the same home directory for a fixed identity exactly
/// when the roots themselves coincide.
pub proof fn lemma_home_of_root_cancel(a: Seq<char>, b: Seq<char>, id: Seq<char>)
    ensures
        home_of(a, id) == home_of(b, id) <==> a == b,
{
    if home_of(a, id) == home_of(b, id) {
        assert(home_of(a, id).len() == a.len() + "/"@.len() + ".config"@.len() + "/"@.len()
            + id.len());
        assert(home_of(b, id).len() == b.len() + "/"@.len() + ".config"@.len() + "/"@.len()
            + id.len());
        assert(a.len() == b.len());
        assert forall|i: int| 0 <= i < a.len() implies a[i] == b[i] by {
            assert(home_of(a, id)[i] == a[i]);
            assert(home_of(b, id)[i] == b[i]);
        }
        assert(a =~= b);
    }
}

/// In installed mode the home directory never depends on the executable's
/// location: any two states agreeing on everything but the executable
/// directory resolve the same home.
pub proof fn lemma_installed_home_ignores_exe(v: ResolverView, w: ResolverView)
    requires
        !spec_portable_active(v),
        w == (ResolverView { exe_dir: w.exe_dir, ..v }),
    ensures
        spec_app_home_dir(v) == spec_app_home_dir(w),
{
}

/// In portable mode the home directory never depends on the user's home
/// directory: any two states agreeing on everything but it resolve the
/// same home.
pub proof fn lemma_portable_home_ignores_home(v: ResolverView, w: ResolverView)
    requires
        spec_portable_active(v),
        w == (ResolverView { home_dir: w.home_dir, ..v }),
    ensures
        spec_app_home_dir(v) == spec_app_home_dir(w),
{
}

/// For a fixed identity, an installed-mode home and a portable-mode home
/// never coincide unless the user home directory and the executable
/// directory themselves coincide.
pub proof fn lemma_modes_never_collide(v: ResolverView, w: ResolverView, h: Seq<char>, e: Seq<char>)
    requires
        !spec_portable_active(v),
        spec_portable_active(w),
        v.app_dir == w.app_dir,
        v.home_dir == Some(h),
        w.exe_dir == Some(e),
        h != e,
    ensures
        spec_app_home_dir(v) != spec_app_home_dir(w),
{
    if spec_app_home_dir(v) == spec_app_home_dir(w) {
        assert(home_of(h, v.app_dir) == home_of(e, v.app_dir));
        lemma_home_of_root_cancel(h, e, v.app_dir);
    }
}

/// Storing the same resource directory twice yields the same state as
/// storing it once, so every later read sees the same value.
pub proof fn lemma_set_resource_dir_idempotent(v: ResolverView, path: Seq<char>)
    ensures
        spec_set_resource_dir(spec_set_resource_dir(v, path), path) == spec_set_resource_dir(
            v,
            path,
        ),
{
}

/// Probing for the portable sentinel when it is absent changes nothing,
/// however often the probe is repeated.
pub proof fn lemma_init_portable_flag_absent_noop(v: ResolverView)
    ensures
        spec_init_portable_flag(v, false) == v,
{
}

/// Recording the portable-flag probe a second time with the same outcome
/// changes nothing beyond the first recording.
pub proof fn lemma_init_portable_flag_idempotent(v: ResolverView, sentinel_exists: bool)
    ensures
        spec_init_portable_flag(
            spec_init_portable_flag(v, sentinel_exists),
            sentinel_exists,
        ) == spec_init_portable_flag(v, sentinel_exists),
{
}

/// Before any resource-directory initialization, every accessor that
/// depends on the resource directory fails with `NotFound` — never a
/// default or guessed path.
pub proof fn lemma_unset_resource_dir_not_found(v: ResolverView)
    requires
        v.resource_dir is None,
    ensures
        spec_resource_dir_strict(v) == Err::<Seq<char>, DirsError>(DirsError::NotFound),
        joined_result(spec_resource_dir_strict(v), "clash.pid"@) == Err::<Seq<char>, DirsError>(
            DirsError::NotFound,
        ),
        joined_result(
            spec_resource_dir_strict(v),
            "clash-verge-service.exe"@,
        ) == Err::<Seq<char>, DirsError>(DirsError::NotFound),
{
}

} // verus!
