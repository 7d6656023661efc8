//! Application-directory resolution: computes the filesystem locations an
//! application uses for configuration, profiles, logs, local storage and
//! bundled resources, and tracks whether it runs in portable mode.

use vstd::prelude::*;

pub mod clock;
pub mod laws;
pub mod paths;
pub mod resolver;

pub use clock::{is_digit, is_stamp};
pub use paths::{joined, home_of, joined_result, path_result_is, join_path, path_to_str};
pub use resolver::{
    Resolver, ResolverView, opt_str_view, spec_portable_active, spec_app_home_dir,
    spec_resource_dir_strict, spec_portable_marker_path, spec_set_resource_dir,
    spec_init_portable_flag, spec_service_log_dir,
};

verus! {

/// Reasons a path accessor can fail.
#[derive(Clone, Copy, Debug, PartialEq, Eq, Structural)]
pub enum DirsError {
    /// A required directory (home, resource, executable) could not be determined.
    NotFound,
    /// A path is not representable as valid text.
    EncodingError,
    /// A filesystem probe or canonicalization failed.
    IoError,
}

} // verus!
