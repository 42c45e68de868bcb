//! The categories of application data.

use vstd::prelude::*;

verus! {

/// Enum specifying the type of app data you want to store.
///
/// **Different platforms are NOT guaranteed to distinguish between each data
/// type.** Keep this in mind when choosing data file paths.
///
/// Example: Windows does not support shared application data and does not
/// distinguish between config and data. Therefore, on Windows, all variants
/// except `UserCache` return the same path.
#[derive(Clone, Copy, PartialEq, Eq, Structural, Hash, Debug)]
pub enum AppDataType {
    /// User-specific app configuration data.
    UserConfig,
    /// User-specific arbitrary app data.
    UserData,
    /// User-specific app cache data.
    UserCache,
    /// System-wide arbitrary app data.
    SharedData,
    /// System-wide app configuration data.
    SharedConfig,
}

impl AppDataType {
    /// Whether the data type is system-wide rather than user-specific.
    pub open spec fn spec_is_shared(&self) -> bool {
        *self is SharedData || *self is SharedConfig
    }

    /// Returns `true` for non-user-specific data types.
    #[verifier::when_used_as_spec(spec_is_shared)]
    pub fn is_shared(&self) -> (shared: bool)
        ensures
            shared == self.spec_is_shared(),
    {
        match *self {
            AppDataType::SharedData | AppDataType::SharedConfig => true,
            AppDataType::UserConfig | AppDataType::UserData | AppDataType::UserCache => false,
        }
    }
}

} // verus!
