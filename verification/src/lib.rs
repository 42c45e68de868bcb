//! Data model and error taxonomy for locating an application's data
//! directories: who the application is, which category of data is asked
//! for, and what can go wrong while resolving a directory.

pub mod app_info;
pub mod data_type;
pub mod error;

pub use app_info::{AppIdentity, AppInfo, OwningAppInfo, StaticAppInfo};
pub use data_type::AppDataType;
pub use error::AppDirsError;
