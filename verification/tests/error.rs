use app_dirs::error::{ERR_INVALID_APP_INFO, ERR_NOT_SUPPORTED};
use app_dirs::AppDirsError;
use std::io;

fn disk_on_fire() -> io::Error {
    io::Error::new(io::ErrorKind::Other, "disk on fire")
}

fn fails_with_io() -> Result<u32, io::Error> {
    Err(io::Error::new(io::ErrorKind::PermissionDenied, "no entry"))
}

fn propagates() -> Result<u32, AppDirsError> {
    let value = fails_with_io()?;
    Ok(value + 1)
}

#[test]
fn not_supported_message() {
    let error = AppDirsError::NotSupported;
    assert_eq!(error.to_string(), "App data directories not supported");
    assert_eq!(error.description(), "App data directories not supported");
}

#[test]
fn not_supported_has_no_cause() {
    assert!(AppDirsError::NotSupported.cause().is_none());
}

#[test]
fn invalid_app_info_message() {
    let error = AppDirsError::InvalidAppInfo;
    assert_eq!(error.to_string(), "Invalid app name or author");
    assert_eq!(error.description(), "Invalid app name or author");
}

#[test]
fn invalid_app_info_has_no_cause() {
    assert!(AppDirsError::InvalidAppInfo.cause().is_none());
}

#[test]
fn message_constants() {
    assert_eq!(ERR_NOT_SUPPORTED, "App data directories not supported");
    assert_eq!(ERR_INVALID_APP_INFO, "Invalid app name or author");
}

#[test]
fn lifted_io_error_is_the_io_variant() {
    let lifted = AppDirsError::from(disk_on_fire());
    assert!(matches!(lifted, AppDirsError::Io(_)));
    let lifted: AppDirsError = disk_on_fire().into();
    assert!(matches!(lifted, AppDirsError::Io(_)));
}

#[test]
fn lifted_io_error_keeps_its_message() {
    let inner = disk_on_fire();
    let expected = inner.to_string();
    let lifted = AppDirsError::from(inner);
    assert_eq!(expected, "disk on fire");
    assert_eq!(lifted.to_string(), "disk on fire");
}

#[test]
fn lifted_io_error_is_its_own_cause() {
    let lifted = AppDirsError::from(disk_on_fire());
    let cause = lifted.cause().unwrap();
    assert_eq!(cause.kind(), io::ErrorKind::Other);
    assert_eq!(cause.to_string(), "disk on fire");
    assert_eq!(cause.get_ref().unwrap().to_string(), "disk on fire");
}

#[test]
fn lifted_os_error_keeps_its_message() {
    let expected = io::Error::from_raw_os_error(2).to_string();
    let lifted = AppDirsError::from(io::Error::from_raw_os_error(2));
    assert_eq!(lifted.to_string(), expected);
    assert!(expected.contains("os error 2"));
    let cause = lifted.cause().unwrap();
    assert_eq!(cause.raw_os_error(), Some(2));
}

#[test]
fn lifted_simple_error_keeps_its_message() {
    let expected = io::Error::from(io::ErrorKind::NotFound).to_string();
    let lifted = AppDirsError::from(io::Error::from(io::ErrorKind::NotFound));
    assert_eq!(lifted.to_string(), expected);
    assert_eq!(lifted.cause().unwrap().kind(), io::ErrorKind::NotFound);
}

#[test]
fn explicit_io_variant_behaves_as_the_lifted_one() {
    let explicit = AppDirsError::Io(disk_on_fire());
    assert_eq!(explicit.to_string(), "disk on fire");
    assert_eq!(explicit.cause().unwrap().to_string(), "disk on fire");
}

#[test]
fn io_message_is_a_single_undecorated_line() {
    let lifted = AppDirsError::from(io::Error::new(io::ErrorKind::InvalidData, "bad header"));
    let text = lifted.to_string();
    assert_eq!(text, "bad header");
    assert_eq!(text.lines().count(), 1);
}

#[test]
#[allow(deprecated)]
fn io_description_is_the_wrapped_description() {
    let expected = std::error::Error::description(&disk_on_fire()).to_string();
    let lifted = AppDirsError::from(disk_on_fire());
    assert_eq!(lifted.description(), expected);
    let expected = std::error::Error::description(&io::Error::from(io::ErrorKind::NotFound)).to_string();
    let lifted = AppDirsError::from(io::Error::from(io::ErrorKind::NotFound));
    assert_eq!(lifted.description(), expected);
}

#[test]
fn description_with_passes_io_text_through() {
    let lifted = AppDirsError::from(disk_on_fire());
    assert_eq!(lifted.description_with("entity not found"), "entity not found");
    assert_eq!(lifted.description_with(""), "");
}

#[test]
fn description_with_ignores_io_text_without_io_error() {
    assert_eq!(
        AppDirsError::NotSupported.description_with("entity not found"),
        "App data directories not supported"
    );
    assert_eq!(
        AppDirsError::InvalidAppInfo.description_with("entity not found"),
        "Invalid app name or author"
    );
}

#[test]
fn question_mark_lifts_io_errors() {
    let error = propagates().unwrap_err();
    assert!(matches!(error, AppDirsError::Io(_)));
    assert_eq!(error.to_string(), "no entry");
    assert_eq!(error.cause().unwrap().kind(), io::ErrorKind::PermissionDenied);
}

#[test]
fn errors_have_debug_output() {
    assert_eq!(format!("{:?}", AppDirsError::NotSupported), "NotSupported");
    assert_eq!(format!("{:?}", AppDirsError::InvalidAppInfo), "InvalidAppInfo");
    assert!(format!("{:?}", AppDirsError::from(disk_on_fire())).starts_with("Io("));
}

#[test]
fn the_three_variants_render_differently() {
    let io = AppDirsError::from(disk_on_fire()).to_string();
    let unsupported = AppDirsError::NotSupported.to_string();
    let invalid = AppDirsError::InvalidAppInfo.to_string();
    assert_ne!(io, unsupported);
    assert_ne!(io, invalid);
    assert_ne!(unsupported, invalid);
}
