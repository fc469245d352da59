use vstd::prelude::*;

use crate::error::RESULT_OK;

verus! {

/// A handle of a screenshot in the library.
pub type ScreenshotHandle = u32;

/// The handle Steam returns when a screenshot could not be added.
pub const INVALID_SCREENSHOT_HANDLE: u32 = 0;

/// The `EResult` code of an I/O failure.
pub const RESULT_IO_FAILURE: i64 = 37;

/// Why a screenshot could not be added to the library.
#[derive(Debug, Clone, Copy, PartialEq, Eq, Structural)]
pub enum ScreenshotLibraryAddError {
    /// Steam failed to save the file for an unspecified reason.
    SavingFailed,
    /// One of the paths provided was invalid.
    InvalidPath,
}

impl ScreenshotLibraryAddError {
    /// The human readable description of the error.
    pub fn to_string(&self) -> (s: String)
        ensures
            s@ == (match *self {
                ScreenshotLibraryAddError::SavingFailed => "The screenshot file could not be saved"@,
                ScreenshotLibraryAddError::InvalidPath => "Invalid path"@,
            }),
    {
        let m: &str = match self {
            ScreenshotLibraryAddError::SavingFailed => "The screenshot file could not be saved",
            ScreenshotLibraryAddError::InvalidPath => "Invalid path",
        };
        String::from_str(m)
    }
}

/// The outcome of adding a screenshot: the handle, unless Steam returned the invalid handle.
pub fn added_screenshot(handle: u32) -> (r: Result<ScreenshotHandle, ScreenshotLibraryAddError>)
    ensures
        handle == INVALID_SCREENSHOT_HANDLE ==> r == Err::<ScreenshotHandle, ScreenshotLibraryAddError>(
            ScreenshotLibraryAddError::SavingFailed,
        ),
        handle != INVALID_SCREENSHOT_HANDLE ==> r == Ok::<ScreenshotHandle, ScreenshotLibraryAddError>(handle),
{
    if handle != INVALID_SCREENSHOT_HANDLE {
        Ok(handle)
    } else {
        Err(ScreenshotLibraryAddError::SavingFailed)
    }
}

/// A screenshot has been requested by the user from the Steam screenshot hotkey.
/// This will only be called if `hook_screenshots` has been enabled, in which case Steam will not take the screenshot itself.
#[derive(Clone, Debug)]
pub struct ScreenshotRequested;

/// Why a screenshot was not written.
#[derive(Clone, Copy, Debug, PartialEq, Eq, Structural)]
pub enum ScreenshotReadyError {
    /// The screenshot could not be loaded or parsed.
    Fail,
    /// The screenshot could not be saved to the disk.
    IoFailure,
}

impl ScreenshotReadyError {
    /// The human readable description of the error.
    pub fn to_string(&self) -> (s: String)
        ensures
            s@ == (match *self {
                ScreenshotReadyError::Fail => "The screenshot could not be loaded or parsed"@,
                ScreenshotReadyError::IoFailure => "The screenshot could not be saved to the disk"@,
            }),
    {
        let m: &str = match self {
            ScreenshotReadyError::Fail => "The screenshot could not be loaded or parsed",
            ScreenshotReadyError::IoFailure => "The screenshot could not be saved to the disk",
        };
        String::from_str(m)
    }
}

/// A screenshot successfully written or otherwise added to the library and can now be tagged.
#[derive(Clone, Copy, Debug)]
pub struct ScreenshotReady {
    /// The screenshot handle that has been written.
    pub local_handle: Result<ScreenshotHandle, ScreenshotReadyError>,
}

impl ScreenshotReady {
    /// Builds the event from the raw callback fields: the handle on success, a
    /// disk failure for an I/O failure, a plain failure otherwise.
    pub fn from_raw_fields(code: i64, handle: u32) -> (r: Self)
        ensures
            code == RESULT_OK ==> r.local_handle == Ok::<ScreenshotHandle, ScreenshotReadyError>(handle),
            code == RESULT_IO_FAILURE ==> r.local_handle == Err::<ScreenshotHandle, ScreenshotReadyError>(
                ScreenshotReadyError::IoFailure,
            ),
            (code != RESULT_OK && code != RESULT_IO_FAILURE) ==> r.local_handle == Err::<
                ScreenshotHandle,
                ScreenshotReadyError,
            >(ScreenshotReadyError::Fail),
    {
        let local_handle = if code == RESULT_OK {
            Ok(handle)
        } else if code == RESULT_IO_FAILURE {
            Err(ScreenshotReadyError::IoFailure)
        } else {
            Err(ScreenshotReadyError::Fail)
        };
        ScreenshotReady { local_handle }
    }
}

} // verus!
