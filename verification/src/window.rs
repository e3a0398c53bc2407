//! Window handles of the host, as the engine takes and gives them.
//!
//! The engine knows a window by its Win32 `HWND`, an integer that is never
//! zero; zero stands for "no window".

use raw_window_handle::RawWindowHandle;
use vstd::prelude::*;

verus! {

/// `raw_window_handle::RawWindowHandle`, a window handle of any platform.
/// Nothing of its contents is visible here but through [`win32_hwnd`].
#[verifier::external_type_specification]
#[verifier::external_body]
pub struct ExRawWindowHandle(raw_window_handle::RawWindowHandle);

/// The `HWND` inside a window handle of the Win32 kind; `None` for a handle of
/// any other kind.
pub uninterp spec fn win32_hwnd(handle: RawWindowHandle) -> Option<int>;

/// An optional machine integer as an optional mathematical one.
pub open spec fn as_int(value: Option<isize>) -> Option<int> {
    match value {
        Some(v) => Some(v as int),
        None => None,
    }
}

/// Reads `hwnd` out of `RawWindowHandle::Win32`. The field is a
/// `NonZeroIsize`, so what comes out is never zero.
#[verifier::external_body]
fn hwnd_of(handle: &RawWindowHandle) -> (hwnd: Option<isize>)
    ensures
        as_int(hwnd) == win32_hwnd(*handle),
        hwnd != Some(0isize),
{
    match handle {
        RawWindowHandle::Win32(it) => Some(it.hwnd.get()),
        _ => None,
    }
}

/// `Win32WindowHandle::new` inside `RawWindowHandle::Win32`: a handle of the
/// Win32 kind that holds `hwnd`.
#[verifier::external_body]
pub(crate) fn win32_handle(hwnd: isize) -> (handle: RawWindowHandle)
    requires
        hwnd != 0,
    ensures
        win32_hwnd(handle) == Some(hwnd as int),
{
    RawWindowHandle::Win32(raw_window_handle::Win32WindowHandle::new(
        core::num::NonZeroIsize::new(hwnd).unwrap(),
    ))
}

/// The `HWND` to create a page in: that of a Win32 handle, zero where the
/// host names no window, and `None` for a handle of a kind that the engine
/// cannot take.
pub fn native_window(handle: Option<&RawWindowHandle>) -> (hwnd: Option<isize>)
    ensures
        match handle {
            None => hwnd == Some(0isize),
            Some(h) => as_int(hwnd) == win32_hwnd(*h) && hwnd != Some(0isize),
        },
{
    match handle {
        None => Some(0),
        Some(h) => hwnd_of(h),
    }
}

} // verus!
