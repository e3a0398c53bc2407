use raw_window_handle::{RawWindowHandle, Win32WindowHandle, XlibWindowHandle};
use std::num::NonZeroIsize;
use webview::window::native_window;
use webview::Page;

#[test]
fn no_window_is_zero() {
    assert_eq!(native_window(None), Some(0));
}

#[test]
fn win32_window_gives_its_hwnd() {
    let handle = RawWindowHandle::Win32(Win32WindowHandle::new(NonZeroIsize::new(0x5a0).unwrap()));
    assert_eq!(native_window(Some(&handle)), Some(0x5a0));
}

#[test]
fn negative_hwnd_is_kept() {
    let handle = RawWindowHandle::Win32(Win32WindowHandle::new(NonZeroIsize::new(-3).unwrap()));
    assert_eq!(native_window(Some(&handle)), Some(-3));
}

#[test]
fn other_windows_cannot_be_taken() {
    let handle = RawWindowHandle::Xlib(XlibWindowHandle::new(77));
    assert_eq!(native_window(Some(&handle)), None);
}

#[test]
fn reported_hwnd_becomes_a_win32_handle() {
    let page = Page::new(1, Some(true)).ok().unwrap();
    match page.window_handle(4242) {
        RawWindowHandle::Win32(handle) => {
            assert_eq!(handle.hwnd.get(), 4242);
            assert_eq!(handle.hinstance, None);
        }
        other => panic!("expected a Win32 handle, got {:?}", other),
    }
}

#[test]
fn window_handle_round_trip() {
    let page = Page::new(1, Some(true)).ok().unwrap();
    let handle = page.window_handle(-9);
    assert_eq!(native_window(Some(&handle)), Some(-9));
}
