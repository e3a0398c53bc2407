//! The engine: its options, and when its construction succeeds.

use crate::error::Error;
use crate::ffi::{into_opt, nul_free, terminated};
use crate::page::Page;
use vstd::prelude::*;
use vstd::string::StringSliceAdditionalSpecFns;

verus! {

/// The paths that an engine is started with. Each may be left out.
#[derive(Debug)]
pub struct WebviewOptions<'a> {
    pub cache_path: Option<&'a str>,
    pub browser_subprocess_path: Option<&'a str>,
    pub scheme_path: Option<&'a str>,
}

impl<'a> Default for WebviewOptions<'a> {
    fn default() -> (options: Self)
        ensures
            options.cache_path is None,
            options.browser_subprocess_path is None,
            options.scheme_path is None,
    {
        WebviewOptions { cache_path: None, browser_subprocess_path: None, scheme_path: None }
    }
}

/// The options as the native factory reads them: each path that is there as
/// a NUL-terminated byte string.
#[derive(Debug, PartialEq, Eq)]
pub struct NativeWebviewOptions {
    pub cache_path: Option<Vec<u8>>,
    pub browser_subprocess_path: Option<Vec<u8>>,
    pub scheme_path: Option<Vec<u8>>,
}

/// A path as the native side reads it.
pub open spec fn native_path(path: Option<&str>) -> Option<Seq<u8>> {
    match path {
        Some(p) => Some(terminated(p.spec_bytes())),
        None => None,
    }
}

/// The bytes of a native path, if there are any.
pub open spec fn path_bytes(path: Option<Vec<u8>>) -> Option<Seq<u8>> {
    match path {
        Some(p) => Some(p@),
        None => None,
    }
}

/// A path that the native side can be handed: none, or one without a NUL.
pub open spec fn path_ok(path: Option<&str>) -> bool {
    path matches Some(p) ==> nul_free(p.spec_bytes())
}

impl<'a> WebviewOptions<'a> {
    /// Every path that is there can be handed to the native side.
    pub open spec fn transferable(&self) -> bool {
        path_ok(self.cache_path) && path_ok(self.browser_subprocess_path) && path_ok(
            self.scheme_path,
        )
    }

    /// The options for the native factory, path by path.
    pub fn to_native(&self) -> (native: NativeWebviewOptions)
        requires
            self.transferable(),
        ensures
            path_bytes(native.cache_path) == native_path(self.cache_path),
            path_bytes(native.browser_subprocess_path) == native_path(
                self.browser_subprocess_path,
            ),
            path_bytes(native.scheme_path) == native_path(self.scheme_path),
    {
        NativeWebviewOptions {
            cache_path: into_opt(self.cache_path),
            browser_subprocess_path: into_opt(self.browser_subprocess_path),
            scheme_path: into_opt(self.scheme_path),
        }
    }
}

/// An engine that was constructed. It stands for a native engine handle,
/// which is never null.
pub struct Webview {
    raw: usize,
}

impl Webview {
    #[verifier::type_invariant]
    spec fn live(&self) -> bool {
        self.raw != 0
    }

    /// The address of the native engine.
    pub closed spec fn handle(&self) -> usize {
        self.raw
    }

    /// Whether construction succeeds, given the handle that the native
    /// factory returned and whether the engine then signalled that it is
    /// ready. A null handle fails whatever the signal, so in that case there
    /// is nothing to wait for.
    pub open spec fn constructs(raw: usize, ready: bool) -> bool {
        raw != 0 && ready
    }

    /// Whether there is a ready signal to wait for, once the native factory
    /// has returned `raw`: only an engine that exists reports ready. Where
    /// there is none, construction has failed already.
    pub fn awaits_ready(raw: usize) -> (wait: bool)
        ensures
            wait == (raw != 0),
            !wait ==> forall|ready: bool| !Self::constructs(raw, ready),
    {
        raw != 0
    }

    /// Ends the construction of an engine. `raw` is what the native factory
    /// returned; `ready` says whether the ready signal arrived, and is
    /// `false` where it was not waited for or its channel closed without it.
    pub fn new(raw: usize, ready: bool) -> (engine: Result<Webview, Error>)
        ensures
            engine is Ok <==> Self::constructs(raw, ready),
            engine matches Ok(w) ==> w.handle() == raw,
            engine matches Err(e) ==> e == Error::CreateWebviewError,
    {
        if raw == 0 || !ready {
            return Err(Error::CreateWebviewError);
        }
        Ok(Webview { raw })
    }

    /// The address of the native engine, for the calls that take it.
    pub fn raw(&self) -> (raw: usize)
        ensures
            raw == self.handle(),
            raw != 0,
    {
        proof {
            use_type_invariant(self);
        }
        self.raw
    }

    /// Ends the construction of a page of this engine. `raw` is what the
    /// native page factory returned, and `outcome` what the relay sent about
    /// the first load: see [`Page::new`].
    pub fn create_page(&self, raw: usize, outcome: Option<bool>) -> (page: Result<Page, Error>)
        ensures
            page is Ok <==> Page::constructs(raw, outcome),
            page matches Ok(p) ==> p.handle() == raw,
            page matches Err(e) ==> e == Error::CreatePageError,
    {
        Page::new(raw, outcome)
    }
}

} // verus!
