//! Verified decision core of a binding around an embedded browser engine.
//!
//! The engine itself lives behind a native boundary. Everything a binding has
//! to decide on its side of that boundary is here, as total functions on plain
//! values with machine-checked contracts: which native call an input request
//! turns into, how text is framed for the native side, how large a painted
//! frame is, and when the construction of an engine or of a page succeeds.

pub mod action;
pub mod error;
pub mod ffi;
pub mod frame;
pub mod page;
pub mod state;
pub mod subprocess;
pub mod webview;
pub mod window;

pub use action::{ActionState, ImeAction, MouseAction, Position};
pub use error::Error;
pub use page::Page;
pub use state::{PageState, Relay};
pub use subprocess::is_subprocess;
pub use webview::{Webview, WebviewOptions};
