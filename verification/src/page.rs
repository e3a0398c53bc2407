//! A page: when its construction succeeds, and the native call that each
//! request to it becomes.

use crate::action::{ActionState, ImeAction, MouseAction};
use crate::error::Error;
use crate::ffi::{into, nul_free, terminated};
use crate::state::{first_terminal, first_verdict_at, lemma_first_terminal_position, PageState};
use crate::window::{win32_handle, win32_hwnd};
use raw_window_handle::RawWindowHandle;
use vstd::prelude::*;
use vstd::string::StringSliceAdditionalSpecFns;

verus! {

/// A call into the engine for a page: the page's native handle, and what is
/// asked of it.
#[derive(Debug, PartialEq, Eq)]
pub struct Call<R> {
    pub page: usize,
    pub request: R,
}

/// The native mouse calls.
#[derive(Debug, PartialEq, Eq)]
pub enum MouseCall<B> {
    Move { x: i32, y: i32 },
    Wheel { x: i32, y: i32 },
    Click { button: B, pressed: bool },
    ClickWithPos { button: B, pressed: bool, x: i32, y: i32 },
}

/// The native keyboard call.
#[derive(Debug, PartialEq, Eq)]
pub struct KeyboardCall<M> {
    pub scan_code: i32,
    pub pressed: bool,
    pub modifiers: M,
}

/// The native input-method calls. The text is NUL-terminated.
#[derive(Debug, PartialEq, Eq)]
pub enum ImeCall {
    Composition { text: Vec<u8> },
    SetComposition { text: Vec<u8>, x: i32, y: i32 },
}

/// The native resize call.
#[derive(Debug, PartialEq, Eq)]
pub struct ResizeCall {
    pub width: i32,
    pub height: i32,
}

/// The native message call. The text is NUL-terminated.
#[derive(Debug, PartialEq, Eq)]
pub struct MessageCall {
    pub text: Vec<u8>,
}

/// An unsigned number as the native side reads it, in a signed integer of
/// the same width: the same bits.
pub open spec fn c_int(value: u32) -> int {
    if value <= i32::MAX {
        value as int
    } else {
        value - 0x1_0000_0000
    }
}

/// The native mouse call that a mouse request becomes.
pub open spec fn mouse_call<B>(action: MouseAction<B>) -> MouseCall<B> {
    match action {
        MouseAction::Move(pos) => MouseCall::Move { x: pos.x, y: pos.y },
        MouseAction::Wheel(pos) => MouseCall::Wheel { x: pos.x, y: pos.y },
        MouseAction::Click(button, state, Some(pos)) => MouseCall::ClickWithPos {
            button,
            pressed: state.pressed(),
            x: pos.x,
            y: pos.y,
        },
        MouseAction::Click(button, state, None) => MouseCall::Click {
            button,
            pressed: state.pressed(),
        },
    }
}

/// The text of an input-method request.
pub open spec fn ime_text(action: ImeAction) -> Seq<u8> {
    match action {
        ImeAction::Composition(text) => text.spec_bytes(),
        ImeAction::Pre(text, _, _) => text.spec_bytes(),
    }
}

fn to_c_int(value: u32) -> (r: i32)
    ensures
        r == c_int(value),
{
    if value <= 0x7fff_ffff {
        value as i32
    } else {
        let low: u32 = value - 0x8000_0000;
        low as i32 + i32::MIN
    }
}

/// A page that was constructed. It stands for a native page handle, which is
/// never null.
pub struct Page {
    raw: usize,
}

impl Page {
    #[verifier::type_invariant]
    spec fn live(&self) -> bool {
        self.raw != 0
    }

    /// The address of the native page.
    pub closed spec fn handle(&self) -> usize {
        self.raw
    }

    /// Whether construction succeeds, given the handle that the native
    /// factory returned and what was received about the first load: `true`
    /// for a load, `false` for a failed one, nothing where the page's states
    /// ended before either.
    pub open spec fn constructs(raw: usize, outcome: Option<bool>) -> bool {
        raw != 0 && outcome == Some(true)
    }

    /// Whether there is a first load to wait for, once the native factory
    /// has returned `raw`: only a page that exists reports states. Where
    /// there is none, construction has failed already.
    pub fn awaits_load(raw: usize) -> (wait: bool)
        ensures
            wait == (raw != 0),
            !wait ==> forall|outcome: Option<bool>| !Self::constructs(raw, outcome),
    {
        raw != 0
    }

    /// Ends the construction of a page.
    pub fn new(raw: usize, outcome: Option<bool>) -> (page: Result<Page, Error>)
        ensures
            page is Ok <==> Self::constructs(raw, outcome),
            page matches Ok(p) ==> p.handle() == raw,
            page matches Err(e) ==> e == Error::CreatePageError,
    {
        if raw == 0 {
            return Err(Error::CreatePageError);
        }
        match outcome {
            Some(true) => Ok(Page { raw }),
            _ => Err(Error::CreatePageError),
        }
    }

    /// The address of the native page, for the calls that take it.
    pub fn raw(&self) -> (raw: usize)
        ensures
            raw == self.handle(),
            raw != 0,
    {
        proof {
            use_type_invariant(self);
        }
        self.raw
    }

    /// A click, a move or a turn of the wheel. A click goes to a position
    /// where the request has one, and to the pointer's place where not.
    pub fn on_mouse<B>(&self, action: MouseAction<B>) -> (call: Call<MouseCall<B>>)
        ensures
            call.page == self.handle(),
            call.request == mouse_call(action),
    {
        let request = match action {
            MouseAction::Move(pos) => MouseCall::Move { x: pos.x, y: pos.y },
            MouseAction::Wheel(pos) => MouseCall::Wheel { x: pos.x, y: pos.y },
            MouseAction::Click(button, state, pos) => {
                if let Some(pos) = pos {
                    MouseCall::ClickWithPos {
                        button,
                        pressed: state.is_pressed(),
                        x: pos.x,
                        y: pos.y,
                    }
                } else {
                    MouseCall::Click { button, pressed: state.is_pressed() }
                }
            },
        };
        Call { page: self.raw, request }
    }

    /// A key goes down or comes up. `M` is the engine's own type for the
    /// modifier keys; it is carried through untouched.
    pub fn on_keyboard<M>(&self, scan_code: u32, state: ActionState, modifiers: M) -> (call: Call<
        KeyboardCall<M>,
    >)
        ensures
            call.page == self.handle(),
            call.request.scan_code == c_int(scan_code),
            call.request.pressed == state.pressed(),
            call.request.modifiers == modifiers,
    {
        Call {
            page: self.raw,
            request: KeyboardCall {
                scan_code: to_c_int(scan_code),
                pressed: state.is_pressed(),
                modifiers,
            },
        }
    }

    /// Text from an input method: committed, or as a composition in
    /// progress with its selection range.
    pub fn on_ime(&self, action: ImeAction) -> (call: Call<ImeCall>)
        requires
            nul_free(ime_text(action)),
        ensures
            call.page == self.handle(),
            match action {
                ImeAction::Composition(_) => call.request matches ImeCall::Composition { text }
                    && text@ == terminated(ime_text(action)),
                ImeAction::Pre(_, from, to) => call.request matches ImeCall::SetComposition {
                    text,
                    x,
                    y,
                } && text@ == terminated(ime_text(action)) && x == from && y == to,
            },
    {
        let request = match action {
            ImeAction::Composition(text) => ImeCall::Composition { text: into(text) },
            ImeAction::Pre(text, x, y) => ImeCall::SetComposition { text: into(text), x, y },
        };
        Call { page: self.raw, request }
    }

    /// The view has a new size.
    pub fn resize(&self, width: u32, height: u32) -> (call: Call<ResizeCall>)
        ensures
            call.page == self.handle(),
            call.request.width == c_int(width),
            call.request.height == c_int(height),
    {
        Call {
            page: self.raw,
            request: ResizeCall { width: to_c_int(width), height: to_c_int(height) },
        }
    }

    /// The host's window handle for the `HWND` that the engine reports for
    /// this page.
    pub fn window_handle(&self, hwnd: isize) -> (handle: RawWindowHandle)
        requires
            hwnd != 0,
        ensures
            win32_hwnd(handle) == Some(hwnd as int),
    {
        win32_handle(hwnd)
    }

    /// A message for the page's content.
    pub fn send_message(&self, message: &str) -> (call: Call<MessageCall>)
        requires
            nul_free(message.spec_bytes()),
        ensures
            call.page == self.handle(),
            call.request.text@ == terminated(message.spec_bytes()),
    {
        Call { page: self.raw, request: MessageCall { text: into(message) } }
    }
}

/// Construction of a page succeeds exactly when the first state with a
/// verdict, among those observed, is a load. It fails where that state is a
/// failed load, and where no state has a verdict. The states in front of
/// that first one, which have no verdict, change nothing.
pub proof fn lemma_page_follows_first_terminal(raw: usize, states: Seq<PageState>)
    requires
        raw != 0,
    ensures
        Page::constructs(raw, first_terminal(states)) <==> exists|i: int| #[trigger]
            first_verdict_at(states, i) && states[i] == PageState::Load,
        !Page::constructs(raw, first_terminal(states)) <==> (exists|i: int| #[trigger]
            first_verdict_at(states, i) && states[i] == PageState::LoadError) || (forall|i: int|
            0 <= i < states.len() ==> #[trigger] states[i] == PageState::Other),
{
    lemma_first_terminal_position(states);
    if first_terminal(states) is Some {
        let k = choose|i: int| #[trigger]
            first_verdict_at(states, i) && states[i].verdict() == first_terminal(states);
        assert forall|i: int| #[trigger] first_verdict_at(states, i) implies i == k by {
            if i < k {
                assert(states[i].verdict() is None);
            } else if k < i {
                assert(states[k].verdict() is None);
            }
        }
        assert(states[k] != PageState::Other);
    } else {
        assert forall|i: int| 0 <= i < states.len() implies #[trigger] states[i]
            == PageState::Other by {
            assert(states[i].verdict() is None);
        }
    }
}

} // verus!
