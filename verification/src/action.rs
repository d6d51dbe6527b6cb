//! The actions that flow through the application: terminal input, the two
//! clocks, lifecycle signals and what components ask of each other.

use crate::app::Mode;
use crate::event::{KeyEvent, MouseEvent};
use crate::transport::{RequestSpec, RequestSpecView};
use vstd::prelude::*;

verus! {

/// One unit of intent or event. Actions are consumed one at a time, in the
/// order in which they arrive.
#[derive(Debug, PartialEq, Eq)]
pub enum Action {
    Tick,
    Render,
    Resize(u16, u16),
    Key(KeyEvent),
    Mouse(MouseEvent),
    Quit,
    Suspend,
    Resume,
    ClearScreen,
    FocusChanged(Mode),
    /// The URL input was submitted: the captured request is to be sent.
    SendRequest(RequestSpec),
    /// A transport call came back with a response.
    ResponseReceived { status: u16, body: String, elapsed_ms: u64 },
    /// A transport call failed.
    RequestFailed { message: String },
}

/// An action as contracts see it: every text by its characters.
pub enum ActionView {
    Tick,
    Render,
    Resize(u16, u16),
    Key(KeyEvent),
    Mouse(MouseEvent),
    Quit,
    Suspend,
    Resume,
    ClearScreen,
    FocusChanged(Mode),
    SendRequest(RequestSpecView),
    ResponseReceived { status: u16, body: Seq<char>, elapsed_ms: u64 },
    RequestFailed { message: Seq<char> },
}

impl View for Action {
    type V = ActionView;

    open spec fn view(&self) -> ActionView {
        match self {
            Action::Tick => ActionView::Tick,
            Action::Render => ActionView::Render,
            Action::Resize(width, height) => ActionView::Resize(*width, *height),
            Action::Key(key) => ActionView::Key(*key),
            Action::Mouse(mouse) => ActionView::Mouse(*mouse),
            Action::Quit => ActionView::Quit,
            Action::Suspend => ActionView::Suspend,
            Action::Resume => ActionView::Resume,
            Action::ClearScreen => ActionView::ClearScreen,
            Action::FocusChanged(mode) => ActionView::FocusChanged(*mode),
            Action::SendRequest(request) => ActionView::SendRequest(request@),
            Action::ResponseReceived { status, body, elapsed_ms } => ActionView::ResponseReceived {
                status: *status,
                body: body@,
                elapsed_ms: *elapsed_ms,
            },
            Action::RequestFailed { message } => ActionView::RequestFailed { message: message@ },
        }
    }
}

impl Clone for Action {
    fn clone(&self) -> (copy: Self)
        ensures
            copy@ == self@,
    {
        match self {
            Action::Tick => Action::Tick,
            Action::Render => Action::Render,
            Action::Resize(width, height) => Action::Resize(*width, *height),
            Action::Key(key) => Action::Key(*key),
            Action::Mouse(mouse) => Action::Mouse(*mouse),
            Action::Quit => Action::Quit,
            Action::Suspend => Action::Suspend,
            Action::Resume => Action::Resume,
            Action::ClearScreen => Action::ClearScreen,
            Action::FocusChanged(mode) => Action::FocusChanged(*mode),
            Action::SendRequest(request) => Action::SendRequest(request.clone()),
            Action::ResponseReceived { status, body, elapsed_ms } => Action::ResponseReceived {
                status: *status,
                body: body.clone(),
                elapsed_ms: *elapsed_ms,
            },
            Action::RequestFailed { message } => Action::RequestFailed { message: message.clone() },
        }
    }
}

} // verus!
