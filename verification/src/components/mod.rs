//! The components of the screen. Each one owns a part of the state, takes the
//! input that is routed to it, reacts to the actions that are broadcast, and
//! lays itself out in the area it is given.

pub mod home;
pub mod request;
pub mod url_input;

use crate::action::Action;
use crate::config::Config;
use crate::event::{KeyEvent, MouseEvent};
use crate::geometry::Rect;
use tokio::sync::mpsc::UnboundedSender;
use vstd::prelude::*;

verus! {

/// The sending half of tokio's unbounded channel, by which actions reach the
/// bus. It is carried, never looked into.
#[verifier::external_type_specification]
#[verifier::external_body]
#[verifier::reject_recursive_types(T)]
pub struct ExUnboundedSender<T>(UnboundedSender<T>);

/// What every component offers, whatever it shows.
pub trait Component {
    /// What a draw pass of the component hands to the painter.
    type Frame;

    /// Gives the component the handle by which actions reach the bus. The
    /// component keeps the handle it was given last.
    fn register_action_handler(&mut self, tx: UnboundedSender<Action>);

    /// Gives the component the shared configuration, which replaces the one
    /// it had.
    fn register_config_handler(&mut self, config: Config);

    /// Takes a key while the component has the focus. `None` means that the
    /// key asks nothing of the rest of the application.
    fn handle_key_event(&mut self, key: KeyEvent) -> Option<Action>;

    /// Takes a pointer event.
    fn handle_mouse_event(&mut self, mouse: MouseEvent) -> Option<Action>;

    /// Reacts to an action that is broadcast to all components.
    fn update(&mut self, action: Action) -> Option<Action>;

    /// Lays the component out in `area` and says what is to be painted there.
    fn draw(&mut self, area: Rect) -> Self::Frame;
}

} // verus!
