//! A screen with a popup that a key opens and closes.

use crate::keys::{Flow, Key, KeyCode};
use vstd::prelude::*;

verus! {

/// A popup that is open or closed.
#[derive(Debug)]
pub struct Modal {
    open: bool,
}

impl Modal {
    /// Whether the popup is open.
    pub closed spec fn opened(&self) -> bool {
        self.open
    }

    /// A popup that is open if `open` says so.
    pub fn new(open: bool) -> (modal: Modal)
        ensures
            modal.opened() == open,
    {
        Modal { open }
    }

    /// Whether the popup is open.
    pub fn is_open(&self) -> (open: bool)
        ensures
            open == self.opened(),
    {
        self.open
    }
}

/// The screen and its popup, if it ever had one.
#[derive(Debug)]
pub struct App {
    /// The popup; `None` until it is first opened.
    pub modal: Option<Modal>,
}

impl App {
    /// Whether a popup is on display.
    pub open spec fn popup_shown(&self) -> bool {
        self.modal matches Some(modal) && modal.opened()
    }

    /// A screen that never had a popup.
    pub fn new() -> (app: App)
        ensures
            app.modal is None,
            !app.popup_shown(),
    {
        App { modal: None }
    }

    /// Opens the popup if none is shown, and closes the one that is.
    pub fn toggle_popup(&mut self)
        ensures
            final(self).modal is Some,
            final(self).popup_shown() == !old(self).popup_shown(),
    {
        let shown: bool = match &self.modal {
            Some(modal) => modal.is_open(),
            None => false,
        };
        self.modal = Some(Modal::new(!shown));
    }

    /// Handles one key: `q` ends the program, `p` toggles the popup, every
    /// other key is passed over.
    pub fn on_key(&mut self, key: Key) -> (flow: Flow)
        ensures
            flow == if key.code == KeyCode::Char('q') {
                Flow::Quit
            } else {
                Flow::Continue
            },
            key.code == KeyCode::Char('p') ==> final(self).modal is Some,
            key.code == KeyCode::Char('p') ==> final(self).popup_shown() == !old(
                self,
            ).popup_shown(),
            key.code != KeyCode::Char('p') ==> *final(self) == *old(self),
    {
        match key.code {
            KeyCode::Char(c) => {
                if c == 'q' {
                    return Flow::Quit;
                } else if c == 'p' {
                    self.toggle_popup();
                }
            },
            _ => {},
        }
        Flow::Continue
    }
}

} // verus!
