//! The interactive session: one tagged state, one event in, one action
//! out.
//!
//! The controller owns the session state, the current network list and
//! the selection. It consumes decoded key events and answers with the
//! single action the event loop must perform; it never blocks and never
//! touches the terminal or an external command itself.

use vstd::prelude::*;
use crate::client::{ConnectOutcome, NetworkList};
use crate::selection::{down_step, up_step, Selection};

verus! {

/// One keystroke, already decoded from the terminal's input stream.
#[derive(Debug, Clone, Copy, PartialEq, Eq)]
pub enum KeyEvent {
    Up,
    Down,
    Enter,
    Esc,
    Char(char),
    Other,
}

/// The phase the session is in; exactly one at a time. Sessions start
/// Browsing; Browsing is re-entered on each refresh; the other moves
/// are one-directional.
#[derive(Debug, PartialEq, Eq)]
pub enum SessionState {
    Browsing,
    EnteringPassword { ssid: String, partial_password: String },
    Connecting { ssid: String, password: String },
    Finished { outcome: ConnectOutcome },
}

/// What the event loop must do in response to the last event.
#[derive(Debug, PartialEq, Eq)]
pub enum Action {
    /// Run the listing command afresh, install the result and render
    /// the whole list again.
    Rescan,
    /// Move the selection marker from one entry to another, without a
    /// full repaint.
    MoveMarker { from: usize, to: usize },
    /// Render the password prompt for the chosen network and switch
    /// the terminal to line-edit input.
    PromptPassword,
    /// Run the connect command with the chosen network and password.
    Connect { ssid: String, password: String },
    /// Leave the program without any further work.
    Quit,
    /// Nothing: the event is a no-op in the current phase.
    Stay,
}

/// Relies on `format!` over `String` and `char`: it concatenates their
/// textual forms, which are the string itself and the character itself.
#[verifier::external_body]
fn push_char(s: &String, c: char) -> (r: String)
    ensures
        r@ == s@.push(c),
{
    format!("{}{}", s, c)
}

/// The interactive controller. It alone holds the session state and
/// the selection for their whole lifetime; the network list is replaced
/// wholesale on each scan.
pub struct Controller {
    pub state: SessionState,
    pub networks: NetworkList,
    pub sel: Selection,
}

impl Controller {
    /// The selection always points into the current list: strictly
    /// inside it while the list is non-empty, pinned at 0 otherwise.
    pub open spec fn wf(&self) -> bool {
        &&& self.networks.wf()
        &&& if self.networks.spec_len() == 0 {
            self.sel.index == 0
        } else {
            self.sel.index < self.networks.spec_len()
        }
    }

    /// A fresh session: Browsing, nothing scanned yet, selection on
    /// the first entry.
    pub fn new() -> (c: Controller)
        ensures
            c.wf(),
            c.state is Browsing,
            c.networks.spec_len() == 0,
            c.sel.index == 0,
    {
        Controller {
            state: SessionState::Browsing,
            networks: NetworkList::empty(),
            sel: Selection::new(),
        }
    }

    /// Install a fresh scan, replacing the old list wholesale. The
    /// selection keeps its position when the new list still reaches
    /// it and is clamped onto the new list otherwise.
    pub fn apply_scan(&mut self, list: NetworkList)
        requires
            old(self).wf(),
            list.wf(),
        ensures
            final(self).wf(),
            final(self).networks == list,
            final(self).state == old(self).state,
            final(self).sel.index as int == if old(self).sel.index < list.spec_len() {
                old(self).sel.index as int
            } else if list.spec_len() == 0 {
                0
            } else {
                list.spec_len() - 1
            },
    {
        self.networks = list;
        let len = self.networks.len();
        if self.sel.index >= len {
            self.sel.index = if len == 0 {
                0
            } else {
                len - 1
            };
        }
    }

    /// One step of the session's state machine, as driven by a key:
    /// arrows navigate while Browsing, `r` asks for a fresh scan,
    /// Enter picks the highlighted network and later confirms the
    /// typed password, `q` quits from Browsing, Esc quits from the
    /// password prompt discarding what was typed, and everything else
    /// is a no-op that repaints nothing.
    pub fn handle_event(&mut self, ev: &KeyEvent) -> (a: Action)
        requires
            old(self).wf(),
        ensures
            final(self).wf(),
            final(self).networks == old(self).networks,
            old(self).state is Browsing ==> {
                &&& ev is Up ==> {
                    &&& final(self).state is Browsing
                    &&& final(self).sel.index == up_step(old(self).sel.index as nat)
                    &&& (a matches Action::MoveMarker { from, to } && from == old(
                        self,
                    ).sel.index && to == final(self).sel.index)
                }
                &&& ev is Down ==> {
                    &&& final(self).state is Browsing
                    &&& final(self).sel.index as nat == (if old(self).networks.spec_len() == 0 {
                        0nat
                    } else {
                        down_step(old(self).sel.index as nat, old(self).networks.spec_len())
                    })
                    &&& (a matches Action::MoveMarker { from, to } && from == old(
                        self,
                    ).sel.index && to == final(self).sel.index)
                }
                &&& ev == KeyEvent::Char('r') ==> *final(self) == *old(self) && a
                    == Action::Rescan
                &&& ev is Enter && old(self).networks.spec_len() > 0 ==> {
                    &&& (final(self).state matches SessionState::EnteringPassword {
                        ssid,
                        partial_password,
                    } && ssid@ == old(self).networks.ssids.deep_view()[old(self).sel.index as int]
                        && partial_password@ == Seq::<char>::empty())
                    &&& final(self).sel == old(self).sel
                    &&& a == Action::PromptPassword
                }
                &&& ev is Enter && old(self).networks.spec_len() == 0 ==> *final(self) == *old(
                    self,
                ) && a == Action::Stay
                &&& ev == KeyEvent::Char('q') ==> *final(self) == *old(self) && a == Action::Quit
                &&& ev is Esc || ev is Other || (ev matches KeyEvent::Char(c) && *c != 'r' && *c
                    != 'q') ==> *final(self) == *old(self) && a == Action::Stay
            },
            old(self).state matches SessionState::EnteringPassword { ssid, partial_password }
                ==> {
                &&& (ev matches KeyEvent::Char(c) ==> (final(self).state
                    matches SessionState::EnteringPassword { ssid: s2, partial_password: p2 }
                    && s2@ == ssid@ && p2@ == partial_password@.push(*c) && a == Action::Stay))
                &&& (ev is Enter ==> {
                    &&& (final(self).state matches SessionState::Connecting {
                        ssid: s2,
                        password: p2,
                    } && s2@ == ssid@ && p2@ == partial_password@)
                    &&& (a matches Action::Connect { ssid: s3, password: p3 } && s3@ == ssid@
                        && p3@ == partial_password@)
                })
                &&& (ev is Esc ==> *final(self) == *old(self) && a == Action::Quit)
                &&& ((ev is Up || ev is Down || ev is Other) ==> *final(self) == *old(self) && a
                    == Action::Stay)
                &&& final(self).sel == old(self).sel
            },
            old(self).state is Connecting || old(self).state is Finished ==> *final(self) == *old(
                self,
            ) && a == Action::Stay,
    {
        match &self.state {
            SessionState::Browsing => {
                match ev {
                    KeyEvent::Up => {
                        let from = self.sel.index;
                        self.sel.move_up();
                        Action::MoveMarker { from, to: self.sel.index }
                    },
                    KeyEvent::Down => {
                        let from = self.sel.index;
                        let len = self.networks.len();
                        if len > 0 {
                            self.sel.move_down(len);
                        }
                        Action::MoveMarker { from, to: self.sel.index }
                    },
                    KeyEvent::Char(c) => {
                        if *c == 'r' {
                            Action::Rescan
                        } else if *c == 'q' {
                            Action::Quit
                        } else {
                            Action::Stay
                        }
                    },
                    KeyEvent::Enter => {
                        if self.networks.len() > 0 {
                            let ssid = self.sel.current(&self.networks).clone();
                            self.state = SessionState::EnteringPassword {
                                ssid,
                                partial_password: String::new(),
                            };
                            Action::PromptPassword
                        } else {
                            Action::Stay
                        }
                    },
                    _ => Action::Stay,
                }
            },
            SessionState::EnteringPassword { ssid, partial_password } => {
                match ev {
                    KeyEvent::Char(c) => {
                        let grown = push_char(partial_password, *c);
                        let kept = ssid.clone();
                        self.state = SessionState::EnteringPassword {
                            ssid: kept,
                            partial_password: grown,
                        };
                        Action::Stay
                    },
                    KeyEvent::Enter => {
                        let s2 = ssid.clone();
                        let p2 = partial_password.clone();
                        let s3 = s2.clone();
                        let p3 = p2.clone();
                        self.state = SessionState::Connecting { ssid: s2, password: p2 };
                        Action::Connect { ssid: s3, password: p3 }
                    },
                    KeyEvent::Esc => Action::Quit,
                    _ => Action::Stay,
                }
            },
            _ => Action::Stay,
        }
    }

    /// The connect call has come back: record its outcome. The session
    /// is Finished; only rendering the outcome remains.
    pub fn complete_connect(&mut self, outcome: ConnectOutcome)
        requires
            old(self).wf(),
            old(self).state is Connecting,
        ensures
            final(self).wf(),
            final(self).networks == old(self).networks,
            final(self).sel == old(self).sel,
            final(self).state matches SessionState::Finished { outcome: oc } && oc == outcome,
    {
        self.state = SessionState::Finished { outcome };
    }
}

} // verus!
