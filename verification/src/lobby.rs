//! Pairing of clients: a client that joins waits for the next one, and the
//! two play a match.

use crate::game::elapsed;
use crate::input::KeyCode;
use crate::types::Tick;
use vstd::prelude::*;

verus! {

/// Whole seconds after which a client that waits alone is sent away.
pub const INACTIVITY_TIMEOUT: u128 = 10;

/// The waiting room: at most one client waits in it.
#[derive(Clone, Copy, PartialEq, Eq, Debug)]
pub struct Lobby {
    /// The client that waits, and since when.
    pub pending: Option<(usize, Tick)>,
}

/// What becomes of a client that joins.
#[derive(Clone, Copy, PartialEq, Eq, Debug, Structural)]
pub enum Admission {
    /// It waits for an opponent.
    Waits,
    /// It plays Blue against the client that was waiting, which plays Red.
    Plays { red: usize, blue: usize },
}

/// What is done with the bytes that a client sends.
#[derive(Clone, Copy, PartialEq, Eq, Debug, Structural)]
pub enum Route {
    /// The client quits: its session is closed.
    Quit,
    /// The client waits for an opponent: the key is dropped.
    Ignore,
    /// The key goes to the client's match.
    Forward,
    /// The client has no match: its session is closed.
    Close,
}

impl Lobby {
    /// The client `client_id` waits.
    pub open spec fn holds(self, client_id: usize) -> bool {
        self.pending matches Some(waiting) && waiting.0 == client_id
    }

    /// The client that waits has waited too long at `now`.
    pub open spec fn overdue(self, now: Tick) -> bool {
        self.pending matches Some(waiting) && elapsed(now, waiting.1) / 1000 > INACTIVITY_TIMEOUT
    }

    /// An empty waiting room.
    pub fn new() -> (r: Lobby)
        ensures
            r.pending is None,
    {
        Lobby { pending: None }
    }

    /// Takes in the client `client_id` at `now`. Where a client waits, the
    /// two are paired and the room is empty again; else the new client
    /// waits.
    pub fn join(&mut self, client_id: usize, now: Tick) -> (r: Admission)
        ensures
            old(self).pending matches Some(waiting) ==> r == (Admission::Plays {
                red: waiting.0,
                blue: client_id,
            }) && final(self).pending is None,
            old(self).pending is None ==> r == Admission::Waits && final(self).pending == Some(
                (client_id, now),
            ),
    {
        match self.pending {
            Some(waiting) => {
                self.pending = None;
                Admission::Plays { red: waiting.0, blue: client_id }
            },
            None => {
                self.pending = Some((client_id, now));
                Admission::Waits
            },
        }
    }

    /// Tells whether the client `client_id` waits.
    pub fn is_pending(&self, client_id: usize) -> (r: bool)
        ensures
            r == self.holds(client_id),
    {
        match self.pending {
            Some(waiting) => waiting.0 == client_id,
            None => false,
        }
    }

    /// Lets the client `client_id` go if it waits, and tells whether it
    /// did.
    pub fn leave(&mut self, client_id: usize) -> (r: bool)
        ensures
            r == old(self).holds(client_id),
            r ==> final(self).pending is None,
            !r ==> *final(self) == *old(self),
    {
        if self.is_pending(client_id) {
            self.pending = None;
            true
        } else {
            false
        }
    }

    /// Sends the waiting client away where it has waited for more than the
    /// timeout at `now`, and names it.
    pub fn expire(&mut self, now: Tick) -> (r: Option<usize>)
        ensures
            old(self).overdue(now) ==> final(self).pending is None,
            old(self).overdue(now) ==> (old(self).pending matches Some(waiting) && r == Some(
                waiting.0,
            )),
            !old(self).overdue(now) ==> r is None && *final(self) == *old(self),
    {
        match self.pending {
            Some(waiting) => {
                let waited: u128 = if now >= waiting.1 {
                    now - waiting.1
                } else {
                    0
                };
                if waited / 1000 > INACTIVITY_TIMEOUT {
                    self.pending = None;
                    Some(waiting.0)
                } else {
                    None
                }
            },
            None => None,
        }
    }
}

/// What is done with a key of a client: escape quits; else a client that
/// waits is ignored, one that plays has its key forwarded, and any other is
/// closed.
pub open spec fn routed(key: KeyCode, waits: bool, plays: bool) -> Route {
    if key == KeyCode::Esc {
        Route::Quit
    } else if waits {
        Route::Ignore
    } else if plays {
        Route::Forward
    } else {
        Route::Close
    }
}

/// Decides what is done with a key of a client that `waits` for an
/// opponent or `plays` a match.
pub fn route(key: KeyCode, waits: bool, plays: bool) -> (r: Route)
    ensures
        r == routed(key, waits, plays),
{
    if key == KeyCode::Esc {
        Route::Quit
    } else if waits {
        Route::Ignore
    } else if plays {
        Route::Forward
    } else {
        Route::Close
    }
}

} // verus!
