//! The single slot that carries a temporary token secret from the redirect
//! step to the callback step.
use vstd::prelude::*;
use crate::text::str_equal;

verus! {

/// No secret is held for the token that was asked for.
#[derive(Debug, PartialEq, Eq)]
pub struct NotFoundError;

/// What the relay holds: nothing, or one token with its secret.
pub type Slot = Option<(Seq<char>, Seq<char>)>;

/// The slot after `token` and `secret` were put: whatever was there is gone.
pub open spec fn slot_put(slot: Slot, token: Seq<char>, secret: Seq<char>) -> Slot {
    Some((token, secret))
}

/// The secret that a take of `token` hands out, if any.
pub open spec fn slot_secret(slot: Slot, token: Seq<char>) -> Option<Seq<char>> {
    match slot {
        Some((t, s)) => if t == token {
            Some(s)
        } else {
            None
        },
        None => None,
    }
}

/// The slot after a take of `token`: emptied where the take succeeds, left
/// as it was where it fails.
pub open spec fn slot_after_take(slot: Slot, token: Seq<char>) -> Slot {
    if slot_secret(slot, token).is_some() {
        None
    } else {
        slot
    }
}

/// One call on the relay, as a history records it.
pub enum RelayOp {
    /// A put of a token and its secret.
    Put(Seq<char>, Seq<char>),
    /// A take of a token, whether it found anything or not.
    Take(Seq<char>),
}

impl RelayOp {
    /// Whether this call is a put of `token`.
    pub open spec fn puts(self, token: Seq<char>) -> bool {
        match self {
            RelayOp::Put(t, _) => t == token,
            RelayOp::Take(_) => false,
        }
    }
}

/// The slot after one call.
pub open spec fn slot_apply(slot: Slot, op: RelayOp) -> Slot {
    match op {
        RelayOp::Put(token, secret) => slot_put(slot, token, secret),
        RelayOp::Take(token) => slot_after_take(slot, token),
    }
}

/// The slot after a history of calls, first to last.
pub open spec fn slot_after(slot: Slot, history: Seq<RelayOp>) -> Slot
    decreases history.len(),
{
    if history.len() == 0 {
        slot
    } else {
        slot_apply(slot_after(slot, history.drop_last()), history.last())
    }
}

/// A store with room for one pending token secret.
pub struct SecretRelay {
    held: Option<(String, String)>,
}

impl View for SecretRelay {
    type V = Slot;

    closed spec fn view(&self) -> Slot {
        match self.held {
            Some((t, s)) => Some((t@, s@)),
            None => None,
        }
    }
}

impl SecretRelay {
    /// An empty relay.
    pub fn new() -> (r: Self)
        ensures
            r@.is_none(),
    {
        SecretRelay { held: None }
    }

    /// Whether nothing is held.
    pub fn is_empty(&self) -> (r: bool)
        ensures
            r == self@.is_none(),
    {
        self.held.is_none()
    }

    /// Stores `secret` for `token`, replacing whatever was held.
    pub fn put(&mut self, token: &str, secret: &str)
        ensures
            final(self)@ == slot_put(old(self)@, token@, secret@),
    {
        self.held = Some((String::from_str(token), String::from_str(secret)));
    }

    /// Hands out the secret held for `token` and forgets it. Where another
    /// token or nothing is held, the relay stays as it was.
    pub fn take(&mut self, token: &str) -> (r: Result<String, NotFoundError>)
        ensures
            final(self)@ == slot_after_take(old(self)@, token@),
            match r {
                Ok(secret) => slot_secret(old(self)@, token@) == Some(secret@),
                Err(_) => slot_secret(old(self)@, token@).is_none(),
            },
    {
        let matches = match &self.held {
            Some(pair) => str_equal(pair.0.as_str(), token),
            None => false,
        };
        if matches {
            let held = self.held.take();
            match held {
                Some(pair) => Ok(pair.1),
                None => Err(NotFoundError),
            }
        } else {
            Err(NotFoundError)
        }
    }
}

/// A take right after a put of the same token hands out the secret that was
/// put, whatever the relay held before.
pub proof fn law_take_after_put(slot: Slot, token: Seq<char>, secret: Seq<char>)
    ensures
        slot_secret(slot_put(slot, token, secret), token) == Some(secret),
{
}

/// A second take of the same token finds nothing.
pub proof fn law_take_is_single_use(slot: Slot, token: Seq<char>)
    ensures
        slot_secret(slot_after_take(slot, token), token).is_none(),
{
}

/// In a relay that started empty and never saw a put of `token`, a take of
/// `token` finds nothing, whatever else was put and taken.
pub proof fn law_take_without_put(history: Seq<RelayOp>, token: Seq<char>)
    requires
        forall|i: int| 0 <= i < history.len() ==> !(#[trigger] history[i]).puts(token),
    ensures
        slot_secret(slot_after(None, history), token).is_none(),
    decreases history.len(),
{
    if history.len() > 0 {
        let earlier = history.drop_last();
        assert forall|i: int| 0 <= i < earlier.len() implies !(#[trigger] earlier[i]).puts(
            token,
        ) by {
            assert(earlier[i] == history[i]);
        }
        law_take_without_put(earlier, token);
        assert(!history[history.len() - 1].puts(token));
    }
}

/// A failed take leaves the relay as it was.
pub proof fn law_failed_take_keeps_slot(slot: Slot, token: Seq<char>)
    requires
        slot_secret(slot, token).is_none(),
    ensures
        slot_after_take(slot, token) == slot,
{
}

} // verus!
