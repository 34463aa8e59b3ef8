//! Messages with a limited life: a request that waits for its moment and is
//! dropped when the moment does not come in time.

use vstd::prelude::*;

verus! {

/// A request with a payload and the time it still has to live.
#[derive(Debug, Clone, Copy)]
pub struct Message<T>(pub T, pub u64);

impl<T> Message<T> {
    /// The message that is left after `dt` more units of time without its
    /// moment: none once less than `dt` was left.
    pub open spec fn aged(self, dt: u64) -> Option<Self> {
        if self.1 < dt {
            None
        } else {
            Some(Message(self.0, (self.1 - dt) as u64))
        }
    }

    /// A message that lives for `lifetime`.
    pub fn new(t: T, lifetime: u64) -> (r: Self)
        ensures
            r == Message(t, lifetime),
    {
        Message(t, lifetime)
    }

    /// Acts on the message or lets it age.
    ///
    /// Where `predicate` holds, the moment has come: `action` is called once
    /// and the message is used up. Otherwise the message loses `dt` of its
    /// lifetime, and is dropped if it had less than that.
    pub fn act<ACTION>(self, predicate: bool, action: ACTION, dt: u64) -> (r: Option<Self>) where
        ACTION: FnOnce() -> (),

        requires
            predicate ==> action.requires(()),
        ensures
            predicate ==> r is None && action.ensures((), ()),
            !predicate ==> r == self.aged(dt),
    {
        if predicate {
            action();
            None
        } else if self.1 < dt {
            None
        } else {
            Some(Message(self.0, self.1 - dt))
        }
    }
}

/// A message that is alive, dying within a given time, or dead.
#[derive(Debug, Clone, Copy)]
pub enum Message2<I> {
    Alive(I),
    Dying(I, u64),
    Dead,
}

impl<I> Default for Message2<I> {
    fn default() -> (r: Self)
        ensures
            r == Message2::<I>::Dead,
    {
        Message2::Dead
    }
}

impl<I> Message2<I> {
    /// A message with payload `i` that dies within `d`.
    pub fn create_dying(i: I, d: u64) -> (r: Self)
        ensures
            r == Message2::Dying(i, d),
    {
        Message2::Dying(i, d)
    }

    /// Replaces the message, whatever it was, by one with payload `i` that
    /// dies within `d`.
    pub fn set_dying(self, i: I, d: u64) -> (r: Self)
        ensures
            r == Message2::Dying(i, d),
    {
        Self::create_dying(i, d)
    }

    /// The payload, unless the message is dead.
    pub fn get_value(&self) -> (r: Option<&I>)
        ensures
            r == (match *self {
                Message2::Alive(i) => Some(&i),
                Message2::Dying(i, _) => Some(&i),
                Message2::Dead => None,
            }),
    {
        match self {
            Message2::Alive(i) => Some(i),
            Message2::Dying(i, _) => Some(i),
            Message2::Dead => None,
        }
    }
}

} // verus!
