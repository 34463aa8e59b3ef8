//! A message that stays active for a while and then lapses by itself: what
//! makes a repeatable action wait out its minimum interval.

use vstd::prelude::*;

verus! {

/// A message with a payload, which is inactive, active until it is replaced,
/// or active for a remaining time that ticks away.
///
/// Times are whole numbers of a unit that the caller chooses.
#[derive(Debug, Clone)]
pub enum Message<I = ()> {
    Active(I),
    ActiveTicking(I, u64),
    Inactive,
}

impl<I> Default for Message<I> {
    fn default() -> (r: Self)
        ensures
            r == Message::<I>::Inactive,
    {
        Message::Inactive
    }
}

impl<I> Message<I> {
    /// The payload of an active message.
    pub open spec fn payload(self) -> Option<I> {
        match self {
            Message::Active(value) => Some(value),
            Message::ActiveTicking(value, _) => Some(value),
            Message::Inactive => None,
        }
    }

    /// The message after one tick of length `dt`.
    ///
    /// A ticking message lapses when its remaining time reaches or crosses
    /// zero; any other message does not change.
    pub open spec fn ticked(self, dt: u64) -> Self {
        match self {
            Message::ActiveTicking(value, remaining) => if remaining <= dt {
                Message::Inactive
            } else {
                Message::ActiveTicking(value, (remaining - dt) as u64)
            },
            other => other,
        }
    }

    /// The message after `n` ticks of length `dt` each.
    pub open spec fn ticked_times(self, dt: u64, n: nat) -> Self
        decreases n,
    {
        if n == 0 {
            self
        } else {
            self.ticked_times(dt, (n - 1) as nat).ticked(dt)
        }
    }

    /// A message that stays active until it is replaced.
    pub fn create_active(value: I) -> (r: Self)
        ensures
            r == Message::Active(value),
    {
        Message::Active(value)
    }

    /// A message that stays active for `duration`.
    pub fn create_active_ticking(value: I, duration: u64) -> (r: Self)
        ensures
            r == Message::ActiveTicking(value, duration),
    {
        Message::ActiveTicking(value, duration)
    }

    /// The inactive message.
    pub fn create_inactive() -> (r: Self)
        ensures
            r == Message::<I>::Inactive,
    {
        Message::Inactive
    }

    /// Makes the message active for `duration`, whatever it was before: a
    /// running time is restarted, not added to.
    pub fn set_active_ticking(&mut self, value: I, duration: u64)
        ensures
            *final(self) == Message::ActiveTicking(value, duration),
    {
        *self = Message::ActiveTicking(value, duration);
    }

    /// The payload, if the message is active in either way.
    pub fn is_active(&self) -> (r: Option<&I>)
        ensures
            r is Some <==> !(*self is Inactive),
            match r {
                Some(value) => self.payload() == Some(*value),
                None => self.payload().is_none(),
            },
    {
        match self {
            Message::Active(value) => Some(value),
            Message::ActiveTicking(value, _) => Some(value),
            Message::Inactive => None,
        }
    }

    /// Lets `dt` pass: a ticking message loses `dt` of its remaining time and
    /// becomes inactive when none is left.
    pub fn tick(&mut self, dt: u64)
        ensures
            *final(self) == old(self).ticked(dt),
    {
        let lapsed = match self {
            Message::ActiveTicking(_, remaining) => {
                if *remaining <= dt {
                    true
                } else {
                    *remaining = *remaining - dt;
                    false
                }
            },
            _ => false,
        };
        if lapsed {
            *self = Message::Inactive;
        }
    }
}

/// A message made active for `duration` is still active after `n` ticks of
/// length `dt`, one at least, exactly when the ticks add up to less than
/// `duration`, and then what remains is `duration` less their sum.
pub proof fn lemma_ticking_lapses_on_time<I>(value: I, duration: u64, dt: u64, n: nat)
    requires
        n >= 1,
    ensures
        Message::ActiveTicking(value, duration).ticked_times(dt, n) == (if n * dt < duration {
            Message::ActiveTicking(value, (duration - n * dt) as u64)
        } else {
            Message::Inactive
        }),
    decreases n,
{
    let start = Message::ActiveTicking(value, duration);
    assert(start.ticked_times(dt, 0) == start);
    if n > 1 {
        lemma_ticking_lapses_on_time(value, duration, dt, (n - 1) as nat);
        assert(n * dt == (n - 1) * dt + dt) by (nonlinear_arith);
        assert((n - 1) * dt >= 0) by (nonlinear_arith)
            requires
                n >= 1,
                dt >= 0,
        ;
    } else {
        assert(n * dt == dt) by (nonlinear_arith)
            requires
                n == 1,
        ;
    }
}

/// While a message ticks, each tick of positive length leaves strictly less
/// time than there was.
pub proof fn lemma_tick_decreases<I>(value: I, remaining: u64, dt: u64)
    requires
        dt > 0,
    ensures
        match Message::ActiveTicking(value, remaining).ticked(dt) {
            Message::ActiveTicking(v, left) => v == value && left < remaining,
            Message::Inactive => remaining <= dt,
            Message::Active(_) => false,
        },
{
}

} // verus!
