//! The single-slot watch session.
//!
//! A `WatchSession` owns at most one live [`ChangeObserver`]. Changing the
//! root is a two-step protocol under one exclusive section held by the
//! caller: [`WatchSession::begin_set_root`] validates the new root and
//! stops any prior observation, the caller then waits out the forwarding
//! of that observation's last notifications (joining its consumer), and
//! only then [`WatchSession::finish_set_root`] starts the new observation.
//! So observations never overlap, and no event of an old root can follow
//! the first event of a new one.

use vstd::prelude::*;
use crate::WatchError;
use crate::observer::ChangeObserver;
use crate::native::Notification;
use crate::text::{blank, str_is_blank};

verus! {

/// The process-wide registry of the one observation slot, plus counts of
/// how many observations were ever started and stopped.
pub struct WatchSession {
    active: Option<ChangeObserver>,
    started: Ghost<nat>,
    stopped: Ghost<nat>,
}

impl WatchSession {
    /// Whether an observation is live.
    pub closed spec fn observing(self) -> bool {
        self.active is Some
    }

    /// How many observations are live: never more than one.
    pub open spec fn live(self) -> nat {
        if self.observing() {
            1nat
        } else {
            0nat
        }
    }

    /// How many observations were ever started.
    pub closed spec fn started_count(self) -> nat {
        self.started@
    }

    /// How many observations were ever stopped.
    pub closed spec fn stopped_count(self) -> nat {
        self.stopped@
    }

    /// The root under observation, if any.
    pub closed spec fn current_root(self) -> Option<Seq<char>> {
        match self.active {
            Some(o) => Some(o.root_view()),
            None => None,
        }
    }

    /// Every observation ever started has been stopped, except the live
    /// one, and a live observer still holds its native watch.
    pub closed spec fn wf(self) -> bool {
        &&& self.started@ == self.stopped@ + self.live()
        &&& (self.active matches Some(o) ==> o.running())
    }

    /// A fresh session: no root is watched.
    pub fn new() -> (s: WatchSession)
        ensures
            s.wf(),
            !s.observing(),
            s.started_count() == 0,
            s.stopped_count() == 0,
    {
        WatchSession { active: None, started: Ghost(0), stopped: Ghost(0) }
    }

    /// Whether an observation is live.
    pub fn is_observing(&self) -> (b: bool)
        ensures
            b == self.observing(),
    {
        self.active.is_some()
    }

    /// The root under observation, if any.
    pub fn root(&self) -> (r: Option<String>)
        ensures
            match r {
                Some(s) => self.current_root() == Some(s@),
                None => self.current_root() is None,
            },
    {
        match &self.active {
            Some(o) => Some(o.root_text()),
            None => None,
        }
    }

    /// The first half of a root change: validates the new root and stops
    /// any prior observation. A blank root is rejected with `InvalidPath`
    /// and the session is left exactly as it was. Otherwise the prior
    /// observation, if any, is stopped — its native watch released, its
    /// notification channel closed — and the call reports whether there
    /// was one, so the caller can wait out that observation's consumer
    /// before calling [`WatchSession::finish_set_root`].
    pub fn begin_set_root(&mut self, path: &str) -> (r: Result<bool, WatchError>)
        requires
            old(self).wf(),
        ensures
            final(self).wf(),
            blank(path@) ==> r == Err::<bool, WatchError>(WatchError::InvalidPath)
                && *final(self) == *old(self),
            !blank(path@) ==> r == Ok::<bool, WatchError>(old(self).observing())
                && !final(self).observing()
                && final(self).stopped_count() == old(self).stopped_count() + old(self).live()
                && final(self).started_count() == old(self).started_count(),
    {
        if str_is_blank(path) {
            return Err(WatchError::InvalidPath);
        }
        let mut taken: Option<ChangeObserver> = None;
        core::mem::swap(&mut taken, &mut self.active);
        match taken {
            Some(mut observer) => {
                observer.stop();
                self.stopped = Ghost(self.stopped@ + 1);
                Ok(true)
            },
            None => Ok(false),
        }
    }

    /// The second half of a root change: starts the new observation. Must
    /// only run once no observation is live. A blank root is rejected with
    /// `InvalidPath` and nothing changes. On success the session observes
    /// exactly the new root and the returned receiver carries the new
    /// observation's notifications; on failure the slot is left empty and
    /// the error is returned, without any retry.
    pub fn finish_set_root(&mut self, path: String) -> (r: Result<
        std::sync::mpsc::Receiver<Notification>,
        WatchError,
    >)
        requires
            old(self).wf(),
            !old(self).observing(),
        ensures
            final(self).wf(),
            r is Ok ==> !blank(path@) && final(self).observing()
                && final(self).current_root() == Some(path@)
                && final(self).started_count() == old(self).started_count() + 1
                && final(self).stopped_count() == old(self).stopped_count(),
            r matches Err(e) ==> *final(self) == *old(self)
                && (e is InvalidPath <==> blank(path@)),
    {
        if str_is_blank(path.as_str()) {
            return Err(WatchError::InvalidPath);
        }
        match ChangeObserver::start(path) {
            Ok((observer, rx)) => {
                self.active = Some(observer);
                self.started = Ghost(self.started@ + 1);
                Ok(rx)
            },
            Err(e) => Err(e),
        }
    }

    /// Stops any live observation at shutdown and reports whether there
    /// was one, so the caller can wait out its consumer. With no live
    /// observation this is a no-op: it changes nothing and cannot fail.
    pub fn teardown(&mut self) -> (had: bool)
        requires
            old(self).wf(),
        ensures
            final(self).wf(),
            had == old(self).observing(),
            !final(self).observing(),
            final(self).stopped_count() == old(self).stopped_count() + old(self).live(),
            final(self).started_count() == old(self).started_count(),
            !old(self).observing() ==> *final(self) == *old(self),
    {
        let mut taken: Option<ChangeObserver> = None;
        core::mem::swap(&mut taken, &mut self.active);
        match taken {
            Some(mut observer) => {
                observer.stop();
                self.stopped = Ghost(self.stopped@ + 1);
                true
            },
            None => false,
        }
    }
}

/// At most one observation is ever live in a well-formed session: the
/// number of observations started never exceeds the number stopped by more
/// than one, however many root changes were made.
pub proof fn lemma_at_most_one_live(s: WatchSession)
    requires
        s.wf(),
    ensures
        s.live() <= 1,
        s.started_count() <= s.stopped_count() + 1,
{
}

/// Teardown precedes setup. A successful root change passes through an
/// intermediate state `s1`, after [`WatchSession::begin_set_root`] and
/// before [`WatchSession::finish_set_root`]; the requires clauses restate
/// what those two calls ensure for a non-blank `new_root`. In `s1` nothing
/// is observed, and every observation ever started before the change —
/// the old root's included — is already stopped, and so past producing
/// events, before the new observation exists at all.
pub proof fn lemma_teardown_precedes_setup(
    s0: WatchSession,
    s1: WatchSession,
    s2: WatchSession,
    new_root: Seq<char>,
)
    requires
        s0.wf(),
        s1.wf(),
        s2.wf(),
        !s1.observing(),
        s1.stopped_count() == s0.stopped_count() + s0.live(),
        s1.started_count() == s0.started_count(),
        s2.observing(),
        s2.current_root() == Some(new_root),
        s2.started_count() == s1.started_count() + 1,
        s2.stopped_count() == s1.stopped_count(),
    ensures
        s1.live() == 0,
        s2.stopped_count() == s0.started_count(),
        s2.current_root() == Some(new_root),
{
}

} // verus!
