//! One running observation of a single root.
//!
//! A `ChangeObserver` owns the native watch handle for one root. It is
//! created by [`ChangeObserver::start`], which also hands back the channel
//! end on which the native layer delivers its notifications, and it is
//! ended by [`ChangeObserver::stop`], which releases the native watch.

use vstd::prelude::*;
use crate::WatchError;
use crate::event::ChangeEvent;
use crate::native::{
    native_change_kind, native_event_path_count, native_event_path_text, native_unwatch,
    native_watch, native_watcher_new, notification_channel, notify_error_is_path_missing,
    notify_error_text, Notification,
};

verus! {

/// One observation: the watched root and, while running, the native watch
/// handle for it.
pub struct ChangeObserver {
    root: String,
    watcher: Option<notify::RecommendedWatcher>,
}

impl ChangeObserver {
    /// Whether the native watch is still registered.
    pub closed spec fn running(self) -> bool {
        self.watcher is Some
    }

    /// The root under observation.
    pub closed spec fn root_view(self) -> Seq<char> {
        self.root@
    }

    /// The root under observation, as text.
    pub fn root_text(&self) -> (r: String)
        ensures
            r@ == self.root_view(),
    {
        self.root.clone()
    }

    /// Begins recursive monitoring of `root`. On success the observer is
    /// running and every notification for it arrives on the returned
    /// receiver, in the order the native layer produced it, until the
    /// observer is stopped. A failure to create the native watcher is an
    /// `InitFailed`; a failure to register the root keeps no native
    /// resources and is reported by [`watch_register_error`].
    pub fn start(root: String) -> (r: Result<
        (ChangeObserver, std::sync::mpsc::Receiver<Notification>),
        WatchError,
    >)
        ensures
            r matches Ok(p) ==> p.0.running() && p.0.root_view() == root@,
            r matches Err(e) ==> e is InitFailed || e is PathUnwatchable,
    {
        let (tx, rx) = notification_channel();
        let mut watcher = match native_watcher_new(tx) {
            Ok(w) => w,
            Err(err) => {
                return Err(WatchError::InitFailed { detail: notify_error_text(&err) });
            },
        };
        match native_watch(&mut watcher, root.as_str()) {
            Ok(()) => Ok((ChangeObserver { root, watcher: Some(watcher) }, rx)),
            Err(err) => Err(watch_register_error(&err)),
        }
    }

    /// Deterministically releases the native watch: unregisters the root
    /// (best effort; an unwatch failure is swallowed, since the observer is
    /// being torn down regardless) and drops the native handle, which closes
    /// the notification channel. Afterwards the observer is not running.
    pub fn stop(&mut self)
        ensures
            !final(self).running(),
            final(self).root_view() == old(self).root_view(),
    {
        let mut taken: Option<notify::RecommendedWatcher> = None;
        core::mem::swap(&mut taken, &mut self.watcher);
        match taken {
            Some(mut w) => {
                let _ = native_unwatch(&mut w, self.root.as_str());
            },
            None => {},
        }
    }
}

/// Classifies an error that registering a root for watching returned: a
/// missing path cannot be watched, anything else is a setup failure.
fn watch_register_error(err: &notify::Error) -> (r: WatchError)
    ensures
        r is InitFailed || r is PathUnwatchable,
{
    let detail = notify_error_text(err);
    if notify_error_is_path_missing(err) {
        WatchError::PathUnwatchable { detail }
    } else {
        WatchError::InitFailed { detail }
    }
}

/// The Some values of a sequence of optional strings, in order.
pub open spec fn utf8_views(v: Seq<Option<String>>) -> Seq<Seq<char>>
    decreases v.len(),
{
    if v.len() == 0 {
        Seq::empty()
    } else {
        let rest = utf8_views(v.drop_last());
        match v.last() {
            Some(s) => rest.push(s@),
            None => rest,
        }
    }
}

/// Keeps, in order, the paths whose text was valid UTF-8.
pub fn utf8_paths(raw: &Vec<Option<String>>) -> (out: Vec<String>)
    ensures
        out@.map_values(|s: String| s@) == utf8_views(raw@),
{
    let mut out: Vec<String> = Vec::new();
    let mut i: usize = 0;
    while i < raw.len()
        invariant
            0 <= i <= raw@.len(),
            out@.map_values(|s: String| s@) == utf8_views(raw@.take(i as int)),
        decreases raw@.len() - i,
    {
        proof {
            assert(raw@.take(i + 1).drop_last() =~= raw@.take(i as int));
            assert(raw@.take(i + 1).last() == raw@[i as int]);
        }
        match &raw[i] {
            Some(s) => {
                let ghost prev = out@;
                out.push(s.clone());
                proof {
                    assert(out@.map_values(|s: String| s@) =~= prev.map_values(
                        |s: String| s@,
                    ).push(raw@[i as int].unwrap()@));
                }
            },
            None => {},
        }
        i = i + 1;
    }
    proof {
        assert(raw@.take(raw@.len() as int) =~= raw@);
    }
    out
}

/// Translates one native notification into a change event: an error
/// notification becomes an Error-kind event carrying the native error's
/// text, and a change notification keeps its kind and, in order, those of
/// its paths whose text is valid UTF-8.
pub fn change_event_of(msg: Notification) -> (e: ChangeEvent)
    ensures
        e.wf(),
        e.kind is Error <==> msg is Err,
{
    match msg {
        Ok(ev) => {
            let kind = native_change_kind(&ev);
            let n = native_event_path_count(&ev);
            let mut raw: Vec<Option<String>> = Vec::new();
            let mut i: usize = 0;
            while i < n
                invariant
                    0 <= i <= n,
                decreases n - i,
            {
                raw.push(native_event_path_text(&ev, i));
                i = i + 1;
            }
            let paths = utf8_paths(&raw);
            ChangeEvent::change(kind, paths)
        },
        Err(err) => ChangeEvent::error(notify_error_text(&err)),
    }
}

} // verus!
