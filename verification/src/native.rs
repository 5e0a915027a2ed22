//! The trusted boundary to the native watch layer.
//!
//! The notify crate does the actual filesystem monitoring; its values are
//! opaque here. Each wrapper below makes exactly one outside call, and its
//! contract states no more than that call's source shows.

use vstd::prelude::*;
use crate::event::ChangeKind;

verus! {

/// One native notification as delivered through the channel: a detected
/// change, or an error the native layer reported while watching.
pub type Notification = Result<notify::Event, notify::Error>;

/// notify's recursive watcher for this platform, held as an opaque handle.
#[verifier::external_type_specification]
#[verifier::external_body]
pub struct ExRecommendedWatcher(notify::RecommendedWatcher);

/// notify's event type: what the native layer reports for one change.
#[verifier::external_type_specification]
#[verifier::external_body]
pub struct ExEvent(notify::Event);

/// notify's error type; wrappers below read its kind and its text.
#[verifier::external_type_specification]
#[verifier::external_body]
pub struct ExNotifyError(notify::Error);

/// The sending end of a standard channel.
#[verifier::external_type_specification]
#[verifier::external_body]
#[verifier::reject_recursive_types(T)]
pub struct ExSender<T>(std::sync::mpsc::Sender<T>);

/// The receiving end of a standard channel.
#[verifier::external_type_specification]
#[verifier::external_body]
#[verifier::reject_recursive_types(T)]
pub struct ExReceiver<T>(std::sync::mpsc::Receiver<T>);

/// Relies on std::sync::mpsc::channel: returns the two ends of a fresh
/// asynchronous channel.
#[verifier::external_body]
pub(crate) fn notification_channel() -> (
    std::sync::mpsc::Sender<Notification>,
    std::sync::mpsc::Receiver<Notification>,
) {
    std::sync::mpsc::channel()
}

/// Relies on notify::Watcher::new for the platform watcher: creates the
/// native watcher, which delivers every notification into the given
/// channel end until it is dropped.
#[verifier::external_body]
pub(crate) fn native_watcher_new(tx: std::sync::mpsc::Sender<Notification>) -> Result<
    notify::RecommendedWatcher,
    notify::Error,
> {
    <notify::RecommendedWatcher as notify::Watcher>::new(tx, notify::Config::default())
}

/// Relies on notify::Watcher::watch: registers recursive native monitoring
/// of the given root.
#[verifier::external_body]
pub(crate) fn native_watch(w: &mut notify::RecommendedWatcher, root: &str) -> Result<
    (),
    notify::Error,
> {
    notify::Watcher::watch(w, std::path::Path::new(root), notify::RecursiveMode::Recursive)
}

/// Relies on notify::Watcher::unwatch: unregisters the native watch for the
/// given root.
#[verifier::external_body]
pub(crate) fn native_unwatch(w: &mut notify::RecommendedWatcher, root: &str) -> Result<
    (),
    notify::Error,
> {
    notify::Watcher::unwatch(w, std::path::Path::new(root))
}

/// Relies on notify::Error's public `kind` field: true exactly for the
/// PathNotFound kind, which marks a root that does not exist.
#[verifier::external_body]
pub(crate) fn notify_error_is_path_missing(e: &notify::Error) -> bool {
    match &e.kind {
        notify::ErrorKind::PathNotFound => true,
        notify::ErrorKind::Generic(_) => false,
        notify::ErrorKind::Io(_) => false,
        notify::ErrorKind::WatchNotFound => false,
        notify::ErrorKind::InvalidConfig(_) => false,
        notify::ErrorKind::MaxFilesWatch => false,
    }
}

/// Relies on notify::Error's Display impl for a human-readable description
/// of the error.
#[verifier::external_body]
pub(crate) fn notify_error_text(e: &notify::Error) -> String {
    e.to_string()
}

/// Relies on notify's EventKind: maps each variant to the change kind it
/// describes. A Modify of the Name kind is a rename; access and catch-all
/// kinds carry no more detail than Other.
#[verifier::external_body]
pub(crate) fn native_change_kind(e: &notify::Event) -> (k: ChangeKind)
    ensures
        !(k is Error),
{
    match &e.kind {
        notify::EventKind::Any => ChangeKind::Other,
        notify::EventKind::Access(_) => ChangeKind::Other,
        notify::EventKind::Create(_) => ChangeKind::Created,
        notify::EventKind::Modify(notify::event::ModifyKind::Name(_)) => ChangeKind::Renamed,
        notify::EventKind::Modify(_) => ChangeKind::Modified,
        notify::EventKind::Remove(_) => ChangeKind::Removed,
        notify::EventKind::Other => ChangeKind::Other,
    }
}

/// Relies on notify's Event: the number of paths the notification names.
#[verifier::external_body]
pub(crate) fn native_event_path_count(e: &notify::Event) -> usize {
    e.paths.len()
}

/// Relies on Path::to_str: Some exactly where the notification has a path
/// at this index and its text is valid UTF-8, that text unchanged.
#[verifier::external_body]
pub(crate) fn native_event_path_text(e: &notify::Event, i: usize) -> Option<String> {
    e.paths.get(i).and_then(|p| p.to_str()).map(|s| s.to_string())
}

} // verus!
