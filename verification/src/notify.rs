//! Reloading resources when the files they come from change.
use std::sync::atomic::AtomicBool;
use std::sync::Arc;
use vstd::prelude::*;

use crate::{load_outcome, ResourceDef, ResourcePathKind};

verus! {

/// The kinds of file system event a watcher reports.
#[derive(Debug, Clone, Copy, PartialEq, Eq, Structural)]
pub enum ChangeKind {
    Any,
    Access,
    Create,
    Modify,
    Remove,
    Other,
}

/// Whether an event of this kind calls for reloading: files were created,
/// changed or removed.
pub fn triggers_reload(kind: ChangeKind) -> (r: bool)
    ensures
        r == (kind is Create || kind is Modify || kind is Remove),
{
    match kind {
        ChangeKind::Create | ChangeKind::Modify | ChangeKind::Remove => true,
        _ => false,
    }
}

/// Whether a path of this kind is watched together with everything below it.
pub fn watch_recursively(kind: ResourcePathKind) -> (r: bool)
    ensures
        r == (kind == ResourcePathKind::RecursiveDirectory),
{
    kind == ResourcePathKind::RecursiveDirectory
}

/// What checking for a reload of `def` may end in: `Ok(false)` when no
/// reload was needed, otherwise `Ok(true)` or an error as loading `def` ends.
pub open spec fn reload_outcome<D: ResourceDef>(needed: bool, def: D, r: Result<bool, D::Error>) -> bool {
    if needed {
        exists|loaded: Result<(), D::Error>|
            #[trigger] load_outcome(def, loaded) && match loaded {
                Ok(()) => r == Ok::<bool, D::Error>(true),
                Err(e) => r == Err::<bool, D::Error>(e),
            }
    } else {
        r == Ok::<bool, D::Error>(false)
    }
}

/// Reloads `def` when `needed`, and says whether it did.
pub fn reload_if<D: ResourceDef>(needed: bool, def: D) -> (r: Result<bool, D::Error>)
    ensures
        reload_outcome(needed, def, r),
{
    if needed {
        let ghost d = def;
        let loaded = def.load();
        proof {
            assert(load_outcome(d, loaded));
        }
        match loaded {
            Ok(()) => Ok(true),
            Err(e) => Err(e),
        }
    } else {
        Ok(false)
    }
}

/// `notify::RecommendedWatcher`, held only to keep the watch alive.
#[verifier::external_type_specification]
#[verifier::external_body]
pub struct ExRecommendedWatcher(notify::RecommendedWatcher);

/// Watches the paths of a resource definition and remembers whether any of
/// them changed since the last check.
pub struct NotifyReloader {
    _watcher: notify::RecommendedWatcher,
    need_reload: Arc<AtomicBool>,
}

impl NotifyReloader {
    /// The watcher the reloader keeps alive.
    pub closed spec fn watcher(&self) -> notify::RecommendedWatcher {
        self._watcher
    }

    /// The flag the watcher's handler raises on a change.
    pub closed spec fn reload_flag(&self) -> Arc<AtomicBool> {
        self.need_reload
    }

    /// A reloader from a running watcher and the flag its handler raises.
    pub fn from_parts(watcher: notify::RecommendedWatcher, need_reload: Arc<AtomicBool>) -> (r: Self)
        ensures
            r.watcher() == watcher,
            r.reload_flag() == need_reload,
    {
        NotifyReloader { _watcher: watcher, need_reload }
    }

    /// Reloads `def` when a change was seen since the last check, and says
    /// whether it did.  Whether a change was seen is the watcher's doing:
    /// the result is that of a check with either answer.
    pub fn check_for_reload<D: ResourceDef>(&mut self, def: D) -> (r: Result<bool, D::Error>)
        ensures
            reload_outcome(false, def, r) || reload_outcome(true, def, r),
            final(self).watcher() == old(self).watcher(),
            final(self).reload_flag() == old(self).reload_flag(),
    {
        let needed = self.need_reload.swap(false, std::sync::atomic::Ordering::Relaxed);
        reload_if(needed, def)
    }
}

} // verus!
