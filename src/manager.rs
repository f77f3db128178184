use vstd::prelude::*;
use crate::error::DumpError;
use crate::registry::{started_record, DumpInfo, DumpRecord, DumpRegistry, DumpStatus};

verus! {

/// A new dump `uid` may start when no dump is in progress and `uid` names
/// no earlier attempt: neither the registry's entry nor an artifact on disk.
pub open spec fn can_start(current: Option<DumpRecord>, uid: Seq<char>, artifact_exists: bool) -> bool {
    &&& !artifact_exists
    &&& match current {
        Some(rec) => rec.status != DumpStatus::InProgress && rec.uid != uid,
        None => true,
    }
}

/// What a trigger of dump `uid` at `now` answers, when the artifact of `uid`
/// exists as `artifact_exists` says: the new record, or `Conflict` while
/// another dump is in progress or when `uid` is already taken.
pub open spec fn trigger_result(
    current: Option<DumpRecord>,
    uid: Seq<char>,
    now: u64,
    artifact_exists: bool,
) -> Result<DumpRecord, DumpError> {
    if can_start(current, uid, artifact_exists) {
        Ok(started_record(uid, now))
    } else {
        Err(DumpError::Conflict)
    }
}

/// The registry after a trigger of dump `uid` at `now`.
pub open spec fn after_trigger(
    current: Option<DumpRecord>,
    uid: Seq<char>,
    now: u64,
    artifact_exists: bool,
) -> Option<DumpRecord> {
    if can_start(current, uid, artifact_exists) {
        Some(started_record(uid, now))
    } else {
        current
    }
}

/// The answer to a status query for `uid`: the registry's live status when
/// its entry is about `uid`, else `Done` when the artifact of `uid` exists on
/// disk, else `NotFound`.
pub open spec fn resolve_status(
    current: Option<DumpRecord>,
    uid: Seq<char>,
    artifact_exists: bool,
) -> Result<DumpStatus, DumpError> {
    match current {
        Some(rec) if rec.uid == uid => Ok(rec.status),
        _ => if artifact_exists {
            Ok(DumpStatus::Done)
        } else {
            Err(DumpError::NotFound)
        },
    }
}

/// The registry after a finished dump `uid` reports `status` at `now`.
pub open spec fn after_finish(
    current: Option<DumpRecord>,
    uid: Seq<char>,
    status: DumpStatus,
    now: u64,
    failure: Option<Seq<char>>,
) -> Option<DumpRecord> {
    match current {
        Some(rec) => if rec.uid == uid && rec.status == DumpStatus::InProgress {
            Some(DumpRecord { status, finished_at: Some(now), failure, ..rec })
        } else {
            current
        },
        None => None,
    }
}

/// Starts dumps, records how they end and answers status queries. It is the
/// only writer of the registry it owns.
pub struct DumpProcessManager {
    registry: DumpRegistry,
}

impl View for DumpProcessManager {
    type V = Option<DumpRecord>;

    closed spec fn view(&self) -> Option<DumpRecord> {
        self.registry@
    }
}

impl DumpProcessManager {
    pub closed spec fn wf(&self) -> bool {
        self.registry.wf()
    }

    /// A manager with an empty registry, as at process start.
    pub fn new() -> (r: DumpProcessManager)
        ensures
            r.wf(),
            r@ == None::<DumpRecord>,
    {
        DumpProcessManager { registry: DumpRegistry::new() }
    }

    /// Registers a new dump `uid` started at `now` and returns its record.
    /// Answers `Conflict` and changes nothing while a dump is in progress, or
    /// when `uid` is the registry's entry or has an artifact on disk
    /// (`artifact_exists`), since each attempt has an identifier of its own.
    /// The export itself is started by the caller once this succeeds.
    pub fn trigger(&mut self, uid: String, now: u64, artifact_exists: bool) -> (r: Result<
        DumpInfo,
        DumpError,
    >)
        requires
            old(self).wf(),
        ensures
            final(self).wf(),
            final(self)@ == after_trigger(old(self)@, uid@, now, artifact_exists),
            match trigger_result(old(self)@, uid@, now, artifact_exists) {
                Ok(rec) => r matches Ok(info) && info@ == rec && info.wf(),
                Err(e) => r == Err::<DumpInfo, DumpError>(e),
            },
    {
        if artifact_exists {
            return Err(DumpError::Conflict);
        }
        let taken = match self.registry.get() {
            Some(info) => info.status == DumpStatus::InProgress || info.has_uid(uid.as_str()),
            None => false,
        };
        if taken {
            return Err(DumpError::Conflict);
        }
        let info = DumpInfo::new(uid, now);
        let stored = info.copy();
        self.registry.set(stored);
        Ok(info)
    }

    /// The current entry of the registry, without blocking.
    pub fn current(&self) -> (r: Option<DumpInfo>)
        requires
            self.wf(),
        ensures
            r matches Some(i) ==> self@ == Some(i@) && i.wf(),
            r is None <==> self@ is None,
    {
        self.registry.get()
    }

    /// Records that dump `uid` finished at `now`. Only an entry about `uid`
    /// that is still in progress changes; returns whether it did.
    pub fn mark_done(&mut self, uid: &str, now: u64) -> (r: bool)
        requires
            old(self).wf(),
        ensures
            final(self).wf(),
            final(self)@ == after_finish(old(self)@, uid@, DumpStatus::Done, now, None),
            r == (final(self)@ != old(self)@),
    {
        let r = self.registry.update_if(uid, DumpStatus::Done, now, None);
        proof {
            if r {
                assert(final(self)@.unwrap().status != old(self)@.unwrap().status);
            }
        }
        r
    }

    /// Records that dump `uid` failed at `now` for `reason`. Only an entry
    /// about `uid` that is still in progress changes; returns whether it did.
    pub fn mark_failed(&mut self, uid: &str, reason: String, now: u64) -> (r: bool)
        requires
            old(self).wf(),
        ensures
            final(self).wf(),
            final(self)@ == after_finish(old(self)@, uid@, DumpStatus::Failed, now, Some(reason@)),
            r == (final(self)@ != old(self)@),
    {
        let r = self.registry.update_if(uid, DumpStatus::Failed, now, Some(reason));
        proof {
            if r {
                assert(final(self)@.unwrap().status != old(self)@.unwrap().status);
            }
        }
        r
    }

    /// The status of dump `uid`: the live one when the registry's entry is
    /// about `uid`, else `Done` when its artifact exists, else `NotFound`.
    pub fn status(&self, uid: &str, artifact_exists: bool) -> (r: Result<DumpStatus, DumpError>)
        ensures
            r == resolve_status(self@, uid@, artifact_exists),
    {
        match self.registry.status_of(uid) {
            Some(status) => Ok(status),
            None => if artifact_exists {
                Ok(DumpStatus::Done)
            } else {
                Err(DumpError::NotFound)
            },
        }
    }
}

/// A dump that the registry does not hold and whose artifact is absent is
/// reported as `NotFound`.
pub proof fn lemma_unknown_dump_not_found(current: Option<DumpRecord>, uid: Seq<char>)
    requires
        current matches Some(rec) ==> rec.uid != uid,
    ensures
        resolve_status(current, uid, false) == Err::<DumpStatus, DumpError>(DumpError::NotFound),
{
}

/// Once a trigger succeeds, the new dump reads as `InProgress` whether or not
/// an artifact exists, and any further trigger answers `Conflict` and leaves
/// the registry as it is until it finishes.
pub proof fn lemma_trigger_then_in_progress(
    current: Option<DumpRecord>,
    uid: Seq<char>,
    now: u64,
    artifact_exists: bool,
    next_uid: Seq<char>,
    next_now: u64,
    next_exists: bool,
)
    requires
        trigger_result(current, uid, now, false) is Ok,
    ensures
        resolve_status(after_trigger(current, uid, now, false), uid, artifact_exists) == Ok::<
            DumpStatus,
            DumpError,
        >(DumpStatus::InProgress),
        trigger_result(after_trigger(current, uid, now, false), next_uid, next_now, next_exists)
            == Err::<DumpRecord, DumpError>(DumpError::Conflict),
        after_trigger(after_trigger(current, uid, now, false), next_uid, next_now, next_exists)
            == after_trigger(current, uid, now, false),
{
}

/// Once the dump in progress is marked done it reads as `Done`; after a
/// restart, with an empty registry, its artifact alone still makes it read
/// as `Done`; and a dump under another, unused identifier may then start.
pub proof fn lemma_done_persists(
    current: Option<DumpRecord>,
    uid: Seq<char>,
    now: u64,
    artifact_exists: bool,
    next_uid: Seq<char>,
)
    requires
        current matches Some(rec) && rec.uid == uid && rec.status == DumpStatus::InProgress,
        next_uid != uid,
    ensures
        resolve_status(after_finish(current, uid, DumpStatus::Done, now, None), uid, artifact_exists)
            == Ok::<DumpStatus, DumpError>(DumpStatus::Done),
        resolve_status(None, uid, true) == Ok::<DumpStatus, DumpError>(DumpStatus::Done),
        trigger_result(after_finish(current, uid, DumpStatus::Done, now, None), next_uid, now, false)
            is Ok,
{
}

/// A dump that reads as `Done` with its artifact on disk keeps reading as
/// `Done` while the artifact stays, whatever is triggered or finished next:
/// a trigger of its own identifier is refused, and a trigger of another one
/// leaves it to resolve through its artifact.
pub proof fn lemma_done_stays_done(
    current: Option<DumpRecord>,
    uid: Seq<char>,
    next_uid: Seq<char>,
    now: u64,
    next_exists: bool,
    status: DumpStatus,
    failure: Option<Seq<char>>,
)
    requires
        resolve_status(current, uid, true) == Ok::<DumpStatus, DumpError>(DumpStatus::Done),
        next_uid == uid ==> next_exists,
    ensures
        resolve_status(after_trigger(current, next_uid, now, next_exists), uid, true) == Ok::<
            DumpStatus,
            DumpError,
        >(DumpStatus::Done),
        resolve_status(after_finish(current, next_uid, status, now, failure), uid, true) == Ok::<
            DumpStatus,
            DumpError,
        >(DumpStatus::Done),
{
}

} // verus!
