use vstd::prelude::*;

verus! {

/// The state of one dump attempt.
#[derive(Debug, Clone, Copy, PartialEq, Eq, Structural)]
pub enum DumpStatus {
    InProgress,
    Done,
    Failed,
}

impl DumpStatus {
    /// Status may only move forward: from `InProgress` to a terminal state,
    /// or stay where it is.
    pub open spec fn may_become(self, next: DumpStatus) -> bool {
        self == next || self == DumpStatus::InProgress
    }

    /// The name under which the status is reported.
    pub fn as_str(&self) -> (r: &'static str)
        ensures
            *self == DumpStatus::InProgress ==> r@ == "in_progress"@,
            *self == DumpStatus::Done ==> r@ == "done"@,
            *self == DumpStatus::Failed ==> r@ == "failed"@,
    {
        match self {
            DumpStatus::InProgress => "in_progress",
            DumpStatus::Done => "done",
            DumpStatus::Failed => "failed",
        }
    }
}

/// The mathematical value of a [`DumpInfo`].
pub struct DumpRecord {
    pub uid: Seq<char>,
    pub status: DumpStatus,
    pub started_at: u64,
    pub finished_at: Option<u64>,
    pub failure: Option<Seq<char>>,
}

/// The record of a dump `uid` started at `now`.
pub open spec fn started_record(uid: Seq<char>, now: u64) -> DumpRecord {
    DumpRecord { uid, status: DumpStatus::InProgress, started_at: now, finished_at: None, failure: None }
}

/// What is known of one dump attempt.
#[derive(Debug)]
pub struct DumpInfo {
    pub uid: String,
    pub status: DumpStatus,
    /// Seconds since the epoch at which the dump started.
    pub started_at: u64,
    /// Seconds since the epoch at which the dump ended; absent while in progress.
    pub finished_at: Option<u64>,
    /// Why the dump failed, when it did.
    pub failure: Option<String>,
}

impl View for DumpInfo {
    type V = DumpRecord;

    open spec fn view(&self) -> DumpRecord {
        DumpRecord {
            uid: self.uid@,
            status: self.status,
            started_at: self.started_at,
            finished_at: self.finished_at,
            failure: match self.failure {
                Some(f) => Some(f@),
                None => None,
            },
        }
    }
}

impl DumpInfo {
    /// A finish time is present exactly when the dump has ended, a failure
    /// reason only when it failed.
    pub open spec fn wf(&self) -> bool {
        &&& (self.status == DumpStatus::InProgress) == self.finished_at.is_none()
        &&& self.failure.is_some() ==> self.status == DumpStatus::Failed
    }

    /// A record of a dump that has just started.
    pub fn new(uid: String, started_at: u64) -> (r: DumpInfo)
        ensures
            r.wf(),
            r@ == started_record(uid@, started_at),
    {
        DumpInfo { uid, status: DumpStatus::InProgress, started_at, finished_at: None, failure: None }
    }

    /// A record of a dump that finished in an earlier run of the process and
    /// of which only its artifact is left. Its start time is not known, so
    /// it is taken to be the finish time.
    pub fn finished(uid: String, finished_at: u64) -> (r: DumpInfo)
        ensures
            r.wf(),
            r@ == (DumpRecord {
                uid: uid@,
                status: DumpStatus::Done,
                started_at: finished_at,
                finished_at: Some(finished_at),
                failure: None,
            }),
    {
        DumpInfo {
            uid,
            status: DumpStatus::Done,
            started_at: finished_at,
            finished_at: Some(finished_at),
            failure: None,
        }
    }

    /// Whether this record is about the dump `uid`.
    pub fn has_uid(&self, uid: &str) -> (r: bool)
        ensures
            r == (self.uid@ == uid@),
    {
        let other = String::from_str(uid);
        self.uid == other
    }

    pub fn status(&self) -> (r: DumpStatus)
        ensures
            r == self.status,
    {
        self.status
    }

    pub fn copy(&self) -> (r: DumpInfo)
        ensures
            r@ == self@,
    {
        let failure = match &self.failure {
            Some(f) => Some(f.clone()),
            None => None,
        };
        DumpInfo {
            uid: self.uid.clone(),
            status: self.status,
            started_at: self.started_at,
            finished_at: self.finished_at,
            failure,
        }
    }
}

} // verus!

verus! {

/// The process-wide slot that holds the most recently triggered dump.
///
/// It is empty when the process starts and is only written through
/// [`DumpRegistry::set`] and [`DumpRegistry::update_if`].
pub struct DumpRegistry {
    slot: Option<DumpInfo>,
}

impl View for DumpRegistry {
    type V = Option<DumpRecord>;

    closed spec fn view(&self) -> Option<DumpRecord> {
        match self.slot {
            Some(info) => Some(info@),
            None => None,
        }
    }
}

impl DumpRegistry {
    pub closed spec fn wf(&self) -> bool {
        self.slot matches Some(info) ==> info.wf()
    }

    /// An empty registry, as at process start.
    pub fn new() -> (r: DumpRegistry)
        ensures
            r.wf(),
            r@ == None::<DumpRecord>,
    {
        DumpRegistry { slot: None }
    }

    /// A copy of the current entry.
    pub fn get(&self) -> (r: Option<DumpInfo>)
        ensures
            r matches Some(i) ==> self@ == Some(i@) && (self.wf() ==> i.wf()),
            r is None <==> self@ is None,
    {
        match &self.slot {
            Some(info) => Some(info.copy()),
            None => None,
        }
    }

    /// The status of the current entry when it is about `uid`.
    pub fn status_of(&self, uid: &str) -> (r: Option<DumpStatus>)
        ensures
            r == (match self@ {
                Some(rec) => if rec.uid == uid@ { Some(rec.status) } else { None },
                None => None,
            }),
    {
        match &self.slot {
            Some(info) => if info.has_uid(uid) {
                Some(info.status)
            } else {
                None
            },
            None => None,
        }
    }

    /// Replaces the current entry.
    pub fn set(&mut self, info: DumpInfo)
        requires
            info.wf(),
        ensures
            final(self).wf(),
            final(self)@ == Some(info@),
    {
        self.slot = Some(info);
    }

    /// Moves the current entry to `status` when it is about `uid` and still in
    /// progress; returns whether it did. `reason` is kept on a failure.
    pub fn update_if(
        &mut self,
        uid: &str,
        status: DumpStatus,
        now: u64,
        reason: Option<String>,
    ) -> (r: bool)
        requires
            old(self).wf(),
            status != DumpStatus::InProgress,
            reason.is_some() ==> status == DumpStatus::Failed,
        ensures
            final(self).wf(),
            r == (old(self)@ matches Some(rec) && rec.uid == uid@ && rec.status
                == DumpStatus::InProgress),
            r ==> final(self)@ == Some(
                DumpRecord {
                    status,
                    finished_at: Some(now),
                    failure: match reason {
                        Some(f) => Some(f@),
                        None => None,
                    },
                    ..old(self)@.unwrap()
                },
            ),
            !r ==> final(self)@ == old(self)@,
            old(self)@ matches Some(a) ==> (final(self)@ matches Some(b) && b.uid == a.uid
                && b.started_at == a.started_at && a.status.may_become(b.status)),
    {
        match &mut self.slot {
            Some(info) => {
                if info.has_uid(uid) && info.status == DumpStatus::InProgress {
                    info.status = status;
                    info.finished_at = Some(now);
                    info.failure = reason;
                    true
                } else {
                    false
                }
            },
            None => false,
        }
    }
}

} // verus!
