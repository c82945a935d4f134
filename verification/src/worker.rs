//! What the proxy counts about one connected mining worker.
use vstd::prelude::*;

verus! {

/// Errors that end a worker's session.
#[derive(Debug, Clone, Copy, PartialEq, Eq)]
pub enum SessionError {
    /// The worker submitted a share that names no job.
    IllegalShare,
    /// A line from the worker is not a request of the protocol.
    UnknownProtocol,
    /// A job counter reached its largest value.
    CounterOverflow,
    /// The operating system gave no randomness to seed a generator.
    NoRandomness,
}

/// `x + 1`, or `x` when that would not fit.
pub open spec fn bump(x: u64) -> u64 {
    if x < u64::MAX {
        (x + 1) as u64
    } else {
        x
    }
}

/// The counters of one worker, reported to the proxy at intervals.
#[derive(Debug, Clone)]
pub struct WorkerStats {
    /// The name the worker logged in with.
    pub worker_name: String,
    /// The pool has answered the worker's login.
    pub online: bool,
    /// Shares the worker submitted for its own account.
    pub share_index: u64,
    /// Shares of the worker that the pool accepted.
    pub accept_index: u64,
    /// Shares of the worker that the pool rejected.
    pub reject_index: u64,
    /// Shares submitted on a job of the fee account.
    pub fee_share_index: u64,
    /// Shares on fee jobs that were passed on.
    pub fee_accept_index: u64,
    /// Jobs that arrived from the pool for this worker.
    pub jobs_sent: u64,
    /// Jobs of the developer account handed to the worker.
    pub dev_jobs_sent: u64,
    /// Jobs of the fee account handed to the worker.
    pub fee_jobs_sent: u64,
}

impl WorkerStats {
    /// A worker that has not logged in and has done nothing yet.
    pub fn new() -> (w: WorkerStats)
        ensures
            w.worker_name@ == Seq::<char>::empty(),
            !w.online,
            w.share_index == 0,
            w.accept_index == 0,
            w.reject_index == 0,
            w.fee_share_index == 0,
            w.fee_accept_index == 0,
            w.jobs_sent == 0,
            w.dev_jobs_sent == 0,
            w.fee_jobs_sent == 0,
    {
        WorkerStats {
            worker_name: String::new(),
            online: false,
            share_index: 0,
            accept_index: 0,
            reject_index: 0,
            fee_share_index: 0,
            fee_accept_index: 0,
            jobs_sent: 0,
            dev_jobs_sent: 0,
            fee_jobs_sent: 0,
        }
    }

    /// Counts a share submitted for the worker's own account.
    pub fn share_index_add(&mut self)
        ensures
            *final(self) == (WorkerStats { share_index: bump(old(self).share_index), ..*old(self) }),
    {
        if self.share_index < u64::MAX {
            self.share_index = self.share_index + 1;
        }
    }

    /// Counts a share submitted on a fee job.
    pub fn fee_share_index_add(&mut self)
        ensures
            *final(self) == (WorkerStats {
                fee_share_index: bump(old(self).fee_share_index),
                ..*old(self)
            }),
    {
        if self.fee_share_index < u64::MAX {
            self.fee_share_index = self.fee_share_index + 1;
        }
    }

    /// Counts a fee share that was passed on.
    pub fn fee_share_accept(&mut self)
        ensures
            *final(self) == (WorkerStats {
                fee_accept_index: bump(old(self).fee_accept_index),
                ..*old(self)
            }),
    {
        if self.fee_accept_index < u64::MAX {
            self.fee_accept_index = self.fee_accept_index + 1;
        }
    }

    /// Counts a share on a fee job once it has been passed on to the fee
    /// account.
    pub fn fee_share_sent(&mut self)
        ensures
            *final(self) == (WorkerStats {
                fee_share_index: bump(old(self).fee_share_index),
                fee_accept_index: bump(old(self).fee_accept_index),
                ..*old(self)
            }),
    {
        self.fee_share_index_add();
        self.fee_share_accept();
    }

    /// Counts a share that the pool accepted.
    pub fn share_accept(&mut self)
        ensures
            *final(self) == (WorkerStats { accept_index: bump(old(self).accept_index), ..*old(self) }),
    {
        if self.accept_index < u64::MAX {
            self.accept_index = self.accept_index + 1;
        }
    }

    /// Counts a share that the pool rejected.
    pub fn share_reject(&mut self)
        ensures
            *final(self) == (WorkerStats { reject_index: bump(old(self).reject_index), ..*old(self) }),
    {
        if self.reject_index < u64::MAX {
            self.reject_index = self.reject_index + 1;
        }
    }

    /// Records that the pool answered the login.
    pub fn logind(&mut self)
        ensures
            *final(self) == (WorkerStats { online: true, ..*old(self) }),
    {
        self.online = true;
    }

    /// Counts a job that arrived from the pool.
    pub fn send_job(&mut self) -> (r: Result<(), SessionError>)
        ensures
            old(self).jobs_sent < u64::MAX ==> r is Ok && *final(self) == (WorkerStats {
                jobs_sent: (old(self).jobs_sent + 1) as u64,
                ..*old(self)
            }),
            old(self).jobs_sent == u64::MAX ==> r == Err::<(), SessionError>(
                SessionError::CounterOverflow,
            ) && *final(self) == *old(self),
    {
        if self.jobs_sent < u64::MAX {
            self.jobs_sent = self.jobs_sent + 1;
            Ok(())
        } else {
            Err(SessionError::CounterOverflow)
        }
    }

    /// Counts a developer job handed to the worker.
    pub fn send_develop_job(&mut self) -> (r: Result<(), SessionError>)
        ensures
            old(self).dev_jobs_sent < u64::MAX ==> r is Ok && *final(self) == (WorkerStats {
                dev_jobs_sent: (old(self).dev_jobs_sent + 1) as u64,
                ..*old(self)
            }),
            old(self).dev_jobs_sent == u64::MAX ==> r == Err::<(), SessionError>(
                SessionError::CounterOverflow,
            ) && *final(self) == *old(self),
    {
        if self.dev_jobs_sent < u64::MAX {
            self.dev_jobs_sent = self.dev_jobs_sent + 1;
            Ok(())
        } else {
            Err(SessionError::CounterOverflow)
        }
    }

    /// Counts a fee job handed to the worker.
    pub fn send_fee_job(&mut self) -> (r: Result<(), SessionError>)
        ensures
            old(self).fee_jobs_sent < u64::MAX ==> r is Ok && *final(self) == (WorkerStats {
                fee_jobs_sent: (old(self).fee_jobs_sent + 1) as u64,
                ..*old(self)
            }),
            old(self).fee_jobs_sent == u64::MAX ==> r == Err::<(), SessionError>(
                SessionError::CounterOverflow,
            ) && *final(self) == *old(self),
    {
        if self.fee_jobs_sent < u64::MAX {
            self.fee_jobs_sent = self.fee_jobs_sent + 1;
            Ok(())
        } else {
            Err(SessionError::CounterOverflow)
        }
    }
}

} // verus!
