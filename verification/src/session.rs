//! The decisions of one worker's session: which job the worker gets, where
//! its shares go, what it is answered.
//!
//! The session stands between a mining worker and its pool. Now and then a
//! job of the developer account or of the fee account takes the place of a
//! job from the pool; shares on such jobs are sent to that account rather
//! than the worker's. A job older than the newest block height seen is never
//! handed out, and a newer height discards the jobs that wait.
//!
//! Each handler takes one event, changes the session and the worker's
//! counters, and returns the actions that the caller performs in order.
use vstd::prelude::*;
use std::collections::VecDeque;
use crate::protocol::{
    classify_method, contains_id, has_id, height_of, job_height, method_kind, reported_hashrate,
    reported_rate, share_job, share_job_id, Method, WorkerRequest,
};
use crate::worker::{bump, SessionError, WorkerStats};

verus! {

/// Names and reply identifiers that the session works with.
pub struct ProxyConfig {
    /// The worker name under which fee shares are submitted.
    pub share_name: String,
    /// The worker name under which developer shares are submitted.
    pub develop_worker_name: String,
    /// The id of the pool's reply to a login.
    pub login_reply_id: u64,
    /// The id of the pool's reply to a submitted share.
    pub submit_work_reply_id: u64,
}

/// Which rounds the dice chose for a job from the pool: the developer's
/// round, and (looked at only when that one was not chosen) the fee round.
#[derive(Debug, Clone, Copy, PartialEq, Eq)]
pub struct FeeRoll {
    pub dev: bool,
    pub fee: bool,
}

/// A share as it is passed on.
#[derive(Debug, PartialEq)]
pub struct Share {
    pub id: u64,
    pub method: String,
    pub params: Vec<String>,
    /// The worker name that the share is submitted under.
    pub worker: String,
}

/// A line from the pool, as parsed.
#[derive(Debug, PartialEq)]
pub enum PoolMessage {
    /// A job: the `result` array of the pool's message.
    Job(Vec<String>),
    /// The pool's answer to a request sent under the id `id`.
    Reply { id: u64, result: bool },
    /// Anything else.
    Other,
}

/// What the caller does, in order.
#[derive(Debug, PartialEq)]
pub enum Action {
    /// Log the worker in at the pool with this request.
    LoginToPool(WorkerRequest),
    /// Answer the worker with success under this id.
    Reply(u64),
    /// Pass the share on to the developer account.
    ShareToDev(Share),
    /// Pass the share on to the fee account; once it is passed on, count it
    /// with [`WorkerStats::fee_share_sent`].
    ShareToFee(Share),
    /// Submit the share to the worker's pool.
    ShareToPool(Share),
    /// Report the worker's hash rate to the pool; `reported` is the rate the
    /// worker gave.
    HashrateToPool { request: WorkerRequest, reported: u64 },
    /// Ask the pool for work with this request.
    GetWork(WorkerRequest),
    /// Hand this job to the worker.
    SendJob(Vec<String>),
    /// Shut both connections down.
    Shutdown,
}

/// How the session goes on after an event.
#[derive(Debug, Clone, Copy, PartialEq, Eq)]
pub enum Outcome {
    /// It goes on.
    Continue,
    /// It ends without an error.
    Close,
    /// It ends with this error.
    Fail(SessionError),
}

/// What handling one event asks of the caller.
pub struct Step {
    pub actions: Vec<Action>,
    pub outcome: Outcome,
}

/// Where a share on a given job goes.
#[derive(Debug, Clone, Copy, PartialEq, Eq)]
pub enum Route {
    Dev,
    Fee,
    Pool,
}

/// Where the job that a pool message leads to comes from.
#[derive(Debug, Clone, Copy, PartialEq, Eq)]
pub enum Source {
    DevQueue,
    FeeQueue,
    Pool,
}

/// What becomes of a job of a given height.
#[derive(Debug, Clone, Copy, PartialEq, Eq)]
pub enum Fate {
    /// It shows a newer height: the waiting jobs are dropped, and the job too.
    Raise,
    /// It is older than the newest height: it is dropped.
    Stale,
    /// It is handed to the worker.
    Serve,
}

/// The state of one worker's session.
pub struct Session {
    /// The newest block height seen.
    pub job_height: u64,
    /// The jobs of the fee account handed to the worker.
    pub fee_jobs: Vec<String>,
    /// The jobs of the developer account handed to the worker.
    pub dev_fee_jobs: Vec<String>,
    /// The pool's own jobs handed to the worker.
    pub sent_jobs: Vec<String>,
    /// Fee jobs waiting to be handed out; the newest is taken first.
    pub wait_jobs: VecDeque<Vec<String>>,
    /// Developer jobs waiting to be handed out; the newest is taken first.
    pub wait_dev_jobs: VecDeque<Vec<String>>,
    /// The id under which the worker is next answered.
    pub reply_id: u64,
    /// The id of the worker's last request.
    pub rpc_id: u64,
}

/// The session as values.
pub struct SessionModel {
    pub job_height: u64,
    pub fee_jobs: Seq<String>,
    pub dev_fee_jobs: Seq<String>,
    pub sent_jobs: Seq<String>,
    pub wait_jobs: Seq<Vec<String>>,
    pub wait_dev_jobs: Seq<Vec<String>>,
    pub reply_id: u64,
    pub rpc_id: u64,
}

impl Session {
    pub open spec fn model(&self) -> SessionModel {
        SessionModel {
            job_height: self.job_height,
            fee_jobs: self.fee_jobs@,
            dev_fee_jobs: self.dev_fee_jobs@,
            sent_jobs: self.sent_jobs@,
            wait_jobs: self.wait_jobs@,
            wait_dev_jobs: self.wait_dev_jobs@,
            reply_id: self.reply_id,
            rpc_id: self.rpc_id,
        }
    }
}

/// No waiting job is newer than the newest height seen.
pub open spec fn queues_not_newer(m: SessionModel) -> bool {
    &&& forall|i: int|
        0 <= i < m.wait_jobs.len() ==> height_of(#[trigger] m.wait_jobs[i]@) <= m.job_height
    &&& forall|i: int|
        0 <= i < m.wait_dev_jobs.len() ==> height_of(#[trigger] m.wait_dev_jobs[i]@)
            <= m.job_height
}

/// Where a share on the job named `id` goes.
pub open spec fn route_of(m: SessionModel, id: Seq<char>) -> Route {
    if has_id(m.dev_fee_jobs, id) {
        Route::Dev
    } else if has_id(m.fee_jobs, id) {
        Route::Fee
    } else {
        Route::Pool
    }
}

/// What becomes of a job of height `hi` when the newest height is `current`.
pub open spec fn fate_of(current: u64, hi: u64) -> Fate {
    if hi != 0 && current < hi {
        Fate::Raise
    } else if hi != 0 && current > hi {
        Fate::Stale
    } else {
        Fate::Serve
    }
}

// ---------------------------------------------------------------- requests

/// The session after the worker's request `r`.
pub open spec fn request_session(m: SessionModel, r: WorkerRequest) -> SessionModel {
    match method_kind(r.method@) {
        Method::GetWork | Method::Unknown => SessionModel { rpc_id: r.id, ..m },
        _ => SessionModel { rpc_id: r.id, reply_id: r.id, ..m },
    }
}

/// The worker's counters after its request `r`.
pub open spec fn request_worker(m: SessionModel, w: WorkerStats, r: WorkerRequest) -> WorkerStats {
    if method_kind(r.method@) == Method::SubmitWork && share_job_id(r.params@) is Some {
        match route_of(m, share_job_id(r.params@)->0) {
            Route::Dev | Route::Fee => w,
            Route::Pool => WorkerStats { share_index: bump(w.share_index), ..w },
        }
    } else {
        w
    }
}

/// The share of request `r`, submitted under `name`.
pub open spec fn share_of(r: WorkerRequest, name: String) -> Share {
    Share { id: r.id, method: r.method, params: r.params, worker: name }
}

/// What the caller does for the worker's request `r`.
pub open spec fn request_actions(
    m: SessionModel,
    w: WorkerStats,
    cfg: ProxyConfig,
    r: WorkerRequest,
) -> Seq<Action> {
    match method_kind(r.method@) {
        Method::SubmitLogin => seq![Action::LoginToPool(r), Action::Reply(r.id)],
        Method::SubmitWork => match share_job_id(r.params@) {
            Some(id) => match route_of(m, id) {
                Route::Dev => seq![
                    Action::ShareToDev(share_of(r, cfg.develop_worker_name)),
                    Action::Reply(r.id),
                ],
                Route::Fee => seq![
                    Action::ShareToFee(share_of(r, cfg.share_name)),
                    Action::Reply(r.id),
                ],
                Route::Pool => seq![
                    Action::ShareToPool(share_of(r, w.worker_name)),
                    Action::Reply(r.id),
                ],
            },
            None => seq![Action::Shutdown],
        },
        Method::SubmitHashrate => seq![
            Action::HashrateToPool { reported: reported_rate(r.params@), request: r },
            Action::Reply(r.id),
        ],
        Method::GetWork => seq![Action::GetWork(r)],
        Method::Subscribe => seq![Action::GetWork(r), Action::Reply(r.id)],
        Method::Unknown => seq![Action::Shutdown],
    }
}

/// How the session goes on after the worker's request `r`.
pub open spec fn request_outcome(r: WorkerRequest) -> Outcome {
    match method_kind(r.method@) {
        Method::SubmitWork => if share_job_id(r.params@) is Some {
            Outcome::Continue
        } else {
            Outcome::Fail(SessionError::IllegalShare)
        },
        Method::Unknown => Outcome::Close,
        _ => Outcome::Continue,
    }
}

// ---------------------------------------------------------------- pool jobs

/// Where the job comes from that a job from the pool leads to.
pub open spec fn source_of(m: SessionModel, roll: FeeRoll) -> Source {
    if roll.dev && m.wait_dev_jobs.len() > 0 {
        Source::DevQueue
    } else if !roll.dev && roll.fee && m.wait_jobs.len() > 0 {
        Source::FeeQueue
    } else {
        Source::Pool
    }
}

/// The job that a job `job` from the pool leads to.
pub open spec fn chosen_job(m: SessionModel, roll: FeeRoll, job: Vec<String>) -> Vec<String> {
    match source_of(m, roll) {
        Source::DevQueue => m.wait_dev_jobs.last(),
        Source::FeeQueue => m.wait_jobs.last(),
        Source::Pool => job,
    }
}

/// The session once the chosen job has left its queue.
pub open spec fn after_take(m: SessionModel, roll: FeeRoll) -> SessionModel {
    match source_of(m, roll) {
        Source::DevQueue => SessionModel { wait_dev_jobs: m.wait_dev_jobs.drop_last(), ..m },
        Source::FeeQueue => SessionModel { wait_jobs: m.wait_jobs.drop_last(), ..m },
        Source::Pool => m,
    }
}

/// The counter for jobs of the source `src` can still grow.
pub open spec fn source_counter_free(w: WorkerStats, src: Source) -> bool {
    match src {
        Source::DevQueue => w.dev_jobs_sent < u64::MAX,
        Source::FeeQueue => w.fee_jobs_sent < u64::MAX,
        Source::Pool => true,
    }
}

/// The counters once a job of the source `src` has been handed out.
pub open spec fn count_source(w: WorkerStats, src: Source) -> WorkerStats {
    match src {
        Source::DevQueue => WorkerStats { dev_jobs_sent: (w.dev_jobs_sent + 1) as u64, ..w },
        Source::FeeQueue => WorkerStats { fee_jobs_sent: (w.fee_jobs_sent + 1) as u64, ..w },
        Source::Pool => w,
    }
}

/// The session once a job named `id` of the source `src` has been handed out.
pub open spec fn record_job(m: SessionModel, src: Source, id: String) -> SessionModel {
    match src {
        Source::DevQueue => SessionModel { dev_fee_jobs: m.dev_fee_jobs.push(id), ..m },
        Source::FeeQueue => SessionModel { fee_jobs: m.fee_jobs.push(id), ..m },
        Source::Pool => SessionModel { sent_jobs: m.sent_jobs.push(id), ..m },
    }
}

/// What handling a job from the pool comes to.
pub struct JobStep {
    pub session: SessionModel,
    pub worker: WorkerStats,
    /// The job handed to the worker, if any.
    pub sent: Option<Vec<String>>,
    pub outcome: Outcome,
}

/// Handling the job `job` from the pool, with the dice showing `roll`.
pub open spec fn pool_job_step(
    m: SessionModel,
    w: WorkerStats,
    job: Vec<String>,
    roll: FeeRoll,
) -> JobStep {
    if w.jobs_sent == u64::MAX {
        JobStep { session: m, worker: w, sent: None, outcome: Outcome::Fail(SessionError::CounterOverflow) }
    } else {
        let w1 = WorkerStats { jobs_sent: (w.jobs_sent + 1) as u64, ..w };
        let src = source_of(m, roll);
        let j = chosen_job(m, roll, job);
        let hi = height_of(j@);
        let m1 = after_take(m, roll);
        match fate_of(m.job_height, hi) {
            Fate::Raise => JobStep {
                session: SessionModel {
                    job_height: hi,
                    wait_jobs: Seq::empty(),
                    wait_dev_jobs: Seq::empty(),
                    ..m1
                },
                worker: w1,
                sent: None,
                outcome: Outcome::Continue,
            },
            Fate::Stale => JobStep { session: m1, worker: w1, sent: None, outcome: Outcome::Continue },
            Fate::Serve => if source_counter_free(w1, src) {
                JobStep {
                    session: record_job(m1, src, j@[0]),
                    worker: count_source(w1, src),
                    sent: Some(j),
                    outcome: Outcome::Continue,
                }
            } else {
                JobStep {
                    session: m1,
                    worker: w1,
                    sent: None,
                    outcome: Outcome::Fail(SessionError::CounterOverflow),
                }
            },
        }
    }
}

/// Handling the job `job` would hand out a job that names none.
pub open spec fn job_step_fails_on_empty(
    m: SessionModel,
    w: WorkerStats,
    job: Vec<String>,
    roll: FeeRoll,
) -> bool {
    &&& w.jobs_sent < u64::MAX
    &&& chosen_job(m, roll, job)@.len() == 0
    &&& source_counter_free(w, source_of(m, roll))
}

/// The actions for a job step.
pub open spec fn job_actions(s: JobStep) -> Seq<Action> {
    match s.sent {
        Some(j) => seq![Action::SendJob(j)],
        None => Seq::empty(),
    }
}

/// The worker's counters after the pool's reply with id `id`.
pub open spec fn reply_worker(cfg: ProxyConfig, w: WorkerStats, id: u64, result: bool) -> WorkerStats {
    if id == cfg.login_reply_id {
        WorkerStats { online: true, ..w }
    } else if id == cfg.submit_work_reply_id && result {
        WorkerStats { accept_index: bump(w.accept_index), ..w }
    } else if id == cfg.submit_work_reply_id {
        WorkerStats { reject_index: bump(w.reject_index), ..w }
    } else {
        w
    }
}

// ---------------------------------------------------------------- queued jobs

/// The session once `job` has been queued on a waiting queue (`dev` tells
/// which one).
pub open spec fn queue_step(m: SessionModel, job: Vec<String>, dev: bool) -> SessionModel {
    let hi = height_of(job@);
    let m1 = if hi != 0 && m.job_height < hi {
        SessionModel { job_height: hi, wait_jobs: Seq::empty(), wait_dev_jobs: Seq::empty(), ..m }
    } else {
        m
    };
    if dev {
        SessionModel { wait_dev_jobs: m1.wait_dev_jobs.push(job), ..m1 }
    } else {
        SessionModel { wait_jobs: m1.wait_jobs.push(job), ..m1 }
    }
}

fn one_action(a: Action) -> (v: Vec<Action>)
    ensures
        v@ == seq![a],
{
    let mut v: Vec<Action> = Vec::new();
    v.push(a);
    v
}

fn two_actions(a: Action, b: Action) -> (v: Vec<Action>)
    ensures
        v@ == seq![a, b],
{
    let mut v: Vec<Action> = Vec::new();
    v.push(a);
    v.push(b);
    v
}

fn no_actions() -> (v: Vec<Action>)
    ensures
        v@ == Seq::<Action>::empty(),
{
    Vec::new()
}

impl Session {
    /// A session that has seen no job and no request.
    pub fn new() -> (s: Session)
        ensures
            s.job_height == 0,
            s.fee_jobs@ == Seq::<String>::empty(),
            s.dev_fee_jobs@ == Seq::<String>::empty(),
            s.sent_jobs@ == Seq::<String>::empty(),
            s.wait_jobs@ == Seq::<Vec<String>>::empty(),
            s.wait_dev_jobs@ == Seq::<Vec<String>>::empty(),
            s.reply_id == 0,
            s.rpc_id == 0,
            queues_not_newer(s.model()),
    {
        Session {
            job_height: 0,
            fee_jobs: Vec::new(),
            dev_fee_jobs: Vec::new(),
            sent_jobs: Vec::new(),
            wait_jobs: VecDeque::new(),
            wait_dev_jobs: VecDeque::new(),
            reply_id: 0,
            rpc_id: 0,
        }
    }

    /// Where a share on the job named `id` goes.
    pub fn route(&self, id: &String) -> (r: Route)
        ensures
            r == route_of(self.model(), id@),
    {
        if contains_id(&self.dev_fee_jobs, id) {
            Route::Dev
        } else if contains_id(&self.fee_jobs, id) {
            Route::Fee
        } else {
            Route::Pool
        }
    }

    /// Handles one line from the worker: `req` is the request it holds, or
    /// `None` when it holds none.
    pub fn handle_worker_request(
        &mut self,
        worker: &mut WorkerStats,
        cfg: &ProxyConfig,
        req: Option<WorkerRequest>,
    ) -> (step: Step)
        ensures
            req is None ==> {
                &&& final(self).model() == old(self).model()
                &&& *final(worker) == *old(worker)
                &&& step.actions@ == Seq::<Action>::empty()
                &&& step.outcome == Outcome::Fail(SessionError::UnknownProtocol)
            },
            req matches Some(r) ==> {
                &&& final(self).model() == request_session(old(self).model(), r)
                &&& *final(worker) == request_worker(old(self).model(), *old(worker), r)
                &&& step.actions@ == request_actions(old(self).model(), *old(worker), *cfg, r)
                &&& step.outcome == request_outcome(r)
            },
    {
        let r = match req {
            Some(r) => r,
            None => {
                return Step {
                    actions: no_actions(),
                    outcome: Outcome::Fail(SessionError::UnknownProtocol),
                };
            },
        };
        let id = r.id;
        self.rpc_id = id;
        match classify_method(&r.method) {
            Method::SubmitLogin => {
                self.reply_id = id;
                Step { actions: two_actions(Action::LoginToPool(r), Action::Reply(id)), outcome: Outcome::Continue }
            },
            Method::SubmitWork => {
                self.reply_id = id;
                match share_job(&r.params) {
                    Some(job_id) => {
                        let route = self.route(&job_id);
                        let share = match route {
                            Route::Dev => Action::ShareToDev(
                                Share {
                                    id,
                                    method: r.method,
                                    params: r.params,
                                    worker: cfg.develop_worker_name.clone(),
                                },
                            ),
                            Route::Fee => {
                                Action::ShareToFee(
                                    Share {
                                        id,
                                        method: r.method,
                                        params: r.params,
                                        worker: cfg.share_name.clone(),
                                    },
                                )
                            },
                            Route::Pool => {
                                let name = worker.worker_name.clone();
                                worker.share_index_add();
                                Action::ShareToPool(
                                    Share { id, method: r.method, params: r.params, worker: name },
                                )
                            },
                        };
                        Step { actions: two_actions(share, Action::Reply(id)), outcome: Outcome::Continue }
                    },
                    None => Step {
                        actions: one_action(Action::Shutdown),
                        outcome: Outcome::Fail(SessionError::IllegalShare),
                    },
                }
            },
            Method::SubmitHashrate => {
                self.reply_id = id;
                let reported = reported_hashrate(&r.params);
                Step {
                    actions: two_actions(
                        Action::HashrateToPool { request: r, reported },
                        Action::Reply(id),
                    ),
                    outcome: Outcome::Continue,
                }
            },
            Method::GetWork => {
                Step { actions: one_action(Action::GetWork(r)), outcome: Outcome::Continue }
            },
            Method::Subscribe => {
                self.reply_id = id;
                Step { actions: two_actions(Action::GetWork(r), Action::Reply(id)), outcome: Outcome::Continue }
            },
            Method::Unknown => {
                Step { actions: one_action(Action::Shutdown), outcome: Outcome::Close }
            },
        }
    }

    /// Whether handling the job `job` would hand out a job that names none;
    /// [`Session::handle_pool_job`] must not be called then.
    pub fn job_fails_on_empty(&self, worker: &WorkerStats, job: &Vec<String>, roll: FeeRoll) -> (r: bool)
        ensures
            r == job_step_fails_on_empty(self.model(), *worker, *job, roll),
    {
        if worker.jobs_sent == u64::MAX {
            return false;
        }
        if roll.dev && self.wait_dev_jobs.len() > 0 {
            let last = self.wait_dev_jobs.len() - 1;
            self.wait_dev_jobs[last].len() == 0 && worker.dev_jobs_sent < u64::MAX
        } else if !roll.dev && roll.fee && self.wait_jobs.len() > 0 {
            let last = self.wait_jobs.len() - 1;
            self.wait_jobs[last].len() == 0 && worker.fee_jobs_sent < u64::MAX
        } else {
            job.len() == 0
        }
    }

    /// Handles a job from the pool, with the dice showing `roll`.
    pub fn handle_pool_job(
        &mut self,
        worker: &mut WorkerStats,
        job: Vec<String>,
        roll: FeeRoll,
    ) -> (step: Step)
        requires
            !job_step_fails_on_empty(old(self).model(), *old(worker), job, roll),
        ensures
            final(self).model() == pool_job_step(old(self).model(), *old(worker), job, roll).session,
            *final(worker) == pool_job_step(old(self).model(), *old(worker), job, roll).worker,
            step.actions@ == job_actions(pool_job_step(old(self).model(), *old(worker), job, roll)),
            step.outcome == pool_job_step(old(self).model(), *old(worker), job, roll).outcome,
    {
        let ghost m0 = self.model();
        let ghost w0 = *worker;
        if worker.send_job().is_err() {
            return Step { actions: no_actions(), outcome: Outcome::Fail(SessionError::CounterOverflow) };
        }
        let mut chosen = job;
        let mut src = Source::Pool;
        if roll.dev {
            if let Some(j) = self.wait_dev_jobs.pop_back() {
                chosen = j;
                src = Source::DevQueue;
            }
        } else if roll.fee {
            if let Some(j) = self.wait_jobs.pop_back() {
                chosen = j;
                src = Source::FeeQueue;
            }
        }
        assert(src == source_of(m0, roll));
        assert(chosen == chosen_job(m0, roll, job));
        assert(self.model() == after_take(m0, roll));
        let hi = job_height(&chosen);
        if hi != 0 && self.job_height < hi {
            self.wait_dev_jobs.clear();
            self.wait_jobs.clear();
            self.job_height = hi;
            return Step { actions: no_actions(), outcome: Outcome::Continue };
        }
        if hi != 0 && self.job_height > hi {
            return Step { actions: no_actions(), outcome: Outcome::Continue };
        }
        let counted = match src {
            Source::DevQueue => worker.send_develop_job(),
            Source::FeeQueue => worker.send_fee_job(),
            Source::Pool => Ok(()),
        };
        if counted.is_err() {
            return Step { actions: no_actions(), outcome: Outcome::Fail(SessionError::CounterOverflow) };
        }
        let job_id = chosen[0].clone();
        match src {
            Source::DevQueue => self.dev_fee_jobs.push(job_id),
            Source::FeeQueue => self.fee_jobs.push(job_id),
            Source::Pool => self.sent_jobs.push(job_id),
        }
        Step { actions: one_action(Action::SendJob(chosen)), outcome: Outcome::Continue }
    }

    /// Handles a line from the pool that is not a job: a reply to a request.
    pub fn handle_pool_reply(worker: &mut WorkerStats, cfg: &ProxyConfig, id: u64, result: bool)
        ensures
            *final(worker) == reply_worker(*cfg, *old(worker), id, result),
    {
        if id == cfg.login_reply_id {
            worker.logind();
        } else if id == cfg.submit_work_reply_id && result {
            worker.share_accept();
        } else if id == cfg.submit_work_reply_id {
            worker.share_reject();
        }
    }

    /// Handles one line from the pool; `roll` is looked at only for a job.
    pub fn handle_pool_message(
        &mut self,
        worker: &mut WorkerStats,
        cfg: &ProxyConfig,
        msg: PoolMessage,
        roll: FeeRoll,
    ) -> (step: Step)
        requires
            msg matches PoolMessage::Job(j) ==> !job_step_fails_on_empty(
                old(self).model(),
                *old(worker),
                j,
                roll,
            ),
        ensures
            msg matches PoolMessage::Job(j) ==> {
                let s = pool_job_step(old(self).model(), *old(worker), j, roll);
                &&& final(self).model() == s.session
                &&& *final(worker) == s.worker
                &&& step.actions@ == job_actions(s)
                &&& step.outcome == s.outcome
            },
            msg matches PoolMessage::Reply { id, result } ==> {
                &&& final(self).model() == old(self).model()
                &&& *final(worker) == reply_worker(*cfg, *old(worker), id, result)
                &&& step.actions@ == Seq::<Action>::empty()
                &&& step.outcome == Outcome::Continue
            },
            msg is Other ==> {
                &&& final(self).model() == old(self).model()
                &&& *final(worker) == *old(worker)
                &&& step.actions@ == Seq::<Action>::empty()
                &&& step.outcome == Outcome::Continue
            },
    {
        match msg {
            PoolMessage::Job(j) => self.handle_pool_job(worker, j, roll),
            PoolMessage::Reply { id, result } => {
                Session::handle_pool_reply(worker, cfg, id, result);
                Step { actions: no_actions(), outcome: Outcome::Continue }
            },
            PoolMessage::Other => Step { actions: no_actions(), outcome: Outcome::Continue },
        }
    }

    /// Queues a job of the developer account.
    pub fn queue_dev_job(&mut self, job: Vec<String>)
        ensures
            final(self).model() == queue_step(old(self).model(), job, true),
    {
        let hi = job_height(&job);
        if hi != 0 && self.job_height < hi {
            self.wait_dev_jobs.clear();
            self.wait_jobs.clear();
            self.job_height = hi;
        }
        self.wait_dev_jobs.push_back(job);
    }

    /// Queues a job of the fee account.
    pub fn queue_fee_job(&mut self, job: Vec<String>)
        ensures
            final(self).model() == queue_step(old(self).model(), job, false),
    {
        let hi = job_height(&job);
        if hi != 0 && self.job_height < hi {
            self.wait_dev_jobs.clear();
            self.wait_jobs.clear();
            self.job_height = hi;
        }
        self.wait_jobs.push_back(job);
    }
}

} // verus!
