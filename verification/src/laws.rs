//! What holds of every session, whatever the events.
use vstd::prelude::*;
use crate::hex::{hex_digits, law_leading_zeros_keep_quantity, zeros};
use crate::protocol::{
    has_id, height_of, method_kind, reported_rate, share_job_id, Method, WorkerRequest,
};
use crate::worker::SessionError;
use crate::session::{
    after_take, chosen_job, pool_job_step, queue_step, queues_not_newer, reply_worker,
    request_actions, request_outcome, request_session, request_worker, route_of, share_of,
    source_of, Action, FeeRoll, JobStep, Outcome, PoolMessage, ProxyConfig, Route, SessionModel,
    Source,
};
use crate::worker::WorkerStats;

verus! {

/// The newest block height seen never goes down: not on a job from the pool,
/// not on a queued job, not on a request of the worker.
pub proof fn law_height_never_decreases(
    m: SessionModel,
    w: WorkerStats,
    job: Vec<String>,
    roll: FeeRoll,
    dev: bool,
    r: WorkerRequest,
)
    ensures
        pool_job_step(m, w, job, roll).session.job_height >= m.job_height,
        queue_step(m, job, dev).job_height >= m.job_height,
        request_session(m, r).job_height == m.job_height,
{
}

/// No waiting job is ever newer than the newest height seen: every event
/// keeps that so.
pub proof fn law_waiting_jobs_never_newer(
    m: SessionModel,
    w: WorkerStats,
    job: Vec<String>,
    roll: FeeRoll,
    dev: bool,
    r: WorkerRequest,
)
    requires
        queues_not_newer(m),
    ensures
        queues_not_newer(pool_job_step(m, w, job, roll).session),
        queues_not_newer(queue_step(m, job, dev)),
        queues_not_newer(request_session(m, r)),
{
    let s = pool_job_step(m, w, job, roll).session;
    let m1 = after_take(m, roll);
    assert forall|i: int| 0 <= i < m1.wait_jobs.len() implies height_of(
        #[trigger] m1.wait_jobs[i]@,
    ) <= m1.job_height by {
        assert(m1.wait_jobs[i] == m.wait_jobs[i]);
    }
    assert forall|i: int| 0 <= i < m1.wait_dev_jobs.len() implies height_of(
        #[trigger] m1.wait_dev_jobs[i]@,
    ) <= m1.job_height by {
        assert(m1.wait_dev_jobs[i] == m.wait_dev_jobs[i]);
    }
    let q = queue_step(m, job, dev);
    assert forall|i: int| 0 <= i < q.wait_jobs.len() implies height_of(#[trigger] q.wait_jobs[i]@)
        <= q.job_height by {
        if !dev && i == q.wait_jobs.len() - 1 {
            assert(q.wait_jobs[i] == job);
        } else if height_of(job@) != 0 && m.job_height < height_of(job@) {
        } else {
            assert(q.wait_jobs[i] == m.wait_jobs[i]);
        }
    }
    assert forall|i: int| 0 <= i < q.wait_dev_jobs.len() implies height_of(
        #[trigger] q.wait_dev_jobs[i]@,
    ) <= q.job_height by {
        if dev && i == q.wait_dev_jobs.len() - 1 {
            assert(q.wait_dev_jobs[i] == job);
        } else if height_of(job@) != 0 && m.job_height < height_of(job@) {
        } else {
            assert(q.wait_dev_jobs[i] == m.wait_dev_jobs[i]);
        }
    }
}

/// A job handed to the worker is never stale: it has no height, or the
/// newest height seen, which handing it out leaves as it was.
pub proof fn law_no_stale_job_served(m: SessionModel, w: WorkerStats, job: Vec<String>, roll: FeeRoll)
    ensures
        pool_job_step(m, w, job, roll).sent matches Some(j) ==> {
            &&& height_of(j@) == 0 || height_of(j@) == m.job_height
            &&& pool_job_step(m, w, job, roll).session.job_height == m.job_height
            &&& j == chosen_job(m, roll, job)
        },
{
}

/// A job that shows a newer height is not handed out, and it drops every
/// waiting job.
pub proof fn law_newer_height_drops_waiting(
    m: SessionModel,
    w: WorkerStats,
    job: Vec<String>,
    roll: FeeRoll,
)
    ensures
        pool_job_step(m, w, job, roll).session.job_height > m.job_height ==> {
            let s = pool_job_step(m, w, job, roll);
            &&& s.sent is None
            &&& s.session.wait_jobs.len() == 0
            &&& s.session.wait_dev_jobs.len() == 0
        },
        queue_step(m, job, true).job_height > m.job_height ==> {
            &&& queue_step(m, job, true).wait_jobs.len() == 0
            &&& queue_step(m, job, true).wait_dev_jobs == seq![job]
        },
        queue_step(m, job, false).job_height > m.job_height ==> {
            &&& queue_step(m, job, false).wait_dev_jobs.len() == 0
            &&& queue_step(m, job, false).wait_jobs == seq![job]
        },
{
    assert(Seq::<Vec<String>>::empty().push(job) =~= seq![job]);
}

proof fn lemma_has_id_push(ids: Seq<String>, x: String, id: Seq<char>)
    ensures
        has_id(ids.push(x), id) == (has_id(ids, id) || x@ == id),
{
    if has_id(ids, id) {
        let i = choose|i: int| 0 <= i < ids.len() && #[trigger] ids[i]@ == id;
        assert(ids.push(x)[i]@ == id);
    }
    if x@ == id {
        assert(ids.push(x)[ids.len() as int]@ == id);
    }
    if has_id(ids.push(x), id) {
        let i = choose|i: int| 0 <= i < ids.push(x).len() && #[trigger] ids.push(x)[i]@ == id;
        if i < ids.len() {
            assert(ids[i]@ == id);
        }
    }
}

/// Once a job of the developer account has been handed out, a share on it
/// goes to the developer account.
pub proof fn law_dev_job_shares_go_to_dev(m: SessionModel, w: WorkerStats, job: Vec<String>, roll: FeeRoll)
    ensures
        pool_job_step(m, w, job, roll).sent is Some && source_of(m, roll) == Source::DevQueue
            ==> route_of(
            pool_job_step(m, w, job, roll).session,
            pool_job_step(m, w, job, roll).sent->0@[0]@,
        ) == Route::Dev,
{
    let s = pool_job_step(m, w, job, roll);
    if s.sent is Some && source_of(m, roll) == Source::DevQueue {
        let j = s.sent->0;
        lemma_has_id_push(m.dev_fee_jobs, j@[0], j@[0]@);
    }
}

/// Once a job of the fee account has been handed out, a share on it goes to
/// the fee account, unless it names a job that the developer account handed
/// out as well.
pub proof fn law_fee_job_shares_go_to_fee(m: SessionModel, w: WorkerStats, job: Vec<String>, roll: FeeRoll)
    ensures
        pool_job_step(m, w, job, roll).sent is Some && source_of(m, roll) == Source::FeeQueue
            ==> route_of(
            pool_job_step(m, w, job, roll).session,
            pool_job_step(m, w, job, roll).sent->0@[0]@,
        ) == if has_id(m.dev_fee_jobs, pool_job_step(m, w, job, roll).sent->0@[0]@) {
            Route::Dev
        } else {
            Route::Fee
        },
{
    let s = pool_job_step(m, w, job, roll);
    if s.sent is Some && source_of(m, roll) == Source::FeeQueue {
        let j = s.sent->0;
        lemma_has_id_push(m.fee_jobs, j@[0], j@[0]@);
    }
}

/// A job that is the pool's own, a queued job and a request of the worker
/// change no share's destination.
pub proof fn law_routes_kept(
    m: SessionModel,
    w: WorkerStats,
    job: Vec<String>,
    roll: FeeRoll,
    dev: bool,
    r: WorkerRequest,
    id: Seq<char>,
)
    ensures
        source_of(m, roll) == Source::Pool ==> route_of(pool_job_step(m, w, job, roll).session, id)
            == route_of(m, id),
        route_of(queue_step(m, job, dev), id) == route_of(m, id),
        route_of(request_session(m, r), id) == route_of(m, id),
{
}

/// Handing out a job of an account and then receiving a share on that job:
/// the share is passed on to that account under the account's worker name,
/// and the worker is answered under the share's id.
pub proof fn law_share_follows_its_job(
    m: SessionModel,
    w: WorkerStats,
    job: Vec<String>,
    roll: FeeRoll,
    cfg: ProxyConfig,
    r: WorkerRequest,
)
    requires
        pool_job_step(m, w, job, roll).sent is Some,
        method_kind(r.method@) == Method::SubmitWork,
        share_job_id(r.params@) == Some(pool_job_step(m, w, job, roll).sent->0@[0]@),
    ensures
        ({
            let s = pool_job_step(m, w, job, roll);
            let acts = request_actions(s.session, s.worker, cfg, r);
            &&& source_of(m, roll) == Source::DevQueue ==> acts == seq![
                Action::ShareToDev(share_of(r, cfg.develop_worker_name)),
                Action::Reply(r.id),
            ]
            &&& source_of(m, roll) == Source::FeeQueue && !has_id(
                m.dev_fee_jobs,
                s.sent->0@[0]@,
            ) ==> acts == seq![Action::ShareToFee(share_of(r, cfg.share_name)), Action::Reply(r.id)]
            &&& request_outcome(r) == Outcome::Continue
        }),
{
    law_dev_job_shares_go_to_dev(m, w, job, roll);
    law_fee_job_shares_go_to_fee(m, w, job, roll);
}

/// A request of the worker leaves the jobs alone: the height, the waiting
/// jobs and the jobs handed out stay as they were.
pub proof fn law_requests_keep_jobs(m: SessionModel, r: WorkerRequest)
    ensures
        request_session(m, r).job_height == m.job_height,
        request_session(m, r).wait_jobs == m.wait_jobs,
        request_session(m, r).wait_dev_jobs == m.wait_dev_jobs,
        request_session(m, r).fee_jobs == m.fee_jobs,
        request_session(m, r).dev_fee_jobs == m.dev_fee_jobs,
        request_session(m, r).sent_jobs == m.sent_jobs,
{
}

/// Every answer to a request carries the request's id, and the session
/// remembers that id as the one it answers under.
pub proof fn law_replies_carry_request_id(
    m: SessionModel,
    w: WorkerStats,
    cfg: ProxyConfig,
    r: WorkerRequest,
)
    ensures
        forall|i: int|
            0 <= i < request_actions(m, w, cfg, r).len() && #[trigger] request_actions(
                m,
                w,
                cfg,
                r,
            )[i] is Reply ==> request_actions(m, w, cfg, r)[i] == Action::Reply(r.id)
                && request_session(m, r).reply_id == r.id,
        request_session(m, r).rpc_id == r.id,
{
}

/// One event of a session, as its handlers receive it.
pub enum SessionEvent {
    /// A line of the worker, with the request it holds if any
    /// ([`crate::session::Session::handle_worker_request`]).
    Worker(Option<WorkerRequest>),
    /// A line of the pool and the dice for it
    /// ([`crate::session::Session::handle_pool_message`]).
    Pool(PoolMessage, FeeRoll),
    /// A job of the developer account ([`crate::session::Session::queue_dev_job`]).
    DevJob(Vec<String>),
    /// A job of the fee account ([`crate::session::Session::queue_fee_job`]).
    FeeJob(Vec<String>),
}

/// What handling the event `e` comes to: the same models that the handlers'
/// contracts state.
pub open spec fn event_step(m: SessionModel, w: WorkerStats, cfg: ProxyConfig, e: SessionEvent) -> JobStep {
    match e {
        SessionEvent::Worker(None) => JobStep {
            session: m,
            worker: w,
            sent: None,
            outcome: Outcome::Fail(SessionError::UnknownProtocol),
        },
        SessionEvent::Worker(Some(r)) => JobStep {
            session: request_session(m, r),
            worker: request_worker(m, w, r),
            sent: None,
            outcome: request_outcome(r),
        },
        SessionEvent::Pool(PoolMessage::Job(j), roll) => pool_job_step(m, w, j, roll),
        SessionEvent::Pool(PoolMessage::Reply { id, result }, _) => JobStep {
            session: m,
            worker: reply_worker(cfg, w, id, result),
            sent: None,
            outcome: Outcome::Continue,
        },
        SessionEvent::Pool(PoolMessage::Other, _) => JobStep {
            session: m,
            worker: w,
            sent: None,
            outcome: Outcome::Continue,
        },
        SessionEvent::DevJob(j) => JobStep {
            session: queue_step(m, j, true),
            worker: w,
            sent: None,
            outcome: Outcome::Continue,
        },
        SessionEvent::FeeJob(j) => JobStep {
            session: queue_step(m, j, false),
            worker: w,
            sent: None,
            outcome: Outcome::Continue,
        },
    }
}

/// The session after the events `es`, handled one after the other until one
/// of them ends the session.
pub open spec fn run_session(m: SessionModel, w: WorkerStats, cfg: ProxyConfig, es: Seq<SessionEvent>) -> SessionModel
    decreases es.len(),
{
    if es.len() == 0 {
        m
    } else {
        let s = event_step(m, w, cfg, es[0]);
        if s.outcome == Outcome::Continue {
            run_session(s.session, s.worker, cfg, es.drop_first())
        } else {
            s.session
        }
    }
}

/// Along the events `es`, handled one after the other until one of them ends
/// the session, the newest height never goes down, and every job handed to
/// the worker has no height or the newest height at the time it is handed out.
pub open spec fn never_serves_stale(m: SessionModel, w: WorkerStats, cfg: ProxyConfig, es: Seq<SessionEvent>) -> bool
    decreases es.len(),
{
    if es.len() == 0 {
        true
    } else {
        let s = event_step(m, w, cfg, es[0]);
        &&& s.session.job_height >= m.job_height
        &&& (s.sent is Some ==> height_of(s.sent->0@) == 0 || height_of(s.sent->0@)
            == s.session.job_height)
        &&& (s.outcome == Outcome::Continue ==> never_serves_stale(
            s.session,
            s.worker,
            cfg,
            es.drop_first(),
        ))
    }
}

/// Whatever the events of a session and in whatever order they come (lines
/// of the worker, lines of the pool with any dice, jobs of either account),
/// the newest height never goes down, no job older than it is ever handed to
/// the worker, and no waiting job is ever newer than it.
pub proof fn law_sessions_never_serve_stale_jobs(
    m: SessionModel,
    w: WorkerStats,
    cfg: ProxyConfig,
    es: Seq<SessionEvent>,
)
    ensures
        never_serves_stale(m, w, cfg, es),
        run_session(m, w, cfg, es).job_height >= m.job_height,
        queues_not_newer(m) ==> queues_not_newer(run_session(m, w, cfg, es)),
    decreases es.len(),
{
    if es.len() > 0 {
        let s = event_step(m, w, cfg, es[0]);
        let any_roll = FeeRoll { dev: false, fee: false };
        if let SessionEvent::Pool(PoolMessage::Job(j), roll) = es[0] {
            law_height_never_decreases(m, w, j, roll, true, vstd::pervasive::arbitrary());
            law_no_stale_job_served(m, w, j, roll);
        }
        if queues_not_newer(m) {
            match es[0] {
                SessionEvent::Worker(Some(r)) => {
                    law_waiting_jobs_never_newer(m, w, vstd::pervasive::arbitrary(), any_roll, true, r);
                },
                SessionEvent::Pool(PoolMessage::Job(j), roll) => {
                    law_waiting_jobs_never_newer(m, w, j, roll, true, vstd::pervasive::arbitrary());
                },
                SessionEvent::DevJob(j) => {
                    law_waiting_jobs_never_newer(m, w, j, any_roll, true, vstd::pervasive::arbitrary());
                },
                SessionEvent::FeeJob(j) => {
                    law_waiting_jobs_never_newer(m, w, j, any_roll, false, vstd::pervasive::arbitrary());
                },
                _ => {},
            }
        }
        if s.outcome == Outcome::Continue {
            law_sessions_never_serve_stale_jobs(s.session, s.worker, cfg, es.drop_first());
        }
    }
}

/// A round takes a waiting job only from its own account's queue. On a
/// round that is not the developer's, the developer's jobs are left alone:
/// none is handed out or counted, and the waiting ones stay unless a newer
/// height drops them. On the developer's round the fee account's jobs are
/// left alone in the same way. The job handed out is the pool's own or the
/// newest waiting job of the round's account.
pub proof fn law_round_takes_only_its_queue(m: SessionModel, w: WorkerStats, job: Vec<String>, roll: FeeRoll)
    ensures
        ({
            let s = pool_job_step(m, w, job, roll);
            &&& !roll.dev ==> {
                &&& s.session.dev_fee_jobs == m.dev_fee_jobs
                &&& s.worker.dev_jobs_sent == w.dev_jobs_sent
                &&& (s.session.wait_dev_jobs == m.wait_dev_jobs || (s.session.wait_dev_jobs.len() == 0
                    && s.session.job_height > m.job_height))
                &&& (s.sent is Some ==> s.sent->0 == job || (roll.fee && m.wait_jobs.len() > 0
                    && s.sent->0 == m.wait_jobs.last()))
            }
            &&& roll.dev ==> {
                &&& s.session.fee_jobs == m.fee_jobs
                &&& s.worker.fee_jobs_sent == w.fee_jobs_sent
                &&& (s.session.wait_jobs == m.wait_jobs || (s.session.wait_jobs.len() == 0
                    && s.session.job_height > m.job_height))
                &&& (s.sent is Some ==> s.sent->0 == job || (m.wait_dev_jobs.len() > 0 && s.sent->0
                    == m.wait_dev_jobs.last()))
            }
        }),
{
}

/// The rate that a hash rate report carries is the quantity of its first
/// parameter, however many leading zeros that parameter has.
pub proof fn law_rate_report_reads_first_parameter(params: Seq<String>, k: nat, n: u64)
    requires
        params.len() > 0,
        params[0]@ == seq!['0', 'x'] + zeros(k) + hex_digits(n as nat),
    ensures
        reported_rate(params) == n,
{
    law_leading_zeros_keep_quantity(k, n);
}

/// The pool's answer to a submitted share counts the share as accepted when
/// it says true and as rejected when it says false, and touches nothing else;
/// its answer to the login marks the worker online and counts nothing.
pub proof fn law_pool_replies_count_shares(cfg: ProxyConfig, w: WorkerStats, result: bool)
    requires
        cfg.submit_work_reply_id != cfg.login_reply_id,
    ensures
        ({
            let x = reply_worker(cfg, w, cfg.submit_work_reply_id, result);
            &&& result ==> x.reject_index == w.reject_index && (w.accept_index < u64::MAX
                ==> x.accept_index == w.accept_index + 1) && (w.accept_index == u64::MAX
                ==> x.accept_index == w.accept_index)
            &&& !result ==> x.accept_index == w.accept_index && (w.reject_index < u64::MAX
                ==> x.reject_index == w.reject_index + 1) && (w.reject_index == u64::MAX
                ==> x.reject_index == w.reject_index)
            &&& x.online == w.online
            &&& x.share_index == w.share_index
            &&& x.fee_share_index == w.fee_share_index
            &&& x.jobs_sent == w.jobs_sent
        }),
        ({
            let x = reply_worker(cfg, w, cfg.login_reply_id, result);
            &&& x.online
            &&& x.accept_index == w.accept_index
            &&& x.reject_index == w.reject_index
        }),
{
}

/// Queueing a job that shows no newer height keeps every waiting job: the
/// job joins the end of its own account's queue, the other queue and the
/// height stay as they were.
pub proof fn law_queueing_keeps_waiting_jobs(m: SessionModel, job: Vec<String>, dev: bool)
    requires
        height_of(job@) <= m.job_height,
    ensures
        queue_step(m, job, dev).job_height == m.job_height,
        dev ==> queue_step(m, job, dev).wait_dev_jobs == m.wait_dev_jobs.push(job)
            && queue_step(m, job, dev).wait_jobs == m.wait_jobs,
        !dev ==> queue_step(m, job, dev).wait_jobs == m.wait_jobs.push(job)
            && queue_step(m, job, dev).wait_dev_jobs == m.wait_dev_jobs,
{
}

} // verus!
