use proxy_core::protocol::{job_height, WorkerRequest};
use proxy_core::session::{
    Action, FeeRoll, Outcome, PoolMessage, ProxyConfig, Route, Session, Share,
};
use proxy_core::worker::{SessionError, WorkerStats};

fn strings(v: &[&str]) -> Vec<String> {
    v.iter().map(|s| s.to_string()).collect()
}

fn config() -> ProxyConfig {
    ProxyConfig {
        share_name: "fee_account".to_string(),
        develop_worker_name: "dev_account".to_string(),
        login_reply_id: 1001,
        submit_work_reply_id: 1000,
    }
}

fn worker() -> WorkerStats {
    let mut w = WorkerStats::new();
    w.worker_name = "rig01".to_string();
    w
}

fn request(id: u64, method: &str, params: &[&str]) -> WorkerRequest {
    WorkerRequest { id, method: method.to_string(), params: strings(params) }
}

fn job(id: &str, height: &str) -> Vec<String> {
    strings(&[id, "0xseed", "0xtarget", height])
}

const NO_ROLL: FeeRoll = FeeRoll { dev: false, fee: false };
const DEV_ROLL: FeeRoll = FeeRoll { dev: true, fee: false };
const FEE_ROLL: FeeRoll = FeeRoll { dev: false, fee: true };

#[test]
fn login_is_passed_on_and_answered() {
    let mut s = Session::new();
    let mut w = worker();
    let r = request(7, "eth_submitLogin", &["0xwallet"]);
    let step = s.handle_worker_request(&mut w, &config(), Some(r));
    assert_eq!(
        step.actions,
        vec![Action::LoginToPool(request(7, "eth_submitLogin", &["0xwallet"])), Action::Reply(7)]
    );
    assert_eq!(step.outcome, Outcome::Continue);
    assert_eq!((s.reply_id, s.rpc_id), (7, 7));
}

#[test]
fn a_share_on_the_pools_job_goes_to_the_pool() {
    let mut s = Session::new();
    let mut w = worker();
    let r = request(9, "eth_submitWork", &["0xnonce", "0xjob", "0xmix"]);
    let step = s.handle_worker_request(&mut w, &config(), Some(r));
    assert_eq!(
        step.actions,
        vec![
            Action::ShareToPool(Share {
                id: 9,
                method: "eth_submitWork".to_string(),
                params: strings(&["0xnonce", "0xjob", "0xmix"]),
                worker: "rig01".to_string(),
            }),
            Action::Reply(9),
        ]
    );
    assert_eq!(w.share_index, 1);
    assert_eq!(w.fee_share_index, 0);
}

#[test]
fn a_share_on_a_fee_job_goes_to_the_fee_account() {
    let mut s = Session::new();
    let mut w = worker();
    s.fee_jobs.push("0xfee".to_string());
    let r = request(10, "eth_submitWork", &["0xnonce", "0xfee", "0xmix"]);
    let step = s.handle_worker_request(&mut w, &config(), Some(r));
    match &step.actions[0] {
        Action::ShareToFee(share) => assert_eq!(share.worker, "fee_account"),
        other => panic!("unexpected {:?}", other),
    }
    assert_eq!(step.actions[1], Action::Reply(10));
    // Counted only once the share has been passed on.
    assert_eq!((w.fee_share_index, w.fee_accept_index, w.share_index), (0, 0, 0));
    w.fee_share_sent();
    assert_eq!((w.fee_share_index, w.fee_accept_index, w.share_index), (1, 1, 0));
}

#[test]
fn a_share_on_a_developer_job_goes_to_the_developer() {
    let mut s = Session::new();
    let mut w = worker();
    s.dev_fee_jobs.push("0xdev".to_string());
    s.fee_jobs.push("0xdev".to_string());
    let r = request(11, "eth_submitWork", &["0xnonce", "0xdev", "0xmix"]);
    let step = s.handle_worker_request(&mut w, &config(), Some(r));
    match &step.actions[0] {
        Action::ShareToDev(share) => assert_eq!(share.worker, "dev_account"),
        other => panic!("unexpected {:?}", other),
    }
    assert_eq!((w.fee_share_index, w.share_index), (0, 0));
    assert_eq!(s.route(&"0xdev".to_string()), Route::Dev);
}

#[test]
fn a_share_without_a_job_ends_the_session() {
    let mut s = Session::new();
    let mut w = worker();
    let step = s.handle_worker_request(&mut w, &config(), Some(request(3, "eth_submitWork", &["0xnonce"])));
    assert_eq!(step.actions, vec![Action::Shutdown]);
    assert_eq!(step.outcome, Outcome::Fail(SessionError::IllegalShare));
}

#[test]
fn a_rate_report_carries_the_reported_rate() {
    let mut s = Session::new();
    let mut w = worker();
    let step = s.handle_worker_request(
        &mut w,
        &config(),
        Some(request(5, "eth_submitHashrate", &["0x64", "0xid"])),
    );
    assert_eq!(
        step.actions,
        vec![
            Action::HashrateToPool {
                request: request(5, "eth_submitHashrate", &["0x64", "0xid"]),
                reported: 100
            },
            Action::Reply(5),
        ]
    );
}

#[test]
fn get_work_is_not_answered_but_subscribe_is() {
    let mut s = Session::new();
    let mut w = worker();
    let step = s.handle_worker_request(&mut w, &config(), Some(request(4, "eth_getWork", &[])));
    assert_eq!(step.actions, vec![Action::GetWork(request(4, "eth_getWork", &[]))]);
    assert_eq!((s.reply_id, s.rpc_id), (0, 4));
    let step = s.handle_worker_request(&mut w, &config(), Some(request(6, "mining.subscribe", &[])));
    assert_eq!(
        step.actions,
        vec![Action::GetWork(request(6, "mining.subscribe", &[])), Action::Reply(6)]
    );
    assert_eq!(s.reply_id, 6);
}

#[test]
fn an_unknown_method_closes_the_session() {
    let mut s = Session::new();
    let mut w = worker();
    let step = s.handle_worker_request(&mut w, &config(), Some(request(8, "eth_chainId", &[])));
    assert_eq!(step.actions, vec![Action::Shutdown]);
    assert_eq!(step.outcome, Outcome::Close);
}

#[test]
fn a_line_that_is_no_request_fails_the_session() {
    let mut s = Session::new();
    let mut w = worker();
    let step = s.handle_worker_request(&mut w, &config(), None);
    assert!(step.actions.is_empty());
    assert_eq!(step.outcome, Outcome::Fail(SessionError::UnknownProtocol));
}

#[test]
fn the_pools_job_at_the_current_height_is_handed_out() {
    let mut s = Session::new();
    s.job_height = 16;
    let mut w = worker();
    let step = s.handle_pool_job(&mut w, job("0xa", "0x10"), NO_ROLL);
    assert_eq!(step.actions, vec![Action::SendJob(job("0xa", "0x10"))]);
    assert_eq!(s.sent_jobs, strings(&["0xa"]));
    assert_eq!(w.jobs_sent, 1);
}

#[test]
fn a_job_without_height_is_handed_out() {
    let mut s = Session::new();
    s.job_height = 16;
    let mut w = worker();
    let step = s.handle_pool_job(&mut w, strings(&["0xa"]), NO_ROLL);
    assert_eq!(step.actions, vec![Action::SendJob(strings(&["0xa"]))]);
}

#[test]
fn a_newer_height_drops_the_waiting_jobs_and_the_job() {
    let mut s = Session::new();
    s.job_height = 16;
    s.queue_fee_job(job("0xf", "0x10"));
    s.queue_dev_job(job("0xd", "0x10"));
    let mut w = worker();
    let step = s.handle_pool_job(&mut w, job("0xa", "0x11"), NO_ROLL);
    assert!(step.actions.is_empty());
    assert_eq!(step.outcome, Outcome::Continue);
    assert_eq!(s.job_height, 17);
    assert!(s.wait_jobs.is_empty() && s.wait_dev_jobs.is_empty());
    assert!(s.sent_jobs.is_empty());
}

#[test]
fn a_stale_job_is_dropped() {
    let mut s = Session::new();
    s.job_height = 20;
    let mut w = worker();
    let step = s.handle_pool_job(&mut w, job("0xa", "0x10"), NO_ROLL);
    assert!(step.actions.is_empty());
    assert_eq!(s.job_height, 20);
    assert_eq!(w.jobs_sent, 1);
}

#[test]
fn a_developer_round_hands_out_the_newest_developer_job() {
    let mut s = Session::new();
    s.job_height = 16;
    s.queue_dev_job(job("0xd1", "0x10"));
    s.queue_dev_job(job("0xd2", "0x10"));
    let mut w = worker();
    let step = s.handle_pool_job(&mut w, job("0xa", "0x10"), DEV_ROLL);
    assert_eq!(step.actions, vec![Action::SendJob(job("0xd2", "0x10"))]);
    assert_eq!(s.dev_fee_jobs, strings(&["0xd2"]));
    assert_eq!(s.wait_dev_jobs.len(), 1);
    assert_eq!(w.dev_jobs_sent, 1);
    // A share on that job goes to the developer account.
    let r = request(12, "eth_submitWork", &["0xnonce", "0xd2", "0xmix"]);
    let step = s.handle_worker_request(&mut w, &config(), Some(r));
    assert!(matches!(&step.actions[0], Action::ShareToDev(share) if share.worker == "dev_account"));
}

#[test]
fn a_fee_round_hands_out_the_newest_fee_job() {
    let mut s = Session::new();
    s.queue_fee_job(job("0xf1", "0x0"));
    let mut w = worker();
    let step = s.handle_pool_job(&mut w, job("0xa", "0x0"), FEE_ROLL);
    assert_eq!(step.actions, vec![Action::SendJob(job("0xf1", "0x0"))]);
    assert_eq!(s.fee_jobs, strings(&["0xf1"]));
    assert_eq!(w.fee_jobs_sent, 1);
    let r = request(13, "eth_submitWork", &["0xnonce", "0xf1", "0xmix"]);
    let step = s.handle_worker_request(&mut w, &config(), Some(r));
    assert!(matches!(&step.actions[0], Action::ShareToFee(share) if share.worker == "fee_account"));
}

#[test]
fn a_round_with_nothing_waiting_hands_out_the_pools_job() {
    let mut s = Session::new();
    let mut w = worker();
    let step = s.handle_pool_job(&mut w, job("0xa", "0x0"), DEV_ROLL);
    assert_eq!(step.actions, vec![Action::SendJob(job("0xa", "0x0"))]);
    assert_eq!(s.sent_jobs, strings(&["0xa"]));
    assert_eq!(w.dev_jobs_sent, 0);
}

#[test]
fn the_fee_round_counts_only_without_a_developer_round() {
    let mut s = Session::new();
    s.queue_fee_job(job("0xf1", "0x0"));
    let mut w = worker();
    let step = s.handle_pool_job(&mut w, job("0xa", "0x0"), FeeRoll { dev: true, fee: true });
    assert_eq!(step.actions, vec![Action::SendJob(job("0xa", "0x0"))]);
    assert_eq!(s.wait_jobs.len(), 1);
}

#[test]
fn a_stale_queued_job_is_dropped_from_its_queue() {
    let mut s = Session::new();
    s.queue_dev_job(job("0xd", "0x5"));
    s.job_height = 9;
    let mut w = worker();
    let step = s.handle_pool_job(&mut w, job("0xa", "0x9"), DEV_ROLL);
    assert!(step.actions.is_empty());
    assert!(s.wait_dev_jobs.is_empty());
    assert!(s.sent_jobs.is_empty());
}

#[test]
fn queueing_a_newer_job_raises_the_height() {
    let mut s = Session::new();
    s.queue_fee_job(job("0xf", "0x10"));
    assert_eq!(s.job_height, 16);
    s.queue_dev_job(job("0xd", "0x20"));
    assert_eq!(s.job_height, 32);
    assert!(s.wait_jobs.is_empty());
    assert_eq!(s.wait_dev_jobs.len(), 1);
    s.queue_fee_job(job("0xg", "0x1"));
    assert_eq!(s.job_height, 32);
    assert_eq!(s.wait_jobs.len(), 1);
}

#[test]
fn a_full_job_counter_fails_the_session() {
    let mut s = Session::new();
    let mut w = worker();
    w.jobs_sent = u64::MAX;
    let step = s.handle_pool_job(&mut w, job("0xa", "0x0"), NO_ROLL);
    assert_eq!(step.outcome, Outcome::Fail(SessionError::CounterOverflow));
    assert!(step.actions.is_empty());
}

#[test]
fn an_empty_job_would_fail() {
    let s = Session::new();
    let w = worker();
    assert!(s.job_fails_on_empty(&w, &Vec::new(), NO_ROLL));
    assert!(!s.job_fails_on_empty(&w, &job("0xa", "0x0"), NO_ROLL));
}

#[test]
fn pool_replies_update_the_counters() {
    let mut s = Session::new();
    let mut w = worker();
    let cfg = config();
    s.handle_pool_message(&mut w, &cfg, PoolMessage::Reply { id: 1001, result: true }, NO_ROLL);
    s.handle_pool_message(&mut w, &cfg, PoolMessage::Reply { id: 1000, result: true }, NO_ROLL);
    s.handle_pool_message(&mut w, &cfg, PoolMessage::Reply { id: 1000, result: false }, NO_ROLL);
    let step = s.handle_pool_message(&mut w, &cfg, PoolMessage::Other, NO_ROLL);
    assert!(step.actions.is_empty());
    assert!(w.online);
    assert_eq!((w.accept_index, w.reject_index), (1, 1));
    let step = s.handle_pool_message(&mut w, &cfg, PoolMessage::Job(job("0xa", "0x0")), NO_ROLL);
    assert_eq!(step.actions, vec![Action::SendJob(job("0xa", "0x0"))]);
}

#[test]
fn requests_leave_the_jobs_alone() {
    let mut s = Session::new();
    s.queue_fee_job(job("0xf", "0x10"));
    s.queue_dev_job(job("0xd", "0x10"));
    s.fee_jobs.push("0xold".to_string());
    let mut w = worker();
    for r in [
        request(1, "eth_submitLogin", &["0xwallet"]),
        request(2, "eth_submitWork", &["0xn", "0xold", "0xm"]),
        request(3, "eth_submitHashrate", &["0x10"]),
        request(4, "eth_getWork", &[]),
    ] {
        s.handle_worker_request(&mut w, &config(), Some(r));
    }
    assert_eq!(s.job_height, 16);
    assert_eq!((s.wait_jobs.len(), s.wait_dev_jobs.len()), (1, 1));
    assert_eq!(s.fee_jobs, strings(&["0xold"]));
    assert!(s.dev_fee_jobs.is_empty() && s.sent_jobs.is_empty());
}

#[test]
fn the_pools_own_jobs_and_queued_jobs_keep_routes() {
    let mut s = Session::new();
    let mut w = worker();
    s.handle_pool_job(&mut w, job("0xa", "0x0"), NO_ROLL);
    s.queue_fee_job(job("0xb", "0x0"));
    assert_eq!(s.route(&"0xa".to_string()), Route::Pool);
    assert_eq!(s.route(&"0xb".to_string()), Route::Pool);
}

#[test]
fn an_interleaving_never_hands_out_a_stale_job() {
    let mut s = Session::new();
    let mut w = worker();
    let cfg = config();
    let mut last_height = 0;
    let events: Vec<(u8, Vec<String>, FeeRoll)> = vec![
        (0, job("0xa", "0x10"), NO_ROLL),
        (1, job("0xd", "0x12"), NO_ROLL),
        (2, job("0xf", "0x11"), NO_ROLL),
        (0, job("0xb", "0x11"), FEE_ROLL),
        (0, job("0xc", "0x12"), DEV_ROLL),
        (0, job("0xe", "0x0"), NO_ROLL),
        (2, job("0xg", "0x13"), NO_ROLL),
        (0, job("0xh", "0x12"), NO_ROLL),
        (0, job("0xi", "0x13"), FEE_ROLL),
    ];
    for (kind, j, roll) in events {
        let sent = match kind {
            0 => s.handle_pool_message(&mut w, &cfg, PoolMessage::Job(j), roll).actions,
            1 => {
                s.queue_dev_job(j);
                Vec::new()
            }
            _ => {
                s.queue_fee_job(j);
                Vec::new()
            }
        };
        assert!(s.job_height >= last_height);
        last_height = s.job_height;
        for a in sent {
            if let Action::SendJob(j) = a {
                let h = job_height(&j);
                assert!(h == 0 || h == s.job_height);
            }
        }
    }
    assert_eq!(s.job_height, 0x13);
}
