//! What the proxy reads from the messages of the mining protocol.
//!
//! A job is the `result` array that the pool sends: its first element names
//! the job and its fourth element is the block height, a `0x`-prefixed
//! hexadecimal quantity. A share names the job it solves as the second
//! parameter of `eth_submitWork`; a hash rate report carries the rate as the
//! first parameter of `eth_submitHashrate`.
use vstd::prelude::*;
use crate::hex::{chars_of, format_prefixed_hex, hex_digits, parse_prefixed_hex, prefixed_hex_value};

verus! {

/// A request of the worker, as parsed from one of its lines.
#[derive(Debug, PartialEq)]
pub struct WorkerRequest {
    pub id: u64,
    pub method: String,
    pub params: Vec<String>,
}

/// The requests the proxy tells apart.
#[derive(Debug, Clone, Copy, PartialEq, Eq)]
pub enum Method {
    SubmitLogin,
    SubmitWork,
    SubmitHashrate,
    GetWork,
    Subscribe,
    Unknown,
}

/// The kind of request that the method name `m` asks for.
pub open spec fn method_kind(m: Seq<char>) -> Method {
    if m == "eth_submitLogin"@ {
        Method::SubmitLogin
    } else if m == "eth_submitWork"@ {
        Method::SubmitWork
    } else if m == "eth_submitHashrate"@ {
        Method::SubmitHashrate
    } else if m == "eth_getWork"@ {
        Method::GetWork
    } else if m == "mining.subscribe"@ {
        Method::Subscribe
    } else {
        Method::Unknown
    }
}

/// The block height of a job; 0 when it has none.
pub open spec fn height_of(job: Seq<String>) -> u64 {
    if job.len() > 3 {
        prefixed_hex_value(job[3]@)
    } else {
        0
    }
}

/// The job that a share's parameters name, if they name one.
pub open spec fn share_job_id(params: Seq<String>) -> Option<Seq<char>> {
    if params.len() > 1 {
        Some(params[1]@)
    } else {
        None
    }
}

/// The hash rate that a report's parameters carry; 0 when they carry none.
pub open spec fn reported_rate(params: Seq<String>) -> u64 {
    if params.len() > 0 {
        prefixed_hex_value(params[0]@)
    } else {
        0
    }
}

/// Some element of `ids` reads `id`.
pub open spec fn has_id(ids: Seq<String>, id: Seq<char>) -> bool {
    exists|i: int| 0 <= i < ids.len() && #[trigger] ids[i]@ == id
}

/// Whether two strings hold the same characters.
pub fn str_eq(a: &str, b: &str) -> (r: bool)
    ensures
        r == (a@ == b@),
{
    let x = chars_of(a);
    let y = chars_of(b);
    if x.len() != y.len() {
        return false;
    }
    let n = x.len();
    let mut i: usize = 0;
    while i < n
        invariant
            i <= n,
            n == x@.len(),
            n == y@.len(),
            x@ == a@,
            y@ == b@,
            forall|k: int| 0 <= k < i ==> x@[k] == y@[k],
        decreases n - i,
    {
        if x[i] != y[i] {
            assert(x@[i as int] != y@[i as int]);
            return false;
        }
        i = i + 1;
    }
    assert(x@ =~= y@);
    true
}

/// The kind of request that the method name `m` asks for.
pub fn classify_method(m: &String) -> (k: Method)
    ensures
        k == method_kind(m@),
{
    let s = m.as_str();
    if str_eq(s, "eth_submitLogin") {
        Method::SubmitLogin
    } else if str_eq(s, "eth_submitWork") {
        Method::SubmitWork
    } else if str_eq(s, "eth_submitHashrate") {
        Method::SubmitHashrate
    } else if str_eq(s, "eth_getWork") {
        Method::GetWork
    } else if str_eq(s, "mining.subscribe") {
        Method::Subscribe
    } else {
        Method::Unknown
    }
}

/// The block height of a job; 0 when it has none.
pub fn job_height(job: &Vec<String>) -> (h: u64)
    ensures
        h == height_of(job@),
{
    if job.len() > 3 {
        parse_prefixed_hex(job[3].as_str())
    } else {
        0
    }
}

/// The job that a share's parameters name, if they name one.
pub fn share_job(params: &Vec<String>) -> (id: Option<String>)
    ensures
        id matches Some(x) ==> params@.len() > 1 && x == params@[1],
        id is None <==> share_job_id(params@) is None,
{
    if params.len() > 1 {
        Some(params[1].clone())
    } else {
        None
    }
}

/// The hash rate that a report's parameters carry; 0 when they carry none.
pub fn reported_hashrate(params: &Vec<String>) -> (r: u64)
    ensures
        r == reported_rate(params@),
{
    if params.len() > 0 {
        parse_prefixed_hex(params[0].as_str())
    } else {
        0
    }
}

/// The parameters of a hash rate report that carries `rate`, written as a
/// `0x` quantity: in place of the first parameter, or as the only one when
/// there is none.
pub fn with_reported_rate(params: Vec<String>, rate: u64) -> (p: Vec<String>)
    ensures
        p@.len() == if params@.len() > 0 { params@.len() } else { 1 },
        p@[0]@ == seq!['0', 'x'] + hex_digits(rate as nat),
        p@.subrange(1, p@.len() as int) == params@.subrange(
            if params@.len() > 0 { 1 } else { 0 },
            params@.len() as int,
        ),
{
    let text = format_prefixed_hex(rate);
    let mut p = params;
    if p.len() > 0 {
        p.set(0, text);
    } else {
        p.push(text);
    }
    assert(p@.subrange(1, p@.len() as int) =~= params@.subrange(
        if params@.len() > 0 { 1 } else { 0 },
        params@.len() as int,
    ));
    p
}

/// The worker name that a login gives: its first parameter, if it has one.
pub fn login_name(params: &Vec<String>) -> (name: Option<String>)
    ensures
        name matches Some(x) ==> params@.len() > 0 && x == params@[0],
        name is None <==> params@.len() == 0,
{
    if params.len() > 0 {
        Some(params[0].clone())
    } else {
        None
    }
}

/// Whether some element of `ids` reads `id`.
pub fn contains_id(ids: &Vec<String>, id: &String) -> (r: bool)
    ensures
        r == has_id(ids@, id@),
{
    let n = ids.len();
    let mut i: usize = 0;
    while i < n
        invariant
            i <= n,
            n == ids@.len(),
            forall|k: int| 0 <= k < i ==> ids@[k]@ != id@,
        decreases n - i,
    {
        if ids[i] == *id {
            assert(ids@[i as int]@ == id@);
            return true;
        }
        i = i + 1;
    }
    false
}

} // verus!
