use proxy_core::protocol::{
    classify_method, contains_id, job_height, login_name, reported_hashrate, share_job, str_eq,
    with_reported_rate, Method,
};

fn strings(v: &[&str]) -> Vec<String> {
    v.iter().map(|s| s.to_string()).collect()
}

#[test]
fn tells_the_methods_apart() {
    assert_eq!(classify_method(&"eth_submitLogin".to_string()), Method::SubmitLogin);
    assert_eq!(classify_method(&"eth_submitWork".to_string()), Method::SubmitWork);
    assert_eq!(classify_method(&"eth_submitHashrate".to_string()), Method::SubmitHashrate);
    assert_eq!(classify_method(&"eth_getWork".to_string()), Method::GetWork);
    assert_eq!(classify_method(&"mining.subscribe".to_string()), Method::Subscribe);
    assert_eq!(classify_method(&"eth_submitwork".to_string()), Method::Unknown);
    assert_eq!(classify_method(&String::new()), Method::Unknown);
}

#[test]
fn a_job_height_is_its_fourth_element() {
    assert_eq!(job_height(&strings(&["0xaa", "0xbb", "0xcc", "0x100"])), 256);
    assert_eq!(job_height(&strings(&["0xaa", "0xbb", "0xcc"])), 0);
    assert_eq!(job_height(&strings(&["0xaa", "0xbb", "0xcc", "256"])), 0);
}

#[test]
fn a_share_names_its_job_second() {
    assert_eq!(share_job(&strings(&["0x01", "0xjob", "0xmix"])), Some("0xjob".to_string()));
    assert_eq!(share_job(&strings(&["0x01"])), None);
}

#[test]
fn a_rate_report_carries_the_rate_first() {
    assert_eq!(reported_hashrate(&strings(&["0x1dcd6500", "0xid"])), 500_000_000);
    assert_eq!(reported_hashrate(&Vec::new()), 0);
}

#[test]
fn finds_ids_by_their_text() {
    let ids = strings(&["0xa", "0xb"]);
    assert!(contains_id(&ids, &"0xb".to_string()));
    assert!(!contains_id(&ids, &"0xc".to_string()));
    assert!(str_eq("abc", "abc"));
    assert!(!str_eq("abc", "abd"));
    assert!(!str_eq("abc", "ab"));
}

#[test]
fn a_rate_report_gets_the_rate_first() {
    assert_eq!(with_reported_rate(strings(&["0x41a", "0xid"]), 525), strings(&["0x20d", "0xid"]));
    assert_eq!(with_reported_rate(Vec::new(), 0), strings(&["0x0"]));
}

#[test]
fn a_login_names_the_worker_first() {
    assert_eq!(login_name(&strings(&["0xwallet.rig", "x"])), Some("0xwallet.rig".to_string()));
    assert_eq!(login_name(&Vec::new()), None);
}
