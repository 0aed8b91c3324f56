use netparams::Error;
use netparams::FixedInfo;
use netparams::adapters_info;
use netparams::chars_to_string;
use netparams::params::flag_enabled;
use netparams::params::params_from_info;
use netparams::query::ERROR_BUFFER_OVERFLOW;
use netparams::query::ERROR_CALL_NOT_IMPLEMENTED;
use netparams::query::NO_ERROR;
use netparams::query::QueryAction;
use netparams::query::QueryReply;
use netparams::query::after_first_call;
use netparams::query::after_retry_call;

fn info_with(
    host_name: &[u8],
    routing: u32,
    proxy: u32,
    dns: u32,
    primary_dns: &[u8],
    more_dns: &[&[u8]],
) -> FixedInfo {
    FixedInfo {
        host_name: host_name.to_vec(),
        enable_routing: routing,
        enable_proxy: proxy,
        enable_dns: dns,
        primary_dns: primary_dns.to_vec(),
        more_dns: more_dns.iter().map(|a| a.to_vec()).collect(),
    }
}

fn reply(status: u32, required_len: u32, info: FixedInfo) -> QueryReply {
    QueryReply { status, required_len, info }
}

#[test]
fn network_params() {
    let first = reply(
        NO_ERROR,
        640,
        info_with(b"host\0\0\0", 1, 0, 1, b"8.8.8.8\0", &[b"1.1.1.1\0"]),
    );
    let retry = reply(NO_ERROR, 640, info_with(b"\0", 0, 0, 0, b"\0", &[]));
    println!("{:?}", netparams::network_params(&first, &retry));
}

#[test]
fn flags_true_only_on_exactly_one() {
    let cases: [(u32, bool); 4] = [(0, false), (1, true), (2, false), (255, false)];
    for (value, expected) in cases {
        assert_eq!(flag_enabled(value), expected);
        let p = params_from_info(&info_with(b"h\0", value, value, value, b"\0", &[]));
        assert_eq!(p.routing, expected);
        assert_eq!(p.proxy, expected);
        assert_eq!(p.dns, expected);
    }
}

#[test]
fn decode_stops_at_first_null() {
    assert_eq!(chars_to_string(&[72, 73, 0, 0, 0]), "HI");
}

#[test]
fn decode_all_zero_is_empty() {
    assert_eq!(chars_to_string(&[0, 0, 0, 0]), "");
}

#[test]
fn decode_without_terminator_takes_whole_buffer() {
    assert_eq!(chars_to_string(&[65, 66, 67]), "ABC");
}

#[test]
fn decode_replaces_invalid_bytes() {
    assert_eq!(chars_to_string(&[0xFF, 72, 0]), "\u{FFFD}H");
}

#[test]
fn overflow_leads_to_one_retry_sized_to_reported_length() {
    let required: u32 = 4242;
    let mut follow_up_calls: u32 = 0;
    match after_first_call(ERROR_BUFFER_OVERFLOW, required) {
        QueryAction::Parse => panic!("overflow reply must lead to a retry"),
        QueryAction::Retry { buflen } => {
            assert_eq!(buflen, required);
            // the protocol offers no further action after this reply
            follow_up_calls += 1;
            let _ = after_retry_call(NO_ERROR, &info_with(b"h\0", 0, 0, 0, b"\0", &[]));
        }
    }
    assert_eq!(follow_up_calls, 1);
    assert_eq!(after_first_call(NO_ERROR, required), QueryAction::Parse);
}

#[test]
fn failed_retry_returns_raw_status() {
    let r = after_retry_call(1450, &info_with(b"h\0", 1, 1, 1, b"\0", &[]));
    let e = r.expect_err("a failed follow-up call must not yield a record");
    assert_eq!(e.code, 1450);
    assert_eq!(e.message(), "operating system API error");
}

#[test]
fn failed_retry_fails_the_whole_query() {
    let first = reply(ERROR_BUFFER_OVERFLOW, 640, info_with(b"\0", 0, 0, 0, b"\0", &[]));
    let retry = reply(87, 640, info_with(b"h\0", 1, 1, 1, b"8.8.8.8\0", &[]));
    let e = netparams::network_params(&first, &retry).expect_err("retry status 87 must fail");
    assert_eq!(e.code, 87);
    assert_eq!(e.message(), "operating system API error");
}

#[test]
fn successful_retry_parses_second_buffer() {
    let first = reply(ERROR_BUFFER_OVERFLOW, 640, info_with(b"\0", 0, 0, 0, b"\0", &[]));
    let retry = reply(
        NO_ERROR,
        640,
        info_with(b"box\0", 0, 1, 0, b"9.9.9.9\0", &[]),
    );
    let p = netparams::network_params(&first, &retry).expect("successful retry must yield a record");
    assert_eq!(p.host_name, "box");
    assert!(!p.routing);
    assert!(p.proxy);
    assert!(!p.dns);
    assert_eq!(p.dns_servers, vec!["9.9.9.9".to_string()]);
}

#[test]
fn non_overflow_first_status_parses_first_buffer() {
    let first = reply(31, 640, info_with(b"pc\0", 1, 0, 0, b"4.4.4.4\0", &[]));
    let retry = reply(NO_ERROR, 640, info_with(b"\0", 0, 0, 0, b"\0", &[]));
    let p = netparams::network_params(&first, &retry)
        .expect("a first status other than overflow is parsed, not retried");
    assert_eq!(p.host_name, "pc");
    assert_eq!(p.dns_servers, vec!["4.4.4.4".to_string()]);
}

#[test]
fn adapters_info_signals_not_implemented() {
    let r = adapters_info();
    let e = r.expect_err("adapter enumeration must not return a record");
    assert_eq!(e.message(), "not implemented");
    assert_eq!(e.code, ERROR_CALL_NOT_IMPLEMENTED);
}

#[test]
fn success_lists_at_least_one_dns_server() {
    let p = params_from_info(&info_with(b"h\0", 0, 0, 0, b"\0", &[]));
    assert_eq!(p.dns_servers.len(), 1);
    assert_eq!(p.dns_servers[0], "");
}

#[test]
fn end_to_end_mocked_query() {
    let first = reply(
        NO_ERROR,
        640,
        info_with(b"host\0\0\0", 1, 0, 1, b"8.8.8.8\0", &[b"1.1.1.1\0"]),
    );
    let retry = reply(NO_ERROR, 640, info_with(b"\0", 0, 0, 0, b"\0", &[]));
    let p = netparams::network_params(&first, &retry).expect("mocked query must succeed");
    assert_eq!(p.host_name, "host");
    assert!(p.routing);
    assert!(!p.proxy);
    assert!(p.dns);
    assert_eq!(
        p.dns_servers,
        vec!["8.8.8.8".to_string(), "1.1.1.1".to_string()]
    );
}

#[test]
fn error_keeps_reason_and_code() {
    let e = Error { reason: "operating system API error".to_string(), code: 111 };
    assert_eq!(e.message(), "operating system API error");
    assert_eq!(e.code, 111);
}

#[test]
fn default_record_is_empty() {
    let d = netparams::NetworkParams::default();
    assert_eq!(d.host_name, "");
    assert!(d.dns_servers.is_empty());
    assert!(!d.routing && !d.proxy && !d.dns);
}
