use srun_client::srun::document::{fits_parser, parse_text, DIGIT_RUN_MESSAGE, MAX_DIGIT_RUN};
use srun_client::srun::error::ErrorKind;
use srun_client::srun::response::{
    is_ok, SRUNChallengeResponse, SRUNLoginResponse, SRUNLogoutResponse, SRUNQueryResponse,
};

fn decode_field(kind: &ErrorKind) -> &str {
    match kind {
        ErrorKind::Decode { field } => field.as_str(),
        other => panic!("no decode error: {:?}", other),
    }
}

#[test]
fn status_of_an_offline_user() {
    let text = "{\"client_ip\":\"10.0.0.5\",\"ecode\":0,\"error\":\"not_online_error\",\"error_msg\":\"\",\"online_ip\":\"10.0.0.5\",\"res\":\"not_online_error\",\"srun_ver\":\"SRunCGIAuthIntfSvr V1.18\",\"st\":1700000000}";
    let r = SRUNQueryResponse::from_string(String::from(text)).unwrap();
    assert_eq!(r.error, "not_online_error");
    assert_eq!(r.online_ip, "10.0.0.5");
    assert_eq!(r.client_ip.as_deref(), Some("10.0.0.5"));
    assert_eq!(r.ecode, Some(0));
    assert_eq!(r.error_msg.as_deref(), Some(""));
    assert_eq!(r.st, Some(1700000000));
    assert_eq!(r.bytes_in, None);
    assert_eq!(r.user_name, None);
    assert!(!r.succeeded());
    assert_eq!(r.to_text(), "Login Status: No\nCurrent IP: 10.0.0.5\n");
}

#[test]
fn status_of_an_online_user() {
    let text = "{\"ServerFlag\":0,\"add_time\":1700000000,\"all_bytes\":123456789012,\"bytes_in\":5,\"bytes_out\":0,\"error\":\"ok\",\"online_device_total\":\"2\",\"online_ip\":\"10.0.0.5\",\"user_name\":\"alice\",\"wallet_balance\":\"0\",\"sum_seconds\":\"3600\"}";
    let r = SRUNQueryResponse::from_string(String::from(text)).unwrap();
    assert!(r.succeeded());
    assert_eq!(r.server_flag, Some(0));
    assert_eq!(r.add_time, Some(1700000000));
    assert_eq!(r.all_bytes, Some(123456789012));
    assert_eq!(r.bytes_in, Some(5));
    assert_eq!(r.bytes_out, Some(0));
    assert_eq!(r.online_device_total.as_deref(), Some("2"));
    assert_eq!(r.user_name.as_deref(), Some("alice"));
    assert_eq!(r.wallet_balance.as_deref(), Some("0"));
    assert_eq!(r.sum_seconds, Some(3600));
    assert_eq!(r.remain_bytes, None);
    assert_eq!(r.to_text(), "Login Status: OK\nCurrent IP: 10.0.0.5\n2 Devices Online\n");
}

#[test]
fn absent_is_not_zero() {
    let r = SRUNQueryResponse::from_string(String::from(
        "{\"error\":\"ok\",\"online_ip\":\"10.0.0.5\",\"bytes_in\":0,\"bytes_out\":null}",
    ))
    .unwrap();
    assert_eq!(r.bytes_in, Some(0));
    assert_eq!(r.bytes_out, None);
    assert_eq!(r.remain_bytes, None);
    assert_eq!(r.client_ip, None);
}

#[test]
fn numbers_may_come_as_numbers_or_as_numeric_strings() {
    let r = SRUNQueryResponse::from_string(String::from(
        "{\"error\":\"ok\",\"online_ip\":\"::1\",\"ecode\":\"17\",\"st\":18,\"bytes_in\":\"x1\",\"bytes_out\":-1,\"sum_bytes\":1.5,\"remain_bytes\":true,\"user_charge\":\"\"}",
    ))
    .unwrap();
    assert_eq!(r.ecode, Some(17));
    assert_eq!(r.st, Some(18));
    assert_eq!(r.bytes_in, None);
    assert_eq!(r.bytes_out, None);
    assert_eq!(r.sum_bytes, None);
    assert_eq!(r.remain_bytes, None);
    assert_eq!(r.user_charge, None);
}

#[test]
fn status_needs_error_and_online_ip() {
    let e = SRUNQueryResponse::from_string(String::from("{\"online_ip\":\"10.0.0.5\"}"))
        .unwrap_err();
    assert_eq!(decode_field(&e.kind), "error");
    assert_eq!(e.message, "Missing or mistyped field error");
    let e = SRUNQueryResponse::from_string(String::from("{\"error\":\"ok\"}")).unwrap_err();
    assert_eq!(decode_field(&e.kind), "online_ip");
    let e = SRUNQueryResponse::from_string(String::from("{\"error\":1,\"online_ip\":\"x\"}"))
        .unwrap_err();
    assert_eq!(decode_field(&e.kind), "error");
    let e = SRUNQueryResponse::from_string(String::from("{}")).unwrap_err();
    assert_eq!(decode_field(&e.kind), "error");
    let e = SRUNQueryResponse::from_string(String::from("[1,2]")).unwrap_err();
    assert_eq!(decode_field(&e.kind), "error");
}

#[test]
fn text_that_is_no_json_is_refused() {
    let e = SRUNQueryResponse::from_string(String::from("{\"error\":")).unwrap_err();
    assert_eq!(e.kind, ErrorKind::MalformedJson);
    assert_eq!(e.message, "Unexpected end of JSON");
    let e = SRUNLoginResponse::from_string(String::from("<html>")).unwrap_err();
    assert_eq!(e.kind, ErrorKind::MalformedJson);
    let e = SRUNChallengeResponse::from_string(String::from("")).unwrap_err();
    assert_eq!(e.kind, ErrorKind::MalformedJson);
    let e = SRUNLogoutResponse::from_string(String::from("nope")).unwrap_err();
    assert_eq!(e.kind, ErrorKind::MalformedJson);
}

fn status_with_fraction(digits: usize) -> String {
    format!(
        "{{\"error\":\"ok\",\"online_ip\":\"10.0.0.5\",\"user_balance\":0.{}}}",
        "0".repeat(digits)
    )
}

#[test]
fn digit_runs_are_measured() {
    assert_eq!(MAX_DIGIT_RUN, 32_000);
    assert!(fits_parser(""));
    assert!(fits_parser("{\"a\":1}"));
    assert!(fits_parser(&"7".repeat(32_000)));
    assert!(!fits_parser(&"7".repeat(32_001)));
    assert!(fits_parser(&format!("{}.{}", "1".repeat(32_000), "2".repeat(32_000))));
    assert!(!fits_parser(&format!("x{}y", "0".repeat(40_000))));
    assert!(!fits_parser(&format!("{} {}", "1".repeat(5), "2".repeat(32_001))));
    assert!(fits_parser(&"\u{663}".repeat(40_000)));
    assert!(fits_parser(&"a".repeat(40_000)));
}

#[test]
fn a_number_too_long_to_parse_is_refused() {
    let e = SRUNQueryResponse::from_string(status_with_fraction(40_000)).unwrap_err();
    assert_eq!(e.kind, ErrorKind::MalformedJson);
    assert_eq!(e.message, DIGIT_RUN_MESSAGE);
    assert_eq!(e.message, "Number with too many digits");
    let e = SRUNChallengeResponse::from_string(status_with_fraction(32_001)).unwrap_err();
    assert_eq!(e.kind, ErrorKind::MalformedJson);
    let e = SRUNLoginResponse::from_string(status_with_fraction(32_769)).unwrap_err();
    assert_eq!(e.message, DIGIT_RUN_MESSAGE);
    let e = SRUNLogoutResponse::from_string(status_with_fraction(32_769)).unwrap_err();
    assert_eq!(e.message, DIGIT_RUN_MESSAGE);
    assert_eq!(parse_text(&status_with_fraction(32_769)).unwrap_err(), DIGIT_RUN_MESSAGE);
}

#[test]
fn the_longest_number_that_is_parsed() {
    let r = SRUNQueryResponse::from_string(status_with_fraction(32_000)).unwrap();
    assert_eq!(r.error, "ok");
    assert_eq!(r.online_ip, "10.0.0.5");
    assert_eq!(r.user_balance, None);
    assert!(parse_text(&status_with_fraction(32_000)).is_ok());
    assert_eq!(parse_text("{\"a\":").unwrap_err(), "Unexpected end of JSON");
}

const CHALLENGE: &str = "{\"challenge\":\"abc123\",\"client_ip\":\"10.0.0.5\",\"ecode\":0,\"error\":\"ok\",\"error_msg\":\"\",\"expire\":\"60\",\"online_ip\":\"10.0.0.5\",\"res\":\"ok\",\"srun_ver\":\"SRunCGIAuthIntfSvr V1.18\",\"st\":1700000000}";

#[test]
fn challenge_is_decoded() {
    let r = SRUNChallengeResponse::from_string(String::from(CHALLENGE)).unwrap();
    assert_eq!(r.challenge, "abc123");
    assert_eq!(r.client_ip, "10.0.0.5");
    assert_eq!(r.ecode, 0);
    assert_eq!(r.error, "ok");
    assert_eq!(r.error_msg, "");
    assert_eq!(r.expire, "60");
    assert_eq!(r.online_ip, "10.0.0.5");
    assert_eq!(r.res, "ok");
    assert_eq!(r.srun_ver, "SRunCGIAuthIntfSvr V1.18");
    assert_eq!(r.st, 1700000000);
    assert!(r.succeeded());
    assert_eq!(r.to_text(), "Current IP: 10.0.0.5\nChallenge: abc123\nExpires in 60 seconds\n");
}

#[test]
fn challenge_names_the_first_missing_member() {
    let e = SRUNChallengeResponse::from_string(String::from("{\"error\":\"ok\"}")).unwrap_err();
    assert_eq!(decode_field(&e.kind), "challenge");
    let e = SRUNChallengeResponse::from_string(String::from(
        "{\"challenge\":\"c\",\"client_ip\":\"i\",\"ecode\":\"E1\",\"error\":\"ok\"}",
    ))
    .unwrap_err();
    assert_eq!(decode_field(&e.kind), "ecode");
    let e = SRUNChallengeResponse::from_string(String::from(
        "{\"challenge\":\"c\",\"client_ip\":\"i\",\"ecode\":\"3\",\"error\":\"ok\",\"error_msg\":\"\",\"expire\":60}",
    ))
    .unwrap_err();
    assert_eq!(decode_field(&e.kind), "expire");
}

const LOGIN: &str = "{\"ServerFlag\":4294967040,\"access_token\":\"tok\",\"checkout_date\":0,\"client_ip\":\"10.0.0.5\",\"ecode\":0,\"error\":\"ok\",\"error_msg\":\"\",\"online_ip\":\"10.0.0.5\",\"ploy_msg\":\"E0000: Login is successful.\",\"real_name\":\"\",\"remain_flux\":0,\"remain_times\":0,\"res\":\"ok\",\"srun_ver\":\"SRunCGIAuthIntfSvr V1.18\",\"suc_msg\":\"login_ok\",\"sysver\":\"1.01\",\"username\":\"alice\",\"wallet_balance\":0}";

#[test]
fn login_result_is_decoded() {
    let r = SRUNLoginResponse::from_string(String::from(LOGIN)).unwrap();
    assert!(r.succeeded());
    assert_eq!(r.online_ip, "10.0.0.5");
    assert_eq!(r.server_flag, Some(4294967040));
    assert_eq!(r.access_token.as_deref(), Some("tok"));
    assert_eq!(r.poly_msg, None);
    assert_eq!(r.suc_msg.as_deref(), Some("login_ok"));
    assert_eq!(r.username.as_deref(), Some("alice"));
    assert_eq!(r.wallet_balance, Some(0));
    assert_eq!(r.st, None);
    assert_eq!(r.to_text(), "Login OK\nCurrent IP: 10.0.0.5\n");
}

#[test]
fn failed_login_shows_the_message() {
    let r = SRUNLoginResponse::from_string(String::from(
        "{\"client_ip\":\"10.0.0.5\",\"ecode\":\"E2901\",\"error\":\"login_error\",\"error_msg\":\"E2901: Password is error.\",\"online_ip\":\"10.0.0.5\",\"res\":\"login_error\",\"srun_ver\":\"v\"}",
    ))
    .unwrap();
    assert!(!r.succeeded());
    assert_eq!(r.ecode, None);
    assert_eq!(r.to_text(), "Login Failed: E2901: Password is error.\nCurrent IP: 10.0.0.5\n");
}

#[test]
fn login_result_names_the_first_missing_member() {
    let e = SRUNLoginResponse::from_string(String::from(
        "{\"error\":\"ok\",\"online_ip\":\"10.0.0.5\"}",
    ))
    .unwrap_err();
    assert_eq!(decode_field(&e.kind), "client_ip");
    let e = SRUNLoginResponse::from_string(String::from(
        "{\"client_ip\":\"10.0.0.5\",\"error\":\"ok\",\"online_ip\":\"10.0.0.5\"}",
    ))
    .unwrap_err();
    assert_eq!(decode_field(&e.kind), "error_msg");
}

#[test]
fn logout_result_is_decoded() {
    let r = SRUNLogoutResponse::from_string(String::from(
        "{\"client_ip\":\"10.0.0.5\",\"ecode\":0,\"error\":\"ok\",\"error_msg\":\"\",\"online_ip\":\"10.0.0.5\",\"res\":\"ok\",\"srun_ver\":\"v\"}",
    ))
    .unwrap();
    assert!(r.succeeded());
    assert_eq!(r.ecode, 0);
    assert_eq!(r.to_text(), "Logout OK\n");
    let r = SRUNLogoutResponse::from_string(String::from(
        "{\"client_ip\":\"10.0.0.5\",\"ecode\":1,\"error\":\"logout_error\",\"error_msg\":\"You are not online.\",\"online_ip\":\"10.0.0.5\",\"res\":\"logout_error\",\"srun_ver\":\"v\"}",
    ))
    .unwrap();
    assert!(!r.succeeded());
    assert_eq!(r.to_text(), "Logout Failed: You are not online.\n");
}

#[test]
fn logout_result_names_the_first_missing_member() {
    let e = SRUNLogoutResponse::from_string(String::from("{\"client_ip\":\"x\",\"error\":\"ok\"}"))
        .unwrap_err();
    assert_eq!(decode_field(&e.kind), "ecode");
}

#[test]
fn from_json_reads_a_parsed_document() {
    let doc = json::parse("{\"error\":\"ok\",\"online_ip\":\"10.0.0.5\"}").unwrap();
    let r = SRUNQueryResponse::from_json(&doc).unwrap();
    assert_eq!(r.online_ip, "10.0.0.5");
}

#[test]
fn records_are_printed_as_json() {
    let r = SRUNLogoutResponse::from_string(String::from(
        "{\"client_ip\":\"10.0.0.5\",\"ecode\":\"7\",\"error\":\"ok\",\"error_msg\":\"say \\\"hi\\\"\",\"online_ip\":\"10.0.0.5\",\"res\":\"ok\",\"srun_ver\":\"v\"}",
    ))
    .unwrap();
    assert_eq!(
        r.to_json(),
        "{\"client_ip\":\"10.0.0.5\",\"ecode\":7,\"error\":\"ok\",\"error_msg\":\"say \\\"hi\\\"\",\"online_ip\":\"10.0.0.5\",\"res\":\"ok\",\"srun_ver\":\"v\"}"
    );
    let c = SRUNChallengeResponse::from_string(String::from(CHALLENGE)).unwrap();
    assert_eq!(c.to_json(), CHALLENGE);
}

#[test]
fn printed_status_has_every_field_and_null_for_the_absent() {
    let r = SRUNQueryResponse::from_string(String::from(
        "{\"error\":\"ok\",\"online_ip\":\"10.0.0.5\",\"ServerFlag\":3,\"bytes_in\":0}",
    ))
    .unwrap();
    assert_eq!(
        r.to_json(),
        "{\"error\":\"ok\",\"online_ip\":\"10.0.0.5\",\"client_ip\":null,\"ecode\":null,\"error_msg\":null,\"res\":null,\"srun_ver\":null,\"st\":null,\"server_flag\":3,\"add_time\":null,\"all_bytes\":null,\"billing_name\":null,\"bytes_in\":0,\"bytes_out\":null,\"checkout_date\":null,\"domain\":null,\"group_id\":null,\"keepalive_time\":null,\"online_device_total\":null,\"online_ip6\":null,\"package_id\":null,\"products_id\":null,\"products_name\":null,\"real_name\":null,\"remain_bytes\":null,\"remain_seconds\":null,\"sum_bytes\":null,\"sum_seconds\":null,\"sysver\":null,\"user_balance\":null,\"user_charge\":null,\"user_mac\":null,\"user_name\":null,\"wallet_balance\":null}"
    );
}

#[test]
fn printed_login_result_has_every_field() {
    let r = SRUNLoginResponse::from_string(String::from(LOGIN)).unwrap();
    assert_eq!(
        r.to_json(),
        "{\"client_ip\":\"10.0.0.5\",\"ecode\":0,\"error\":\"ok\",\"error_msg\":\"\",\"online_ip\":\"10.0.0.5\",\"res\":\"ok\",\"srun_ver\":\"SRunCGIAuthIntfSvr V1.18\",\"st\":null,\"server_flag\":4294967040,\"services_intf_server_ip\":null,\"services_intf_server_port\":null,\"access_token\":\"tok\",\"checkout_date\":0,\"poly_msg\":null,\"real_name\":\"\",\"remain_flux\":0,\"remain_times\":0,\"suc_msg\":\"login_ok\",\"sysver\":\"1.01\",\"username\":\"alice\",\"wallet_balance\":0}"
    );
}

#[test]
fn only_ok_is_success() {
    assert!(is_ok("ok"));
    assert!(!is_ok("OK"));
    assert!(!is_ok("ok "));
    assert!(!is_ok(""));
    assert!(!is_ok("o"));
}
