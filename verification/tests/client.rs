use srun_client::config::{output_format, AppConfig, OutputFormat};
use srun_client::srun::client::{
    HttpRequest, SRUNClient, SRUNClientCredentials, SRUNClientOptions,
};
use srun_client::srun::error::ErrorKind;
use srun_client::srun::interface::{pick_local_address, InterfaceAddress};
use srun_client::srun::reply::{
    ac_id_from_reply, extract_ac_id, payload_of, probe_online, HttpReply,
};
use srun_client::srun::response::{SRUNLoginResponse, SRUNQueryResponse};

fn client(with_credentials: bool) -> SRUNClient {
    SRUNClient {
        server: String::from("http://portal.example"),
        credentials: if with_credentials {
            Some(SRUNClientCredentials {
                username: String::from("alice"),
                password: String::from("secret"),
            })
        } else {
            None
        },
        options: SRUNClientOptions {
            redirect_host: String::from("http://probe.example/generate_204"),
            interface: None,
        },
    }
}

fn pairs(list: &[(&str, &str)]) -> Vec<(String, String)> {
    list.iter().map(|(k, v)| (k.to_string(), v.to_string())).collect()
}

fn reply(status: u16, body: &str, location: Option<&str>) -> HttpReply {
    HttpReply { status, body: body.to_string(), location: location.map(String::from) }
}

#[test]
fn status_request_asks_the_status_path() {
    assert_eq!(
        client(false).query(),
        HttpRequest {
            base: String::from("http://portal.example"),
            path: String::from("/cgi-bin/rad_user_info"),
            query: pairs(&[("callback", "jsonp")]),
        }
    );
}

#[test]
fn probe_request_asks_the_redirect_host_as_it_stands() {
    assert_eq!(
        client(false).access_redirect_host(),
        HttpRequest {
            base: String::from("http://probe.example/generate_204"),
            path: String::new(),
            query: vec![],
        }
    );
}

#[test]
fn challenge_request_names_user_and_address() {
    assert_eq!(
        client(true).get_challenge(&String::from("10.0.0.5")).unwrap(),
        HttpRequest {
            base: String::from("http://portal.example"),
            path: String::from("/cgi-bin/get_challenge"),
            query: pairs(&[("callback", "jsonp"), ("username", "alice"), ("ip", "10.0.0.5")]),
        }
    );
}

#[test]
fn ac_id_request_asks_the_redirecting_page() {
    assert_eq!(
        client(false).get_ac_id(),
        HttpRequest {
            base: String::from("http://portal.example"),
            path: String::from("/index_1.html"),
            query: vec![],
        }
    );
}

#[test]
fn login_request_has_the_parameters_in_order() {
    let request = client(true)
        .login(&String::from("abc123"), &String::from("10.0.0.5"), &String::from("7"))
        .unwrap();
    assert_eq!(request.base, "http://portal.example");
    assert_eq!(request.path, "/cgi-bin/srun_portal");
    assert_eq!(
        request.query,
        pairs(&[
            ("callback", "jsonp"),
            ("action", "login"),
            ("username", "alice"),
            ("password", "{MD5}3e3254223c487f2376871b226cc26bdf"),
            ("os", "Windows 10"),
            ("name", "Windows"),
            ("double_stack", "0"),
            ("chksum", "d6bc5a98f580583442aa4f2bf9b8d6d78e902945"),
            (
                "info",
                "{SRBX1}Anxp/MtrZH3f2/cHiORzznJUhQZpCLKigk+TmfJHi+Oi9OdEc8vY172/Rj0s6MjCVL2Aub8HErIKVyoAA6eXxzzVaWmSZ1Ef5fb1umXjIMSsKWamasciVtjlMC+="
            ),
            ("ac_id", "7"),
            ("ip", "10.0.0.5"),
            ("n", "200"),
            ("type", "1"),
        ])
    );
}

#[test]
fn logout_request_has_the_parameters_in_order() {
    assert_eq!(
        client(true).logout(&String::from("10.0.0.5"), &String::from("7")).unwrap(),
        HttpRequest {
            base: String::from("http://portal.example"),
            path: String::from("/cgi-bin/srun_portal"),
            query: pairs(&[
                ("callback", "jsonp"),
                ("action", "logout"),
                ("username", "alice"),
                ("ac_id", "7"),
                ("ip", "10.0.0.5"),
            ]),
        }
    );
}

#[test]
fn requests_of_a_user_need_credentials() {
    let ip = String::from("10.0.0.5");
    let id = String::from("7");
    let e = client(false).get_challenge(&ip).unwrap_err();
    assert_eq!(e.kind, ErrorKind::MissingCredentials);
    assert_eq!(e.message, "Username and password must be provided");
    assert_eq!(
        client(false).login(&String::from("c"), &ip, &id).unwrap_err().kind,
        ErrorKind::MissingCredentials
    );
    assert_eq!(client(false).logout(&ip, &id).unwrap_err().kind, ErrorKind::MissingCredentials);
}

#[test]
fn client_digests_match_the_digest_functions() {
    assert_eq!(
        SRUNClient::calculate_password_hash(&String::from("secret"), &String::from("abc123")),
        "3e3254223c487f2376871b226cc26bdf"
    );
    assert_eq!(
        SRUNClient::generate_checksum(
            &String::from("abc123"),
            &String::from("alice"),
            &String::from("3e3254223c487f2376871b226cc26bdf"),
            &String::from("7"),
            &String::from("10.0.0.5"),
            &String::from("{SRBX1}Anxp/MtrZH3f2/cHiORzznJUhQZpCLKigk+TmfJHi+Oi9OdEc8vY172/Rj0s6MjCVL2Aub8HErIKVyoAA6eXxzzVaWmSZ1Ef5fb1umXjIMSsKWamasciVtjlMC+="),
        ),
        "d6bc5a98f580583442aa4f2bf9b8d6d78e902945"
    );
}

#[test]
fn ac_id_is_found_in_the_location() {
    assert_eq!(extract_ac_id("https://host/?ac_id=5&theme=basic").unwrap(), "5");
    assert_eq!(extract_ac_id("/srun_portal_pc?ac_id=12345").unwrap(), "12345");
    assert_eq!(extract_ac_id("/?ac_id=7").unwrap(), "7");
    assert_eq!(extract_ac_id("/?x=1&ac_id=x&ac_id=42x").unwrap(), "42");
}

#[test]
fn ac_id_is_the_digits_behind_the_first_marker_with_a_digit() {
    assert_eq!(extract_ac_id("ac_id=ac_id=5").unwrap(), "5");
    assert_eq!(extract_ac_id("/?ac_id=007&ac_id=9").unwrap(), "007");
    assert_eq!(extract_ac_id("/?ac_id=&ac_id=-1&ac_id=31415926535897932384626433x8").unwrap(),
        "31415926535897932384626433");
    assert_eq!(extract_ac_id("ac_id=0").unwrap(), "0");
    assert_eq!(extract_ac_id("AC_ID=1&ac_id =2&ac-id=3").unwrap_err().kind,
        ErrorKind::AcIdPatternNotFound);
    assert_eq!(extract_ac_id("/?ac_id=1\u{e9}").unwrap(), "1");
}

#[test]
fn ac_id_in_a_location_that_is_not_ascii() {
    assert_eq!(extract_ac_id("/caf\u{e9}?ac_id=5").unwrap(), "5");
    assert_eq!(extract_ac_id("/caf\u{e9}?id=5").unwrap_err().kind, ErrorKind::AcIdPatternNotFound);
    assert_eq!(
        extract_ac_id("/\u{4f60}\u{597d}/ac_id/=12").unwrap_err().kind,
        ErrorKind::AcIdPatternNotFound
    );
}

#[test]
fn location_without_ac_id_is_refused() {
    let e = extract_ac_id("https://host/?theme=basic").unwrap_err();
    assert_eq!(e.kind, ErrorKind::AcIdPatternNotFound);
    assert_eq!(e.message, "Redirect location names no ac_id");
    assert_eq!(extract_ac_id("/?ac_id=").unwrap_err().kind, ErrorKind::AcIdPatternNotFound);
    assert_eq!(extract_ac_id("").unwrap_err().kind, ErrorKind::AcIdPatternNotFound);
}

#[test]
fn ac_id_reply_must_be_a_redirect_with_a_location() {
    assert_eq!(ac_id_from_reply(&reply(302, "", Some("/?ac_id=7"))).unwrap(), "7");
    let e = ac_id_from_reply(&reply(200, "", Some("/?ac_id=7"))).unwrap_err();
    assert_eq!(e.kind, ErrorKind::UnexpectedStatus { expected: 302, actual: 200 });
    assert_eq!(e.message, "Server responded with code 200");
    let e = ac_id_from_reply(&reply(302, "", None)).unwrap_err();
    assert_eq!(e.kind, ErrorKind::MissingLocationHeader);
    assert_eq!(e.message, "Redirect reply has no Location header");
    let e = ac_id_from_reply(&reply(302, "", Some("/login"))).unwrap_err();
    assert_eq!(e.kind, ErrorKind::AcIdPatternNotFound);
}

#[test]
fn payload_needs_the_required_status() {
    assert_eq!(payload_of(&reply(200, "cb({})", None), 200).unwrap(), "{}");
    let e = payload_of(&reply(500, "cb({})", None), 200).unwrap_err();
    assert_eq!(e.kind, ErrorKind::UnexpectedStatus { expected: 200, actual: 500 });
    assert_eq!(e.message, "Server responded with code 500");
    let e = payload_of(&reply(200, "oops", None), 200).unwrap_err();
    assert_eq!(e.kind, ErrorKind::EnvelopeFormat);
}

#[test]
fn records_are_read_from_replies() {
    let r = SRUNQueryResponse::from_reply(&reply(
        200,
        "jsonp({\"error\":\"ok\",\"online_ip\":\"10.0.0.5\"})",
        None,
    ))
    .unwrap();
    assert_eq!(r.online_ip, "10.0.0.5");
    let e = SRUNQueryResponse::from_reply(&reply(404, "jsonp({})", None)).unwrap_err();
    assert_eq!(e.kind, ErrorKind::UnexpectedStatus { expected: 200, actual: 404 });
    let e = SRUNLoginResponse::from_reply(&reply(200, "jsonp({)", None)).unwrap_err();
    assert_eq!(e.kind, ErrorKind::MalformedJson);
    let e = SRUNLoginResponse::from_reply(&reply(200, "jsonp({})", None)).unwrap_err();
    assert_eq!(e.kind, ErrorKind::Decode { field: String::from("client_ip") });
}

#[test]
fn only_204_tells_that_the_user_is_online() {
    assert!(probe_online(&reply(204, "", None)));
    assert!(!probe_online(&reply(200, "", None)));
    assert!(!probe_online(&reply(302, "", Some("/"))));
}

fn address(name: &str, is_ipv4: bool) -> InterfaceAddress {
    InterfaceAddress { name: name.to_string(), is_ipv4 }
}

#[test]
fn the_first_ipv4_address_of_the_interface_is_chosen() {
    let list = vec![
        address("lo", true),
        address("eth0", false),
        address("eth0", true),
        address("eth0", true),
        address("wlan0", true),
    ];
    assert_eq!(pick_local_address(&list, "eth0").unwrap(), 2);
    assert_eq!(pick_local_address(&list, "lo").unwrap(), 0);
    assert_eq!(pick_local_address(&list, "wlan0").unwrap(), 4);
}

#[test]
fn without_ipv4_the_first_address_of_the_interface_is_chosen() {
    let list = vec![address("lo", true), address("eth0", false), address("eth0", false)];
    assert_eq!(pick_local_address(&list, "eth0").unwrap(), 1);
}

#[test]
fn an_interface_without_address_is_an_error() {
    let list = vec![address("lo", true)];
    let e = pick_local_address(&list, "eth0").unwrap_err();
    assert_eq!(e.kind, ErrorKind::Transport);
    assert_eq!(e.message, "Interface eth0 not found");
    assert_eq!(pick_local_address(&vec![], "lo").unwrap_err().kind, ErrorKind::Transport);
}

#[test]
fn a_new_configuration_is_empty() {
    let c = AppConfig::new();
    assert_eq!(c.username, None);
    assert_eq!(c.password, None);
    assert_eq!(c.server, None);
    assert!(!c.redirect);
    assert_eq!(c.redirect_host, None);
    assert_eq!(c.interface, None);
    assert_eq!(c.output, OutputFormat::Plain);
    assert_eq!(c.command, None);
}

#[test]
fn configuration_is_read_from_json() {
    let c = AppConfig::from_text(
        "{\"username\":\"alice\",\"password\":\"secret\",\"server\":\"http://portal.example\",\"redirect\":true,\"redirect_host\":\"http://probe.example\",\"interface\":\"eth0\",\"output\":\"json\",\"command\":\"login\"}",
    )
    .unwrap();
    assert_eq!(c.username.as_deref(), Some("alice"));
    assert_eq!(c.password.as_deref(), Some("secret"));
    assert_eq!(c.server.as_deref(), Some("http://portal.example"));
    assert!(c.redirect);
    assert_eq!(c.redirect_host.as_deref(), Some("http://probe.example"));
    assert_eq!(c.interface.as_deref(), Some("eth0"));
    assert_eq!(c.output, OutputFormat::Json);
    assert_eq!(c.command, None);
}

#[test]
fn configuration_with_a_number_too_long_to_parse_is_refused() {
    let text = format!("{{\"server\":\"http://10.0.0.1\",\"n\":0.{}}}", "0".repeat(33_000));
    let e = AppConfig::from_text(&text).unwrap_err();
    assert_eq!(e.kind, ErrorKind::MalformedJson);
    assert_eq!(e.message, "Number with too many digits");
}

#[test]
fn configuration_members_are_optional() {
    let c = AppConfig::from_text("{\"server\":\"http://portal.example\",\"redirect\":\"yes\",\"output\":\"JSON\",\"username\":5}").unwrap();
    assert_eq!(c.username, None);
    assert_eq!(c.server.as_deref(), Some("http://portal.example"));
    assert!(!c.redirect);
    assert_eq!(c.output, OutputFormat::Plain);
    let e = AppConfig::from_text("server = x").unwrap_err();
    assert_eq!(e.kind, ErrorKind::MalformedJson);
}

#[test]
fn output_format_is_chosen_by_name() {
    assert_eq!(output_format(Some("json")), OutputFormat::Json);
    assert_eq!(output_format(Some("plain")), OutputFormat::Plain);
    assert_eq!(output_format(Some("Json")), OutputFormat::Plain);
    assert_eq!(output_format(None), OutputFormat::Plain);
}

#[test]
fn client_of_a_configuration() {
    let mut c = AppConfig::new();
    c.server = Some(String::from("http://portal.example"));
    c.username = Some(String::from("alice"));
    let client = SRUNClient::from_app_config(&c);
    assert_eq!(client.server, "http://portal.example");
    assert!(client.credentials.is_none());
    assert_eq!(client.options.redirect_host, "http://www.google.cn/generate_204");
    assert_eq!(client.options.interface, None);
    c.password = Some(String::from("secret"));
    c.redirect_host = Some(String::from("http://probe.example"));
    c.interface = Some(String::from("eth0"));
    let client = SRUNClient::from_app_config(&c);
    let credentials = client.credentials.unwrap();
    assert_eq!(credentials.username, "alice");
    assert_eq!(credentials.password, "secret");
    assert_eq!(client.options.redirect_host, "http://probe.example");
    assert_eq!(client.options.interface.as_deref(), Some("eth0"));
}
