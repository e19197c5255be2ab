use srun_client::srun::client::{
    HttpRequest, SRUNClient, SRUNClientCredentials, SRUNClientOptions,
};
use srun_client::srun::error::{ErrorKind, SRUNClientError};
use srun_client::srun::flow::{Attempt, Goal, Outcome, Stage};
use srun_client::srun::reply::HttpReply;

fn client(with_credentials: bool) -> SRUNClient {
    SRUNClient {
        server: String::from("http://portal.example"),
        credentials: if with_credentials {
            Some(SRUNClientCredentials {
                username: String::from("alice"),
                password: String::from("secret"),
            })
        } else {
            None
        },
        options: SRUNClientOptions {
            redirect_host: String::from("http://probe.example/generate_204"),
            interface: None,
        },
    }
}

fn reply(status: u16, body: &str, location: Option<&str>) -> Result<HttpReply, String> {
    Ok(HttpReply { status, body: body.to_string(), location: location.map(String::from) })
}

const STATUS: &str = "jsonp({\"error\":\"ok\",\"online_ip\":\"10.0.0.5\"})";
const CHALLENGE: &str = "jsonp({\"error\":\"ok\",\"challenge\":\"abc123\",\"online_ip\":\"10.0.0.5\",\"client_ip\":\"10.0.0.5\",\"ecode\":0,\"error_msg\":\"\",\"expire\":\"60\",\"res\":\"ok\",\"srun_ver\":\"v\",\"st\":1700000000})";
const LOGIN: &str = "jsonp({\"error\":\"ok\",\"online_ip\":\"10.0.0.5\",\"client_ip\":\"10.0.0.5\",\"error_msg\":\"\",\"res\":\"ok\",\"srun_ver\":\"v\"})";
const LOGOUT: &str = "jsonp({\"error\":\"ok\",\"online_ip\":\"10.0.0.5\",\"client_ip\":\"10.0.0.5\",\"ecode\":0,\"error_msg\":\"\",\"res\":\"ok\",\"srun_ver\":\"v\"})";

/// A portal that answers every request as a working one would.
fn portal(request: &HttpRequest) -> Result<HttpReply, String> {
    let action = request.query.iter().find(|(k, _)| k == "action").map(|(_, v)| v.as_str());
    match (request.path.as_str(), action) {
        ("", _) => reply(200, "<html>portal</html>", None),
        ("/cgi-bin/rad_user_info", _) => reply(200, STATUS, None),
        ("/cgi-bin/get_challenge", _) => reply(200, CHALLENGE, None),
        ("/index_1.html", _) => reply(302, "", Some("/?ac_id=7")),
        ("/cgi-bin/srun_portal", Some("login")) => reply(200, LOGIN, None),
        ("/cgi-bin/srun_portal", Some("logout")) => reply(200, LOGOUT, None),
        _ => reply(404, "", None),
    }
}

/// Runs an attempt against an answering function and tells what was asked.
fn run(
    mut attempt: Attempt,
    answer: &dyn Fn(&HttpRequest) -> Result<HttpReply, String>,
) -> (Option<Result<Outcome, SRUNClientError>>, Vec<String>) {
    let mut asked = Vec::new();
    loop {
        match attempt.next_request() {
            Some(request) => {
                asked.push(request.path.clone());
                attempt = attempt.on_reply(answer(&request));
            }
            None => break,
        }
        assert!(asked.len() < 10);
    }
    (attempt.into_result(), asked)
}

#[test]
fn login_runs_through_all_steps() {
    let (result, asked) = run(Attempt::new(client(true), Goal::Login { probe: false }), &portal);
    assert_eq!(
        asked,
        vec![
            "/cgi-bin/rad_user_info",
            "/cgi-bin/get_challenge",
            "/index_1.html",
            "/cgi-bin/srun_portal"
        ]
    );
    match result {
        Some(Ok(Outcome::Login(r))) => {
            assert!(r.succeeded());
            assert_eq!(r.online_ip, "10.0.0.5");
        }
        other => panic!("unexpected result: {:?}", other),
    }
}

#[test]
fn login_uses_what_the_replies_told() {
    let mut attempt = Attempt::new(client(true), Goal::Login { probe: false });
    assert_eq!(*attempt.stage(), Stage::Idle);
    attempt = attempt.on_reply(reply(200, STATUS, None));
    assert_eq!(*attempt.stage(), Stage::Queried { online_ip: String::from("10.0.0.5") });
    let challenge = attempt.next_request().unwrap();
    assert_eq!(challenge.query[1], (String::from("username"), String::from("alice")));
    assert_eq!(challenge.query[2], (String::from("ip"), String::from("10.0.0.5")));
    attempt = attempt.on_reply(reply(200, CHALLENGE, None));
    assert_eq!(
        *attempt.stage(),
        Stage::Challenged {
            online_ip: String::from("10.0.0.5"),
            challenge: String::from("abc123")
        }
    );
    attempt = attempt.on_reply(reply(302, "", Some("/?ac_id=7")));
    assert_eq!(
        *attempt.stage(),
        Stage::AcIdResolved {
            online_ip: String::from("10.0.0.5"),
            challenge: Some(String::from("abc123")),
            ac_id: String::from("7")
        }
    );
    let login = attempt.next_request().unwrap();
    assert_eq!(
        login,
        client(true)
            .login(&String::from("abc123"), &String::from("10.0.0.5"), &String::from("7"))
            .unwrap()
    );
    assert_eq!(
        login.query[7],
        (String::from("chksum"), String::from("d6bc5a98f580583442aa4f2bf9b8d6d78e902945"))
    );
    attempt = attempt.on_reply(reply(200, LOGIN, None));
    assert!(attempt.is_finished());
    assert!(attempt.next_request().is_none());
}

#[test]
fn login_with_probe_asks_the_redirect_host_first() {
    let (result, asked) = run(Attempt::new(client(true), Goal::Login { probe: true }), &portal);
    assert_eq!(
        asked,
        vec![
            "",
            "/cgi-bin/rad_user_info",
            "/cgi-bin/get_challenge",
            "/index_1.html",
            "/cgi-bin/srun_portal"
        ]
    );
    assert!(matches!(result, Some(Ok(Outcome::Login(_)))));
}

#[test]
fn probe_records_whether_the_user_is_online() {
    let attempt = Attempt::new(client(true), Goal::Login { probe: true });
    let request = attempt.next_request().unwrap();
    assert_eq!(request.base, "http://probe.example/generate_204");
    let online = attempt.on_reply(reply(204, "", None));
    assert_eq!(*online.stage(), Stage::Probed { online: true });
    let attempt = Attempt::new(client(true), Goal::Login { probe: true });
    let held = attempt.on_reply(reply(302, "", Some("http://portal.example")));
    assert_eq!(*held.stage(), Stage::Probed { online: false });
    assert_eq!(held.next_request().unwrap().path, "/cgi-bin/rad_user_info");
}

#[test]
fn status_failure_ends_the_attempt_at_once() {
    let answer = |_: &HttpRequest| reply(500, "", None);
    let (result, asked) = run(Attempt::new(client(true), Goal::Login { probe: false }), &answer);
    assert_eq!(asked, vec!["/cgi-bin/rad_user_info"]);
    match result {
        Some(Err(e)) => {
            assert_eq!(e.kind, ErrorKind::UnexpectedStatus { expected: 200, actual: 500 });
            assert_eq!(e.message, "Server responded with code 500");
        }
        other => panic!("unexpected result: {:?}", other),
    }
}

#[test]
fn query_is_complete_with_the_status() {
    let (result, asked) = run(Attempt::new(client(false), Goal::Query), &portal);
    assert_eq!(asked, vec!["/cgi-bin/rad_user_info"]);
    match result {
        Some(Ok(Outcome::Status(r))) => assert_eq!(r.online_ip, "10.0.0.5"),
        other => panic!("unexpected result: {:?}", other),
    }
}

#[test]
fn logout_skips_the_challenge() {
    let (result, asked) = run(Attempt::new(client(true), Goal::Logout), &portal);
    assert_eq!(asked, vec!["/cgi-bin/rad_user_info", "/index_1.html", "/cgi-bin/srun_portal"]);
    match result {
        Some(Ok(Outcome::Logout(r))) => assert!(r.succeeded()),
        other => panic!("unexpected result: {:?}", other),
    }
}

#[test]
fn login_and_logout_need_credentials_before_anything_is_asked() {
    for goal in [Goal::Login { probe: true }, Goal::Login { probe: false }, Goal::Logout] {
        let (result, asked) = run(Attempt::new(client(false), goal), &portal);
        assert!(asked.is_empty());
        match result {
            Some(Err(e)) => assert_eq!(e.kind, ErrorKind::MissingCredentials),
            other => panic!("unexpected result: {:?}", other),
        }
    }
}

#[test]
fn transport_failure_is_handed_on_as_it_is() {
    let answer = |_: &HttpRequest| Err(String::from("connection refused"));
    let (result, asked) = run(Attempt::new(client(true), Goal::Logout), &answer);
    assert_eq!(asked.len(), 1);
    match result {
        Some(Err(e)) => {
            assert_eq!(e.kind, ErrorKind::Transport);
            assert_eq!(e.message, "connection refused");
        }
        other => panic!("unexpected result: {:?}", other),
    }
}

#[test]
fn every_step_can_fail() {
    let no_challenge = |r: &HttpRequest| {
        if r.path == "/cgi-bin/get_challenge" {
            reply(200, "jsonp({\"error\":\"ok\"})", None)
        } else {
            portal(r)
        }
    };
    let (result, asked) =
        run(Attempt::new(client(true), Goal::Login { probe: false }), &no_challenge);
    assert_eq!(asked.len(), 2);
    match result {
        Some(Err(e)) => assert_eq!(e.kind, ErrorKind::Decode { field: String::from("challenge") }),
        other => panic!("unexpected result: {:?}", other),
    }
    let no_redirect = |r: &HttpRequest| {
        if r.path == "/index_1.html" {
            reply(200, "<html></html>", None)
        } else {
            portal(r)
        }
    };
    let (result, asked) =
        run(Attempt::new(client(true), Goal::Login { probe: false }), &no_redirect);
    assert_eq!(asked.len(), 3);
    match result {
        Some(Err(e)) => {
            assert_eq!(e.kind, ErrorKind::UnexpectedStatus { expected: 302, actual: 200 })
        }
        other => panic!("unexpected result: {:?}", other),
    }
    let no_location = |r: &HttpRequest| {
        if r.path == "/index_1.html" {
            reply(302, "", None)
        } else {
            portal(r)
        }
    };
    let (result, _) = run(Attempt::new(client(true), Goal::Logout), &no_location);
    match result {
        Some(Err(e)) => assert_eq!(e.kind, ErrorKind::MissingLocationHeader),
        other => panic!("unexpected result: {:?}", other),
    }
    let bad_envelope = |r: &HttpRequest| {
        if r.path == "/cgi-bin/srun_portal" {
            reply(200, "{\"error\":\"ok\"}", None)
        } else {
            portal(r)
        }
    };
    let (result, asked) = run(Attempt::new(client(true), Goal::Logout), &bad_envelope);
    assert_eq!(asked.len(), 3);
    match result {
        Some(Err(e)) => assert_eq!(e.kind, ErrorKind::EnvelopeFormat),
        other => panic!("unexpected result: {:?}", other),
    }
}

#[test]
fn a_finished_attempt_takes_no_more_events() {
    let attempt = Attempt::new(client(false), Goal::Query).on_reply(reply(500, "", None));
    assert!(attempt.is_finished());
    let attempt = attempt.on_reply(reply(200, STATUS, None));
    assert!(attempt.next_request().is_none());
    match attempt.into_result() {
        Some(Err(e)) => {
            assert_eq!(e.kind, ErrorKind::UnexpectedStatus { expected: 200, actual: 500 })
        }
        other => panic!("unexpected result: {:?}", other),
    }
}

#[test]
fn a_running_attempt_has_no_result() {
    let attempt = Attempt::new(client(true), Goal::Logout);
    assert_eq!(attempt.goal(), Goal::Logout);
    assert!(!attempt.is_finished());
    assert!(attempt.into_result().is_none());
}
