//! The client of one portal: what it asks the portal, request by request.
//!
//! The client sends nothing itself. Each step is a request for a transport to
//! send with GET, without following redirects; the reply is read by the
//! functions of the `reply` module.

use vstd::prelude::*;
use vstd::string::*;
use vstd::utf8::encode_utf8;
use crate::srun::digest::{checksum, checksum_text, password_hash, password_hash_text};
use crate::srun::envelope::{envelope_payload, unwrap_envelope};
use crate::srun::error::{
    envelope_error, missing_credentials_error, result_view, SRUNClientError,
};
use crate::srun::srbx1::{auth_code_text, record_plaintext, RecordView, ENC_VER, SRBX1};

verus! {

/// The name under which every request asks for its reply to be wrapped. The
/// portal answers `name(json)`; the name itself carries no meaning.
pub const CALLBACK: &'static str = "jsonp";

/// Where the portal tells the status of the session.
pub const STATUS_PATH: &'static str = "/cgi-bin/rad_user_info";

/// Where the portal issues challenges.
pub const CHALLENGE_PATH: &'static str = "/cgi-bin/get_challenge";

/// A page that the portal answers with a redirect which names the `ac_id`.
pub const AC_ID_PATH: &'static str = "/index_1.html";

/// Where the portal takes logins and logouts.
pub const PORTAL_PATH: &'static str = "/cgi-bin/srun_portal";

/// The site that is asked, where nothing else is configured, to make a
/// gateway show its portal.
pub const DEFAULT_REDIRECT_HOST: &'static str = "http://www.google.cn/generate_204";

#[derive(Debug, Clone)]
pub struct SRUNClientCredentials {
    pub username: String,
    pub password: String,
}

#[derive(Debug)]
pub struct SRUNClientOptions {
    pub redirect_host: String,
    pub interface: Option<String>,
}

#[derive(Debug)]
pub struct SRUNClient {
    pub server: String,
    pub credentials: Option<SRUNClientCredentials>,
    pub options: SRUNClientOptions,
}

/// The mathematical value of a client.
pub struct ClientView {
    pub server: Seq<char>,
    pub credentials: Option<(Seq<char>, Seq<char>)>,
    pub redirect_host: Seq<char>,
    pub interface: Option<Seq<char>>,
}

impl View for SRUNClient {
    type V = ClientView;

    open spec fn view(&self) -> ClientView {
        ClientView {
            server: self.server@,
            credentials: match self.credentials {
                Some(c) => Some((c.username@, c.password@)),
                None => None,
            },
            redirect_host: self.options.redirect_host@,
            interface: match self.options.interface {
                Some(i) => Some(i@),
                None => None,
            },
        }
    }
}

/// The username of a client's credentials; empty where it has none.
pub open spec fn user_of(client: ClientView) -> Seq<char> {
    match client.credentials {
        Some((username, _)) => username,
        None => Seq::empty(),
    }
}

/// The password of a client's credentials; empty where it has none.
pub open spec fn password_of(client: ClientView) -> Seq<char> {
    match client.credentials {
        Some((_, password)) => password,
        None => Seq::empty(),
    }
}

/// A GET request: the base URL, the path to join to it (none where the base
/// is asked as it stands) and the query parameters, in order.
#[derive(Debug, PartialEq, Eq)]
pub struct HttpRequest {
    pub base: String,
    pub path: String,
    pub query: Vec<(String, String)>,
}

/// The mathematical value of a request.
pub struct RequestView {
    pub base: Seq<char>,
    pub path: Seq<char>,
    pub query: Seq<(Seq<char>, Seq<char>)>,
}

/// The mathematical value of a parameter list: names and values by their
/// views, in order.
#[verifier::opaque]
pub open spec fn pairs_view(pairs: Seq<(String, String)>) -> Seq<(Seq<char>, Seq<char>)> {
    Seq::new(pairs.len(), |i: int| (pairs[i].0@, pairs[i].1@))
}

impl View for HttpRequest {
    type V = RequestView;

    open spec fn view(&self) -> RequestView {
        RequestView { base: self.base@, path: self.path@, query: pairs_view(self.query@) }
    }
}

/// An empty parameter list.
pub fn no_pairs() -> (pairs: Vec<(String, String)>)
    ensures
        pairs_view(pairs@) == Seq::<(Seq<char>, Seq<char>)>::empty(),
{
    let pairs: Vec<(String, String)> = Vec::new();
    proof {
        reveal(pairs_view);
        assert(pairs_view(pairs@) =~= Seq::empty());
    }
    pairs
}

/// Appends a parameter to a parameter list.
pub fn push_pair(pairs: &mut Vec<(String, String)>, name: &str, value: &str)
    ensures
        pairs_view(final(pairs)@) == pairs_view(old(pairs)@).push((name@, value@)),
{
    pairs.push((String::from_str(name), String::from_str(value)));
    proof {
        reveal(pairs_view);
        assert(pairs_view(pairs@) =~= pairs_view(old(pairs)@).push((name@, value@)));
    }
}

/// The request that asks a well-known site for an empty page, to make a
/// gateway show its portal.
pub open spec fn probe_request(client: ClientView) -> RequestView {
    RequestView { base: client.redirect_host, path: Seq::empty(), query: Seq::empty() }
}

/// The request for the status of the session.
pub open spec fn status_request(client: ClientView) -> RequestView {
    RequestView {
        base: client.server,
        path: STATUS_PATH@,
        query: Seq::<(Seq<char>, Seq<char>)>::empty().push(("callback"@, CALLBACK@)),
    }
}

/// The request for a challenge for `username` at address `ip`.
pub open spec fn challenge_request(
    client: ClientView,
    username: Seq<char>,
    ip: Seq<char>,
) -> RequestView {
    RequestView {
        base: client.server,
        path: CHALLENGE_PATH@,
        query: Seq::<(Seq<char>, Seq<char>)>::empty().push(("callback"@, CALLBACK@)).push(
            ("username"@, username),
        ).push(("ip"@, ip)),
    }
}

/// The request whose redirect names the `ac_id`.
pub open spec fn ac_id_request(client: ClientView) -> RequestView {
    RequestView { base: client.server, path: AC_ID_PATH@, query: Seq::empty() }
}

/// The value of the `info` parameter of a login: the encoded login record.
pub open spec fn login_info(
    username: Seq<char>,
    password: Seq<char>,
    challenge: Seq<char>,
    ip: Seq<char>,
    ac_id: Seq<char>,
) -> Seq<char> {
    auth_code_text(
        record_plaintext(
            RecordView { username, password, ip, acid: ac_id, enc_ver: ENC_VER@ },
        ),
        encode_utf8(challenge),
    )
}

/// The login request: the fixed parameters in their fixed order, the
/// password as `{MD5}` and its keyed hash, the encoded record as `info`, and
/// the checksum over the fields.
pub open spec fn login_request(
    client: ClientView,
    username: Seq<char>,
    password: Seq<char>,
    challenge: Seq<char>,
    ip: Seq<char>,
    ac_id: Seq<char>,
) -> RequestView {
    let hmac = password_hash_text(password, challenge);
    let info = login_info(username, password, challenge, ip, ac_id);
    RequestView {
        base: client.server,
        path: PORTAL_PATH@,
        query: Seq::<(Seq<char>, Seq<char>)>::empty().push(("callback"@, CALLBACK@)).push(
            ("action"@, "login"@),
        ).push(("username"@, username)).push(("password"@, "{MD5}"@ + hmac)).push(
            ("os"@, "Windows 10"@),
        ).push(("name"@, "Windows"@)).push(("double_stack"@, "0"@)).push(
            ("chksum"@, checksum_text(challenge, username, hmac, ac_id, ip, info)),
        ).push(("info"@, info)).push(("ac_id"@, ac_id)).push(("ip"@, ip)).push(
            ("n"@, "200"@),
        ).push(("type"@, "1"@)),
    }
}

/// The logout request.
pub open spec fn logout_request(
    client: ClientView,
    username: Seq<char>,
    ip: Seq<char>,
    ac_id: Seq<char>,
) -> RequestView {
    RequestView {
        base: client.server,
        path: PORTAL_PATH@,
        query: Seq::<(Seq<char>, Seq<char>)>::empty().push(("callback"@, CALLBACK@)).push(
            ("action"@, "logout"@),
        ).push(("username"@, username)).push(("ac_id"@, ac_id)).push(("ip"@, ip)),
    }
}

impl SRUNClient {
    /// The request for the status of the session.
    pub fn query(&self) -> (request: HttpRequest)
        ensures
            request@ == status_request(self@),
    {
        let mut query = no_pairs();
        push_pair(&mut query, "callback", CALLBACK);
        HttpRequest { base: self.server.clone(), path: String::from_str(STATUS_PATH), query }
    }

    /// The request that makes a gateway show its portal. A transport that
    /// sends it hands the reply to `probe_online`.
    pub fn access_redirect_host(&self) -> (request: HttpRequest)
        ensures
            request@ == probe_request(self@),
    {
        HttpRequest {
            base: self.options.redirect_host.clone(),
            path: String::new(),
            query: no_pairs(),
        }
    }

    /// The request for a challenge for the client's user at address `ip`.
    /// A client without credentials has no user to ask for.
    pub fn get_challenge(&self, ip: &String) -> (res: Result<HttpRequest, SRUNClientError>)
        ensures
            result_view(res) == match self@.credentials {
                Some((username, _)) => Ok(challenge_request(self@, username, ip@)),
                None => Err(missing_credentials_error()),
            },
    {
        match &self.credentials {
            Some(credentials) => {
                let mut query = no_pairs();
                push_pair(&mut query, "callback", CALLBACK);
                push_pair(&mut query, "username", credentials.username.as_str());
                push_pair(&mut query, "ip", ip.as_str());
                Ok(
                    HttpRequest {
                        base: self.server.clone(),
                        path: String::from_str(CHALLENGE_PATH),
                        query,
                    },
                )
            },
            None => Err(SRUNClientError::missing_credentials()),
        }
    }

    /// The request whose redirect names the `ac_id`.
    pub fn get_ac_id(&self) -> (request: HttpRequest)
        ensures
            request@ == ac_id_request(self@),
    {
        HttpRequest {
            base: self.server.clone(),
            path: String::from_str(AC_ID_PATH),
            query: no_pairs(),
        }
    }

    /// The login request for the client's user under `challenge`, at address
    /// `ip` and access controller `ac_id`. A client without credentials
    /// cannot log in.
    pub fn login(&self, challenge: &String, ip: &String, ac_id: &String) -> (res: Result<
        HttpRequest,
        SRUNClientError,
    >)
        ensures
            result_view(res) == match self@.credentials {
                Some((username, password)) => Ok(
                    login_request(self@, username, password, challenge@, ip@, ac_id@),
                ),
                None => Err(missing_credentials_error()),
            },
    {
        match &self.credentials {
            Some(credentials) => {
                let username = credentials.username.as_str();
                let password = credentials.password.as_str();
                let hmac = password_hash(password, challenge.as_str());
                let record = SRBX1::new(username, password, ip.as_str(), ac_id.as_str());
                let info = record.calculate_auth_code(challenge.as_str());
                let sum = checksum(
                    challenge.as_str(),
                    username,
                    hmac.as_str(),
                    ac_id.as_str(),
                    ip.as_str(),
                    info.as_str(),
                );
                let mut tagged = String::from_str("{MD5}");
                tagged.append(hmac.as_str());
                let mut query = no_pairs();
                push_pair(&mut query, "callback", CALLBACK);
                push_pair(&mut query, "action", "login");
                push_pair(&mut query, "username", username);
                push_pair(&mut query, "password", tagged.as_str());
                push_pair(&mut query, "os", "Windows 10");
                push_pair(&mut query, "name", "Windows");
                push_pair(&mut query, "double_stack", "0");
                push_pair(&mut query, "chksum", sum.as_str());
                push_pair(&mut query, "info", info.as_str());
                push_pair(&mut query, "ac_id", ac_id.as_str());
                push_pair(&mut query, "ip", ip.as_str());
                push_pair(&mut query, "n", "200");
                push_pair(&mut query, "type", "1");
                Ok(
                    HttpRequest {
                        base: self.server.clone(),
                        path: String::from_str(PORTAL_PATH),
                        query,
                    },
                )
            },
            None => Err(SRUNClientError::missing_credentials()),
        }
    }

    /// The logout request for the client's user at address `ip` and access
    /// controller `ac_id`. A client without credentials has no user to log
    /// out.
    pub fn logout(&self, ip: &String, ac_id: &String) -> (res: Result<
        HttpRequest,
        SRUNClientError,
    >)
        ensures
            result_view(res) == match self@.credentials {
                Some((username, _)) => Ok(logout_request(self@, username, ip@, ac_id@)),
                None => Err(missing_credentials_error()),
            },
    {
        match &self.credentials {
            Some(credentials) => {
                let mut query = no_pairs();
                push_pair(&mut query, "callback", CALLBACK);
                push_pair(&mut query, "action", "logout");
                push_pair(&mut query, "username", credentials.username.as_str());
                push_pair(&mut query, "ac_id", ac_id.as_str());
                push_pair(&mut query, "ip", ip.as_str());
                Ok(
                    HttpRequest {
                        base: self.server.clone(),
                        path: String::from_str(PORTAL_PATH),
                        query,
                    },
                )
            },
            None => Err(SRUNClientError::missing_credentials()),
        }
    }

    /// Takes the JSON text out of a reply body of the form `name(json)`.
    pub fn extract_jsonp(s: String) -> (res: Result<String, SRUNClientError>)
        ensures
            result_view(res) == match envelope_payload(s@) {
                Some(payload) => Ok(payload),
                None => Err(envelope_error(s@)),
            },
    {
        unwrap_envelope(s.as_str())
    }

    /// The keyed hash of the password under the challenge, in lowercase
    /// hexadecimal.
    pub fn calculate_password_hash(password: &String, challenge: &String) -> (hash: String)
        ensures
            hash@ == password_hash_text(password@, challenge@),
            crate::srun::digest::is_lower_hex_of_len(hash@, 32),
    {
        password_hash(password.as_str(), challenge.as_str())
    }

    /// The checksum of a login request over its fields; `i` is the value of
    /// the `info` parameter.
    pub fn generate_checksum(
        challenge: &String,
        username: &String,
        hmac: &String,
        ac_id: &String,
        ip: &String,
        i: &String,
    ) -> (sum: String)
        ensures
            sum@ == checksum_text(challenge@, username@, hmac@, ac_id@, ip@, i@),
            crate::srun::digest::is_lower_hex_of_len(sum@, 40),
    {
        checksum(
            challenge.as_str(),
            username.as_str(),
            hmac.as_str(),
            ac_id.as_str(),
            ip.as_str(),
            i.as_str(),
        )
    }
}

} // verus!
