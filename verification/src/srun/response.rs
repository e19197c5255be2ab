//! The four records that the portal answers with, their decoding from JSON and
//! their printing.
//!
//! A field that the portal may leave out is an `Option`: an absent member is
//! never read as zero or as the empty string. A numeric member may come as a
//! JSON number or as a numeric string.

use vstd::prelude::*;
use vstd::string::*;
use crate::srun::document::{
    document_in, json_object_text, no_members, number_field, number_member, number_or_null,
    opt_number_member, opt_text, opt_text_member, parse_text, push_member, read_number,
    read_text, stringify_members, text_field, text_member, text_or_null, MemberView,
};
use crate::srun::error::{
    decode_error, malformed_json_error, result_view, ErrorView, SRUNClientError,
};
use crate::srun::text::chars_of;

verus! {

/// Tells whether a text is the portal's mark of success, `ok`.
pub fn is_ok(error: &str) -> (b: bool)
    ensures
        b == (error@ == "ok"@),
{
    proof {
        reveal_strlit("ok");
    }
    let chars = chars_of(error);
    let b = chars.len() == 2 && chars[0] == 'o' && chars[1] == 'k';
    proof {
        if b {
            assert(error@ =~= "ok"@);
        }
    }
    b
}

/// Reads a mandatory string member.
pub fn require_text(doc: &::json::JsonValue, key: &str) -> (res: Result<String, SRUNClientError>)
    ensures
        result_view(res) == match text_field(*doc, key@) {
            Some(s) => Ok(s),
            None => Err(decode_error(key@)),
        },
{
    match read_text(doc, key) {
        Some(s) => Ok(s),
        None => Err(SRUNClientError::decode(key)),
    }
}

/// Reads a mandatory numeric member, given as a JSON number or as a numeric
/// string.
pub fn require_number(doc: &::json::JsonValue, key: &str) -> (res: Result<u64, SRUNClientError>)
    ensures
        res matches Ok(n) ==> number_field(*doc, key@) == Some(n),
        res matches Err(e) ==> number_field(*doc, key@) is None && e@ == decode_error(key@),
{
    match read_number(doc, key) {
        Some(n) => Ok(n),
        None => Err(SRUNClientError::decode(key)),
    }
}


/// The status of the session: who is online from which address, and the usage
/// accounting that the portal adds for a user who is.
#[derive(Debug, PartialEq, Eq)]
pub struct SRUNQueryResponse {
    pub error: String,
    pub online_ip: String,
    pub client_ip: Option<String>,
    pub ecode: Option<u64>,
    pub error_msg: Option<String>,
    pub res: Option<String>,
    pub srun_ver: Option<String>,
    pub st: Option<u64>,
    pub server_flag: Option<u64>,
    pub add_time: Option<u64>,
    pub all_bytes: Option<u64>,
    pub billing_name: Option<String>,
    pub bytes_in: Option<u64>,
    pub bytes_out: Option<u64>,
    pub checkout_date: Option<u64>,
    pub domain: Option<String>,
    pub group_id: Option<String>,
    pub keepalive_time: Option<u64>,
    pub online_device_total: Option<String>,
    pub online_ip6: Option<String>,
    pub package_id: Option<String>,
    pub products_id: Option<String>,
    pub products_name: Option<String>,
    pub real_name: Option<String>,
    pub remain_bytes: Option<u64>,
    pub remain_seconds: Option<u64>,
    pub sum_bytes: Option<u64>,
    pub sum_seconds: Option<u64>,
    pub sysver: Option<String>,
    pub user_balance: Option<u64>,
    pub user_charge: Option<u64>,
    pub user_mac: Option<String>,
    pub user_name: Option<String>,
    pub wallet_balance: Option<String>,
}

/// The mathematical value of a `SRUNQueryResponse`.
pub struct QueryView {
    pub error: Seq<char>,
    pub online_ip: Seq<char>,
    pub client_ip: Option<Seq<char>>,
    pub ecode: Option<u64>,
    pub error_msg: Option<Seq<char>>,
    pub res: Option<Seq<char>>,
    pub srun_ver: Option<Seq<char>>,
    pub st: Option<u64>,
    pub server_flag: Option<u64>,
    pub add_time: Option<u64>,
    pub all_bytes: Option<u64>,
    pub billing_name: Option<Seq<char>>,
    pub bytes_in: Option<u64>,
    pub bytes_out: Option<u64>,
    pub checkout_date: Option<u64>,
    pub domain: Option<Seq<char>>,
    pub group_id: Option<Seq<char>>,
    pub keepalive_time: Option<u64>,
    pub online_device_total: Option<Seq<char>>,
    pub online_ip6: Option<Seq<char>>,
    pub package_id: Option<Seq<char>>,
    pub products_id: Option<Seq<char>>,
    pub products_name: Option<Seq<char>>,
    pub real_name: Option<Seq<char>>,
    pub remain_bytes: Option<u64>,
    pub remain_seconds: Option<u64>,
    pub sum_bytes: Option<u64>,
    pub sum_seconds: Option<u64>,
    pub sysver: Option<Seq<char>>,
    pub user_balance: Option<u64>,
    pub user_charge: Option<u64>,
    pub user_mac: Option<Seq<char>>,
    pub user_name: Option<Seq<char>>,
    pub wallet_balance: Option<Seq<char>>,
}

impl View for SRUNQueryResponse {
    type V = QueryView;

    open spec fn view(&self) -> QueryView {
        QueryView {
            error: self.error@,
            online_ip: self.online_ip@,
            client_ip: opt_text(self.client_ip),
            ecode: self.ecode,
            error_msg: opt_text(self.error_msg),
            res: opt_text(self.res),
            srun_ver: opt_text(self.srun_ver),
            st: self.st,
            server_flag: self.server_flag,
            add_time: self.add_time,
            all_bytes: self.all_bytes,
            billing_name: opt_text(self.billing_name),
            bytes_in: self.bytes_in,
            bytes_out: self.bytes_out,
            checkout_date: self.checkout_date,
            domain: opt_text(self.domain),
            group_id: opt_text(self.group_id),
            keepalive_time: self.keepalive_time,
            online_device_total: opt_text(self.online_device_total),
            online_ip6: opt_text(self.online_ip6),
            package_id: opt_text(self.package_id),
            products_id: opt_text(self.products_id),
            products_name: opt_text(self.products_name),
            real_name: opt_text(self.real_name),
            remain_bytes: self.remain_bytes,
            remain_seconds: self.remain_seconds,
            sum_bytes: self.sum_bytes,
            sum_seconds: self.sum_seconds,
            sysver: opt_text(self.sysver),
            user_balance: self.user_balance,
            user_charge: self.user_charge,
            user_mac: opt_text(self.user_mac),
            user_name: opt_text(self.user_name),
            wallet_balance: opt_text(self.wallet_balance),
        }
    }
}

impl SRUNQueryResponse {
    /// The first mandatory member that a document lacks, or holds with the
    /// wrong type, in the order of the fields.
    pub open spec fn missing_member(doc: ::json::JsonValue) -> Option<Seq<char>> {
        if text_field(doc, "error"@) is None {
            Some("error"@)
        } else if text_field(doc, "online_ip"@) is None {
            Some("online_ip"@)
        } else {
            None
        }
    }

    /// What the members of a document give for each field. A member that is
    /// missing, `null` or of another type leaves an optional field absent.
    pub open spec fn decoded(doc: ::json::JsonValue) -> QueryView {
        QueryView {
            error: text_field(doc, "error"@)->0,
            online_ip: text_field(doc, "online_ip"@)->0,
            client_ip: text_field(doc, "client_ip"@),
            ecode: number_field(doc, "ecode"@),
            error_msg: text_field(doc, "error_msg"@),
            res: text_field(doc, "res"@),
            srun_ver: text_field(doc, "srun_ver"@),
            st: number_field(doc, "st"@),
            server_flag: number_field(doc, "ServerFlag"@),
            add_time: number_field(doc, "add_time"@),
            all_bytes: number_field(doc, "all_bytes"@),
            billing_name: text_field(doc, "billing_name"@),
            bytes_in: number_field(doc, "bytes_in"@),
            bytes_out: number_field(doc, "bytes_out"@),
            checkout_date: number_field(doc, "checkout_date"@),
            domain: text_field(doc, "domain"@),
            group_id: text_field(doc, "group_id"@),
            keepalive_time: number_field(doc, "keepalive_time"@),
            online_device_total: text_field(doc, "online_device_total"@),
            online_ip6: text_field(doc, "online_ip6"@),
            package_id: text_field(doc, "package_id"@),
            products_id: text_field(doc, "products_id"@),
            products_name: text_field(doc, "products_name"@),
            real_name: text_field(doc, "real_name"@),
            remain_bytes: number_field(doc, "remain_bytes"@),
            remain_seconds: number_field(doc, "remain_seconds"@),
            sum_bytes: number_field(doc, "sum_bytes"@),
            sum_seconds: number_field(doc, "sum_seconds"@),
            sysver: text_field(doc, "sysver"@),
            user_balance: number_field(doc, "user_balance"@),
            user_charge: number_field(doc, "user_charge"@),
            user_mac: text_field(doc, "user_mac"@),
            user_name: text_field(doc, "user_name"@),
            wallet_balance: text_field(doc, "wallet_balance"@),
        }
    }

    /// The decoding of a document: the fields, or the decode error that names
    /// the first mandatory member that is missing.
    pub open spec fn decoding(doc: ::json::JsonValue) -> Result<QueryView, ErrorView> {
        match Self::missing_member(doc) {
            Some(field) => Err(decode_error(field)),
            None => Ok(Self::decoded(doc)),
        }
    }

    /// The decoding of a JSON text: that of its document, or the error of a
    /// text that is no JSON or is kept from the parser.
    pub open spec fn parsing(text: Seq<char>) -> Result<QueryView, ErrorView> {
        match document_in(text) {
            Ok(doc) => Self::decoding(doc),
            Err(message) => Err(malformed_json_error(message)),
        }
    }

    /// Decodes a status reply from a parsed document.
    pub fn from_json(doc: &::json::JsonValue) -> (res: Result<SRUNQueryResponse, SRUNClientError>)
        ensures
            result_view(res) == Self::decoding(*doc),
    {
        let error = require_text(doc, "error")?;
        let online_ip = require_text(doc, "online_ip")?;
        let client_ip = read_text(doc, "client_ip");
        let ecode = read_number(doc, "ecode");
        let error_msg = read_text(doc, "error_msg");
        let res = read_text(doc, "res");
        let srun_ver = read_text(doc, "srun_ver");
        let st = read_number(doc, "st");
        let server_flag = read_number(doc, "ServerFlag");
        let add_time = read_number(doc, "add_time");
        let all_bytes = read_number(doc, "all_bytes");
        let billing_name = read_text(doc, "billing_name");
        let bytes_in = read_number(doc, "bytes_in");
        let bytes_out = read_number(doc, "bytes_out");
        let checkout_date = read_number(doc, "checkout_date");
        let domain = read_text(doc, "domain");
        let group_id = read_text(doc, "group_id");
        let keepalive_time = read_number(doc, "keepalive_time");
        let online_device_total = read_text(doc, "online_device_total");
        let online_ip6 = read_text(doc, "online_ip6");
        let package_id = read_text(doc, "package_id");
        let products_id = read_text(doc, "products_id");
        let products_name = read_text(doc, "products_name");
        let real_name = read_text(doc, "real_name");
        let remain_bytes = read_number(doc, "remain_bytes");
        let remain_seconds = read_number(doc, "remain_seconds");
        let sum_bytes = read_number(doc, "sum_bytes");
        let sum_seconds = read_number(doc, "sum_seconds");
        let sysver = read_text(doc, "sysver");
        let user_balance = read_number(doc, "user_balance");
        let user_charge = read_number(doc, "user_charge");
        let user_mac = read_text(doc, "user_mac");
        let user_name = read_text(doc, "user_name");
        let wallet_balance = read_text(doc, "wallet_balance");
        Ok(SRUNQueryResponse {
            error,
            online_ip,
            client_ip,
            ecode,
            error_msg,
            res,
            srun_ver,
            st,
            server_flag,
            add_time,
            all_bytes,
            billing_name,
            bytes_in,
            bytes_out,
            checkout_date,
            domain,
            group_id,
            keepalive_time,
            online_device_total,
            online_ip6,
            package_id,
            products_id,
            products_name,
            real_name,
            remain_bytes,
            remain_seconds,
            sum_bytes,
            sum_seconds,
            sysver,
            user_balance,
            user_charge,
            user_mac,
            user_name,
            wallet_balance,
        })
    }

    /// Decodes a status reply from JSON text.
    pub fn from_string(s: String) -> (res: Result<SRUNQueryResponse, SRUNClientError>)
        ensures
            result_view(res) == Self::parsing(s@),
    {
        match parse_text(s.as_str()) {
            Ok(doc) => Self::from_json(&doc),
            Err(message) => Err(SRUNClientError::malformed_json(message)),
        }
    }

    /// The members of the JSON object that the record is printed as: every
    /// field under its own name, an absent one as `null`.
    pub open spec fn members(v: QueryView) -> Seq<(Seq<char>, MemberView)> {
        Seq::<(Seq<char>, MemberView)>::empty()
            .push(("error"@, MemberView::Text(v.error)))
            .push(("online_ip"@, MemberView::Text(v.online_ip)))
            .push(("client_ip"@, text_or_null(v.client_ip)))
            .push(("ecode"@, number_or_null(v.ecode)))
            .push(("error_msg"@, text_or_null(v.error_msg)))
            .push(("res"@, text_or_null(v.res)))
            .push(("srun_ver"@, text_or_null(v.srun_ver)))
            .push(("st"@, number_or_null(v.st)))
            .push(("server_flag"@, number_or_null(v.server_flag)))
            .push(("add_time"@, number_or_null(v.add_time)))
            .push(("all_bytes"@, number_or_null(v.all_bytes)))
            .push(("billing_name"@, text_or_null(v.billing_name)))
            .push(("bytes_in"@, number_or_null(v.bytes_in)))
            .push(("bytes_out"@, number_or_null(v.bytes_out)))
            .push(("checkout_date"@, number_or_null(v.checkout_date)))
            .push(("domain"@, text_or_null(v.domain)))
            .push(("group_id"@, text_or_null(v.group_id)))
            .push(("keepalive_time"@, number_or_null(v.keepalive_time)))
            .push(("online_device_total"@, text_or_null(v.online_device_total)))
            .push(("online_ip6"@, text_or_null(v.online_ip6)))
            .push(("package_id"@, text_or_null(v.package_id)))
            .push(("products_id"@, text_or_null(v.products_id)))
            .push(("products_name"@, text_or_null(v.products_name)))
            .push(("real_name"@, text_or_null(v.real_name)))
            .push(("remain_bytes"@, number_or_null(v.remain_bytes)))
            .push(("remain_seconds"@, number_or_null(v.remain_seconds)))
            .push(("sum_bytes"@, number_or_null(v.sum_bytes)))
            .push(("sum_seconds"@, number_or_null(v.sum_seconds)))
            .push(("sysver"@, text_or_null(v.sysver)))
            .push(("user_balance"@, number_or_null(v.user_balance)))
            .push(("user_charge"@, number_or_null(v.user_charge)))
            .push(("user_mac"@, text_or_null(v.user_mac)))
            .push(("user_name"@, text_or_null(v.user_name)))
            .push(("wallet_balance"@, text_or_null(v.wallet_balance)))
    }

    /// Prints the record as a JSON object.
    pub fn to_json(&self) -> (text: String)
        ensures
            text@ == json_object_text(Self::members(self@)),
    {
        let mut members = no_members();
        push_member(&mut members, "error", text_member(&self.error));
        push_member(&mut members, "online_ip", text_member(&self.online_ip));
        push_member(&mut members, "client_ip", opt_text_member(&self.client_ip));
        push_member(&mut members, "ecode", opt_number_member(&self.ecode));
        push_member(&mut members, "error_msg", opt_text_member(&self.error_msg));
        push_member(&mut members, "res", opt_text_member(&self.res));
        push_member(&mut members, "srun_ver", opt_text_member(&self.srun_ver));
        push_member(&mut members, "st", opt_number_member(&self.st));
        push_member(&mut members, "server_flag", opt_number_member(&self.server_flag));
        push_member(&mut members, "add_time", opt_number_member(&self.add_time));
        push_member(&mut members, "all_bytes", opt_number_member(&self.all_bytes));
        push_member(&mut members, "billing_name", opt_text_member(&self.billing_name));
        push_member(&mut members, "bytes_in", opt_number_member(&self.bytes_in));
        push_member(&mut members, "bytes_out", opt_number_member(&self.bytes_out));
        push_member(&mut members, "checkout_date", opt_number_member(&self.checkout_date));
        push_member(&mut members, "domain", opt_text_member(&self.domain));
        push_member(&mut members, "group_id", opt_text_member(&self.group_id));
        push_member(&mut members, "keepalive_time", opt_number_member(&self.keepalive_time));
        push_member(&mut members, "online_device_total", opt_text_member(&self.online_device_total));
        push_member(&mut members, "online_ip6", opt_text_member(&self.online_ip6));
        push_member(&mut members, "package_id", opt_text_member(&self.package_id));
        push_member(&mut members, "products_id", opt_text_member(&self.products_id));
        push_member(&mut members, "products_name", opt_text_member(&self.products_name));
        push_member(&mut members, "real_name", opt_text_member(&self.real_name));
        push_member(&mut members, "remain_bytes", opt_number_member(&self.remain_bytes));
        push_member(&mut members, "remain_seconds", opt_number_member(&self.remain_seconds));
        push_member(&mut members, "sum_bytes", opt_number_member(&self.sum_bytes));
        push_member(&mut members, "sum_seconds", opt_number_member(&self.sum_seconds));
        push_member(&mut members, "sysver", opt_text_member(&self.sysver));
        push_member(&mut members, "user_balance", opt_number_member(&self.user_balance));
        push_member(&mut members, "user_charge", opt_number_member(&self.user_charge));
        push_member(&mut members, "user_mac", opt_text_member(&self.user_mac));
        push_member(&mut members, "user_name", opt_text_member(&self.user_name));
        push_member(&mut members, "wallet_balance", opt_text_member(&self.wallet_balance));
        stringify_members(&members)
    }

    /// Whether the portal reports success: its `error` member is `ok`.
    pub fn succeeded(&self) -> (b: bool)
        ensures
            b == (self@.error == "ok"@),
    {
        is_ok(self.error.as_str())
    }

    /// The text that the status is shown as: whether the user is online, the
    /// address, and the number of devices where the portal gives it.
    pub open spec fn text_of(v: QueryView) -> Seq<char> {
        (if v.error == "ok"@ {
            "Login Status: OK\n"@
        } else {
            "Login Status: No\n"@
        }) + "Current IP: "@ + v.online_ip + "\n"@ + (match v.online_device_total {
            Some(count) => count + " Devices Online\n"@,
            None => Seq::empty(),
        })
    }

    /// Writes the status as text for a person to read.
    pub fn to_text(&self) -> (text: String)
        ensures
            text@ == Self::text_of(self@),
    {
        let mut text = if self.succeeded() {
            String::from_str("Login Status: OK\n")
        } else {
            String::from_str("Login Status: No\n")
        };
        text.append("Current IP: ");
        text.append(self.online_ip.as_str());
        text.append("\n");
        match &self.online_device_total {
            Some(count) => {
                text.append(count.as_str());
                text.append(" Devices Online\n");
                assert(text@ =~= Self::text_of(self@));
            },
            None => {
                assert(text@ =~= Self::text_of(self@));
            },
        }
        text
    }
}

/// The challenge for one login: the token, its lifetime and the address that
/// the portal sees.
#[derive(Debug, PartialEq, Eq)]
pub struct SRUNChallengeResponse {
    pub challenge: String,
    pub client_ip: String,
    pub ecode: u64,
    pub error: String,
    pub error_msg: String,
    pub expire: String,
    pub online_ip: String,
    pub res: String,
    pub srun_ver: String,
    pub st: u64,
}

/// The mathematical value of a `SRUNChallengeResponse`.
pub struct ChallengeView {
    pub challenge: Seq<char>,
    pub client_ip: Seq<char>,
    pub ecode: u64,
    pub error: Seq<char>,
    pub error_msg: Seq<char>,
    pub expire: Seq<char>,
    pub online_ip: Seq<char>,
    pub res: Seq<char>,
    pub srun_ver: Seq<char>,
    pub st: u64,
}

impl View for SRUNChallengeResponse {
    type V = ChallengeView;

    open spec fn view(&self) -> ChallengeView {
        ChallengeView {
            challenge: self.challenge@,
            client_ip: self.client_ip@,
            ecode: self.ecode,
            error: self.error@,
            error_msg: self.error_msg@,
            expire: self.expire@,
            online_ip: self.online_ip@,
            res: self.res@,
            srun_ver: self.srun_ver@,
            st: self.st,
        }
    }
}

impl SRUNChallengeResponse {
    /// The first mandatory member that a document lacks, or holds with the
    /// wrong type, in the order of the fields.
    pub open spec fn missing_member(doc: ::json::JsonValue) -> Option<Seq<char>> {
        if text_field(doc, "challenge"@) is None {
            Some("challenge"@)
        } else if text_field(doc, "client_ip"@) is None {
            Some("client_ip"@)
        } else if number_field(doc, "ecode"@) is None {
            Some("ecode"@)
        } else if text_field(doc, "error"@) is None {
            Some("error"@)
        } else if text_field(doc, "error_msg"@) is None {
            Some("error_msg"@)
        } else if text_field(doc, "expire"@) is None {
            Some("expire"@)
        } else if text_field(doc, "online_ip"@) is None {
            Some("online_ip"@)
        } else if text_field(doc, "res"@) is None {
            Some("res"@)
        } else if text_field(doc, "srun_ver"@) is None {
            Some("srun_ver"@)
        } else if number_field(doc, "st"@) is None {
            Some("st"@)
        } else {
            None
        }
    }

    /// What the members of a document give for each field. A member that is
    /// missing, `null` or of another type leaves an optional field absent.
    pub open spec fn decoded(doc: ::json::JsonValue) -> ChallengeView {
        ChallengeView {
            challenge: text_field(doc, "challenge"@)->0,
            client_ip: text_field(doc, "client_ip"@)->0,
            ecode: number_field(doc, "ecode"@)->0,
            error: text_field(doc, "error"@)->0,
            error_msg: text_field(doc, "error_msg"@)->0,
            expire: text_field(doc, "expire"@)->0,
            online_ip: text_field(doc, "online_ip"@)->0,
            res: text_field(doc, "res"@)->0,
            srun_ver: text_field(doc, "srun_ver"@)->0,
            st: number_field(doc, "st"@)->0,
        }
    }

    /// The decoding of a document: the fields, or the decode error that names
    /// the first mandatory member that is missing.
    pub open spec fn decoding(doc: ::json::JsonValue) -> Result<ChallengeView, ErrorView> {
        match Self::missing_member(doc) {
            Some(field) => Err(decode_error(field)),
            None => Ok(Self::decoded(doc)),
        }
    }

    /// The decoding of a JSON text: that of its document, or the error of a
    /// text that is no JSON or is kept from the parser.
    pub open spec fn parsing(text: Seq<char>) -> Result<ChallengeView, ErrorView> {
        match document_in(text) {
            Ok(doc) => Self::decoding(doc),
            Err(message) => Err(malformed_json_error(message)),
        }
    }

    /// Decodes a challenge reply from a parsed document.
    pub fn from_json(doc: &::json::JsonValue) -> (res: Result<SRUNChallengeResponse, SRUNClientError>)
        ensures
            result_view(res) == Self::decoding(*doc),
    {
        let challenge = require_text(doc, "challenge")?;
        let client_ip = require_text(doc, "client_ip")?;
        let ecode = require_number(doc, "ecode")?;
        let error = require_text(doc, "error")?;
        let error_msg = require_text(doc, "error_msg")?;
        let expire = require_text(doc, "expire")?;
        let online_ip = require_text(doc, "online_ip")?;
        let res = require_text(doc, "res")?;
        let srun_ver = require_text(doc, "srun_ver")?;
        let st = require_number(doc, "st")?;
        Ok(SRUNChallengeResponse {
            challenge,
            client_ip,
            ecode,
            error,
            error_msg,
            expire,
            online_ip,
            res,
            srun_ver,
            st,
        })
    }

    /// Decodes a challenge reply from JSON text.
    pub fn from_string(s: String) -> (res: Result<SRUNChallengeResponse, SRUNClientError>)
        ensures
            result_view(res) == Self::parsing(s@),
    {
        match parse_text(s.as_str()) {
            Ok(doc) => Self::from_json(&doc),
            Err(message) => Err(SRUNClientError::malformed_json(message)),
        }
    }

    /// The members of the JSON object that the record is printed as: every
    /// field under its own name, an absent one as `null`.
    pub open spec fn members(v: ChallengeView) -> Seq<(Seq<char>, MemberView)> {
        Seq::<(Seq<char>, MemberView)>::empty()
            .push(("challenge"@, MemberView::Text(v.challenge)))
            .push(("client_ip"@, MemberView::Text(v.client_ip)))
            .push(("ecode"@, MemberView::Number(v.ecode)))
            .push(("error"@, MemberView::Text(v.error)))
            .push(("error_msg"@, MemberView::Text(v.error_msg)))
            .push(("expire"@, MemberView::Text(v.expire)))
            .push(("online_ip"@, MemberView::Text(v.online_ip)))
            .push(("res"@, MemberView::Text(v.res)))
            .push(("srun_ver"@, MemberView::Text(v.srun_ver)))
            .push(("st"@, MemberView::Number(v.st)))
    }

    /// Prints the record as a JSON object.
    pub fn to_json(&self) -> (text: String)
        ensures
            text@ == json_object_text(Self::members(self@)),
    {
        let mut members = no_members();
        push_member(&mut members, "challenge", text_member(&self.challenge));
        push_member(&mut members, "client_ip", text_member(&self.client_ip));
        push_member(&mut members, "ecode", number_member(self.ecode));
        push_member(&mut members, "error", text_member(&self.error));
        push_member(&mut members, "error_msg", text_member(&self.error_msg));
        push_member(&mut members, "expire", text_member(&self.expire));
        push_member(&mut members, "online_ip", text_member(&self.online_ip));
        push_member(&mut members, "res", text_member(&self.res));
        push_member(&mut members, "srun_ver", text_member(&self.srun_ver));
        push_member(&mut members, "st", number_member(self.st));
        stringify_members(&members)
    }

    /// Whether the portal reports success: its `error` member is `ok`.
    pub fn succeeded(&self) -> (b: bool)
        ensures
            b == (self@.error == "ok"@),
    {
        is_ok(self.error.as_str())
    }

    /// The text that the challenge is shown as.
    pub open spec fn text_of(v: ChallengeView) -> Seq<char> {
        "Current IP: "@ + v.online_ip + "\n"@ + "Challenge: "@ + v.challenge + "\n"@
            + "Expires in "@ + v.expire + " seconds\n"@
    }

    /// Writes the challenge as text for a person to read.
    pub fn to_text(&self) -> (text: String)
        ensures
            text@ == Self::text_of(self@),
    {
        let mut text = String::from_str("Current IP: ");
        text.append(self.online_ip.as_str());
        text.append("\n");
        text.append("Challenge: ");
        text.append(self.challenge.as_str());
        text.append("\n");
        text.append("Expires in ");
        text.append(self.expire.as_str());
        text.append(" seconds\n");
        assert(text@ =~= Self::text_of(self@));
        text
    }
}

/// The outcome of a login.
#[derive(Debug, PartialEq, Eq)]
pub struct SRUNLoginResponse {
    pub client_ip: String,
    pub ecode: Option<u64>,
    pub error: String,
    pub error_msg: String,
    pub online_ip: String,
    pub res: String,
    pub srun_ver: String,
    pub st: Option<u64>,
    pub server_flag: Option<u64>,
    pub services_intf_server_ip: Option<String>,
    pub services_intf_server_port: Option<String>,
    pub access_token: Option<String>,
    pub checkout_date: Option<u64>,
    pub poly_msg: Option<String>,
    pub real_name: Option<String>,
    pub remain_flux: Option<u64>,
    pub remain_times: Option<u64>,
    pub suc_msg: Option<String>,
    pub sysver: Option<String>,
    pub username: Option<String>,
    pub wallet_balance: Option<u64>,
}

/// The mathematical value of a `SRUNLoginResponse`.
pub struct LoginView {
    pub client_ip: Seq<char>,
    pub ecode: Option<u64>,
    pub error: Seq<char>,
    pub error_msg: Seq<char>,
    pub online_ip: Seq<char>,
    pub res: Seq<char>,
    pub srun_ver: Seq<char>,
    pub st: Option<u64>,
    pub server_flag: Option<u64>,
    pub services_intf_server_ip: Option<Seq<char>>,
    pub services_intf_server_port: Option<Seq<char>>,
    pub access_token: Option<Seq<char>>,
    pub checkout_date: Option<u64>,
    pub poly_msg: Option<Seq<char>>,
    pub real_name: Option<Seq<char>>,
    pub remain_flux: Option<u64>,
    pub remain_times: Option<u64>,
    pub suc_msg: Option<Seq<char>>,
    pub sysver: Option<Seq<char>>,
    pub username: Option<Seq<char>>,
    pub wallet_balance: Option<u64>,
}

impl View for SRUNLoginResponse {
    type V = LoginView;

    open spec fn view(&self) -> LoginView {
        LoginView {
            client_ip: self.client_ip@,
            ecode: self.ecode,
            error: self.error@,
            error_msg: self.error_msg@,
            online_ip: self.online_ip@,
            res: self.res@,
            srun_ver: self.srun_ver@,
            st: self.st,
            server_flag: self.server_flag,
            services_intf_server_ip: opt_text(self.services_intf_server_ip),
            services_intf_server_port: opt_text(self.services_intf_server_port),
            access_token: opt_text(self.access_token),
            checkout_date: self.checkout_date,
            poly_msg: opt_text(self.poly_msg),
            real_name: opt_text(self.real_name),
            remain_flux: self.remain_flux,
            remain_times: self.remain_times,
            suc_msg: opt_text(self.suc_msg),
            sysver: opt_text(self.sysver),
            username: opt_text(self.username),
            wallet_balance: self.wallet_balance,
        }
    }
}

impl SRUNLoginResponse {
    /// The first mandatory member that a document lacks, or holds with the
    /// wrong type, in the order of the fields.
    pub open spec fn missing_member(doc: ::json::JsonValue) -> Option<Seq<char>> {
        if text_field(doc, "client_ip"@) is None {
            Some("client_ip"@)
        } else if text_field(doc, "error"@) is None {
            Some("error"@)
        } else if text_field(doc, "error_msg"@) is None {
            Some("error_msg"@)
        } else if text_field(doc, "online_ip"@) is None {
            Some("online_ip"@)
        } else if text_field(doc, "res"@) is None {
            Some("res"@)
        } else if text_field(doc, "srun_ver"@) is None {
            Some("srun_ver"@)
        } else {
            None
        }
    }

    /// What the members of a document give for each field. A member that is
    /// missing, `null` or of another type leaves an optional field absent.
    pub open spec fn decoded(doc: ::json::JsonValue) -> LoginView {
        LoginView {
            client_ip: text_field(doc, "client_ip"@)->0,
            ecode: number_field(doc, "ecode"@),
            error: text_field(doc, "error"@)->0,
            error_msg: text_field(doc, "error_msg"@)->0,
            online_ip: text_field(doc, "online_ip"@)->0,
            res: text_field(doc, "res"@)->0,
            srun_ver: text_field(doc, "srun_ver"@)->0,
            st: number_field(doc, "st"@),
            server_flag: number_field(doc, "ServerFlag"@),
            services_intf_server_ip: text_field(doc, "services_intf_server_ip"@),
            services_intf_server_port: text_field(doc, "services_intf_server_port"@),
            access_token: text_field(doc, "access_token"@),
            checkout_date: number_field(doc, "checkout_date"@),
            poly_msg: text_field(doc, "poly_msg"@),
            real_name: text_field(doc, "real_name"@),
            remain_flux: number_field(doc, "remain_flux"@),
            remain_times: number_field(doc, "remain_times"@),
            suc_msg: text_field(doc, "suc_msg"@),
            sysver: text_field(doc, "sysver"@),
            username: text_field(doc, "username"@),
            wallet_balance: number_field(doc, "wallet_balance"@),
        }
    }

    /// The decoding of a document: the fields, or the decode error that names
    /// the first mandatory member that is missing.
    pub open spec fn decoding(doc: ::json::JsonValue) -> Result<LoginView, ErrorView> {
        match Self::missing_member(doc) {
            Some(field) => Err(decode_error(field)),
            None => Ok(Self::decoded(doc)),
        }
    }

    /// The decoding of a JSON text: that of its document, or the error of a
    /// text that is no JSON or is kept from the parser.
    pub open spec fn parsing(text: Seq<char>) -> Result<LoginView, ErrorView> {
        match document_in(text) {
            Ok(doc) => Self::decoding(doc),
            Err(message) => Err(malformed_json_error(message)),
        }
    }

    /// Decodes a login reply from a parsed document.
    pub fn from_json(doc: &::json::JsonValue) -> (res: Result<SRUNLoginResponse, SRUNClientError>)
        ensures
            result_view(res) == Self::decoding(*doc),
    {
        let client_ip = require_text(doc, "client_ip")?;
        let ecode = read_number(doc, "ecode");
        let error = require_text(doc, "error")?;
        let error_msg = require_text(doc, "error_msg")?;
        let online_ip = require_text(doc, "online_ip")?;
        let res = require_text(doc, "res")?;
        let srun_ver = require_text(doc, "srun_ver")?;
        let st = read_number(doc, "st");
        let server_flag = read_number(doc, "ServerFlag");
        let services_intf_server_ip = read_text(doc, "services_intf_server_ip");
        let services_intf_server_port = read_text(doc, "services_intf_server_port");
        let access_token = read_text(doc, "access_token");
        let checkout_date = read_number(doc, "checkout_date");
        let poly_msg = read_text(doc, "poly_msg");
        let real_name = read_text(doc, "real_name");
        let remain_flux = read_number(doc, "remain_flux");
        let remain_times = read_number(doc, "remain_times");
        let suc_msg = read_text(doc, "suc_msg");
        let sysver = read_text(doc, "sysver");
        let username = read_text(doc, "username");
        let wallet_balance = read_number(doc, "wallet_balance");
        Ok(SRUNLoginResponse {
            client_ip,
            ecode,
            error,
            error_msg,
            online_ip,
            res,
            srun_ver,
            st,
            server_flag,
            services_intf_server_ip,
            services_intf_server_port,
            access_token,
            checkout_date,
            poly_msg,
            real_name,
            remain_flux,
            remain_times,
            suc_msg,
            sysver,
            username,
            wallet_balance,
        })
    }

    /// Decodes a login reply from JSON text.
    pub fn from_string(s: String) -> (res: Result<SRUNLoginResponse, SRUNClientError>)
        ensures
            result_view(res) == Self::parsing(s@),
    {
        match parse_text(s.as_str()) {
            Ok(doc) => Self::from_json(&doc),
            Err(message) => Err(SRUNClientError::malformed_json(message)),
        }
    }

    /// The members of the JSON object that the record is printed as: every
    /// field under its own name, an absent one as `null`.
    pub open spec fn members(v: LoginView) -> Seq<(Seq<char>, MemberView)> {
        Seq::<(Seq<char>, MemberView)>::empty()
            .push(("client_ip"@, MemberView::Text(v.client_ip)))
            .push(("ecode"@, number_or_null(v.ecode)))
            .push(("error"@, MemberView::Text(v.error)))
            .push(("error_msg"@, MemberView::Text(v.error_msg)))
            .push(("online_ip"@, MemberView::Text(v.online_ip)))
            .push(("res"@, MemberView::Text(v.res)))
            .push(("srun_ver"@, MemberView::Text(v.srun_ver)))
            .push(("st"@, number_or_null(v.st)))
            .push(("server_flag"@, number_or_null(v.server_flag)))
            .push(("services_intf_server_ip"@, text_or_null(v.services_intf_server_ip)))
            .push(("services_intf_server_port"@, text_or_null(v.services_intf_server_port)))
            .push(("access_token"@, text_or_null(v.access_token)))
            .push(("checkout_date"@, number_or_null(v.checkout_date)))
            .push(("poly_msg"@, text_or_null(v.poly_msg)))
            .push(("real_name"@, text_or_null(v.real_name)))
            .push(("remain_flux"@, number_or_null(v.remain_flux)))
            .push(("remain_times"@, number_or_null(v.remain_times)))
            .push(("suc_msg"@, text_or_null(v.suc_msg)))
            .push(("sysver"@, text_or_null(v.sysver)))
            .push(("username"@, text_or_null(v.username)))
            .push(("wallet_balance"@, number_or_null(v.wallet_balance)))
    }

    /// Prints the record as a JSON object.
    pub fn to_json(&self) -> (text: String)
        ensures
            text@ == json_object_text(Self::members(self@)),
    {
        let mut members = no_members();
        push_member(&mut members, "client_ip", text_member(&self.client_ip));
        push_member(&mut members, "ecode", opt_number_member(&self.ecode));
        push_member(&mut members, "error", text_member(&self.error));
        push_member(&mut members, "error_msg", text_member(&self.error_msg));
        push_member(&mut members, "online_ip", text_member(&self.online_ip));
        push_member(&mut members, "res", text_member(&self.res));
        push_member(&mut members, "srun_ver", text_member(&self.srun_ver));
        push_member(&mut members, "st", opt_number_member(&self.st));
        push_member(&mut members, "server_flag", opt_number_member(&self.server_flag));
        push_member(&mut members, "services_intf_server_ip", opt_text_member(&self.services_intf_server_ip));
        push_member(&mut members, "services_intf_server_port", opt_text_member(&self.services_intf_server_port));
        push_member(&mut members, "access_token", opt_text_member(&self.access_token));
        push_member(&mut members, "checkout_date", opt_number_member(&self.checkout_date));
        push_member(&mut members, "poly_msg", opt_text_member(&self.poly_msg));
        push_member(&mut members, "real_name", opt_text_member(&self.real_name));
        push_member(&mut members, "remain_flux", opt_number_member(&self.remain_flux));
        push_member(&mut members, "remain_times", opt_number_member(&self.remain_times));
        push_member(&mut members, "suc_msg", opt_text_member(&self.suc_msg));
        push_member(&mut members, "sysver", opt_text_member(&self.sysver));
        push_member(&mut members, "username", opt_text_member(&self.username));
        push_member(&mut members, "wallet_balance", opt_number_member(&self.wallet_balance));
        stringify_members(&members)
    }

    /// Whether the portal reports success: its `error` member is `ok`.
    pub fn succeeded(&self) -> (b: bool)
        ensures
            b == (self@.error == "ok"@),
    {
        is_ok(self.error.as_str())
    }

    /// The text that the outcome is shown as: success, or the portal's
    /// message, and the address.
    pub open spec fn text_of(v: LoginView) -> Seq<char> {
        (if v.error == "ok"@ {
            "Login OK\n"@
        } else {
            "Login Failed: "@ + v.error_msg + "\n"@
        }) + "Current IP: "@ + v.online_ip + "\n"@
    }

    /// Writes the outcome as text for a person to read.
    pub fn to_text(&self) -> (text: String)
        ensures
            text@ == Self::text_of(self@),
    {
        let mut text = if self.succeeded() {
            String::from_str("Login OK\n")
        } else {
            let mut failed = String::from_str("Login Failed: ");
            failed.append(self.error_msg.as_str());
            failed.append("\n");
            failed
        };
        text.append("Current IP: ");
        text.append(self.online_ip.as_str());
        text.append("\n");
        assert(text@ =~= Self::text_of(self@));
        text
    }
}

/// The outcome of a logout.
#[derive(Debug, PartialEq, Eq)]
pub struct SRUNLogoutResponse {
    pub client_ip: String,
    pub ecode: u64,
    pub error: String,
    pub error_msg: String,
    pub online_ip: String,
    pub res: String,
    pub srun_ver: String,
}

/// The mathematical value of a `SRUNLogoutResponse`.
pub struct LogoutView {
    pub client_ip: Seq<char>,
    pub ecode: u64,
    pub error: Seq<char>,
    pub error_msg: Seq<char>,
    pub online_ip: Seq<char>,
    pub res: Seq<char>,
    pub srun_ver: Seq<char>,
}

impl View for SRUNLogoutResponse {
    type V = LogoutView;

    open spec fn view(&self) -> LogoutView {
        LogoutView {
            client_ip: self.client_ip@,
            ecode: self.ecode,
            error: self.error@,
            error_msg: self.error_msg@,
            online_ip: self.online_ip@,
            res: self.res@,
            srun_ver: self.srun_ver@,
        }
    }
}

impl SRUNLogoutResponse {
    /// The first mandatory member that a document lacks, or holds with the
    /// wrong type, in the order of the fields.
    pub open spec fn missing_member(doc: ::json::JsonValue) -> Option<Seq<char>> {
        if text_field(doc, "client_ip"@) is None {
            Some("client_ip"@)
        } else if number_field(doc, "ecode"@) is None {
            Some("ecode"@)
        } else if text_field(doc, "error"@) is None {
            Some("error"@)
        } else if text_field(doc, "error_msg"@) is None {
            Some("error_msg"@)
        } else if text_field(doc, "online_ip"@) is None {
            Some("online_ip"@)
        } else if text_field(doc, "res"@) is None {
            Some("res"@)
        } else if text_field(doc, "srun_ver"@) is None {
            Some("srun_ver"@)
        } else {
            None
        }
    }

    /// What the members of a document give for each field. A member that is
    /// missing, `null` or of another type leaves an optional field absent.
    pub open spec fn decoded(doc: ::json::JsonValue) -> LogoutView {
        LogoutView {
            client_ip: text_field(doc, "client_ip"@)->0,
            ecode: number_field(doc, "ecode"@)->0,
            error: text_field(doc, "error"@)->0,
            error_msg: text_field(doc, "error_msg"@)->0,
            online_ip: text_field(doc, "online_ip"@)->0,
            res: text_field(doc, "res"@)->0,
            srun_ver: text_field(doc, "srun_ver"@)->0,
        }
    }

    /// The decoding of a document: the fields, or the decode error that names
    /// the first mandatory member that is missing.
    pub open spec fn decoding(doc: ::json::JsonValue) -> Result<LogoutView, ErrorView> {
        match Self::missing_member(doc) {
            Some(field) => Err(decode_error(field)),
            None => Ok(Self::decoded(doc)),
        }
    }

    /// The decoding of a JSON text: that of its document, or the error of a
    /// text that is no JSON or is kept from the parser.
    pub open spec fn parsing(text: Seq<char>) -> Result<LogoutView, ErrorView> {
        match document_in(text) {
            Ok(doc) => Self::decoding(doc),
            Err(message) => Err(malformed_json_error(message)),
        }
    }

    /// Decodes a logout reply from a parsed document.
    pub fn from_json(doc: &::json::JsonValue) -> (res: Result<SRUNLogoutResponse, SRUNClientError>)
        ensures
            result_view(res) == Self::decoding(*doc),
    {
        let client_ip = require_text(doc, "client_ip")?;
        let ecode = require_number(doc, "ecode")?;
        let error = require_text(doc, "error")?;
        let error_msg = require_text(doc, "error_msg")?;
        let online_ip = require_text(doc, "online_ip")?;
        let res = require_text(doc, "res")?;
        let srun_ver = require_text(doc, "srun_ver")?;
        Ok(SRUNLogoutResponse {
            client_ip,
            ecode,
            error,
            error_msg,
            online_ip,
            res,
            srun_ver,
        })
    }

    /// Decodes a logout reply from JSON text.
    pub fn from_string(s: String) -> (res: Result<SRUNLogoutResponse, SRUNClientError>)
        ensures
            result_view(res) == Self::parsing(s@),
    {
        match parse_text(s.as_str()) {
            Ok(doc) => Self::from_json(&doc),
            Err(message) => Err(SRUNClientError::malformed_json(message)),
        }
    }

    /// The members of the JSON object that the record is printed as: every
    /// field under its own name, an absent one as `null`.
    pub open spec fn members(v: LogoutView) -> Seq<(Seq<char>, MemberView)> {
        Seq::<(Seq<char>, MemberView)>::empty()
            .push(("client_ip"@, MemberView::Text(v.client_ip)))
            .push(("ecode"@, MemberView::Number(v.ecode)))
            .push(("error"@, MemberView::Text(v.error)))
            .push(("error_msg"@, MemberView::Text(v.error_msg)))
            .push(("online_ip"@, MemberView::Text(v.online_ip)))
            .push(("res"@, MemberView::Text(v.res)))
            .push(("srun_ver"@, MemberView::Text(v.srun_ver)))
    }

    /// Prints the record as a JSON object.
    pub fn to_json(&self) -> (text: String)
        ensures
            text@ == json_object_text(Self::members(self@)),
    {
        let mut members = no_members();
        push_member(&mut members, "client_ip", text_member(&self.client_ip));
        push_member(&mut members, "ecode", number_member(self.ecode));
        push_member(&mut members, "error", text_member(&self.error));
        push_member(&mut members, "error_msg", text_member(&self.error_msg));
        push_member(&mut members, "online_ip", text_member(&self.online_ip));
        push_member(&mut members, "res", text_member(&self.res));
        push_member(&mut members, "srun_ver", text_member(&self.srun_ver));
        stringify_members(&members)
    }

    /// Whether the portal reports success: its `error` member is `ok`.
    pub fn succeeded(&self) -> (b: bool)
        ensures
            b == (self@.error == "ok"@),
    {
        is_ok(self.error.as_str())
    }

    /// The text that the outcome is shown as: success, or the portal's
    /// message.
    pub open spec fn text_of(v: LogoutView) -> Seq<char> {
        if v.error == "ok"@ {
            "Logout OK\n"@
        } else {
            "Logout Failed: "@ + v.error_msg + "\n"@
        }
    }

    /// Writes the outcome as text for a person to read.
    pub fn to_text(&self) -> (text: String)
        ensures
            text@ == Self::text_of(self@),
    {
        if self.succeeded() {
            String::from_str("Logout OK\n")
        } else {
            let mut text = String::from_str("Logout Failed: ");
            text.append(self.error_msg.as_str());
            text.append("\n");
            text
        }
    }
}

} // verus!
