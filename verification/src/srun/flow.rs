//! One attempt at the portal, step by step.
//!
//! An attempt asks for one request at a time and is told the reply, or that
//! the transport failed. It never sends anything itself, never retries, and
//! stops at the first error. What a later request needs (the address, the
//! challenge, the `ac_id`) is taken from the replies of this attempt and from
//! nowhere else.

use vstd::prelude::*;
use vstd::string::*;
use crate::srun::client::{
    ac_id_request, challenge_request, login_request, logout_request, password_of,
    probe_request, status_request, user_of, ClientView, HttpRequest, RequestView, SRUNClient,
};
use crate::srun::document::opt_text;
use crate::srun::error::{
    missing_credentials_error, result_view, transport_error, ErrorView, SRUNClientError,
};
use crate::srun::reply::{
    ac_id_from_reply, ac_id_of, challenge_of, login_of, logout_of, probe_online, status_of,
    HttpReply, ReplyView,
};
use crate::srun::response::{
    LoginView, LogoutView, QueryView, SRUNChallengeResponse, SRUNLoginResponse,
    SRUNLogoutResponse, SRUNQueryResponse,
};

verus! {

/// What an attempt is for.
#[derive(Debug, Clone, Copy, PartialEq, Eq, Structural)]
pub enum Goal {
    /// Ask for the status of the session.
    Query,
    /// Log in; with `probe`, first ask a well-known site for an empty page, to
    /// make the gateway show its portal.
    Login { probe: bool },
    /// Log out.
    Logout,
}

/// What a completed attempt has to show.
#[derive(Debug, PartialEq, Eq)]
pub enum Outcome {
    Status(SRUNQueryResponse),
    Login(SRUNLoginResponse),
    Logout(SRUNLogoutResponse),
}

/// The mathematical value of an outcome.
pub enum OutcomeView {
    Status(QueryView),
    Login(LoginView),
    Logout(LogoutView),
}

impl View for Outcome {
    type V = OutcomeView;

    open spec fn view(&self) -> OutcomeView {
        match self {
            Outcome::Status(r) => OutcomeView::Status(r@),
            Outcome::Login(r) => OutcomeView::Login(r@),
            Outcome::Logout(r) => OutcomeView::Logout(r@),
        }
    }
}

/// How far an attempt has come.
#[allow(inconsistent_fields)]
#[derive(Debug, PartialEq, Eq)]
pub enum Stage {
    /// Nothing has been answered yet.
    Idle,
    /// The probe has been answered; `online` tells whether the site gave its
    /// empty page, which a gateway that holds the user back does not let
    /// through.
    Probed { online: bool },
    /// The portal has told the address of the session.
    Queried { online_ip: String },
    /// The portal has issued a challenge.
    Challenged { online_ip: String, challenge: String },
    /// The redirect has named the access controller.
    AcIdResolved { online_ip: String, challenge: Option<String>, ac_id: String },
    /// The attempt has reached its goal.
    Completed(Outcome),
    /// The attempt has ended in an error.
    Failed(SRUNClientError),
}

/// The mathematical value of a stage.
#[allow(inconsistent_fields)]
pub enum StageView {
    Idle,
    Probed { online: bool },
    Queried { online_ip: Seq<char> },
    Challenged { online_ip: Seq<char>, challenge: Seq<char> },
    AcIdResolved { online_ip: Seq<char>, challenge: Option<Seq<char>>, ac_id: Seq<char> },
    Completed(OutcomeView),
    Failed(ErrorView),
}

impl View for Stage {
    type V = StageView;

    open spec fn view(&self) -> StageView {
        match self {
            Stage::Idle => StageView::Idle,
            Stage::Probed { online } => StageView::Probed { online: *online },
            Stage::Queried { online_ip } => StageView::Queried { online_ip: online_ip@ },
            Stage::Challenged { online_ip, challenge } => StageView::Challenged {
                online_ip: online_ip@,
                challenge: challenge@,
            },
            Stage::AcIdResolved { online_ip, challenge, ac_id } => StageView::AcIdResolved {
                online_ip: online_ip@,
                challenge: opt_text(*challenge),
                ac_id: ac_id@,
            },
            Stage::Completed(outcome) => StageView::Completed(outcome@),
            Stage::Failed(error) => StageView::Failed(error@),
        }
    }
}

/// One attempt: the client it is made with, its goal, and how far it has
/// come.
pub struct Attempt {
    client: SRUNClient,
    goal: Goal,
    stage: Stage,
}

/// The mathematical value of an attempt.
pub struct AttemptView {
    pub client: ClientView,
    pub goal: Goal,
    pub stage: StageView,
}

/// Whether a stage has nothing more to ask.
pub open spec fn finished(stage: StageView) -> bool {
    stage is Completed || stage is Failed
}

/// What holds of every attempt: a stage is only reached by the goal that
/// passes through it, an attempt that logs in or out has credentials for as
/// long as it runs, and the challenge is there exactly for a login.
pub open spec fn consistent(a: AttemptView) -> bool {
    match a.stage {
        StageView::Idle => a.goal is Query || a.client.credentials is Some,
        StageView::Probed { .. } => a.goal == (Goal::Login { probe: true })
            && a.client.credentials is Some,
        StageView::Queried { .. } => !(a.goal is Query) && a.client.credentials is Some,
        StageView::Challenged { .. } => a.goal is Login && a.client.credentials is Some,
        StageView::AcIdResolved { challenge, .. } => {
            &&& a.client.credentials is Some
            &&& a.goal is Login ==> challenge is Some
            &&& a.goal is Logout ==> challenge is None
            &&& !(a.goal is Query)
        },
        StageView::Completed(_) => true,
        StageView::Failed(_) => true,
    }
}

/// Where an attempt starts: at once in the error of missing credentials
/// where it is to log in or out without them, and idle otherwise.
pub open spec fn first_stage(client: ClientView, goal: Goal) -> StageView {
    if !(goal is Query) && client.credentials is None {
        StageView::Failed(missing_credentials_error())
    } else {
        StageView::Idle
    }
}

/// The request that an attempt waits to have answered, if it waits for any.
pub open spec fn pending(a: AttemptView) -> Option<RequestView> {
    match a.stage {
        StageView::Idle => if a.goal == (Goal::Login { probe: true }) {
            Some(probe_request(a.client))
        } else {
            Some(status_request(a.client))
        },
        StageView::Probed { .. } => Some(status_request(a.client)),
        StageView::Queried { online_ip } => if a.goal is Login {
            Some(challenge_request(a.client, user_of(a.client), online_ip))
        } else {
            Some(ac_id_request(a.client))
        },
        StageView::Challenged { .. } => Some(ac_id_request(a.client)),
        StageView::AcIdResolved { online_ip, challenge, ac_id } => if a.goal is Login {
            Some(
                login_request(
                    a.client,
                    user_of(a.client),
                    password_of(a.client),
                    challenge->0,
                    online_ip,
                    ac_id,
                ),
            )
        } else {
            Some(logout_request(a.client, user_of(a.client), online_ip, ac_id))
        },
        StageView::Completed(_) => None,
        StageView::Failed(_) => None,
    }
}

/// The stage after the status reply: the query is complete with it, and a
/// login or logout goes on with the address it tells.
pub open spec fn after_status(goal: Goal, reply: ReplyView) -> StageView {
    match status_of(reply) {
        Ok(status) => if goal is Query {
            StageView::Completed(OutcomeView::Status(status))
        } else {
            StageView::Queried { online_ip: status.online_ip }
        },
        Err(e) => StageView::Failed(e),
    }
}

/// The stage after the reply to the `ac_id` request.
pub open spec fn after_ac_id(
    online_ip: Seq<char>,
    challenge: Option<Seq<char>>,
    reply: ReplyView,
) -> StageView {
    match ac_id_of(reply) {
        Ok(ac_id) => StageView::AcIdResolved { online_ip, challenge, ac_id },
        Err(e) => StageView::Failed(e),
    }
}

/// The stage that follows on an event: the reply to the pending request, or
/// the message of a transport that could not have it answered. A finished
/// attempt stays as it is; a transport failure and every reply that does not
/// serve end the attempt in an error.
pub open spec fn step(a: AttemptView, event: Result<ReplyView, Seq<char>>) -> StageView {
    if finished(a.stage) {
        a.stage
    } else {
        match event {
            Err(message) => StageView::Failed(transport_error(message)),
            Ok(reply) => match a.stage {
                StageView::Idle => if a.goal == (Goal::Login { probe: true }) {
                    StageView::Probed { online: reply.status == 204 }
                } else {
                    after_status(a.goal, reply)
                },
                StageView::Probed { .. } => after_status(a.goal, reply),
                StageView::Queried { online_ip } => if a.goal is Login {
                    match challenge_of(reply) {
                        Ok(c) => StageView::Challenged { online_ip, challenge: c.challenge },
                        Err(e) => StageView::Failed(e),
                    }
                } else {
                    after_ac_id(online_ip, None, reply)
                },
                StageView::Challenged { online_ip, challenge } => after_ac_id(
                    online_ip,
                    Some(challenge),
                    reply,
                ),
                StageView::AcIdResolved { .. } => if a.goal is Login {
                    match login_of(reply) {
                        Ok(r) => StageView::Completed(OutcomeView::Login(r)),
                        Err(e) => StageView::Failed(e),
                    }
                } else {
                    match logout_of(reply) {
                        Ok(r) => StageView::Completed(OutcomeView::Logout(r)),
                        Err(e) => StageView::Failed(e),
                    }
                },
                StageView::Completed(_) => a.stage,
                StageView::Failed(_) => a.stage,
            },
        }
    }
}

/// The view of an optional request.
pub open spec fn opt_request(r: Option<HttpRequest>) -> Option<RequestView> {
    match r {
        Some(r) => Some(r@),
        None => None,
    }
}

/// A finished attempt asks for nothing more, and no event moves it.
pub proof fn lemma_finished_attempt_rests(a: AttemptView, event: Result<ReplyView, Seq<char>>)
    requires
        finished(a.stage),
    ensures
        pending(a) is None,
        step(a, event) == a.stage,
{
}

/// An attempt that has not finished always has a request to ask for.
pub proof fn lemma_running_attempt_asks(a: AttemptView)
    requires
        !finished(a.stage),
    ensures
        pending(a) is Some,
{
}

/// A transport failure ends a running attempt in the transport's error.
pub proof fn lemma_transport_failure_ends(a: AttemptView, message: Seq<char>)
    requires
        !finished(a.stage),
    ensures
        step(a, Err(message)) == StageView::Failed(transport_error(message)),
{
}

/// Every step keeps an attempt consistent.
pub proof fn lemma_step_consistent(a: AttemptView, event: Result<ReplyView, Seq<char>>)
    requires
        consistent(a),
    ensures
        consistent(AttemptView { client: a.client, goal: a.goal, stage: step(a, event) }),
{
}

impl View for Attempt {
    type V = AttemptView;

    closed spec fn view(&self) -> AttemptView {
        AttemptView { client: self.client@, goal: self.goal, stage: self.stage@ }
    }
}

impl Attempt {
    #[verifier::type_invariant]
    spec fn well_formed(self) -> bool {
        consistent(self@)
    }

    /// Starts an attempt. An attempt to log in or out with a client that has
    /// no credentials has failed before it asks for anything.
    pub fn new(client: SRUNClient, goal: Goal) -> (attempt: Attempt)
        ensures
            attempt@ == (AttemptView {
                client: client@,
                goal,
                stage: first_stage(client@, goal),
            }),
            consistent(attempt@),
    {
        let needs_credentials = match goal {
            Goal::Query => false,
            _ => true,
        };
        let stage = if needs_credentials && client.credentials.is_none() {
            Stage::Failed(SRUNClientError::missing_credentials())
        } else {
            Stage::Idle
        };
        Attempt { client, goal, stage }
    }

    /// The goal of the attempt.
    pub fn goal(&self) -> (goal: Goal)
        ensures
            goal == self@.goal,
    {
        self.goal
    }

    /// How far the attempt has come.
    pub fn stage(&self) -> (stage: &Stage)
        ensures
            stage@ == self@.stage,
            consistent(self@),
    {
        proof {
            use_type_invariant(self);
        }
        &self.stage
    }

    /// Whether the attempt has nothing more to ask.
    pub fn is_finished(&self) -> (done: bool)
        ensures
            done == finished(self@.stage),
    {
        match &self.stage {
            Stage::Completed(_) => true,
            Stage::Failed(_) => true,
            _ => false,
        }
    }

    /// The request that is to be sent next and answered to `on_reply`, or
    /// nothing where the attempt has finished.
    pub fn next_request(&self) -> (request: Option<HttpRequest>)
        ensures
            opt_request(request) == pending(self@),
    {
        proof {
            use_type_invariant(self);
        }
        let login = match self.goal {
            Goal::Login { .. } => true,
            _ => false,
        };
        match &self.stage {
            Stage::Idle => {
                let probe = match self.goal {
                    Goal::Login { probe } => probe,
                    _ => false,
                };
                if probe {
                    Some(self.client.access_redirect_host())
                } else {
                    Some(self.client.query())
                }
            },
            Stage::Probed { .. } => Some(self.client.query()),
            Stage::Queried { online_ip } => {
                if login {
                    match self.client.get_challenge(online_ip) {
                        Ok(request) => Some(request),
                        Err(_) => None,
                    }
                } else {
                    Some(self.client.get_ac_id())
                }
            },
            Stage::Challenged { .. } => Some(self.client.get_ac_id()),
            Stage::AcIdResolved { online_ip, challenge, ac_id } => {
                if login {
                    match challenge {
                        Some(challenge) => match self.client.login(challenge, online_ip, ac_id) {
                            Ok(request) => Some(request),
                            Err(_) => None,
                        },
                        None => None,
                    }
                } else {
                    match self.client.logout(online_ip, ac_id) {
                        Ok(request) => Some(request),
                        Err(_) => None,
                    }
                }
            },
            Stage::Completed(_) => None,
            Stage::Failed(_) => None,
        }
    }

    /// Takes the answer to the pending request, or the message of a transport
    /// that could not have it answered, and moves on.
    pub fn on_reply(self, event: Result<HttpReply, String>) -> (next: Attempt)
        ensures
            next@ == (AttemptView {
                client: self@.client,
                goal: self@.goal,
                stage: step(self@, result_view(event)),
            }),
            consistent(next@),
    {
        proof {
            use_type_invariant(&self);
            lemma_step_consistent(self@, result_view(event));
        }
        let Attempt { client, goal, stage } = self;
        let login = match goal {
            Goal::Login { .. } => true,
            _ => false,
        };
        let stage = match stage {
            Stage::Completed(outcome) => Stage::Completed(outcome),
            Stage::Failed(error) => Stage::Failed(error),
            running => match event {
                Err(message) => Stage::Failed(SRUNClientError::transport(message)),
                Ok(reply) => match running {
                    Stage::Idle => {
                        let probe = match goal {
                            Goal::Login { probe } => probe,
                            _ => false,
                        };
                        if probe {
                            Stage::Probed { online: probe_online(&reply) }
                        } else {
                            read_status(goal, &reply)
                        }
                    },
                    Stage::Probed { .. } => read_status(goal, &reply),
                    Stage::Queried { online_ip } => {
                        if login {
                            match SRUNChallengeResponse::from_reply(&reply) {
                                Ok(c) => Stage::Challenged { online_ip, challenge: c.challenge },
                                Err(e) => Stage::Failed(e),
                            }
                        } else {
                            read_ac_id(online_ip, None, &reply)
                        }
                    },
                    Stage::Challenged { online_ip, challenge } => read_ac_id(
                        online_ip,
                        Some(challenge),
                        &reply,
                    ),
                    Stage::AcIdResolved { .. } => {
                        if login {
                            match SRUNLoginResponse::from_reply(&reply) {
                                Ok(r) => Stage::Completed(Outcome::Login(r)),
                                Err(e) => Stage::Failed(e),
                            }
                        } else {
                            match SRUNLogoutResponse::from_reply(&reply) {
                                Ok(r) => Stage::Completed(Outcome::Logout(r)),
                                Err(e) => Stage::Failed(e),
                            }
                        }
                    },
                    Stage::Completed(outcome) => Stage::Completed(outcome),
                    Stage::Failed(error) => Stage::Failed(error),
                },
            },
        };
        Attempt { client, goal, stage }
    }

    /// Ends the attempt and hands out what it came to: the outcome, the
    /// error, or nothing where it has not finished.
    pub fn into_result(self) -> (res: Option<Result<Outcome, SRUNClientError>>)
        ensures
            match self@.stage {
                StageView::Completed(outcome) => res matches Some(Ok(o)) && o@ == outcome,
                StageView::Failed(error) => res matches Some(Err(e)) && e@ == error,
                _ => res is None,
            },
    {
        let Attempt { client: _, goal: _, stage } = self;
        match stage {
            Stage::Completed(outcome) => Some(Ok(outcome)),
            Stage::Failed(error) => Some(Err(error)),
            _ => None,
        }
    }
}

fn read_status(goal: Goal, reply: &HttpReply) -> (stage: Stage)
    ensures
        stage@ == after_status(goal, reply@),
{
    match SRUNQueryResponse::from_reply(reply) {
        Ok(status) => match goal {
            Goal::Query => Stage::Completed(Outcome::Status(status)),
            _ => Stage::Queried { online_ip: status.online_ip },
        },
        Err(e) => Stage::Failed(e),
    }
}

fn read_ac_id(online_ip: String, challenge: Option<String>, reply: &HttpReply) -> (stage: Stage)
    ensures
        stage@ == after_ac_id(online_ip@, opt_text(challenge), reply@),
{
    match ac_id_from_reply(reply) {
        Ok(ac_id) => Stage::AcIdResolved { online_ip, challenge, ac_id },
        Err(e) => Stage::Failed(e),
    }
}

} // verus!
