//! The login and sign-in exchanges.
//!
//! Each exchange alternates work done by the server (asking the
//! authentication backend, storing the new user, opening the session) with
//! decisions. The decisions are a state machine: `login` or `signin` opens an
//! exchange and names the first piece of work; `Exchange::step` takes what
//! that work gave and names the next one, until the exchange answers.

use vstd::prelude::*;
use vstd::string::StringSliceAdditionalSpecFns;

use crate::auth::{authentication_result, Credentials, User};
use crate::password::default_hash_prefix;

verus! {

/// The query string of the login and sign-in forms: where to go afterwards.
#[derive(Debug)]
pub struct NextPage {
    pub next: Option<String>,
}

/// The HTTP statuses the pages answer with.
#[derive(Debug, Clone, Copy, PartialEq, Eq, Structural)]
pub enum Status {
    Success,
    Unauthorized,
    InternalServerError,
    NotFound,
}

/// The numeric code of a status.
pub open spec fn status_code(status: Status) -> u16 {
    match status {
        Status::Success => 200,
        Status::Unauthorized => 401,
        Status::InternalServerError => 500,
        Status::NotFound => 404,
    }
}

impl Status {
    /// The numeric code of this status.
    pub fn code(&self) -> (code: u16)
        ensures
            code == status_code(*self),
            *self == Status::Success ==> code == 200,
            *self == Status::Unauthorized ==> code == 401,
            *self == Status::InternalServerError ==> code == 500,
            *self == Status::NotFound ==> code == 404,
    {
        match self {
            Status::Success => 200,
            Status::Unauthorized => 401,
            Status::InternalServerError => 500,
            Status::NotFound => 404,
        }
    }
}

/// How an exchange is answered.
#[derive(Debug)]
pub enum Reply {
    /// Send the browser on to `location` (an `HX-Location` header).
    Redirect { location: String, status: Status },
    /// Refuse, with a status and a message.
    Refuse { status: Status, message: &'static str },
}

/// Which form started the exchange.
#[derive(Debug, Clone, Copy, PartialEq, Eq, Structural)]
pub enum Flow {
    Login,
    Signin,
}

/// Where an exchange stands.
#[derive(Debug)]
pub enum Stage {
    /// Waiting for the authentication backend.
    Authenticating,
    /// Waiting for this new user to be stored.
    Storing(User),
    /// Waiting for a session to be opened for this user.
    StartingSession(User),
    /// Answered.
    Done,
}

/// What the authentication backend answered.
#[derive(Debug)]
pub enum AuthOutcome {
    /// The credentials belong to this user.
    Found(User),
    /// No user has these credentials.
    Rejected,
    /// The backend failed.
    Failed,
}

/// What the work that an exchange asked for gave.
#[derive(Debug)]
pub enum Event {
    Authenticated(AuthOutcome),
    /// Whether storing the user succeeded.
    Stored(bool),
    /// Whether opening the session succeeded.
    SessionStarted(bool),
}

/// The next piece of work.
#[derive(Debug)]
pub enum Action {
    /// Ask the authentication backend about these credentials.
    Authenticate(Credentials),
    /// Store the user of the exchange's `Storing` stage.
    StoreUser,
    /// Open a session for the user of the exchange's `StartingSession` stage.
    StartSession,
    /// Answer the request.
    Respond(Reply),
}

/// A login or sign-in exchange in progress.
#[derive(Debug)]
pub struct Exchange {
    pub flow: Flow,
    pub next: Option<String>,
    pub stage: Stage,
}

/// Where a successful exchange sends the browser: the requested page, or the
/// home page.
pub open spec fn location_text(next: Option<String>) -> Seq<char> {
    match next {
        Some(page) => page@,
        None => "/home"@,
    }
}

/// The password every account made by the sign-in form gets.
pub open spec fn signin_password() -> Seq<char> {
    "1234"@
}

/// Whether `event` is what an exchange at `stage` waits for.
pub open spec fn stage_accepts(stage: Stage, event: Event) -> bool {
    match (stage, event) {
        (Stage::Authenticating, Event::Authenticated(_)) => true,
        (Stage::Storing(_), Event::Stored(_)) => true,
        (Stage::StartingSession(_), Event::SessionStarted(_)) => true,
        _ => false,
    }
}

/// How many steps at most an exchange at `stage` still takes.
pub open spec fn stage_rank(stage: Stage) -> nat {
    match stage {
        Stage::Storing(_) => 2,
        Stage::Authenticating => 2,
        Stage::StartingSession(_) => 1,
        Stage::Done => 0,
    }
}

/// `reply` refuses with `status` and the text `message`.
pub open spec fn refuses(reply: Reply, status: Status, message: Seq<char>) -> bool {
    reply matches Reply::Refuse { status: s, message: m } && s == status && m@ == message
}

/// `action` answers the exchange with a refusal.
pub open spec fn responds_refusal(action: Action, status: Status, message: Seq<char>) -> bool {
    action matches Action::Respond(reply) && refuses(reply, status, message)
}

/// One step of an exchange: `before` at `event` moves to `after` and asks for `action`.
pub open spec fn step_spec(before: Exchange, event: Event, after: Exchange, action: Action) -> bool {
    &&& after.flow == before.flow
    &&& after.next == before.next
    &&& match (before.stage, event) {
        (Stage::Authenticating, Event::Authenticated(AuthOutcome::Found(user))) => {
            &&& after.stage == Stage::StartingSession(user)
            &&& action is StartSession
        },
        (Stage::Authenticating, Event::Authenticated(AuthOutcome::Rejected)) => {
            &&& after.stage is Done
            &&& responds_refusal(action, Status::Unauthorized, "Invalid username or password"@)
        },
        (Stage::Authenticating, Event::Authenticated(AuthOutcome::Failed)) => {
            &&& after.stage is Done
            &&& responds_refusal(action, Status::InternalServerError, "Internal server error"@)
        },
        (Stage::Storing(user), Event::Stored(stored)) => if stored {
            &&& after.stage == Stage::StartingSession(user)
            &&& action is StartSession
        } else {
            &&& after.stage is Done
            &&& responds_refusal(action, Status::InternalServerError, "Internal server error"@)
        },
        (Stage::StartingSession(_), Event::SessionStarted(started)) => if started {
            &&& after.stage is Done
            &&& action matches Action::Respond(Reply::Redirect { location, status })
            &&& location@ == location_text(before.next)
            &&& status == Status::Success
        } else {
            &&& after.stage is Done
            // A failed login session is answered 401, a failed sign-in session 500.
            &&& responds_refusal(
                action,
                if before.flow == Flow::Login {
                    Status::Unauthorized
                } else {
                    Status::InternalServerError
                },
                "Internal server error"@,
            )
        },
        _ => false,
    }
}

/// Opens a login exchange: the credentials go to the authentication backend.
pub fn login(next_page: NextPage, credentials: Credentials) -> (opened: (Exchange, Action))
    ensures
        opened.0.flow == Flow::Login,
        opened.0.next == next_page.next,
        opened.0.stage is Authenticating,
        opened.1 == Action::Authenticate(credentials),
{
    (
        Exchange { flow: Flow::Login, next: next_page.next, stage: Stage::Authenticating },
        Action::Authenticate(credentials),
    )
}

/// Opens a sign-in exchange: an account is made for the submitted name, with
/// the password `"1234"` whatever password was submitted, and is to be stored.
pub fn signin(next_page: NextPage, credentials: Credentials) -> (opened: (Exchange, Action))
    ensures
        opened.0.flow == Flow::Signin,
        opened.0.next == next_page.next,
        opened.0.stage matches Stage::Storing(user)
            && user.made_from(credentials.username@, signin_password())
            && user.made_from(credentials.username@, "1234"@)
            && default_hash_prefix().is_prefix_of(user.stored_hash()),
        opened.1 is StoreUser,
{
    let password = "1234";
    proof {
        reveal_strlit("1234");
        vstd::string::is_ascii_spec_bytes(password);
    }
    let user = User::new(credentials.username.as_str(), password);
    (
        Exchange { flow: Flow::Signin, next: next_page.next, stage: Stage::Storing(user) },
        Action::StoreUser,
    )
}

impl Exchange {
    /// Whether `event` is what this exchange waits for.
    pub fn accepts(&self, event: &Event) -> (accepted: bool)
        ensures
            accepted == stage_accepts(self.stage, *event),
            accepted <==> (
                (self.stage is Authenticating && *event is Authenticated)
                || (self.stage is Storing && *event is Stored)
                || (self.stage is StartingSession && *event is SessionStarted)),
    {
        match (&self.stage, event) {
            (Stage::Authenticating, Event::Authenticated(_)) => true,
            (Stage::Storing(_), Event::Stored(_)) => true,
            (Stage::StartingSession(_), Event::SessionStarted(_)) => true,
            _ => false,
        }
    }

    /// The user the pending work is about: the one to store, or the one to
    /// open a session for.
    pub fn user(&self) -> (user: Option<&User>)
        ensures
            user == (match self.stage {
                Stage::Storing(u) => Some(&u),
                Stage::StartingSession(u) => Some(&u),
                _ => None,
            }),
    {
        match &self.stage {
            Stage::Storing(u) => Some(u),
            Stage::StartingSession(u) => Some(u),
            _ => None,
        }
    }

    /// Takes what the pending work gave, and names the next piece of work.
    pub fn step(self, event: Event) -> (stepped: (Exchange, Action))
        requires
            stage_accepts(self.stage, event),
        ensures
            step_spec(self, event, stepped.0, stepped.1),
    {
        let Exchange { flow, next, stage } = self;
        match (stage, event) {
            (Stage::Authenticating, Event::Authenticated(outcome)) => match outcome {
                AuthOutcome::Found(user) => (
                    Exchange { flow, next, stage: Stage::StartingSession(user) },
                    Action::StartSession,
                ),
                AuthOutcome::Rejected => (
                    Exchange { flow, next, stage: Stage::Done },
                    Action::Respond(
                        Reply::Refuse {
                            status: Status::Unauthorized,
                            message: "Invalid username or password",
                        },
                    ),
                ),
                AuthOutcome::Failed => (
                    Exchange { flow, next, stage: Stage::Done },
                    Action::Respond(
                        Reply::Refuse {
                            status: Status::InternalServerError,
                            message: "Internal server error",
                        },
                    ),
                ),
            },
            (Stage::Storing(user), Event::Stored(stored)) => {
                if stored {
                    (Exchange { flow, next, stage: Stage::StartingSession(user) }, Action::StartSession)
                } else {
                    (
                        Exchange { flow, next, stage: Stage::Done },
                        Action::Respond(
                            Reply::Refuse {
                                status: Status::InternalServerError,
                                message: "Internal server error",
                            },
                        ),
                    )
                }
            },
            (Stage::StartingSession(_), Event::SessionStarted(started)) => {
                if started {
                    let location = match &next {
                        Some(page) => page.clone(),
                        None => "/home".to_owned(),
                    };
                    (
                        Exchange { flow, next, stage: Stage::Done },
                        Action::Respond(Reply::Redirect { location, status: Status::Success }),
                    )
                } else {
                    let status = match flow {
                        Flow::Login => Status::Unauthorized,
                        Flow::Signin => Status::InternalServerError,
                    };
                    (
                        Exchange { flow, next, stage: Stage::Done },
                        Action::Respond(Reply::Refuse { status, message: "Internal server error" }),
                    )
                }
            },
            _ => {
                proof {
                    assert(false);
                }
                (Exchange { flow, next, stage: Stage::Done }, Action::StartSession)
            },
        }
    }
}

/// A login whose credentials the backend rejects is answered 401 with
/// "Invalid username or password", and nothing more happens.
pub proof fn lemma_rejected_login_is_refused(before: Exchange, after: Exchange, action: Action)
    requires
        before.stage is Authenticating,
        step_spec(before, Event::Authenticated(AuthOutcome::Rejected), after, action),
    ensures
        after.stage is Done,
        action matches Action::Respond(Reply::Refuse { status, message })
            && status == Status::Unauthorized
            && message@ == "Invalid username or password"@,
{
}

/// A session is opened only for the user the backend authenticated, or for
/// the account the sign-in just stored, and only once that storing succeeded.
pub proof fn lemma_session_only_for_admitted_user(
    before: Exchange,
    event: Event,
    after: Exchange,
    action: Action,
)
    requires
        step_spec(before, event, after, action),
        action is StartSession,
    ensures
        after.stage matches Stage::StartingSession(user) && (
        (before.stage is Authenticating && event == Event::Authenticated(AuthOutcome::Found(user)))
            || (before.stage == Stage::Storing(user) && event == Event::Stored(true))),
{
}

/// Every step moves an exchange closer to its answer, and a step answers
/// exactly when the exchange is over: an exchange answers once, within two
/// steps of being opened.
pub proof fn lemma_step_progress(before: Exchange, event: Event, after: Exchange, action: Action)
    requires
        step_spec(before, event, after, action),
    ensures
        stage_rank(after.stage) < stage_rank(before.stage),
        (action is Respond) <==> (after.stage is Done),
        after.flow == before.flow,
        after.next == before.next,
        before.stage is Done ==> false,
{
}

/// An exchange is answered with a redirect only once its session is open; the
/// redirect goes to the requested page, or to `/home`, with status 200.
pub proof fn lemma_redirect_only_after_session(
    before: Exchange,
    event: Event,
    after: Exchange,
    location: String,
    status: Status,
)
    requires
        step_spec(before, event, after, Action::Respond(Reply::Redirect { location, status })),
    ensures
        before.stage is StartingSession,
        event == Event::SessionStarted(true),
        location@ == location_text(before.next),
        status_code(status) == 200,
{
}

/// An account made by the sign-in form is let in by a later login that
/// submits its name with the password `"1234"`.
pub proof fn lemma_signed_in_account_logs_in(user: User, name: Seq<char>)
    requires
        user.made_from(name, signin_password()),
    ensures
        authentication_result(Some(user), signin_password()) == Some(user),
{
}

/// The status codes the pages answer with.
pub proof fn lemma_status_codes()
    ensures
        status_code(Status::Success) == 200,
        status_code(Status::Unauthorized) == 401,
        status_code(Status::InternalServerError) == 500,
        status_code(Status::NotFound) == 404,
{
}

/// A successful exchange goes to the requested page itself, whatever it is,
/// and to `/home` when none was requested.
pub proof fn lemma_location_is_requested_page(next: Option<String>)
    ensures
        next is Some ==> location_text(next) == next->0@,
        next is None ==> location_text(next) == "/home"@,
{
}

/// The sign-in password is the text "1234".
pub proof fn lemma_signin_password_is_1234()
    ensures
        signin_password() == "1234"@,
{
}

/// Once its session is open, an exchange redirects with status 200 to the
/// requested page exactly when one was requested, and to `/home` otherwise.
pub proof fn lemma_session_opened_redirects(before: Exchange, after: Exchange, action: Action)
    requires
        before.stage is StartingSession,
        step_spec(before, Event::SessionStarted(true), after, action),
    ensures
        after.stage is Done,
        action matches Action::Respond(Reply::Redirect { location, status }) && {
            &&& status == Status::Success
            &&& before.next is Some ==> location@ == before.next->0@
            &&& before.next is None ==> location@ == "/home"@
        },
{
}

/// An exchange waits for every outcome of the work it asked for, and an
/// answered exchange waits for nothing.
pub proof fn lemma_waited_events_are_accepted(stage: Stage, event: Event)
    ensures
        stage is Authenticating && event is Authenticated ==> stage_accepts(stage, event),
        stage is Storing && event is Stored ==> stage_accepts(stage, event),
        stage is StartingSession && event is SessionStarted ==> stage_accepts(stage, event),
        stage is Done ==> !stage_accepts(stage, event),
{
}

/// Every event that a step answers is one the exchange accepts, so the server
/// can always hand the outcome of the work it did back to the exchange.
pub proof fn lemma_answered_events_are_accepted(
    before: Exchange,
    event: Event,
    after: Exchange,
    action: Action,
)
    requires
        step_spec(before, event, after, action),
    ensures
        stage_accepts(before.stage, event),
{
}

/// A login whose backend finds the user opens that user's session.
pub proof fn lemma_found_user_gets_session(
    before: Exchange,
    user: User,
    after: Exchange,
    action: Action,
)
    requires
        before.stage is Authenticating,
        step_spec(before, Event::Authenticated(AuthOutcome::Found(user)), after, action),
    ensures
        after.stage == Stage::StartingSession(user),
        action is StartSession,
        after.next == before.next,
        after.flow == before.flow,
{
}

/// A login whose backend fails is answered 500 "Internal server error".
pub proof fn lemma_failed_backend_is_refused(before: Exchange, after: Exchange, action: Action)
    requires
        before.stage is Authenticating,
        step_spec(before, Event::Authenticated(AuthOutcome::Failed), after, action),
    ensures
        after.stage is Done,
        action matches Action::Respond(Reply::Refuse { status, message })
            && status == Status::InternalServerError
            && message@ == "Internal server error"@,
{
}

/// A sign-in whose new account was stored goes on to open its session.
pub proof fn lemma_stored_account_gets_session(
    before: Exchange,
    user: User,
    after: Exchange,
    action: Action,
)
    requires
        before.stage == Stage::Storing(user),
        step_spec(before, Event::Stored(true), after, action),
    ensures
        after.stage == Stage::StartingSession(user),
        action is StartSession,
{
}

/// A sign-in whose account could not be stored (for instance because the name
/// is taken) is answered 500 "Internal server error", whatever page was
/// requested.
pub proof fn lemma_failed_store_is_refused(before: Exchange, after: Exchange, action: Action)
    requires
        before.stage is Storing,
        step_spec(before, Event::Stored(false), after, action),
    ensures
        after.stage is Done,
        action matches Action::Respond(Reply::Refuse { status, message })
            && status == Status::InternalServerError
            && message@ == "Internal server error"@,
{
}

/// A session that cannot be opened is answered with "Internal server error":
/// status 401 for a login, 500 for a sign-in, whatever page was requested.
pub proof fn lemma_failed_session_is_refused(before: Exchange, after: Exchange, action: Action)
    requires
        before.stage is StartingSession,
        step_spec(before, Event::SessionStarted(false), after, action),
    ensures
        after.stage is Done,
        action matches Action::Respond(Reply::Refuse { status, message }) && {
            &&& message@ == "Internal server error"@
            &&& before.flow == Flow::Login ==> status == Status::Unauthorized
            &&& before.flow == Flow::Signin ==> status == Status::InternalServerError
        },
{
}

} // verus!
