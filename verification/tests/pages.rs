use chatroom::auth::{authenticate, Credentials, User};
use chatroom::models::ChatRoom;
use chatroom::pages::home::{create_room, home};
use chatroom::pages::login::{
    login, signin, Action, AuthOutcome, Event, Flow, NextPage, Reply, Stage, Status,
};

fn room(name: &str, password: Option<&str>) -> ChatRoom {
    ChatRoom { name: name.to_string(), password: password.map(|p| p.to_string()) }
}

fn credentials(username: &str, password: &str) -> Credentials {
    Credentials { username: username.to_string(), password: password.to_string() }
}

fn next(page: Option<&str>) -> NextPage {
    NextPage { next: page.map(|p| p.to_string()) }
}

fn expect_refusal(action: Action, status: Status, text: &str) {
    match action {
        Action::Respond(Reply::Refuse { status: s, message }) => {
            assert_eq!(s, status);
            assert_eq!(message, text);
        }
        other => panic!("expected a refusal, got {:?}", other),
    }
}

fn expect_redirect(action: Action, to: &str) {
    match action {
        Action::Respond(Reply::Redirect { location, status }) => {
            assert_eq!(location, to);
            assert_eq!(status, Status::Success);
            assert_eq!(status.code(), 200);
        }
        other => panic!("expected a redirect, got {:?}", other),
    }
}

#[test]
fn home_lists_every_room_in_order() {
    let page = home(vec![room("lobby", None), room("vault", Some("k")), room("games", None)]);
    let cards: Vec<(String, bool)> =
        page.room_cards.into_iter().map(|c| (c.name, c.has_password)).collect();
    assert_eq!(
        cards,
        vec![("lobby".to_string(), false), ("vault".to_string(), true), ("games".to_string(), false)]
    );
    assert!(home(vec![]).room_cards.is_empty());
}

#[test]
fn created_room_closes_the_dialog() {
    let created = create_room(room("vault", Some("k")));
    assert_eq!(created.trigger_header, "Hx-Trigger");
    assert_eq!(created.trigger_event, "closeModal");
    assert_eq!(created.card.name, "vault");
    assert!(created.card.has_password);
}

#[test]
fn status_codes() {
    assert_eq!(Status::Success.code(), 200);
    assert_eq!(Status::Unauthorized.code(), 401);
    assert_eq!(Status::InternalServerError.code(), 500);
    assert_eq!(Status::NotFound.code(), 404);
}

#[test]
fn login_asks_the_backend_first() {
    let (exchange, action) = login(next(None), credentials("alice", "pw"));
    assert_eq!(exchange.flow, Flow::Login);
    assert!(matches!(exchange.stage, Stage::Authenticating));
    match action {
        Action::Authenticate(c) => {
            assert_eq!(c.username, "alice");
            assert_eq!(c.password, "pw");
        }
        other => panic!("expected authentication, got {:?}", other),
    }
    assert!(exchange.accepts(&Event::Authenticated(AuthOutcome::Rejected)));
    assert!(!exchange.accepts(&Event::Stored(true)));
    assert!(!exchange.accepts(&Event::SessionStarted(true)));
    assert!(exchange.user().is_none());
}

#[test]
fn rejected_login_is_refused_unauthorized() {
    let (exchange, _) = login(next(None), credentials("alice", "bogus"));
    let (exchange, action) = exchange.step(Event::Authenticated(AuthOutcome::Rejected));
    assert!(matches!(exchange.stage, Stage::Done));
    expect_refusal(action, Status::Unauthorized, "Invalid username or password");
}

#[test]
fn failing_backend_is_an_internal_error() {
    let (exchange, _) = login(next(None), credentials("alice", "pw"));
    let (exchange, action) = exchange.step(Event::Authenticated(AuthOutcome::Failed));
    assert!(matches!(exchange.stage, Stage::Done));
    expect_refusal(action, Status::InternalServerError, "Internal server error");
}

#[test]
fn successful_login_goes_to_next_page() {
    let user = User::from_stored("alice".to_string(), "hash".to_string());
    let (exchange, _) = login(next(Some("/join/lobby")), credentials("alice", "pw"));
    let (exchange, action) = exchange.step(Event::Authenticated(AuthOutcome::Found(user)));
    assert!(matches!(action, Action::StartSession));
    assert_eq!(exchange.user().map(|u| u.username.clone()), Some("alice".to_string()));
    assert!(exchange.accepts(&Event::SessionStarted(true)));
    let (exchange, action) = exchange.step(Event::SessionStarted(true));
    assert!(matches!(exchange.stage, Stage::Done));
    expect_redirect(action, "/join/lobby");
}

#[test]
fn successful_login_without_next_goes_home() {
    let user = User::from_stored("alice".to_string(), "hash".to_string());
    let (exchange, _) = login(next(None), credentials("alice", "pw"));
    let (exchange, _) = exchange.step(Event::Authenticated(AuthOutcome::Found(user)));
    let (_, action) = exchange.step(Event::SessionStarted(true));
    expect_redirect(action, "/home");
}

#[test]
fn failed_login_session_is_refused_unauthorized() {
    let user = User::from_stored("alice".to_string(), "hash".to_string());
    let (exchange, _) = login(next(None), credentials("alice", "pw"));
    let (exchange, _) = exchange.step(Event::Authenticated(AuthOutcome::Found(user)));
    let (exchange, action) = exchange.step(Event::SessionStarted(false));
    assert!(matches!(exchange.stage, Stage::Done));
    expect_refusal(action, Status::Unauthorized, "Internal server error");
}

#[test]
fn signin_makes_an_account_with_the_default_password() {
    let (exchange, action) = signin(next(None), credentials("dave", "ignored"));
    assert_eq!(exchange.flow, Flow::Signin);
    assert!(matches!(action, Action::StoreUser));
    assert!(exchange.accepts(&Event::Stored(true)));
    assert!(!exchange.accepts(&Event::Authenticated(AuthOutcome::Rejected)));
    let user = exchange.user().expect("the new account").clone();
    assert_eq!(user.username, "dave");
    assert!(user.password().starts_with("$argon2id$v=19$m=19456,t=2,p=1$"));
    // The account answers to "1234", not to the submitted password.
    let hash = user.password().to_string();
    assert!(authenticate(Some(user), &credentials("dave", "1234")).is_some());
    let user = User::from_stored("dave".to_string(), hash);
    assert!(authenticate(Some(user), &credentials("dave", "ignored")).is_none());
}

#[test]
fn signin_walks_to_next_page() {
    let (exchange, _) = signin(next(Some("/home")), credentials("erin", "x"));
    let (exchange, action) = exchange.step(Event::Stored(true));
    assert!(matches!(action, Action::StartSession));
    assert_eq!(exchange.user().map(|u| u.username.clone()), Some("erin".to_string()));
    let (exchange, action) = exchange.step(Event::SessionStarted(true));
    assert!(matches!(exchange.stage, Stage::Done));
    expect_redirect(action, "/home");
}

#[test]
fn signin_store_failure_is_an_internal_error() {
    let (exchange, _) = signin(next(None), credentials("frank", "x"));
    let (exchange, action) = exchange.step(Event::Stored(false));
    assert!(matches!(exchange.stage, Stage::Done));
    expect_refusal(action, Status::InternalServerError, "Internal server error");
}

#[test]
fn signin_session_failure_is_an_internal_error() {
    let (exchange, _) = signin(next(None), credentials("grace", "x"));
    let (exchange, _) = exchange.step(Event::Stored(true));
    let (_, action) = exchange.step(Event::SessionStarted(false));
    expect_refusal(action, Status::InternalServerError, "Internal server error");
}
