use receiptgo::ringgo::errors::Error;
use receiptgo::ringgo::json::Json;
use receiptgo::ringgo::parking_sessions::ParkingSession;
use receiptgo::ringgo::transport::{Method, Payload, Reply, Request};
use receiptgo::run::{Action, Event, Outcome, Run, Stage, Step, RECEIPTS_TO_DOWNLOAD};

fn text(value: &str) -> String {
    value.to_string()
}

fn answered(status: u16, body: &str) -> Event {
    Event::Reply(Reply::Answered { status, body: body.as_bytes().to_vec() })
}

fn start(limit: usize) -> Step {
    Run::start(text("alice"), text("s3cret"), text("shh"), limit)
}

fn logged_in(limit: usize) -> Step {
    let body = r#"{"access_token":"T1","token_type":"bearer","expires_in":3600,"refresh_token":"F1"}"#;
    start(limit).run.step(answered(200, body))
}

fn listed(limit: usize, sessions: &[&str]) -> Step {
    let items: Vec<String> =
        sessions.iter().map(|id| format!(r#"{{"Auditlink":"{}"}}"#, id)).collect();
    let body = format!(r#"{{"Sessions":[{}]}}"#, items.join(","));
    logged_in(limit).run.step(answered(200, &body))
}

fn token_request(session: &str, access_token: &str) -> Action {
    Action::RequestToken {
        session: ParkingSession { id: text(session) },
        request: Request {
            method: Method::Post,
            url: text("https://api-blue.myringgo.co.uk/resource/accesstoken"),
            bearer: Some(text(access_token)),
            payload: Payload::Json(Json::Object(vec![
                (text("Identifier"), Json::Text(text(session))),
                (text("ResourceTypeId"), Json::Number(Some(1))),
            ])),
        },
    }
}

fn fetch(resource_access_token: &str) -> Action {
    Action::FetchReceipt(Request {
        method: Method::Get,
        url: format!(
            "https://api-blue.myringgo.co.uk/user/session/receipt/{}",
            resource_access_token
        ),
        bearer: None,
        payload: Payload::Empty,
    })
}

fn token_reply(resource_access_token: &str) -> Event {
    let body = format!(
        r#"{{"ResourceAccessToken":"{}","Success":true,"ReturnCode":0}}"#,
        resource_access_token
    );
    answered(200, &body)
}

fn ids(run: &Run) -> Vec<String> {
    run.sessions().iter().map(|session| session.id.clone()).collect()
}

/// Downloads the current session's receipt without a hitch.
fn download(step: Step, resource_access_token: &str, contents: &[u8]) -> Step {
    let step = step.run.step(token_reply(resource_access_token));
    assert_eq!(step.action, fetch(resource_access_token));
    let step = step.run.step(Event::Reply(Reply::Answered { status: 200, body: contents.to_vec() }));
    assert!(matches!(step.action, Action::StoreReceipt { .. }));
    step.run.step(Event::Stored(true))
}

#[test]
fn five_receipts_are_downloaded_by_default() {
    assert_eq!(RECEIPTS_TO_DOWNLOAD, 5);
}

#[test]
fn a_run_starts_with_the_login() {
    let step = start(5);
    assert_eq!(step.run.stage(), Stage::Unauthenticated);
    assert_eq!(step.settled, None);
    assert!(step.run.sessions().is_empty());
    assert!(step.run.outcomes().is_empty());
    assert_eq!(
        step.action,
        Action::Login(Request {
            method: Method::Post,
            url: text("https://api-blue.myringgo.co.uk/auth/v1/pword"),
            bearer: None,
            payload: Payload::Form(vec![
                (text("client_id"), text("ringgoios")),
                (text("client_secret"), text("shh")),
                (text("grant_type"), text("password")),
                (text("password"), text("s3cret")),
                (text("username"), text("alice")),
            ]),
        })
    );
}

#[test]
fn after_the_login_the_sessions_are_listed_with_the_token() {
    let step = logged_in(5);
    assert_eq!(step.run.stage(), Stage::Authenticated);
    assert_eq!(step.settled, None);
    assert_eq!(
        step.action,
        Action::ListSessions(Request {
            method: Method::Get,
            url: text("https://api-blue.myringgo.co.uk/user/sessions/receipts/1?CountryCode=GB"),
            bearer: Some(text("T1")),
            payload: Payload::Empty,
        })
    );
}

#[test]
fn one_receipt_downloaded_and_one_failed() {
    // The login brings T1 and the listing S1 and S2.
    let step = listed(5, &["S1", "S2"]);
    assert_eq!(step.run.stage(), Stage::TokenRequested);
    assert_eq!(ids(&step.run), vec!["S1", "S2"]);
    assert_eq!(step.action, token_request("S1", "T1"));

    // The token for S1 arrives, then the receipt, and the receipt is stored.
    let step = step.run.step(token_reply("R1"));
    assert_eq!(step.run.stage(), Stage::ReceiptRequested);
    assert_eq!(step.settled, None);
    assert_eq!(step.action, fetch("R1"));
    let step = step.run.step(Event::Reply(Reply::Answered { status: 200, body: b"%PDF-1".to_vec() }));
    assert_eq!(step.run.stage(), Stage::ReceiptFetched);
    assert_eq!(step.settled, None);
    assert_eq!(
        step.action,
        Action::StoreReceipt { file_name: text("S1.pdf"), contents: b"%PDF-1".to_vec() }
    );
    let step = step.run.step(Event::Stored(true));
    assert_eq!(step.settled, Some(Outcome::Downloaded));
    assert_eq!(step.run.stage(), Stage::TokenRequested);
    assert_eq!(step.action, token_request("S2", "T1"));

    // The request of a token for S2 is answered with an error.
    let step = step.run.step(answered(500, "oops"));
    assert_eq!(step.settled, Some(Outcome::Failed(Error::Unknown)));
    assert_eq!(step.run.stage(), Stage::Done);
    assert_eq!(step.action, Action::Finish);
    assert_eq!(
        step.run.outcomes(),
        &vec![Outcome::Downloaded, Outcome::Failed(Error::Unknown)]
    );
}

#[test]
fn a_failure_on_the_first_session_does_not_stop_the_second() {
    let step = listed(5, &["S1", "S2"]);
    let step = step.run.step(Event::Reply(Reply::Failed));
    assert_eq!(step.settled, Some(Outcome::Failed(Error::HttpError)));
    assert_eq!(step.run.stage(), Stage::TokenRequested);
    assert_eq!(step.action, token_request("S2", "T1"));
    let step = download(step, "R2", b"two");
    assert_eq!(step.settled, Some(Outcome::Downloaded));
    assert_eq!(step.action, Action::Finish);
    assert_eq!(
        step.run.outcomes(),
        &vec![Outcome::Failed(Error::HttpError), Outcome::Downloaded]
    );
}

#[test]
fn no_sessions_are_reported_and_nothing_is_downloaded() {
    let step = logged_in(5).run.step(answered(200, r#"{"Sessions":[]}"#));
    assert_eq!(step.action, Action::ReportNoSessions);
    assert_eq!(step.run.stage(), Stage::Done);
    assert_eq!(step.settled, None);
    assert!(step.run.sessions().is_empty());
    assert!(step.run.outcomes().is_empty());
    // Whatever comes next, the run asks for nothing more.
    let step = step.run.step(token_reply("R1"));
    assert_eq!(step.action, Action::Finish);
    assert_eq!(step.run.stage(), Stage::Done);
    let step = step.run.step(Event::Stored(true));
    assert_eq!(step.action, Action::Finish);
    assert!(step.run.outcomes().is_empty());
}

#[test]
fn a_rejected_login_aborts_the_run() {
    let step = start(5).run.step(answered(401, ""));
    assert_eq!(step.run.stage(), Stage::Aborted(Error::Unauthorized));
    assert_eq!(step.action, Action::Abort(Error::Unauthorized));
    assert_eq!(step.settled, None);
    // No listing and no download follows, whatever is fed in.
    let step = step.run.step(answered(200, r#"{"Sessions":[{"Auditlink":"S1"}]}"#));
    assert_eq!(step.action, Action::Abort(Error::Unauthorized));
    let step = step.run.step(token_reply("R1"));
    assert_eq!(step.action, Action::Abort(Error::Unauthorized));
    let step = step.run.step(Event::Stored(true));
    assert_eq!(step.action, Action::Abort(Error::Unauthorized));
    assert_eq!(step.run.stage(), Stage::Aborted(Error::Unauthorized));
    assert!(step.run.sessions().is_empty());
    assert!(step.run.outcomes().is_empty());
}

#[test]
fn a_login_fails_for_each_of_three_reasons() {
    let step = start(5).run.step(Event::Reply(Reply::Failed));
    assert_eq!(step.action, Action::Abort(Error::HttpError));
    let step = start(5).run.step(answered(503, ""));
    assert_eq!(step.action, Action::Abort(Error::Unknown));
    let step = start(5).run.step(answered(200, r#"{"access_token":"T1"}"#));
    assert_eq!(step.action, Action::Abort(Error::Unknown));
    assert_eq!(step.run.stage(), Stage::Aborted(Error::Unknown));
}

#[test]
fn a_failed_listing_aborts_the_run() {
    let step = logged_in(5).run.step(answered(401, ""));
    assert_eq!(step.action, Action::Abort(Error::Unauthorized));
    assert_eq!(step.run.stage(), Stage::Aborted(Error::Unauthorized));
    let step = logged_in(5).run.step(Event::Reply(Reply::Failed));
    assert_eq!(step.action, Action::Abort(Error::HttpError));
    let step = logged_in(5).run.step(answered(200, r#"{"Sessions":"none"}"#));
    assert_eq!(step.action, Action::Abort(Error::Unknown));
    let step = step.run.step(token_reply("R1"));
    assert_eq!(step.action, Action::Abort(Error::Unknown));
}

#[test]
fn only_the_first_sessions_up_to_the_limit_are_attempted() {
    let step = listed(5, &["A", "B", "C", "D", "E", "F", "G"]);
    assert_eq!(ids(&step.run), vec!["A", "B", "C", "D", "E"]);
    let mut step = step;
    for session in ["A", "B", "C", "D", "E"] {
        assert_eq!(step.action, token_request(session, "T1"));
        step = download(step, "R", b"pdf");
        assert_eq!(step.settled, Some(Outcome::Downloaded));
    }
    assert_eq!(step.action, Action::Finish);
    assert_eq!(step.run.stage(), Stage::Done);
    assert_eq!(step.run.outcomes().len(), 5);
}

#[test]
fn a_limit_beyond_the_listing_attempts_them_all() {
    let step = listed(5, &["A", "B"]);
    assert_eq!(ids(&step.run), vec!["A", "B"]);
    let step = listed(2, &["A", "B"]);
    assert_eq!(ids(&step.run), vec!["A", "B"]);
    let step = listed(usize::MAX, &["A", "B", "C"]);
    assert_eq!(ids(&step.run), vec!["A", "B", "C"]);
}

#[test]
fn a_limit_of_one_attempts_the_first_session_only() {
    let step = listed(1, &["A", "B"]);
    assert_eq!(ids(&step.run), vec!["A"]);
    let step = download(step, "R", b"pdf");
    assert_eq!(step.action, Action::Finish);
    assert_eq!(step.run.outcomes(), &vec![Outcome::Downloaded]);
}

#[test]
fn a_limit_of_zero_attempts_nothing() {
    let step = listed(0, &["A", "B"]);
    assert_eq!(step.action, Action::Finish);
    assert_eq!(step.run.stage(), Stage::Done);
    assert!(step.run.sessions().is_empty());
    let step = listed(0, &[]);
    assert_eq!(step.action, Action::ReportNoSessions);
}

#[test]
fn a_receipt_that_cannot_be_fetched_fails_with_http_error() {
    let step = listed(5, &["S1", "S2"]).run.step(token_reply("R1"));
    let step = step.run.step(Event::Reply(Reply::Failed));
    assert_eq!(step.settled, Some(Outcome::Failed(Error::HttpError)));
    assert_eq!(step.action, token_request("S2", "T1"));
}

#[test]
fn a_receipt_that_cannot_be_stored_fails_with_io_error() {
    let step = listed(5, &["S1", "S2"]).run.step(token_reply("R1"));
    let step = step.run.step(Event::Reply(Reply::Answered { status: 200, body: vec![1, 2] }));
    let step = step.run.step(Event::Stored(false));
    assert_eq!(step.settled, Some(Outcome::Failed(Error::IoError)));
    assert_eq!(step.action, token_request("S2", "T1"));
    assert_eq!(step.run.outcomes(), &vec![Outcome::Failed(Error::IoError)]);
}

#[test]
fn a_rejected_token_request_fails_the_session_only() {
    let step = listed(5, &["S1", "S2"]).run.step(answered(401, ""));
    assert_eq!(step.settled, Some(Outcome::Failed(Error::Unauthorized)));
    assert_eq!(step.run.stage(), Stage::TokenRequested);
    assert_eq!(step.action, token_request("S2", "T1"));
}

#[test]
fn what_is_stored_is_what_was_received() {
    let body: Vec<u8> = (0..=255u8).rev().collect();
    let step = listed(5, &["S1"]).run.step(token_reply("R1"));
    let step = step.run.step(Event::Reply(Reply::Answered { status: 200, body: body.clone() }));
    assert_eq!(step.action, Action::StoreReceipt { file_name: text("S1.pdf"), contents: body });
}

#[test]
fn an_empty_receipt_is_stored_as_an_empty_file() {
    let step = listed(5, &["S1"]).run.step(token_reply("R1"));
    let step = step.run.step(Event::Reply(Reply::Answered { status: 404, body: vec![] }));
    assert_eq!(step.action, Action::StoreReceipt { file_name: text("S1.pdf"), contents: vec![] });
}

#[test]
fn the_same_session_twice_is_stored_under_the_same_name() {
    let step = listed(5, &["S1", "S1"]);
    let step = step.run.step(token_reply("R1"));
    let step = step.run.step(Event::Reply(Reply::Answered { status: 200, body: b"one".to_vec() }));
    assert_eq!(
        step.action,
        Action::StoreReceipt { file_name: text("S1.pdf"), contents: b"one".to_vec() }
    );
    let step = step.run.step(Event::Stored(true));
    let step = step.run.step(token_reply("R2"));
    assert_eq!(step.action, fetch("R2"));
    let step = step.run.step(Event::Reply(Reply::Answered { status: 200, body: b"two".to_vec() }));
    assert_eq!(
        step.action,
        Action::StoreReceipt { file_name: text("S1.pdf"), contents: b"two".to_vec() }
    );
}

#[test]
fn each_session_gets_a_token_of_its_own() {
    let step = listed(5, &["S1", "S2"]);
    let step = step.run.step(token_reply("R1"));
    assert_eq!(step.action, fetch("R1"));
    let step = step.run.step(Event::Reply(Reply::Answered { status: 200, body: vec![] }));
    let step = step.run.step(Event::Stored(true));
    assert_eq!(step.action, token_request("S2", "T1"));
    let step = step.run.step(token_reply("R2"));
    assert_eq!(step.action, fetch("R2"));
}

#[test]
fn an_event_of_the_wrong_kind_fails_what_was_awaited() {
    let step = start(5).run.step(Event::Stored(true));
    assert_eq!(step.action, Action::Abort(Error::Unknown));
    let step = logged_in(5).run.step(Event::Stored(false));
    assert_eq!(step.action, Action::Abort(Error::Unknown));
    let step = listed(5, &["S1", "S2"]).run.step(Event::Stored(true));
    assert_eq!(step.settled, Some(Outcome::Failed(Error::Unknown)));
    assert_eq!(step.action, token_request("S2", "T1"));
    let step = step.run.step(token_reply("R2")).run.step(Event::Stored(true));
    assert_eq!(step.settled, Some(Outcome::Failed(Error::Unknown)));
    assert_eq!(step.action, Action::Finish);
    let step = listed(5, &["S1"]).run.step(token_reply("R1"));
    let step = step.run.step(Event::Reply(Reply::Answered { status: 200, body: vec![] }));
    let step = step.run.step(token_reply("R1"));
    assert_eq!(step.settled, Some(Outcome::Failed(Error::Unknown)));
    assert_eq!(step.action, Action::Finish);
}

#[test]
fn a_run_that_is_done_stays_done() {
    let step = download(listed(5, &["S1"]), "R1", b"pdf");
    assert_eq!(step.run.stage(), Stage::Done);
    let step = step.run.step(Event::Reply(Reply::Failed));
    assert_eq!(step.action, Action::Finish);
    assert_eq!(step.settled, None);
    assert_eq!(step.run.stage(), Stage::Done);
    assert_eq!(step.run.outcomes(), &vec![Outcome::Downloaded]);
    assert_eq!(ids(&step.run), vec!["S1"]);
}

#[test]
fn an_empty_access_token_is_used_as_it_is() {
    let body = r#"{"access_token":"","token_type":"bearer","expires_in":1,"refresh_token":""}"#;
    let step = start(5).run.step(answered(200, body));
    assert_eq!(step.run.stage(), Stage::Authenticated);
    match step.action {
        Action::ListSessions(request) => assert_eq!(request.bearer, Some(text(""))),
        other => panic!("not a listing: {:?}", other),
    }
}
