//! One run of the client, as a state machine.
//!
//! A run logs in, lists the parking sessions of the account, and then, for
//! each of the first few sessions, asks for a resource access token, fetches
//! the receipt behind it and has it stored. The machine decides; it performs
//! nothing. [`Run::start`] and [`Run::step`] each hand out an [`Action`]; the
//! caller performs it and comes back with the [`Event`] that tells how it
//! went.
//!
//! A failure to log in or to list the sessions ends the run. A failure on
//! the way to one receipt is recorded for that session, and the run goes on
//! with the next.

use vstd::prelude::*;

use crate::ringgo::authentication::{
    spec_token_from_reply,
    token_from_reply,
    AuthenticationRequest,
    AuthenticationRequestView,
};
use crate::ringgo::downloads::{
    download_token_from_reply,
    receipt_file_name,
    receipt_from_reply,
    receipt_request,
    spec_download_token_from_reply,
    spec_receipt_file_name,
    spec_receipt_from_reply,
    spec_receipt_request,
    DownloadRequest,
    DownloadRequestView,
};
use crate::ringgo::errors::Error;
use crate::ringgo::parking_sessions::{
    parking_sessions_from_reply,
    parking_sessions_request,
    spec_parking_sessions_from_reply,
    spec_parking_sessions_request,
    ParkingSession,
    ParkingSessions,
};
use crate::ringgo::transport::{Reply, Request, RequestView};

verus! {

/// The number of receipts that a run downloads at most, unless it is told
/// otherwise.
pub const RECEIPTS_TO_DOWNLOAD: usize = 5;

/// How the download of one session's receipt ended.
#[derive(Debug, Clone, Copy, PartialEq, Eq, Structural)]
pub enum Outcome {
    /// The receipt was fetched and stored.
    Downloaded,
    /// The receipt was not stored, for this reason.
    Failed(Error),
}

/// Where a run stands: what it is waiting for.
///
/// From [`Stage::Authenticated`] a run goes to [`Stage::TokenRequested`] in
/// one move: the move that takes the listing in also asks for the first
/// token. For each session the run then passes through
/// [`Stage::TokenRequested`], [`Stage::ReceiptRequested`] and
/// [`Stage::ReceiptFetched`], unless a failure settles the session earlier.
#[derive(Debug, Clone, Copy, PartialEq, Eq, Structural)]
pub enum Stage {
    /// No access token yet; the login is under way.
    Unauthenticated,
    /// The access token is held; the listing of the sessions is under way.
    Authenticated,
    /// The sessions are listed; the resource access token of the current
    /// session has been asked for.
    TokenRequested,
    /// The resource access token is held; the fetch of the current session's
    /// receipt is under way.
    ReceiptRequested,
    /// The receipt has arrived in full and is being stored.
    ReceiptFetched,
    /// Every session that the run set out for has been attempted.
    Done,
    /// The login or the listing failed, for this reason. Nothing was
    /// downloaded.
    Aborted(Error),
}

/// What the caller reports back after performing an [`Action`].
#[derive(Debug, PartialEq, Eq)]
pub enum Event {
    /// The outcome of the request that was to be sent.
    Reply(Reply),
    /// Whether the receipt that was to be stored has been written in full.
    Stored(bool),
}

/// What the caller is to do next.
#[derive(Debug, PartialEq, Eq)]
pub enum Action {
    /// Send this request, which logs in.
    Login(Request),
    /// Send this request, which lists the sessions.
    ListSessions(Request),
    /// Send this request, which asks for the resource access token of
    /// `session`.
    RequestToken { session: ParkingSession, request: Request },
    /// Send this request, which fetches a receipt.
    FetchReceipt(Request),
    /// Write `contents` to the file `file_name`, in place of what the file
    /// may hold.
    StoreReceipt { file_name: String, contents: Vec<u8> },
    /// Tell the user that the account has no parking sessions. The run is
    /// over.
    ReportNoSessions,
    /// Nothing: the run is over.
    Finish,
    /// Give up for this reason. The run is over.
    Abort(Error),
}

/// What an [`Action`] holds, with every string as its characters.
pub enum ActionView {
    Login(RequestView),
    ListSessions(RequestView),
    RequestToken { session: Seq<char>, request: RequestView },
    FetchReceipt(RequestView),
    StoreReceipt { file_name: Seq<char>, contents: Seq<u8> },
    ReportNoSessions,
    Finish,
    Abort(Error),
}

impl View for Action {
    type V = ActionView;

    open spec fn view(&self) -> ActionView {
        match self {
            Action::Login(request) => ActionView::Login(request@),
            Action::ListSessions(request) => ActionView::ListSessions(request@),
            Action::RequestToken { session, request } => ActionView::RequestToken {
                session: session@,
                request: request@,
            },
            Action::FetchReceipt(request) => ActionView::FetchReceipt(request@),
            Action::StoreReceipt { file_name, contents } => ActionView::StoreReceipt {
                file_name: file_name@,
                contents: contents@,
            },
            Action::ReportNoSessions => ActionView::ReportNoSessions,
            Action::Finish => ActionView::Finish,
            Action::Abort(error) => ActionView::Abort(*error),
        }
    }
}

/// The state of a run.
#[derive(Debug)]
pub struct Run {
    stage: Stage,
    limit: usize,
    access_token: String,
    sessions: Vec<ParkingSession>,
    outcomes: Vec<Outcome>,
}

/// What a [`Run`] holds.
pub struct RunView {
    pub stage: Stage,
    /// The most sessions that the run attempts.
    pub limit: nat,
    /// The access token; empty until the login has succeeded.
    pub access_token: Seq<char>,
    /// The identifiers of the sessions that the run attempts, in order; empty
    /// until the sessions are listed.
    pub sessions: Seq<Seq<char>>,
    /// How the sessions attempted so far ended, in the order of `sessions`.
    pub outcomes: Seq<Outcome>,
}

/// One move of the machine: the state it reaches, the outcome that the move
/// settled for a session, if any, and what is to be done next.
#[derive(Debug)]
pub struct Step {
    pub run: Run,
    pub settled: Option<Outcome>,
    pub action: Action,
}

/// What a [`Step`] holds.
pub struct StepView {
    pub run: RunView,
    pub settled: Option<Outcome>,
    pub action: ActionView,
}

impl RunView {
    /// What holds of every run: it attempts no more sessions than its limit
    /// allows, has no sessions before they are listed, is at work on a
    /// session that it has while it downloads, and has attempted all of them
    /// when it is done.
    pub open spec fn wf(self) -> bool {
        &&& self.outcomes.len() <= self.sessions.len() <= self.limit
        &&& match self.stage {
            Stage::Unauthenticated | Stage::Authenticated | Stage::Aborted(_) => {
                self.sessions.len() == 0
            },
            Stage::TokenRequested | Stage::ReceiptRequested | Stage::ReceiptFetched => {
                self.outcomes.len() < self.sessions.len()
            },
            Stage::Done => self.outcomes.len() == self.sessions.len(),
        }
    }

    /// The session that the run is at work on: the first that has no outcome.
    pub open spec fn current(self) -> Seq<char>
        recommends
            self.outcomes.len() < self.sessions.len(),
    {
        self.sessions[self.outcomes.len() as int]
    }

    /// The most moves that the run still makes before it is over: one for
    /// the login, one for the listing, and three for each session, which are
    /// the request of its token, the fetch of its receipt and the storing.
    pub open spec fn moves_left(self) -> nat {
        match self.stage {
            Stage::Unauthenticated => 2 + 3 * self.limit,
            Stage::Authenticated => 1 + 3 * self.limit,
            Stage::TokenRequested => (3 * (self.sessions.len() - self.outcomes.len())) as nat,
            Stage::ReceiptRequested => (3 * (self.sessions.len() - self.outcomes.len())
                - 1) as nat,
            Stage::ReceiptFetched => (3 * (self.sessions.len() - self.outcomes.len()) - 2) as nat,
            Stage::Done | Stage::Aborted(_) => 0,
        }
    }

    /// The action that asks for the resource access token of `session`.
    pub open spec fn request_token(self, session: Seq<char>) -> ActionView {
        ActionView::RequestToken {
            session,
            request: DownloadRequestView::new(session).request(self.access_token),
        }
    }

    /// The first move of a run that attempts at most `limit` sessions: it
    /// logs in with the credentials.
    pub open spec fn start(
        username: Seq<char>,
        password: Seq<char>,
        client_secret: Seq<char>,
        limit: nat,
    ) -> StepView {
        StepView {
            run: RunView {
                stage: Stage::Unauthenticated,
                limit,
                access_token: Seq::empty(),
                sessions: Seq::empty(),
                outcomes: Seq::empty(),
            },
            settled: None,
            action: ActionView::Login(
                AuthenticationRequestView::new(username, password, client_secret).request(),
            ),
        }
    }

    /// The move that gives the run up because of `error`.
    pub open spec fn abort(self, error: Error) -> StepView {
        StepView {
            run: RunView { stage: Stage::Aborted(error), ..self },
            settled: None,
            action: ActionView::Abort(error),
        }
    }

    /// The move after a login that brought `access_token`: the sessions are
    /// listed with it.
    pub open spec fn authenticated(self, access_token: Seq<char>) -> StepView {
        StepView {
            run: RunView { stage: Stage::Authenticated, access_token, ..self },
            settled: None,
            action: ActionView::ListSessions(spec_parking_sessions_request(access_token)),
        }
    }

    /// The move after a listing that brought `listed`. Where the account has
    /// no sessions the run ends with a report of that. Otherwise the run
    /// keeps the first sessions, as many as its limit allows, and starts on
    /// the first of them; where the limit allows none, it ends.
    pub open spec fn listed(self, listed: Seq<Seq<char>>) -> StepView {
        if listed.len() == 0 {
            StepView {
                run: RunView { stage: Stage::Done, ..self },
                settled: None,
                action: ActionView::ReportNoSessions,
            }
        } else if self.limit == 0 {
            StepView {
                run: RunView { stage: Stage::Done, ..self },
                settled: None,
                action: ActionView::Finish,
            }
        } else {
            let sessions = if listed.len() <= self.limit {
                listed
            } else {
                listed.subrange(0, self.limit as int)
            };
            StepView {
                run: RunView { stage: Stage::TokenRequested, sessions, ..self },
                settled: None,
                action: self.request_token(sessions[0]),
            }
        }
    }

    /// The move after the resource access token of the current session has
    /// arrived: the receipt behind it is fetched.
    pub open spec fn token_received(self, resource_access_token: Seq<char>) -> StepView {
        StepView {
            run: RunView { stage: Stage::ReceiptRequested, ..self },
            settled: None,
            action: ActionView::FetchReceipt(spec_receipt_request(resource_access_token)),
        }
    }

    /// The move after the receipt of the current session has arrived in
    /// full: these very bytes are stored under the session's file name.
    pub open spec fn receipt_received(self, contents: Seq<u8>) -> StepView {
        StepView {
            run: RunView { stage: Stage::ReceiptFetched, ..self },
            settled: None,
            action: ActionView::StoreReceipt {
                file_name: spec_receipt_file_name(self.current()),
                contents,
            },
        }
    }

    /// The move that settles the current session with `outcome`: the run
    /// starts on the next session, or is done where there is none.
    pub open spec fn settle(self, outcome: Outcome) -> StepView {
        let outcomes = self.outcomes.push(outcome);
        if outcomes.len() < self.sessions.len() {
            StepView {
                run: RunView { stage: Stage::TokenRequested, outcomes, ..self },
                settled: Some(outcome),
                action: self.request_token(self.sessions[outcomes.len() as int]),
            }
        } else {
            StepView {
                run: RunView { stage: Stage::Done, outcomes, ..self },
                settled: Some(outcome),
                action: ActionView::Finish,
            }
        }
    }

    /// The move that the run makes on `event`.
    ///
    /// An event of the wrong kind, a stored file where a reply is awaited or
    /// a reply where a stored file is, counts as a failure of the awaited
    /// action with [`Error::Unknown`]. A run that is over stays as it is: one
    /// that is done has nothing more to do, and one that is aborted gives up
    /// again for the same reason.
    pub open spec fn step(self, event: Event) -> StepView {
        match self.stage {
            Stage::Unauthenticated => match event {
                Event::Reply(reply) => match spec_token_from_reply(reply) {
                    Ok(access_token) => self.authenticated(access_token),
                    Err(error) => self.abort(error),
                },
                Event::Stored(_) => self.abort(Error::Unknown),
            },
            Stage::Authenticated => match event {
                Event::Reply(reply) => match spec_parking_sessions_from_reply(reply) {
                    Ok(listed) => self.listed(listed),
                    Err(error) => self.abort(error),
                },
                Event::Stored(_) => self.abort(Error::Unknown),
            },
            Stage::TokenRequested => match event {
                Event::Reply(reply) => match spec_download_token_from_reply(reply) {
                    Ok(resource_access_token) => self.token_received(resource_access_token),
                    Err(error) => self.settle(Outcome::Failed(error)),
                },
                Event::Stored(_) => self.settle(Outcome::Failed(Error::Unknown)),
            },
            Stage::ReceiptRequested => match event {
                Event::Reply(reply) => match spec_receipt_from_reply(reply) {
                    Ok(contents) => self.receipt_received(contents),
                    Err(error) => self.settle(Outcome::Failed(error)),
                },
                Event::Stored(_) => self.settle(Outcome::Failed(Error::Unknown)),
            },
            Stage::ReceiptFetched => match event {
                Event::Stored(true) => self.settle(Outcome::Downloaded),
                Event::Stored(false) => self.settle(Outcome::Failed(Error::IoError)),
                Event::Reply(_) => self.settle(Outcome::Failed(Error::Unknown)),
            },
            Stage::Done => StepView { run: self, settled: None, action: ActionView::Finish },
            Stage::Aborted(error) => StepView {
                run: self,
                settled: None,
                action: ActionView::Abort(error),
            },
        }
    }
}

impl View for Run {
    type V = RunView;

    closed spec fn view(&self) -> RunView {
        RunView {
            stage: self.stage,
            limit: self.limit as nat,
            access_token: self.access_token@,
            sessions: self.sessions.deep_view(),
            outcomes: self.outcomes@,
        }
    }
}

impl Run {
    #[verifier::type_invariant]
    spec fn well_formed(self) -> bool {
        self@.wf()
    }

    /// Starts a run that attempts at most `limit` sessions: the machine
    /// waits for the login, and the action is to log in with the credentials.
    pub fn start(
        username: String,
        password: String,
        client_secret: String,
        limit: usize,
    ) -> (step: Step)
        ensures
            step@ == RunView::start(username@, password@, client_secret@, limit as nat),
            step@.run.wf(),
    {
        let login = AuthenticationRequest::new(username, password, client_secret);
        let run = Run {
            stage: Stage::Unauthenticated,
            limit,
            access_token: String::new(),
            sessions: Vec::new(),
            outcomes: Vec::new(),
        };
        assert(run.sessions.deep_view() =~= Seq::<Seq<char>>::empty());
        Step { run, settled: None, action: Action::Login(login.request()) }
    }

    /// Where the run stands.
    pub fn stage(&self) -> (stage: Stage)
        ensures
            stage == self@.stage,
    {
        self.stage
    }

    /// The sessions that the run attempts, in order.
    pub fn sessions(&self) -> (sessions: &Vec<ParkingSession>)
        ensures
            sessions.deep_view() == self@.sessions,
    {
        &self.sessions
    }

    /// How the sessions attempted so far ended, in the order of the
    /// sessions.
    pub fn outcomes(&self) -> (outcomes: &Vec<Outcome>)
        ensures
            outcomes@ == self@.outcomes,
    {
        &self.outcomes
    }

    fn abort(self, error: Error) -> (step: Step)
        requires
            self@.stage is Unauthenticated || self@.stage is Authenticated,
        ensures
            step@ == self@.abort(error),
            step@.run.wf(),
    {
        proof {
            use_type_invariant(&self);
        }
        let Run { stage: _, limit, access_token, sessions, outcomes } = self;
        let run = Run { stage: Stage::Aborted(error), limit, access_token, sessions, outcomes };
        Step { run, settled: None, action: Action::Abort(error) }
    }

    fn authenticated(self, token: String) -> (step: Step)
        requires
            self@.stage is Unauthenticated,
        ensures
            step@ == self@.authenticated(token@),
            step@.run.wf(),
    {
        proof {
            use_type_invariant(&self);
        }
        let Run { stage: _, limit, access_token: _, sessions, outcomes } = self;
        let request = parking_sessions_request(token.as_str());
        let run = Run { stage: Stage::Authenticated, limit, access_token: token, sessions, outcomes };
        Step { run, settled: None, action: Action::ListSessions(request) }
    }

    fn request_token(&self, index: usize) -> (action: Action)
        requires
            index < self@.sessions.len(),
        ensures
            action@ == self@.request_token(self@.sessions[index as int]),
    {
        let session = ParkingSession { id: self.sessions[index].id.clone() };
        let request = DownloadRequest::new(session.id.clone()).request(self.access_token.as_str());
        Action::RequestToken { session, request }
    }

    fn listed(self, listed: ParkingSessions) -> (step: Step)
        requires
            self@.stage is Authenticated,
        ensures
            step@ == self@.listed(listed@),
            step@.run.wf(),
    {
        proof {
            use_type_invariant(&self);
        }
        let Run { stage: _, limit, access_token, sessions: _, outcomes } = self;
        let mut sessions = listed.sessions;
        if sessions.len() == 0 {
            let run = Run { stage: Stage::Done, limit, access_token, sessions, outcomes };
            assert(run.sessions.deep_view() =~= self@.sessions);
            return Step { run, settled: None, action: Action::ReportNoSessions };
        }
        if limit == 0 {
            let run = Run {
                stage: Stage::Done,
                limit,
                access_token,
                sessions: Vec::new(),
                outcomes,
            };
            assert(run.sessions.deep_view() =~= self@.sessions);
            return Step { run, settled: None, action: Action::Finish };
        }
        sessions.truncate(limit);
        assert(sessions.deep_view() =~= if listed@.len() <= limit {
            listed@
        } else {
            listed@.subrange(0, limit as int)
        });
        let run = Run { stage: Stage::TokenRequested, limit, access_token, sessions, outcomes };
        let action = run.request_token(0);
        Step { run, settled: None, action }
    }

    fn token_received(self, resource_access_token: String) -> (step: Step)
        requires
            self@.stage is TokenRequested,
        ensures
            step@ == self@.token_received(resource_access_token@),
            step@.run.wf(),
    {
        proof {
            use_type_invariant(&self);
        }
        let Run { stage: _, limit, access_token, sessions, outcomes } = self;
        let request = receipt_request(resource_access_token.as_str());
        let run = Run { stage: Stage::ReceiptRequested, limit, access_token, sessions, outcomes };
        Step { run, settled: None, action: Action::FetchReceipt(request) }
    }

    fn receipt_received(self, contents: Vec<u8>) -> (step: Step)
        requires
            self@.stage is ReceiptRequested,
        ensures
            step@ == self@.receipt_received(contents@),
            step@.run.wf(),
    {
        proof {
            use_type_invariant(&self);
        }
        let file_name = receipt_file_name(self.sessions[self.outcomes.len()].id.as_str());
        let Run { stage: _, limit, access_token, sessions, outcomes } = self;
        let run = Run { stage: Stage::ReceiptFetched, limit, access_token, sessions, outcomes };
        Step { run, settled: None, action: Action::StoreReceipt { file_name, contents } }
    }

    fn settle(self, outcome: Outcome) -> (step: Step)
        requires
            self@.stage is TokenRequested || self@.stage is ReceiptRequested
                || self@.stage is ReceiptFetched,
        ensures
            step@ == self@.settle(outcome),
            step@.run.wf(),
    {
        proof {
            use_type_invariant(&self);
        }
        let Run { stage: _, limit, access_token, sessions, mut outcomes } = self;
        outcomes.push(outcome);
        if outcomes.len() < sessions.len() {
            let next = outcomes.len();
            let run = Run { stage: Stage::TokenRequested, limit, access_token, sessions, outcomes };
            let action = run.request_token(next);
            Step { run, settled: Some(outcome), action }
        } else {
            let run = Run { stage: Stage::Done, limit, access_token, sessions, outcomes };
            Step { run, settled: Some(outcome), action: Action::Finish }
        }
    }

    /// Makes the move that the run makes on `event`: consumes the state and
    /// returns the next one, with the outcome that the event settled, if any,
    /// and the next action.
    pub fn step(self, event: Event) -> (step: Step)
        ensures
            step@ == self@.step(event),
            step@.run.wf(),
    {
        proof {
            use_type_invariant(&self);
        }
        match self.stage {
            Stage::Unauthenticated => match event {
                Event::Reply(reply) => match token_from_reply(&reply) {
                    Ok(access_token) => self.authenticated(access_token),
                    Err(error) => self.abort(error),
                },
                Event::Stored(_) => self.abort(Error::Unknown),
            },
            Stage::Authenticated => match event {
                Event::Reply(reply) => match parking_sessions_from_reply(&reply) {
                    Ok(Some(listed)) => self.listed(listed),
                    Ok(None) => self.listed(ParkingSessions { sessions: Vec::new() }),
                    Err(error) => self.abort(error),
                },
                Event::Stored(_) => self.abort(Error::Unknown),
            },
            Stage::TokenRequested => match event {
                Event::Reply(reply) => match download_token_from_reply(&reply) {
                    Ok(resource_access_token) => self.token_received(resource_access_token),
                    Err(error) => self.settle(Outcome::Failed(error)),
                },
                Event::Stored(_) => self.settle(Outcome::Failed(Error::Unknown)),
            },
            Stage::ReceiptRequested => match event {
                Event::Reply(reply) => match receipt_from_reply(reply) {
                    Ok(contents) => self.receipt_received(contents),
                    Err(error) => self.settle(Outcome::Failed(error)),
                },
                Event::Stored(_) => self.settle(Outcome::Failed(Error::Unknown)),
            },
            Stage::ReceiptFetched => match event {
                Event::Stored(true) => self.settle(Outcome::Downloaded),
                Event::Stored(false) => self.settle(Outcome::Failed(Error::IoError)),
                Event::Reply(_) => self.settle(Outcome::Failed(Error::Unknown)),
            },
            Stage::Done => Step { run: self, settled: None, action: Action::Finish },
            Stage::Aborted(error) => Step { run: self, settled: None, action: Action::Abort(error) },
        }
    }
}

impl View for Step {
    type V = StepView;

    open spec fn view(&self) -> StepView {
        StepView { run: self.run@, settled: self.settled, action: self.action@ }
    }
}

/// Every move of a well-formed run leads to a well-formed run with the same
/// limit. The sessions, once chosen, stay as they are, and so does the access
/// token once the login has brought it. A move settles at most one session,
/// and exactly then does the list of outcomes grow, by that outcome.
pub proof fn lemma_step_keeps_the_run(run: RunView, event: Event)
    requires
        run.wf(),
    ensures
        run.step(event).run.wf(),
        run.step(event).run.limit == run.limit,
        !(run.stage is Unauthenticated) ==> run.step(event).run.access_token == run.access_token,
        !(run.stage is Authenticated) ==> run.step(event).run.sessions == run.sessions,
        match run.step(event).settled {
            Some(outcome) => run.step(event).run.outcomes == run.outcomes.push(outcome),
            None => run.step(event).run.outcomes == run.outcomes,
        },
{
}

/// A run that is done or aborted is over: whatever the event, it stays as it
/// is, settles nothing, and asks for no request and no file.
pub proof fn lemma_a_run_that_is_over_stays_over(run: RunView, event: Event)
    requires
        run.stage is Done || run.stage is Aborted,
    ensures
        run.step(event).run == run,
        run.step(event).settled is None,
        run.stage is Done ==> run.step(event).action == ActionView::Finish,
        run.stage matches Stage::Aborted(error) ==> run.step(event).action == ActionView::Abort(
            error,
        ),
{
}

/// Every move of a run that is not over brings its end nearer, so that a run
/// is over after two moves and three more for each session that its limit
/// allows, at most. Nothing is tried a second time.
pub proof fn lemma_every_move_brings_the_end_nearer(run: RunView, event: Event)
    requires
        run.wf(),
        !(run.stage is Done || run.stage is Aborted),
    ensures
        run.step(event).run.moves_left() < run.moves_left(),
        run.moves_left() <= 2 + 3 * run.limit,
{
}

/// A login that fails aborts the run with the error of the login, before any
/// session is listed or any receipt asked for.
pub proof fn lemma_a_failed_login_aborts(run: RunView, reply: Reply)
    requires
        run.stage is Unauthenticated,
        spec_token_from_reply(reply) is Err,
    ensures
        run.step(Event::Reply(reply)).run.stage == Stage::Aborted(
            spec_token_from_reply(reply)->Err_0,
        ),
        run.step(Event::Reply(reply)).action == ActionView::Abort(
            spec_token_from_reply(reply)->Err_0,
        ),
{
}

/// A listing that fails aborts the run with the error of the listing, before
/// any receipt is asked for.
pub proof fn lemma_a_failed_listing_aborts(run: RunView, reply: Reply)
    requires
        run.stage is Authenticated,
        spec_parking_sessions_from_reply(reply) is Err,
    ensures
        run.step(Event::Reply(reply)).run.stage == Stage::Aborted(
            spec_parking_sessions_from_reply(reply)->Err_0,
        ),
        run.step(Event::Reply(reply)).action == ActionView::Abort(
            spec_parking_sessions_from_reply(reply)->Err_0,
        ),
{
}

/// A listing without sessions ends the run with the report that there are
/// none.
pub proof fn lemma_no_sessions_are_reported(run: RunView, reply: Reply)
    requires
        run.stage is Authenticated,
        spec_parking_sessions_from_reply(reply) == Ok::<Seq<Seq<char>>, Error>(Seq::empty()),
    ensures
        run.step(Event::Reply(reply)).run.stage == Stage::Done,
        run.step(Event::Reply(reply)).action == ActionView::ReportNoSessions,
{
}

/// A run attempts the sessions that the provider lists first, in the
/// provider's order, and no more of them than its limit allows.
pub proof fn lemma_the_first_sessions_are_attempted(run: RunView, reply: Reply)
    requires
        run.wf(),
        run.stage is Authenticated,
        spec_parking_sessions_from_reply(reply) is Ok,
    ensures
        ({
            let listed = spec_parking_sessions_from_reply(reply)->Ok_0;
            let chosen = run.step(Event::Reply(reply)).run.sessions;
            &&& chosen.len() <= run.limit
            &&& chosen.len() <= listed.len()
            &&& chosen.len() == run.limit || chosen.len() == listed.len()
            &&& forall|i: int| 0 <= i < chosen.len() ==> chosen[i] == listed[i]
        }),
{
}

/// While receipts are downloaded nothing aborts the run. Whatever settles
/// the current session, a failure as well as a success, the run turns to the
/// next session and asks for its resource access token, or is done where the
/// settled session was the last.
pub proof fn lemma_a_failure_moves_on(run: RunView, event: Event)
    requires
        run.wf(),
        run.stage is TokenRequested || run.stage is ReceiptRequested
            || run.stage is ReceiptFetched,
    ensures
        !(run.step(event).run.stage is Aborted),
        run.step(event).settled is Some ==> if run.outcomes.len() + 1 < run.sessions.len() {
            &&& run.step(event).run.stage == Stage::TokenRequested
            &&& run.step(event).action == run.request_token(
                run.sessions[run.outcomes.len() as int + 1],
            )
        } else {
            &&& run.step(event).run.stage == Stage::Done
            &&& run.step(event).action == ActionView::Finish
        },
{
}

/// No request goes out before the token it needs has been received. The
/// listing carries the access token that the reply to the login has just
/// brought. A request for a resource access token is made only after the
/// login, for the session that the run is at work on next, and carries the
/// run's access token. A receipt is fetched only with the resource access
/// token that the reply for this very session has just brought. A run that
/// has started never logs in again.
pub proof fn lemma_requests_follow_their_tokens(run: RunView, event: Event)
    requires
        run.wf(),
    ensures
        match run.step(event).action {
            ActionView::Login(_) => false,
            ActionView::ListSessions(request) => {
                &&& run.stage is Unauthenticated
                &&& event matches Event::Reply(reply)
                &&& spec_token_from_reply(reply) matches Ok(access_token)
                &&& request == spec_parking_sessions_request(access_token)
                &&& run.step(event).run.access_token == access_token
            },
            ActionView::RequestToken { session, request } => {
                &&& !(run.stage is Unauthenticated)
                &&& session == run.step(event).run.current()
                &&& request == DownloadRequestView::new(session).request(run.access_token)
            },
            ActionView::FetchReceipt(request) => {
                &&& run.stage is TokenRequested
                &&& event matches Event::Reply(reply)
                &&& spec_download_token_from_reply(reply) matches Ok(resource_access_token)
                &&& request == spec_receipt_request(resource_access_token)
            },
            _ => true,
        },
{
}

/// What is stored is what was received: the bytes handed over for storing
/// are those of the reply's body, one for one, under the file name of the
/// session that the run is at work on. Nothing is stored before the whole
/// body has arrived, and nothing where the fetch failed.
pub proof fn lemma_a_receipt_is_stored_as_received(run: RunView, event: Event)
    requires
        run.wf(),
    ensures
        run.step(event).action matches ActionView::StoreReceipt { file_name, contents } ==> {
            &&& run.stage is ReceiptRequested
            &&& event matches Event::Reply(Reply::Answered { status, body })
            &&& contents == body@
            &&& file_name == spec_receipt_file_name(run.current())
        },
        run.stage is ReceiptRequested ==> (event matches Event::Reply(
            Reply::Answered { status, body },
        ) ==> run.step(event).action == ActionView::StoreReceipt {
            file_name: spec_receipt_file_name(run.current()),
            contents: body@,
        }),
{
}

} // verus!
