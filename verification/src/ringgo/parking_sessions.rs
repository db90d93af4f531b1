//! Listing the parking sessions of the account.

use vstd::prelude::*;

use crate::ringgo::errors::Error;
use crate::ringgo::json::{items_view, parsed_json, Json, JsonView};
use crate::ringgo::transport::{Method, Payload, PayloadView, Reply, Request, RequestView};
use crate::ringgo::url_helpers::{parking_sessions_url, spec_parking_sessions_url};

verus! {

/// The parking sessions of an account, in the order in which the provider
/// lists them.
#[derive(Debug, PartialEq, Eq)]
pub struct ParkingSessions {
    pub sessions: Vec<ParkingSession>,
}

/// One parking session.
#[derive(Debug, PartialEq, Eq)]
pub struct ParkingSession {
    /// The provider's identifier of the session: its audit link.
    pub id: String,
}

impl View for ParkingSession {
    type V = Seq<char>;

    /// A session is viewed as its identifier.
    open spec fn view(&self) -> Seq<char> {
        self.id@
    }
}

impl DeepView for ParkingSession {
    type V = Seq<char>;

    open spec fn deep_view(&self) -> Seq<char> {
        self.id@
    }
}

impl View for ParkingSessions {
    type V = Seq<Seq<char>>;

    /// A list of sessions is viewed as their identifiers, in order.
    open spec fn view(&self) -> Seq<Seq<char>> {
        self.sessions.deep_view()
    }
}

/// The identifier of the session that `item` describes. The provider writes
/// it under one of two names, `Id` and `Auditlink`; `item` describes a
/// session where it is an object in which exactly one of the two is present,
/// and that one is a string.
pub open spec fn spec_session_id(item: JsonView) -> Option<Seq<char>> {
    match (item.field("Id"@), item.field("Auditlink"@)) {
        (Some(JsonView::Text(id)), None) => Some(id),
        (None, Some(JsonView::Text(id))) => Some(id),
        _ => None,
    }
}

/// The identifiers of the sessions that `items` describe, one for each item
/// and in the same order, or `None` where one of them describes no session.
pub open spec fn spec_session_ids(items: Seq<JsonView>) -> Option<Seq<Seq<char>>> {
    if forall|i: int| 0 <= i < items.len() ==> (#[trigger] spec_session_id(items[i])) is Some {
        Some(Seq::new(items.len(), |i: int| spec_session_id(items[i])->Some_0))
    } else {
        None
    }
}

/// The sessions that `document` lists: it is an object whose member
/// `Sessions` is an array of which every item describes a session.
pub open spec fn spec_sessions_from_json(document: JsonView) -> Option<Seq<Seq<char>>> {
    match document.array_field("Sessions"@) {
        Some(items) => spec_session_ids(items),
        None => None,
    }
}

/// What a listing document amounts to: the sessions that it lists, or
/// [`Error::Unknown`] where it lists none because it is of another shape.
pub open spec fn spec_parking_sessions_from_document(document: JsonView) -> Result<
    Seq<Seq<char>>,
    Error,
> {
    match spec_sessions_from_json(document) {
        Some(sessions) => Ok(sessions),
        None => Err(Error::Unknown),
    }
}

/// What the reply to a listing amounts to: the sessions in its document, or
/// the error that the reply or its document stands for.
pub open spec fn spec_parking_sessions_from_reply(reply: Reply) -> Result<Seq<Seq<char>>, Error> {
    match reply.spec_document() {
        Ok(document) => spec_parking_sessions_from_document(document),
        Err(error) => Err(error),
    }
}

/// The HTTP request that lists the sessions of the account to which
/// `access_token` belongs.
pub open spec fn spec_parking_sessions_request(access_token: Seq<char>) -> RequestView {
    RequestView {
        method: Method::Get,
        url: spec_parking_sessions_url(),
        bearer: Some(access_token),
        payload: PayloadView::Empty,
    }
}

impl ParkingSession {
    /// Reads one session from an item of the provider's list.
    pub fn from_json(item: &Json) -> (session: Option<ParkingSession>)
        ensures
            match session {
                Some(session) => spec_session_id(item@) == Some(session@),
                None => spec_session_id(item@) is None,
            },
    {
        match (item.field("Id"), item.field("Auditlink")) {
            (Some(Json::Text(id)), None) => Some(ParkingSession { id: id.clone() }),
            (None, Some(Json::Text(id))) => Some(ParkingSession { id: id.clone() }),
            _ => None,
        }
    }
}

impl ParkingSessions {
    /// Reads the sessions that `document` lists, in its order.
    pub fn from_json(document: &Json) -> (listed: Option<ParkingSessions>)
        ensures
            match listed {
                Some(listed) => spec_sessions_from_json(document@) == Some(listed@),
                None => spec_sessions_from_json(document@) is None,
            },
    {
        let items = match document.array_field("Sessions") {
            Some(items) => items,
            None => return None,
        };
        let ghost views = items_view(items@);
        let mut sessions: Vec<ParkingSession> = Vec::new();
        let mut index: usize = 0;
        while index < items.len()
            invariant
                index <= items.len(),
                views == items_view(items@),
                document@.array_field("Sessions"@) == Some(views),
                sessions@.len() == index,
                forall|i: int| 0 <= i < index ==> (#[trigger] spec_session_id(views[i])) is Some,
                forall|i: int|
                    0 <= i < index ==> (#[trigger] sessions@[i])@ == spec_session_id(
                        views[i],
                    )->Some_0,
            decreases items.len() - index,
        {
            match ParkingSession::from_json(&items[index]) {
                Some(session) => {
                    sessions.push(session);
                },
                None => {
                    assert(spec_session_id(views[index as int]) is None);
                    return None;
                },
            }
            index += 1;
        }
        let listed = ParkingSessions { sessions };
        assert(listed@ =~= spec_session_ids(views)->Some_0);
        Some(listed)
    }
}

/// Makes the HTTP request that lists the sessions of the account to which
/// `access_token` belongs.
pub fn parking_sessions_request(access_token: &str) -> (request: Request)
    ensures
        request@ == spec_parking_sessions_request(access_token@),
{
    Request {
        method: Method::Get,
        url: parking_sessions_url(),
        bearer: Some(String::from_str(access_token)),
        payload: Payload::Empty,
    }
}

/// Takes the sessions out of a listing document. On success the list is
/// always present, and empty where the provider lists no session.
pub fn parking_sessions_from_document(document: &Json) -> (result: Result<
    Option<ParkingSessions>,
    Error,
>)
    ensures
        match result {
            Ok(Some(listed)) => spec_parking_sessions_from_document(document@) == Ok::<
                Seq<Seq<char>>,
                Error,
            >(listed@),
            Ok(None) => false,
            Err(error) => spec_parking_sessions_from_document(document@) == Err::<
                Seq<Seq<char>>,
                Error,
            >(error),
        },
{
    match ParkingSessions::from_json(document) {
        Some(listed) => Ok(Some(listed)),
        None => Err(Error::Unknown),
    }
}

/// Judges the reply to a listing: the sessions on success, otherwise the
/// error. On success the list is always present, and empty where the provider
/// lists no session.
pub fn parking_sessions_from_reply(reply: &Reply) -> (result: Result<
    Option<ParkingSessions>,
    Error,
>)
    ensures
        match result {
            Ok(Some(listed)) => spec_parking_sessions_from_reply(*reply) == Ok::<
                Seq<Seq<char>>,
                Error,
            >(listed@),
            Ok(None) => false,
            Err(error) => spec_parking_sessions_from_reply(*reply) == Err::<Seq<Seq<char>>, Error>(
                error,
            ),
        },
{
    match reply.document() {
        Ok(document) => parking_sessions_from_document(&document),
        Err(error) => Err(error),
    }
}

/// A reply with status 200 to a listing, whose body is a document with an
/// array `Sessions` of which every item describes a session, is judged as
/// one session for each item, in the order of the array and with the
/// identifier of its item. An empty array gives an empty list, not an error.
pub proof fn lemma_sessions_follow_the_array(body: Vec<u8>, items: Seq<JsonView>)
    requires
        forall|i: int| 0 <= i < items.len() ==> (#[trigger] spec_session_id(items[i])) is Some,
    ensures
        ({
            &&& parsed_json(body@) matches Some(document)
            &&& document.array_field("Sessions"@) == Some(items)
        }) ==> ({
            &&& spec_parking_sessions_from_reply(Reply::Answered { status: 200, body }) matches Ok(
                sessions,
            )
            &&& sessions.len() == items.len()
            &&& forall|i: int|
                0 <= i < items.len() ==> sessions[i] == (#[trigger] spec_session_id(
                    items[i],
                ))->Some_0
        }),
{
}

} // verus!
