//! Downloading a receipt: the exchange of a session's identifier for a
//! resource access token, and the fetch of the receipt behind that token.

use vstd::prelude::*;

use crate::ringgo::errors::Error;
use crate::ringgo::json::{lemma_view_of_children, members_view, Json, JsonView};
use crate::ringgo::transport::{Method, Payload, PayloadView, Reply, Request, RequestView};
use crate::ringgo::url_helpers::{
    download_url,
    request_download_url,
    spec_download_url,
    spec_request_download_url,
};

verus! {

/// The kind of resource that a receipt is.
pub const RECEIPT_RESOURCE_TYPE: u8 = 1;

/// What is sent to ask for the resource access token of one receipt.
#[derive(Debug, PartialEq, Eq)]
pub struct DownloadRequest {
    /// The identifier of the parking session.
    pub identifier: String,
    pub resource_type_id: u8,
}

/// What a [`DownloadRequest`] holds, with its string as its characters.
pub struct DownloadRequestView {
    pub identifier: Seq<char>,
    pub resource_type_id: u8,
}

impl View for DownloadRequest {
    type V = DownloadRequestView;

    open spec fn view(&self) -> DownloadRequestView {
        DownloadRequestView {
            identifier: self.identifier@,
            resource_type_id: self.resource_type_id,
        }
    }
}

impl DownloadRequestView {
    /// The request for the receipt of the session `identifier`.
    pub open spec fn new(identifier: Seq<char>) -> DownloadRequestView {
        DownloadRequestView { identifier, resource_type_id: RECEIPT_RESOURCE_TYPE }
    }

    /// The document that carries this request: an object of two members,
    /// `Identifier` and `ResourceTypeId`.
    pub open spec fn to_json(self) -> JsonView {
        JsonView::Object(
            seq![
                ("Identifier"@, JsonView::Text(self.identifier)),
                ("ResourceTypeId"@, JsonView::Number(Some(self.resource_type_id as i64))),
            ],
        )
    }

    /// The HTTP request that carries this request: its document, posted to
    /// the token address with `access_token` as the bearer.
    pub open spec fn request(self, access_token: Seq<char>) -> RequestView {
        RequestView {
            method: Method::Post,
            url: spec_request_download_url(),
            bearer: Some(access_token),
            payload: PayloadView::Json(self.to_json()),
        }
    }
}

impl DownloadRequest {
    /// Makes the request for the receipt of the session `identifier`.
    pub fn new(identifier: String) -> (request: Self)
        ensures
            request@ == DownloadRequestView::new(identifier@),
    {
        Self { identifier, resource_type_id: RECEIPT_RESOURCE_TYPE }
    }

    /// Returns the document that carries this request.
    pub fn to_json(&self) -> (document: Json)
        ensures
            document@ == self@.to_json(),
    {
        let mut members: Vec<(String, Json)> = Vec::new();
        members.push((String::from_str("Identifier"), Json::Text(self.identifier.clone())));
        members.push(
            (String::from_str("ResourceTypeId"), Json::Number(Some(self.resource_type_id as i64))),
        );
        let document = Json::Object(members);
        proof {
            lemma_view_of_children(document);
            assert(members_view(members@) =~= self@.to_json()->Object_0);
        }
        document
    }

    /// Returns the HTTP request that carries this request, with
    /// `access_token` as the bearer.
    pub fn request(&self, access_token: &str) -> (request: Request)
        ensures
            request@ == self@.request(access_token@),
    {
        Request {
            method: Method::Post,
            url: request_download_url(),
            bearer: Some(String::from_str(access_token)),
            payload: Payload::Json(self.to_json()),
        }
    }
}

/// What the provider answers to a [`DownloadRequest`].
#[derive(Debug, PartialEq, Eq)]
pub struct DownloadRequestResponse {
    pub resource_access_token: String,
    pub return_code: u8,
    pub success: bool,
}

/// What a [`DownloadRequestResponse`] holds, with its string as its
/// characters.
pub struct DownloadRequestResponseView {
    pub resource_access_token: Seq<char>,
    pub return_code: u8,
    pub success: bool,
}

impl View for DownloadRequestResponse {
    type V = DownloadRequestResponseView;

    open spec fn view(&self) -> DownloadRequestResponseView {
        DownloadRequestResponseView {
            resource_access_token: self.resource_access_token@,
            return_code: self.return_code,
            success: self.success,
        }
    }
}

impl DownloadRequestResponseView {
    /// The answer that `document` holds: it is an object whose member
    /// `ResourceAccessToken` is a string, whose member `ReturnCode` is an
    /// integer of 8 bits without sign, and whose member `Success` is `true`
    /// or `false`. Any other document holds none. Members of other names are
    /// passed over.
    pub open spec fn from_json(document: JsonView) -> Option<DownloadRequestResponseView> {
        match (
            document.text_field("ResourceAccessToken"@),
            document.integer_field("ReturnCode"@),
            document.bool_field("Success"@),
        ) {
            (Some(resource_access_token), Some(return_code), Some(success)) => {
                if 0 <= return_code <= u8::MAX {
                    Some(
                        DownloadRequestResponseView {
                            resource_access_token,
                            return_code: return_code as u8,
                            success,
                        },
                    )
                } else {
                    None
                }
            },
            _ => None,
        }
    }
}

impl DownloadRequestResponse {
    /// Reads the answer to a [`DownloadRequest`] from `document`.
    pub fn from_json(document: &Json) -> (response: Option<DownloadRequestResponse>)
        ensures
            match response {
                Some(response) => DownloadRequestResponseView::from_json(document@) == Some(
                    response@,
                ),
                None => DownloadRequestResponseView::from_json(document@) is None,
            },
    {
        let resource_access_token = match document.text_field("ResourceAccessToken") {
            Some(text) => text.clone(),
            None => return None,
        };
        let return_code = match document.integer_field("ReturnCode") {
            Some(code) => code,
            None => return None,
        };
        let success = match document.bool_field("Success") {
            Some(flag) => flag,
            None => return None,
        };
        if return_code < 0 || return_code > 255 {
            return None;
        }
        Some(
            DownloadRequestResponse {
                resource_access_token,
                return_code: return_code as u8,
                success,
            },
        )
    }
}

/// What the document that answers a [`DownloadRequest`] amounts to: the
/// resource access token of the answer it holds, whatever the answer's return
/// code and success flag, or [`Error::Unknown`] where it holds none.
pub open spec fn spec_download_token_from_document(document: JsonView) -> Result<
    Seq<char>,
    Error,
> {
    match DownloadRequestResponseView::from_json(document) {
        Some(response) => Ok(response.resource_access_token),
        None => Err(Error::Unknown),
    }
}

/// What the reply to a [`DownloadRequest`] amounts to: the resource access
/// token in its document, or the error that the reply or its document stands
/// for.
pub open spec fn spec_download_token_from_reply(reply: Reply) -> Result<Seq<char>, Error> {
    match reply.spec_document() {
        Ok(document) => spec_download_token_from_document(document),
        Err(error) => Err(error),
    }
}

/// The HTTP request that fetches the receipt behind `resource_access_token`.
/// It carries no bearer: the token in the address is the credential.
pub open spec fn spec_receipt_request(resource_access_token: Seq<char>) -> RequestView {
    RequestView {
        method: Method::Get,
        url: spec_download_url(resource_access_token),
        bearer: None,
        payload: PayloadView::Empty,
    }
}

/// What the reply to the fetch of a receipt amounts to: the bytes of its
/// body, whatever its status, or [`Error::HttpError`] where there is no
/// response.
pub open spec fn spec_receipt_from_reply(reply: Reply) -> Result<Seq<u8>, Error> {
    match reply {
        Reply::Failed => Err(Error::HttpError),
        Reply::Answered { status, body } => Ok(body@),
    }
}

/// The name of the file in which the receipt of the session
/// `parking_session_id` is stored.
pub open spec fn spec_receipt_file_name(parking_session_id: Seq<char>) -> Seq<char> {
    parking_session_id + ".pdf"@
}

/// Takes the resource access token out of the document that answers a
/// [`DownloadRequest`].
pub fn download_token_from_document(document: &Json) -> (result: Result<String, Error>)
    ensures
        match result {
            Ok(token) => spec_download_token_from_document(document@) == Ok::<Seq<char>, Error>(
                token@,
            ),
            Err(error) => spec_download_token_from_document(document@) == Err::<Seq<char>, Error>(
                error,
            ),
        },
{
    match DownloadRequestResponse::from_json(document) {
        Some(response) => Ok(response.resource_access_token),
        None => Err(Error::Unknown),
    }
}

/// Judges the reply to a [`DownloadRequest`]: the resource access token on
/// success, otherwise the error.
pub fn download_token_from_reply(reply: &Reply) -> (result: Result<String, Error>)
    ensures
        match result {
            Ok(token) => spec_download_token_from_reply(*reply) == Ok::<Seq<char>, Error>(token@),
            Err(error) => spec_download_token_from_reply(*reply) == Err::<Seq<char>, Error>(
                error,
            ),
        },
{
    match reply.document() {
        Ok(document) => download_token_from_document(&document),
        Err(error) => Err(error),
    }
}

/// Makes the HTTP request that fetches the receipt behind
/// `resource_access_token`.
pub fn receipt_request(resource_access_token: &str) -> (request: Request)
    ensures
        request@ == spec_receipt_request(resource_access_token@),
{
    Request {
        method: Method::Get,
        url: download_url(resource_access_token),
        bearer: None,
        payload: Payload::Empty,
    }
}

/// Judges the reply to the fetch of a receipt: the bytes to store, which are
/// those of the body, or the error.
pub fn receipt_from_reply(reply: Reply) -> (result: Result<Vec<u8>, Error>)
    ensures
        match result {
            Ok(contents) => spec_receipt_from_reply(reply) == Ok::<Seq<u8>, Error>(contents@),
            Err(error) => spec_receipt_from_reply(reply) == Err::<Seq<u8>, Error>(error),
        },
{
    match reply {
        Reply::Failed => Err(Error::HttpError),
        Reply::Answered { status, body } => Ok(body),
    }
}

/// Returns the name of the file in which the receipt of the session
/// `parking_session_id` is stored.
pub fn receipt_file_name(parking_session_id: &str) -> (file_name: String)
    ensures
        file_name@ == spec_receipt_file_name(parking_session_id@),
{
    String::from_str(parking_session_id).concat(".pdf")
}

/// Whatever the session, the document that asks for its receipt holds the
/// session's identifier under `Identifier` and the number 1 under
/// `ResourceTypeId`, and it is this document that the HTTP request carries.
pub proof fn lemma_download_request_document(identifier: Seq<char>, access_token: Seq<char>)
    ensures
        DownloadRequestView::new(identifier).to_json().text_field("Identifier"@) == Some(
            identifier,
        ),
        DownloadRequestView::new(identifier).to_json().integer_field("ResourceTypeId"@) == Some(
            1i64,
        ),
        DownloadRequestView::new(identifier).request(access_token).payload == PayloadView::Json(
            DownloadRequestView::new(identifier).to_json(),
        ),
{
    reveal_strlit("Identifier");
    reveal_strlit("ResourceTypeId");
    let members = DownloadRequestView::new(identifier).to_json()->Object_0;
    assert(members.drop_first()[0] == members[1]);
    assert("Identifier"@ != "ResourceTypeId"@) by {
        assert("Identifier"@.len() != "ResourceTypeId"@.len());
    }
    reveal_with_fuel(crate::ringgo::json::spec_member, 3);
}

} // verus!
