//! Logging in: the exchange of credentials for an access token.

use vstd::prelude::*;

use crate::ringgo::errors::Error;
use crate::ringgo::json::{parsed_json, Json, JsonView};
use crate::ringgo::transport::{Method, Payload, PayloadView, Reply, Request, RequestView};
use crate::ringgo::url_helpers::{login_url, spec_login_url};

verus! {

/// The name under which this client is known to the provider.
pub const RINGGO_CLIENT_ID: &'static str = "ringgoios";

/// The kind of grant that is asked for: one against a password.
pub const PASSWORD_GRANT: &'static str = "password";

/// What is sent to log in.
#[derive(Debug, PartialEq, Eq)]
pub struct AuthenticationRequest {
    pub client_id: String,
    pub client_secret: String,
    pub grant_type: String,
    pub password: String,
    pub username: String,
}

/// What an [`AuthenticationRequest`] holds, with every string as its
/// characters.
pub struct AuthenticationRequestView {
    pub client_id: Seq<char>,
    pub client_secret: Seq<char>,
    pub grant_type: Seq<char>,
    pub password: Seq<char>,
    pub username: Seq<char>,
}

impl AuthenticationRequestView {
    /// The request that logs in with these credentials.
    pub open spec fn new(
        username: Seq<char>,
        password: Seq<char>,
        client_secret: Seq<char>,
    ) -> AuthenticationRequestView {
        AuthenticationRequestView {
            client_id: RINGGO_CLIENT_ID@,
            client_secret,
            grant_type: PASSWORD_GRANT@,
            password,
            username,
        }
    }

    /// The fields of the login form, in the order in which they are written.
    pub open spec fn form_fields(self) -> Seq<(Seq<char>, Seq<char>)> {
        seq![
            ("client_id"@, self.client_id),
            ("client_secret"@, self.client_secret),
            ("grant_type"@, self.grant_type),
            ("password"@, self.password),
            ("username"@, self.username),
        ]
    }

    /// The HTTP request that carries this login: a form posted to the login
    /// address, with no bearer token.
    pub open spec fn request(self) -> RequestView {
        RequestView {
            method: Method::Post,
            url: spec_login_url(),
            bearer: None,
            payload: PayloadView::Form(self.form_fields()),
        }
    }
}

impl View for AuthenticationRequest {
    type V = AuthenticationRequestView;

    open spec fn view(&self) -> AuthenticationRequestView {
        AuthenticationRequestView {
            client_id: self.client_id@,
            client_secret: self.client_secret@,
            grant_type: self.grant_type@,
            password: self.password@,
            username: self.username@,
        }
    }
}

fn form_field(name: &str, value: &String) -> (field: (String, String))
    ensures
        field.deep_view() == (name@, value@),
{
    (String::from_str(name), value.clone())
}

impl AuthenticationRequest {
    /// Makes the request that logs in with these credentials. The client
    /// identifier and the kind of grant are fixed.
    pub fn new(username: String, password: String, client_secret: String) -> (request: Self)
        ensures
            request@ == AuthenticationRequestView::new(username@, password@, client_secret@),
    {
        Self {
            client_id: String::from_str(RINGGO_CLIENT_ID),
            client_secret,
            grant_type: String::from_str(PASSWORD_GRANT),
            username,
            password,
        }
    }

    /// Returns the fields of the login form, in the order in which they are
    /// written.
    pub fn form_fields(&self) -> (fields: Vec<(String, String)>)
        ensures
            fields.deep_view() == self@.form_fields(),
    {
        let mut fields: Vec<(String, String)> = Vec::new();
        fields.push(form_field("client_id", &self.client_id));
        fields.push(form_field("client_secret", &self.client_secret));
        fields.push(form_field("grant_type", &self.grant_type));
        fields.push(form_field("password", &self.password));
        fields.push(form_field("username", &self.username));
        assert(fields.deep_view() =~= self@.form_fields());
        fields
    }

    /// Returns the HTTP request that carries this login.
    pub fn request(&self) -> (request: Request)
        ensures
            request@ == self@.request(),
    {
        Request {
            method: Method::Post,
            url: login_url(),
            bearer: None,
            payload: Payload::Form(self.form_fields()),
        }
    }
}

/// What the provider answers to a login.
#[derive(Debug, PartialEq, Eq)]
pub struct AuthResponse {
    pub access_token: String,
    pub token_type: String,
    pub expires_in: i32,
    pub refresh_token: String,
}

/// What an [`AuthResponse`] holds, with every string as its characters.
pub struct AuthResponseView {
    pub access_token: Seq<char>,
    pub token_type: Seq<char>,
    pub expires_in: i32,
    pub refresh_token: Seq<char>,
}

impl View for AuthResponse {
    type V = AuthResponseView;

    open spec fn view(&self) -> AuthResponseView {
        AuthResponseView {
            access_token: self.access_token@,
            token_type: self.token_type@,
            expires_in: self.expires_in,
            refresh_token: self.refresh_token@,
        }
    }
}

impl AuthResponseView {
    /// The answer that `document` holds: it is an object whose members
    /// `access_token`, `token_type` and `refresh_token` are strings and whose
    /// member `expires_in` is an integer of 32 bits. Any other document holds
    /// none. Members of other names are passed over.
    pub open spec fn from_json(document: JsonView) -> Option<AuthResponseView> {
        match (
            document.text_field("access_token"@),
            document.text_field("token_type"@),
            document.integer_field("expires_in"@),
            document.text_field("refresh_token"@),
        ) {
            (Some(access_token), Some(token_type), Some(expires_in), Some(refresh_token)) => {
                if i32::MIN <= expires_in <= i32::MAX {
                    Some(
                        AuthResponseView {
                            access_token,
                            token_type,
                            expires_in: expires_in as i32,
                            refresh_token,
                        },
                    )
                } else {
                    None
                }
            },
            _ => None,
        }
    }
}

impl AuthResponse {
    /// Reads the answer to a login from `document`.
    pub fn from_json(document: &Json) -> (response: Option<AuthResponse>)
        ensures
            match response {
                Some(response) => AuthResponseView::from_json(document@) == Some(response@),
                None => AuthResponseView::from_json(document@) is None,
            },
    {
        let access_token = match document.text_field("access_token") {
            Some(text) => text.clone(),
            None => return None,
        };
        let token_type = match document.text_field("token_type") {
            Some(text) => text.clone(),
            None => return None,
        };
        let expires_in = match document.integer_field("expires_in") {
            Some(seconds) => seconds,
            None => return None,
        };
        let refresh_token = match document.text_field("refresh_token") {
            Some(text) => text.clone(),
            None => return None,
        };
        if expires_in < -2147483648 || expires_in > 2147483647 {
            return None;
        }
        Some(
            AuthResponse { access_token, token_type, expires_in: expires_in as i32, refresh_token },
        )
    }
}

/// What a login document amounts to: the access token of the answer it
/// holds, or [`Error::Unknown`] where it holds none.
pub open spec fn spec_token_from_document(document: JsonView) -> Result<Seq<char>, Error> {
    match AuthResponseView::from_json(document) {
        Some(response) => Ok(response.access_token),
        None => Err(Error::Unknown),
    }
}

/// What the reply to a login amounts to: the access token in its document,
/// or the error that the reply or its document stands for.
pub open spec fn spec_token_from_reply(reply: Reply) -> Result<Seq<char>, Error> {
    match reply.spec_document() {
        Ok(document) => spec_token_from_document(document),
        Err(error) => Err(error),
    }
}

/// Takes the access token out of a login document.
pub fn token_from_document(document: &Json) -> (result: Result<String, Error>)
    ensures
        match result {
            Ok(token) => spec_token_from_document(document@) == Ok::<Seq<char>, Error>(token@),
            Err(error) => spec_token_from_document(document@) == Err::<Seq<char>, Error>(error),
        },
{
    match AuthResponse::from_json(document) {
        Some(response) => Ok(response.access_token),
        None => Err(Error::Unknown),
    }
}

/// Judges the reply to a login: the access token on success, otherwise the
/// error.
pub fn token_from_reply(reply: &Reply) -> (result: Result<String, Error>)
    ensures
        match result {
            Ok(token) => spec_token_from_reply(*reply) == Ok::<Seq<char>, Error>(token@),
            Err(error) => spec_token_from_reply(*reply) == Err::<Seq<char>, Error>(error),
        },
{
    match reply.document() {
        Ok(document) => token_from_document(&document),
        Err(error) => Err(error),
    }
}

/// A reply with status 401 to a login is judged as `Unauthorized`, whatever
/// its body holds.
pub proof fn lemma_login_rejected(body: Vec<u8>)
    ensures
        spec_token_from_reply(Reply::Answered { status: 401, body }) == Err::<Seq<char>, Error>(
            Error::Unauthorized,
        ),
{
}

/// A reply with status 200 to a login, whose body is a document that holds an
/// answer with an access token that is not empty, is judged as that token.
pub proof fn lemma_login_accepted(body: Vec<u8>, response: AuthResponseView)
    requires
        response.access_token.len() > 0,
    ensures
        ({
            &&& parsed_json(body@) matches Some(document)
            &&& AuthResponseView::from_json(document) == Some(response)
        }) ==> ({
            &&& spec_token_from_reply(Reply::Answered { status: 200, body }) matches Ok(token)
            &&& token == response.access_token
            &&& token.len() > 0
        }),
{
}

} // verus!
