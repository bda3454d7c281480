//! The endpoints' decisions: the status code of each outcome, the guard in
//! front of protected endpoints, and each endpoint's whole behaviour over
//! the in-memory board.

use vstd::prelude::*;

use crate::model::{
    login_valid, post_valid, registration_valid, BrainInformation, Brainfart, BrainfartFilter,
    BrainfartInformation, CreateBrainfartRequest, JwtInformation, NotifyAboutMindExplosionRequest,
    NotifyAboutMindImplosionRequest, ProveOwnsBrainRequest, RegisterBrainRequest, Timestamp, Uuid,
};
use crate::session::{create_jwt, konvertera_jwt, payload_of, payload_user, token_payload, SessionKeys};
use crate::rows::{
    brain_named, brain_with_id, has_post, lemma_name_registered_once, listed_view, listing,
    login_outcome, post_row, react,
};
use crate::store::{get_brainfarts_using_filter, verify_password, Board, StoreError};

verus! {

pub const OK: u16 = 200;

pub const CREATED: u16 = 201;

pub const ACCEPTED: u16 = 202;

pub const BAD_REQUEST: u16 = 400;

pub const UNAUTHORIZED: u16 = 401;

pub const NOT_FOUND: u16 = 404;

pub const INTERNAL_SERVER_ERROR: u16 = 500;

/// Why a request body was refused before it reached any handler.
#[derive(Debug, Clone, Copy, PartialEq, Eq, Structural)]
pub enum RejectionKind {
    /// The JSON is well formed but does not fit the expected shape.
    JsonDataError,
    /// The body is not well-formed JSON.
    JsonSyntaxError,
    /// The request lacks `Content-Type: application/json`.
    MissingJsonContentType,
    /// The body could not be read.
    BytesRejection,
    /// Any other refusal.
    Other,
}

/// The message sent back for a refused body.
pub open spec fn rejection_text(kind: RejectionKind) -> Seq<char> {
    match kind {
        RejectionKind::JsonDataError => "Invalid data"@,
        RejectionKind::JsonSyntaxError => "Invalid json syntax"@,
        RejectionKind::MissingJsonContentType => "Missing `Content-Type: application/json` header"@,
        RejectionKind::BytesRejection => "Failed to buffer request body"@,
        RejectionKind::Other => "Unknown error"@,
    }
}

/// A refused body: `400 Bad Request` with a message that names the reason.
pub fn post_error_responder(kind: RejectionKind) -> (r: (u16, String))
    ensures
        r.0 == BAD_REQUEST,
        r.1@ == rejection_text(kind),
{
    let text = match kind {
        RejectionKind::JsonDataError => "Invalid data",
        RejectionKind::JsonSyntaxError => "Invalid json syntax",
        RejectionKind::MissingJsonContentType => "Missing `Content-Type: application/json` header",
        RejectionKind::BytesRejection => "Failed to buffer request body",
        RejectionKind::Other => "Unknown error",
    };
    (BAD_REQUEST, String::from_str(text))
}

/// The status for a refused store write: a bad form is the caller's fault,
/// anything else is the server's.
pub open spec fn store_error_status(e: StoreError) -> u16 {
    match e {
        StoreError::InvalidRequest => BAD_REQUEST,
        _ => INTERNAL_SERVER_ERROR,
    }
}

pub fn status_for_store_error(e: StoreError) -> (r: u16)
    ensures
        r == store_error_status(e),
{
    match e {
        StoreError::InvalidRequest => BAD_REQUEST,
        _ => INTERNAL_SERVER_ERROR,
    }
}

/// The status of a registration, given what the store did and whether a
/// token was made.
pub fn registration_status(outcome: &Result<BrainInformation, StoreError>, token_made: bool) -> (r:
    u16)
    ensures
        r == match outcome {
            Ok(_) => if token_made {
                CREATED
            } else {
                INTERNAL_SERVER_ERROR
            },
            Err(e) => store_error_status(*e),
        },
{
    match outcome {
        Ok(_) => if token_made {
            CREATED
        } else {
            INTERNAL_SERVER_ERROR
        },
        Err(e) => status_for_store_error(*e),
    }
}

/// The status of a login, given whose identifier the check yielded and
/// whether a token was made.
pub fn login_status(id: &Option<Uuid>, token_made: bool) -> (r: u16)
    ensures
        r == match id {
            Some(_) => if token_made {
                ACCEPTED
            } else {
                INTERNAL_SERVER_ERROR
            },
            None => UNAUTHORIZED,
        },
{
    match id {
        Some(_) => if token_made {
            ACCEPTED
        } else {
            INTERNAL_SERVER_ERROR
        },
        None => UNAUTHORIZED,
    }
}

/// The status of a write that creates something: a post or a reaction.
pub fn creation_status<T>(outcome: &Result<T, StoreError>) -> (r: u16)
    ensures
        r == match outcome {
            Ok(_) => CREATED,
            Err(e) => store_error_status(*e),
        },
{
    match outcome {
        Ok(_) => CREATED,
        Err(e) => status_for_store_error(*e),
    }
}

/// The status of a listing, given whether the posts could be fetched.
pub fn listing_status(fetched: bool) -> (r: u16)
    ensures
        r == (if fetched {
            OK
        } else {
            NOT_FOUND
        }),
{
    if fetched {
        OK
    } else {
        NOT_FOUND
    }
}

/// Why a protected request was turned away.
#[derive(Debug, Clone, Copy, PartialEq, Eq, Structural)]
pub enum AuthError {
    /// No bearer token came with the request.
    MissingToken,
    /// The bearer token did not pass verification.
    InvalidToken,
}

impl AuthError {
    pub open spec fn spec_status(self) -> u16 {
        match self {
            AuthError::MissingToken => UNAUTHORIZED,
            AuthError::InvalidToken => UNAUTHORIZED,
        }
    }

    pub fn status(&self) -> (r: u16)
        ensures
            r == self.spec_status(),
    {
        match self {
            AuthError::MissingToken => UNAUTHORIZED,
            AuthError::InvalidToken => UNAUTHORIZED,
        }
    }
}

/// The caller of a protected request, as its token names them.
#[derive(Debug)]
pub struct JwtDataHolder {
    pub information: JwtInformation,
}

impl JwtDataHolder {
    pub fn get_id(&self) -> (r: &Uuid)
        ensures
            r@ == self.information.id@,
    {
        &self.information.id
    }
}

/// The guard in front of every protected endpoint, given the bearer token
/// (if any) and what verifying it yielded.
pub fn guard(bearer_present: bool, verified: Option<JwtInformation>) -> (r: Result<
    JwtDataHolder,
    AuthError,
>)
    ensures
        !bearer_present ==> r == Err::<JwtDataHolder, _>(AuthError::MissingToken),
        bearer_present && verified is None ==> r == Err::<JwtDataHolder, _>(
            AuthError::InvalidToken,
        ),
        bearer_present && verified is Some ==> (r matches Ok(h) && Some(h.information)
            == verified),
{
    if !bearer_present {
        return Err(AuthError::MissingToken);
    }
    match verified {
        Some(information) => Ok(JwtDataHolder { information }),
        None => Err(AuthError::InvalidToken),
    }
}

/// Checks the bearer token of a protected request.
pub fn authenticate(keys: &SessionKeys, bearer: Option<&str>) -> (r: Result<
    JwtDataHolder,
    AuthError,
>)
    ensures
        bearer is None ==> r == Err::<JwtDataHolder, _>(AuthError::MissingToken),
        bearer is Some ==> r is Ok || r == Err::<JwtDataHolder, _>(AuthError::InvalidToken),
        r matches Ok(h) ==> bearer matches Some(t) && payload_user(token_payload(t@)) == Some(
            (h.information.id@, h.information.brainname@),
        ),
{
    match bearer {
        Some(token) => guard(true, konvertera_jwt(keys, token)),
        None => guard(false, None),
    }
}

/// What `POST /api/registerbrain` does over the board: registers the user
/// and answers with a token.
pub fn register_brain(
    board: &mut Board,
    keys: &SessionKeys,
    id: Uuid,
    request: RegisterBrainRequest,
    now: Timestamp,
) -> (r: (u16, Option<String>))
    requires
        old(board).wf(),
    ensures
        final(board).wf(),
        final(board).posts() == old(board).posts(),
        final(board).reactions() == old(board).reactions(),
        r.0 == CREATED || r.0 == BAD_REQUEST || r.0 == INTERNAL_SERVER_ERROR,
        (r.0 == BAD_REQUEST) <==> !registration_valid(
            request.spec_name(),
            request.spec_password(),
            request.spec_password_extra(),
        ),
        registration_valid(request.spec_name(), request.spec_password(), request.spec_password_extra())
            && brain_named(old(board).brains(), request.spec_name()) is Some ==> r.0
            == INTERNAL_SERVER_ERROR && final(board).brains() == old(board).brains(),
        r.1 is Some <==> r.0 == CREATED,
        r.1 matches Some(t) ==> token_payload(t@) == payload_of(id@, request.spec_name()),
        r.0 == BAD_REQUEST ==> final(board).brains() == old(board).brains(),
        registration_valid(request.spec_name(), request.spec_password(), request.spec_password_extra())
            && brain_named(old(board).brains(), request.spec_name()) is None && brain_with_id(
            old(board).brains(),
            id@,
        ) is None ==> r.0 == CREATED || r.0 == INTERNAL_SERVER_ERROR,
        r.0 == CREATED ==> final(board).brains().drop_last() == old(board).brains()
            && final(board).brains().last().name == request.spec_name()
            && login_outcome(final(board).brains(), request.spec_name(), request.spec_password())
            == Some(id@),
{
    let ghost name = request.spec_name();
    let ghost password = request.spec_password();
    let outcome = board.register_brain(id, request, now);
    let token = match &outcome {
        Ok(info) => create_jwt(keys, info.get_id().as_str(), info.get_name()),
        Err(_) => None,
    };
    let status = registration_status(&outcome, token.is_some());
    proof {
        if outcome is Ok {
            assert(final(board).brains() =~= old(board).brains().push(final(board).brains().last()));
            lemma_name_registered_once(old(board).brains(), final(board).brains().last());
        }
    }
    if status == CREATED {
        (status, token)
    } else {
        (status, None)
    }
}

/// What `POST /api/loginasbrain` does over the board: checks the password
/// and answers with a token.
pub fn show_i_own_brain(board: &Board, keys: &SessionKeys, request: &ProveOwnsBrainRequest) -> (r: (
    u16,
    Option<String>,
))
    ensures
        r.0 == ACCEPTED || r.0 == UNAUTHORIZED || r.0 == INTERNAL_SERVER_ERROR,
        (r.0 == UNAUTHORIZED) <==> login_outcome(
            board.brains(),
            request.spec_name(),
            request.spec_password(),
        ) is None,
        r.1 is Some <==> r.0 == ACCEPTED,
        r.0 == ACCEPTED ==> login_outcome(board.brains(), request.spec_name(), request.spec_password())
            is Some,
        r.1 matches Some(t) ==> login_outcome(
            board.brains(),
            request.spec_name(),
            request.spec_password(),
        ) matches Some(i) && token_payload(t@) == payload_of(i, request.spec_name()),
{
    let id = verify_password(board, request);
    let token = match &id {
        Some(id) => create_jwt(keys, id.as_str(), request.get_name()),
        None => None,
    };
    let status = login_status(&id, token.is_some());
    if status == ACCEPTED {
        (status, token)
    } else {
        (status, None)
    }
}

/// What `POST /api/createbrainfart` does over the board: adds a post by the
/// caller.
pub fn create_brainfarts(
    board: &mut Board,
    claims: &JwtDataHolder,
    id: Uuid,
    request: CreateBrainfartRequest,
    now: Timestamp,
) -> (r: (u16, Option<Brainfart>))
    requires
        old(board).wf(),
    ensures
        final(board).wf(),
        final(board).brains() == old(board).brains(),
        final(board).reactions() == old(board).reactions(),
        (r.0 == BAD_REQUEST) <==> !post_valid(request.spec_title(), request.spec_content()),
        r.0 == CREATED || r.0 == BAD_REQUEST || r.0 == INTERNAL_SERVER_ERROR,
        r.1 is Some <==> r.0 == CREATED,
        (r.0 == CREATED) <==> post_valid(request.spec_title(), request.spec_content())
            && brain_with_id(old(board).brains(), claims.information.id@) is Some && !has_post(
            old(board).posts(),
            id@,
        ),
        r.0 != CREATED ==> final(board).posts() == old(board).posts(),
        r.1 matches Some(p) ==> p.id@ == id@ && exists|k: int|
            0 <= k <= old(board).posts().len() && final(board).posts() == #[trigger] old(
                board,
            ).posts().insert(k, post_row(p)),
        r.1 matches Some(p) ==> p.mastermind_id@ == claims.information.id@ && p.title@
            == request.spec_title() && p.content@ == request.spec_content() && p.birthdate == now,
{
    let outcome = board.create_brainfart(id, request, claims.information.id.clone(), now);
    let status = creation_status(&outcome);
    match outcome {
        Ok(p) => (status, Some(p)),
        Err(_) => (status, None),
    }
}

/// What `GET /api/getbrainfarts` does over the board: every post, newest
/// first.
pub fn get_some_brainfarts(board: &Board, claims: &JwtDataHolder) -> (r: (
    u16,
    Vec<BrainfartInformation>,
))
    ensures
        r.0 == OK,
        listed_view(r.1@) == listing(board.posts(), board.brains(), board.reactions()),
{
    let posts = get_brainfarts_using_filter(board, BrainfartFilter::default());
    (listing_status(true), posts)
}

/// What `POST /api/registermindexplosion` does over the board: the caller's
/// explosion on a post.
pub fn register_mind_explosion(
    board: &mut Board,
    claims: &JwtDataHolder,
    row_id: Uuid,
    request: &NotifyAboutMindExplosionRequest,
) -> (r: u16)
    requires
        old(board).wf(),
    ensures
        final(board).wf(),
        r == CREATED || r == INTERNAL_SERVER_ERROR,
        (r == CREATED) <==> has_post(old(board).posts(), request.brainfart_id@) && brain_with_id(
            old(board).brains(),
            claims.information.id@,
        ) is Some,
        r == CREATED ==> final(board).reactions() == react(
            old(board).reactions(),
            row_id@,
            request.brainfart_id@,
            claims.information.id@,
            true,
        ),
        r != CREATED ==> final(board).reactions() == old(board).reactions(),
{
    let outcome = board.register_mind_explosion(row_id, request, claims.get_id().as_str());
    creation_status(&outcome)
}

/// What `POST /api/registermindimplosion` does over the board: the caller's
/// implosion on a post.
pub fn register_mind_implosion(
    board: &mut Board,
    claims: &JwtDataHolder,
    row_id: Uuid,
    request: &NotifyAboutMindImplosionRequest,
) -> (r: u16)
    requires
        old(board).wf(),
    ensures
        final(board).wf(),
        r == CREATED || r == INTERNAL_SERVER_ERROR,
        (r == CREATED) <==> has_post(old(board).posts(), request.brainfart_id@) && brain_with_id(
            old(board).brains(),
            claims.information.id@,
        ) is Some,
        r == CREATED ==> final(board).reactions() == react(
            old(board).reactions(),
            row_id@,
            request.brainfart_id@,
            claims.information.id@,
            false,
        ),
        r != CREATED ==> final(board).reactions() == old(board).reactions(),
{
    let outcome = board.register_mind_implosion(row_id, request, claims.get_id().as_str());
    creation_status(&outcome)
}

} // verus!
