use brains::api::{
    authenticate, create_brainfarts, get_some_brainfarts, guard, login_status,
    post_error_responder, register_brain, register_mind_explosion, register_mind_implosion,
    registration_status, show_i_own_brain, AuthError, RejectionKind,
};
use brains::model::{
    BrainInformation, CreateBrainfartRequest, JwtInformation, NotifyAboutMindExplosionRequest,
    NotifyAboutMindImplosionRequest, ProveOwnsBrainRequest, RegisterBrainRequest,
};
use brains::session::SessionKeys;
use brains::store::{Board, StoreError};
use jwt_simple::prelude::RS384KeyPair;

fn keys() -> SessionKeys {
    let pair = RS384KeyPair::generate(2048).unwrap();
    let public = pair.public_key();
    SessionKeys::new(pair, public, 1).unwrap()
}

#[test]
fn refused_bodies_are_bad_requests() {
    assert_eq!(post_error_responder(RejectionKind::JsonDataError), (400, "Invalid data".to_string()));
    assert_eq!(
        post_error_responder(RejectionKind::JsonSyntaxError),
        (400, "Invalid json syntax".to_string())
    );
    assert_eq!(
        post_error_responder(RejectionKind::MissingJsonContentType),
        (400, "Missing `Content-Type: application/json` header".to_string())
    );
    assert_eq!(
        post_error_responder(RejectionKind::BytesRejection),
        (400, "Failed to buffer request body".to_string())
    );
    assert_eq!(post_error_responder(RejectionKind::Other), (400, "Unknown error".to_string()));
}

#[test]
fn status_codes_of_outcomes() {
    let ok: Result<BrainInformation, StoreError> =
        Ok(BrainInformation::create("u1".into(), "Ada".into(), 0));
    assert_eq!(registration_status(&ok, true), 201);
    assert_eq!(registration_status(&ok, false), 500);
    assert_eq!(registration_status(&Err(StoreError::InvalidRequest), true), 400);
    assert_eq!(registration_status(&Err(StoreError::NameTaken), true), 500);
    assert_eq!(login_status(&Some("u1".to_string()), true), 202);
    assert_eq!(login_status(&None, true), 401);
    assert_eq!(login_status(&Some("u1".to_string()), false), 500);
    assert_eq!(AuthError::MissingToken.status(), 401);
    assert_eq!(AuthError::InvalidToken.status(), 401);
}

#[test]
fn guard_needs_a_verified_bearer() {
    assert_eq!(guard(false, None).err(), Some(AuthError::MissingToken));
    assert_eq!(guard(true, None).err(), Some(AuthError::InvalidToken));
    let info = JwtInformation { brainname: "Ada".to_string(), id: "u1".to_string() };
    let holder = guard(true, Some(info.clone())).unwrap();
    assert_eq!(holder.information, info);
    assert_eq!(holder.get_id(), "u1");
}

#[test]
fn wrong_password_is_unauthorized_not_an_error() {
    let keys = keys();
    let mut board = Board::new();
    let reg = RegisterBrainRequest::create("Ada".into(), "p@ss1234".into(), "p@ss1234".into());
    let (status, token) = register_brain(&mut board, &keys, "u1".to_string(), reg, 1);
    assert_eq!(status, 201);
    let token = token.unwrap();
    assert_eq!(authenticate(&keys, Some(&token)).unwrap().get_id(), "u1");
    let wrong = ProveOwnsBrainRequest::create("Ada".into(), "nope".into());
    assert_eq!(show_i_own_brain(&board, &keys, &wrong), (401, None));
    let right = ProveOwnsBrainRequest::create("Ada".into(), "p@ss1234".into());
    let (status, token) = show_i_own_brain(&board, &keys, &right);
    assert_eq!(status, 202);
    let claims = authenticate(&keys, Some(&token.unwrap())).unwrap();
    assert_eq!(claims.information.id, "u1");
    assert_eq!(claims.information.brainname, "Ada");
    assert_eq!(authenticate(&keys, None).err(), Some(AuthError::MissingToken));
    assert_eq!(authenticate(&keys, Some("garbage")).err(), Some(AuthError::InvalidToken));
}

#[test]
fn register_post_react_and_list() {
    let keys = keys();
    let mut board = Board::new();
    let ada = RegisterBrainRequest::create("Ada".into(), "p@ss1234".into(), "p@ss1234".into());
    let (status, token_a) = register_brain(&mut board, &keys, "u1".to_string(), ada, 1);
    assert_eq!(status, 201);
    let claims_a = authenticate(&keys, Some(&token_a.unwrap())).unwrap();

    let request = CreateBrainfartRequest::create("idea".into(), "...".into());
    let (status, created) = create_brainfarts(&mut board, &claims_a, "p1".to_string(), request, 5);
    assert_eq!(status, 201);
    assert_eq!(created.unwrap().mastermind_id, "u1");

    let grace = RegisterBrainRequest::create("Grace".into(), "hopper".into(), "hopper".into());
    let (status, token_b) = register_brain(&mut board, &keys, "u2".to_string(), grace, 2);
    assert_eq!(status, 201);
    let claims_b = authenticate(&keys, Some(&token_b.unwrap())).unwrap();

    let explode = NotifyAboutMindExplosionRequest { brainfart_id: "p1".to_string() };
    assert_eq!(register_mind_explosion(&mut board, &claims_b, "r1".to_string(), &explode), 201);
    for claims in [&claims_a, &claims_b] {
        let (status, listed) = get_some_brainfarts(&board, claims);
        assert_eq!(status, 200);
        assert_eq!(listed.len(), 1);
        assert_eq!(listed[0].mastermind_name, "Ada");
        let blew: Vec<&str> = listed[0].blew_minds.iter().map(|b| b.get_name()).collect();
        assert_eq!(blew, vec!["Grace"]);
        assert!(listed[0].imploded_minds.is_empty());
    }

    let implode = NotifyAboutMindImplosionRequest { brainfart_id: "p1".to_string() };
    assert_eq!(register_mind_implosion(&mut board, &claims_b, "r2".to_string(), &implode), 201);
    let (_, listed) = get_some_brainfarts(&board, &claims_a);
    assert!(listed[0].blew_minds.is_empty());
    let imploded: Vec<&str> = listed[0].imploded_minds.iter().map(|b| b.get_name()).collect();
    assert_eq!(imploded, vec!["Grace"]);

    let again = RegisterBrainRequest::create("Ada".into(), "x".into(), "x".into());
    assert_eq!(register_brain(&mut board, &keys, "u3".to_string(), again, 3), (500, None));
    let unconfirmed = RegisterBrainRequest::create("Bob".into(), "x".into(), "y".into());
    assert_eq!(register_brain(&mut board, &keys, "u4".to_string(), unconfirmed, 3), (400, None));
    let unknown = NotifyAboutMindExplosionRequest { brainfart_id: "p9".to_string() };
    assert_eq!(register_mind_explosion(&mut board, &claims_b, "r3".to_string(), &unknown), 500);
    let empty = CreateBrainfartRequest::create(String::new(), "...".into());
    let (status, created) = create_brainfarts(&mut board, &claims_a, "p2".to_string(), empty, 6);
    assert_eq!((status, created.is_none()), (400, true));
}
