use brains::model::{
    BrainfartFilter, CreateBrainfartRequest, NotifyAboutMindExplosionRequest,
    NotifyAboutMindImplosionRequest, ProveOwnsBrainRequest, RegisterBrainRequest,
};
use brains::reactions::ReactionState;
use brains::store::{
    check_login, get_brain_information, hash_registration_password, name_free, prepare_registration, get_brainfart, get_brainfarts_using_filter, verify_password, Board,
    StoreError,
};

fn registration(name: &str, password: &str) -> RegisterBrainRequest {
    RegisterBrainRequest::create(name.to_string(), password.to_string(), password.to_string())
}

fn post(title: &str) -> CreateBrainfartRequest {
    CreateBrainfartRequest::create(title.to_string(), "...".to_string())
}

fn board_with_users(names: &[&str]) -> Board {
    let mut board = Board::new();
    for (i, name) in names.iter().enumerate() {
        let id = format!("u{}", i + 1);
        let r = board.register_brain(id, registration(name, "pw"), i as i64);
        assert!(r.is_ok());
    }
    board
}

#[test]
fn a_name_registers_once() {
    let mut board = Board::new();
    let first = board.register_brain("u1".to_string(), registration("Ada", "p@ss1234"), 1);
    let info = first.unwrap();
    assert_eq!(info.get_id(), "u1");
    assert_eq!(info.get_name(), "Ada");
    let second = board.register_brain("u2".to_string(), registration("Ada", "other"), 2);
    assert_eq!(second.unwrap_err(), StoreError::NameTaken);
    assert!(get_brain_information(&board, "u2").is_none());
}

#[test]
fn registration_refusals() {
    let mut board = board_with_users(&["Ada"]);
    let mismatch = RegisterBrainRequest::create("Bob".into(), "a".into(), "b".into());
    assert_eq!(
        board.register_brain("u9".to_string(), mismatch, 3).unwrap_err(),
        StoreError::InvalidRequest
    );
    assert_eq!(
        board.register_brain("u1".to_string(), registration("Bob", "pw"), 3).unwrap_err(),
        StoreError::IdTaken
    );
}

#[test]
fn login_checks_the_password() {
    let mut board = Board::new();
    board.register_brain("u1".to_string(), registration("Ada", "p@ss1234"), 1).unwrap();
    let good = ProveOwnsBrainRequest::create("Ada".to_string(), "p@ss1234".to_string());
    assert_eq!(verify_password(&board, &good), Some("u1".to_string()));
    let bad = ProveOwnsBrainRequest::create("Ada".to_string(), "wrong".to_string());
    assert_eq!(verify_password(&board, &bad), None);
    let unknown = ProveOwnsBrainRequest::create("Nobody".to_string(), "p@ss1234".to_string());
    assert_eq!(verify_password(&board, &unknown), None);
}

#[test]
fn explosion_then_implosion_leaves_one_implosion() {
    let mut board = board_with_users(&["Ada", "Grace"]);
    board.create_brainfart("p1".to_string(), post("idea"), "u1".to_string(), 10).unwrap();
    assert_eq!(board.reaction_state("p1", "u2"), ReactionState::NoReaction);
    let e = NotifyAboutMindExplosionRequest { brainfart_id: "p1".to_string() };
    let i = NotifyAboutMindImplosionRequest { brainfart_id: "p1".to_string() };
    board.register_mind_explosion("r1".to_string(), &e, "u2").unwrap();
    assert_eq!(board.reaction_state("p1", "u2"), ReactionState::Exploded);
    board.register_mind_implosion("r2".to_string(), &i, "u2").unwrap();
    assert_eq!(board.reaction_state("p1", "u2"), ReactionState::Imploded);
    let listed = get_brainfart(&board, "p1").unwrap();
    assert!(listed.blew_minds.is_empty());
    assert_eq!(listed.imploded_minds.len(), 1);
    assert_eq!(listed.imploded_minds[0].get_id(), "u2");
}

#[test]
fn explosion_twice_keeps_one_row() {
    let mut board = board_with_users(&["Ada", "Grace"]);
    board.create_brainfart("p1".to_string(), post("idea"), "u1".to_string(), 10).unwrap();
    let e = NotifyAboutMindExplosionRequest { brainfart_id: "p1".to_string() };
    board.register_mind_explosion("r1".to_string(), &e, "u2").unwrap();
    board.register_mind_explosion("r2".to_string(), &e, "u2").unwrap();
    assert_eq!(board.reaction_state("p1", "u2"), ReactionState::Exploded);
    let listed = get_brainfart(&board, "p1").unwrap();
    assert_eq!(listed.blew_minds.len(), 1);
    assert!(listed.imploded_minds.is_empty());
}

#[test]
fn reactions_need_known_post_and_user() {
    let mut board = board_with_users(&["Ada"]);
    board.create_brainfart("p1".to_string(), post("idea"), "u1".to_string(), 10).unwrap();
    assert_eq!(
        board.request_reaction("r1".to_string(), "p9", "u1", true).unwrap_err(),
        StoreError::UnknownBrainfart
    );
    assert_eq!(
        board.request_reaction("r1".to_string(), "p1", "u9", true).unwrap_err(),
        StoreError::UnknownBrain
    );
    assert_eq!(board.reaction_state("p1", "u1"), ReactionState::NoReaction);
}

#[test]
fn post_refusals() {
    let mut board = board_with_users(&["Ada"]);
    let empty = CreateBrainfartRequest::create(String::new(), "x".to_string());
    assert_eq!(
        board.create_brainfart("p1".to_string(), empty, "u1".to_string(), 1).unwrap_err(),
        StoreError::InvalidRequest
    );
    assert_eq!(
        board.create_brainfart("p1".to_string(), post("a"), "u9".to_string(), 1).unwrap_err(),
        StoreError::UnknownBrain
    );
    board.create_brainfart("p1".to_string(), post("a"), "u1".to_string(), 1).unwrap();
    assert_eq!(
        board.create_brainfart("p1".to_string(), post("b"), "u1".to_string(), 2).unwrap_err(),
        StoreError::IdTaken
    );
}

#[test]
fn listing_is_newest_first_with_split_reactions() {
    let mut board = board_with_users(&["Ada", "Grace", "Linus"]);
    board.create_brainfart("p1".to_string(), post("old"), "u1".to_string(), 10).unwrap();
    board.create_brainfart("p2".to_string(), post("new"), "u2".to_string(), 30).unwrap();
    board.create_brainfart("p3".to_string(), post("mid"), "u1".to_string(), 20).unwrap();
    board.request_reaction("r1".to_string(), "p3", "u2", true).unwrap();
    board.request_reaction("r2".to_string(), "p3", "u3", false).unwrap();
    board.request_reaction("r3".to_string(), "p1", "u3", true).unwrap();
    let listed = get_brainfarts_using_filter(&board, BrainfartFilter::default());
    let ids: Vec<&str> = listed.iter().map(|p| p.id.as_str()).collect();
    assert_eq!(ids, vec!["p2", "p3", "p1"]);
    assert_eq!(listed[0].mastermind_name, "Grace");
    assert_eq!(listed[1].mastermind_name, "Ada");
    assert_eq!(listed[1].title, "mid");
    let blew: Vec<&str> = listed[1].blew_minds.iter().map(|b| b.get_name()).collect();
    let imploded: Vec<&str> = listed[1].imploded_minds.iter().map(|b| b.get_name()).collect();
    assert_eq!(blew, vec!["Grace"]);
    assert_eq!(imploded, vec!["Linus"]);
    assert_eq!(listed[2].blew_minds.len(), 1);
    assert!(listed[0].blew_minds.is_empty() && listed[0].imploded_minds.is_empty());
}

#[test]
fn equal_times_list_the_later_post_first() {
    let mut board = board_with_users(&["Ada"]);
    board.create_brainfart("p1".to_string(), post("a"), "u1".to_string(), 5).unwrap();
    board.create_brainfart("p2".to_string(), post("b"), "u1".to_string(), 5).unwrap();
    let listed = get_brainfarts_using_filter(&board, BrainfartFilter::default());
    assert_eq!(listed[0].id, "p2");
    assert_eq!(listed[1].id, "p1");
}

#[test]
fn brain_information_of_known_user() {
    let board = board_with_users(&["Ada"]);
    let info = get_brain_information(&board, "u1").unwrap();
    assert_eq!(info.get_name(), "Ada");
    assert_eq!(info.get_birthdate(), 0);
    assert!(get_brainfart(&board, "p1").is_none());
}

#[test]
fn hashed_password_checks_against_itself_only() {
    let request = RegisterBrainRequest::create("Ada".into(), "p@ss1234".into(), "p@ss1234".into());
    let hash = hash_registration_password(&request).unwrap();
    assert_ne!(hash, "p@ss1234");
    let good = ProveOwnsBrainRequest::create("Ada".into(), "p@ss1234".into());
    let bad = ProveOwnsBrainRequest::create("Ada".into(), "p@ss1235".into());
    assert_eq!(check_login(Some(("u1".to_string(), hash.clone())), &good), Some("u1".to_string()));
    assert_eq!(check_login(Some(("u1".to_string(), hash)), &bad), None);
    assert_eq!(check_login(Some(("u1".to_string(), "not a hash".to_string())), &good), None);
    assert_eq!(check_login(None, &good), None);
}

#[test]
fn stored_hash_is_checked_at_login() {
    let request = RegisterBrainRequest::create("Ada".into(), "p@ss1234".into(), "p@ss1234".into());
    let hash = prepare_registration(&request).unwrap();
    let mut board = Board::new();
    let info = board.store_brain("u1".to_string(), request, 4, hash).unwrap();
    assert_eq!(info.get_id(), "u1");
    assert_eq!(info.get_birthdate(), 4);
    let good = ProveOwnsBrainRequest::create("Ada".into(), "p@ss1234".into());
    assert_eq!(verify_password(&board, &good), Some("u1".to_string()));
    let again = RegisterBrainRequest::create("Ada".into(), "x".into(), "x".into());
    let hash = prepare_registration(&again).unwrap();
    assert_eq!(board.store_brain("u2".to_string(), again, 5, hash).unwrap_err(), StoreError::NameTaken);
}

#[test]
fn incomplete_registration_is_refused_before_hashing() {
    let request = RegisterBrainRequest::create("Ada".into(), "a".into(), "b".into());
    assert_eq!(prepare_registration(&request).unwrap_err(), StoreError::InvalidRequest);
    let empty = RegisterBrainRequest::create(String::new(), "a".into(), "a".into());
    assert_eq!(prepare_registration(&empty).unwrap_err(), StoreError::InvalidRequest);
}

#[test]
fn a_held_name_is_taken() {
    assert_eq!(name_free(&None), Ok(()));
    assert_eq!(name_free(&Some("u1".to_string())), Err(StoreError::NameTaken));
}

#[test]
fn reaction_requests_create_their_rows() {
    let mut board = board_with_users(&["Ada", "Grace"]);
    board.create_brainfart("p1".to_string(), post("idea"), "u1".to_string(), 10).unwrap();
    let e = NotifyAboutMindExplosionRequest { brainfart_id: "p1".to_string() };
    let i = NotifyAboutMindImplosionRequest { brainfart_id: "p1".to_string() };
    assert_eq!(e.create(&mut board, "r1".to_string(), "u2"), Some(()));
    assert_eq!(i.create(&mut board, "r2".to_string(), "u2"), Some(()));
    assert_eq!(board.reaction_state("p1", "u2"), ReactionState::Imploded);
    assert_eq!(e.create(&mut board, "r3".to_string(), "u9"), None);
    let missing = NotifyAboutMindExplosionRequest { brainfart_id: "p9".to_string() };
    assert_eq!(missing.create(&mut board, "r4".to_string(), "u2"), None);
}
