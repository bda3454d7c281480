use brains::model::{
    BrainInformation, Brainfart, BrainfartFilter, BrainfartInformation, CreateBrainfartRequest,
    ProveOwnsBrainRequest, RegisterBrainRequest,
};

#[test]
fn registration_needs_name_password_and_confirmation() {
    assert!(RegisterBrainRequest::validate("Ada", "p@ss1234", "p@ss1234"));
    assert!(!RegisterBrainRequest::validate("", "p@ss1234", "p@ss1234"));
    assert!(!RegisterBrainRequest::validate("Ada", "", ""));
    assert!(!RegisterBrainRequest::validate("Ada", "p@ss1234", "p@ss1235"));
}

#[test]
fn login_needs_name_and_password() {
    assert!(ProveOwnsBrainRequest::validate("Ada", "x"));
    assert!(!ProveOwnsBrainRequest::validate("", "x"));
    assert!(!ProveOwnsBrainRequest::validate("Ada", ""));
}

#[test]
fn post_needs_title_and_content() {
    assert!(CreateBrainfartRequest::validate("idea", "..."));
    assert!(!CreateBrainfartRequest::validate("", "..."));
    assert!(!CreateBrainfartRequest::validate("idea", ""));
}

#[test]
fn requests_keep_their_fields() {
    let r = RegisterBrainRequest::create("Ada".to_string(), "a".to_string(), "b".to_string());
    assert_eq!(r.get_name(), "Ada");
    assert_eq!(r.get_password(), "a");
    assert_eq!(r.get_password_extra(), "b");
    let l = ProveOwnsBrainRequest::create("Grace".to_string(), "pw".to_string());
    assert_eq!(l.get_name(), "Grace");
    assert_eq!(l.get_password(), "pw");
    let c = CreateBrainfartRequest::create("idea".to_string(), "body".to_string());
    assert_eq!(c.get_title(), "idea");
    assert_eq!(c.get_content(), "body");
}

#[test]
fn brainfart_takes_request_fields() {
    let c = CreateBrainfartRequest::create("idea".to_string(), "body".to_string());
    let p = Brainfart::create("p1".to_string(), c, "u1".to_string(), 42);
    assert_eq!(p.id, "p1");
    assert_eq!(p.title, "idea");
    assert_eq!(p.content, "body");
    assert_eq!(p.mastermind_id, "u1");
    assert_eq!(p.birthdate, 42);
    let info = BrainfartInformation::create(p, "Ada".to_string(), vec![], vec![]);
    assert_eq!(info.mastermind_name, "Ada");
    assert_eq!(info.title, "idea");
}

#[test]
fn listed_posts_compare_by_id() {
    let a = BrainfartInformation::create(
        Brainfart::create(
            "p1".to_string(),
            CreateBrainfartRequest::create("a".to_string(), "b".to_string()),
            "u1".to_string(),
            1,
        ),
        "Ada".to_string(),
        vec![],
        vec![],
    );
    let b = BrainfartInformation::create(
        Brainfart::create(
            "p1".to_string(),
            CreateBrainfartRequest::create("other".to_string(), "text".to_string()),
            "u2".to_string(),
            2,
        ),
        "Grace".to_string(),
        vec![BrainInformation::create("u3".to_string(), "Linus".to_string(), 3)],
        vec![],
    );
    assert!(a == b);
    let mut c = BrainfartInformation::empty();
    assert!(c != a);
    c.id = "p1".to_string();
    assert!(c == a);
}

#[test]
fn empty_listing_entry_is_blank() {
    let e = BrainfartInformation::empty();
    assert!(e.id.is_empty() && e.title.is_empty() && e.content.is_empty());
    assert!(e.blew_minds.is_empty() && e.imploded_minds.is_empty());
    let _ = BrainfartFilter::default();
}

#[test]
fn brain_information_keeps_fields() {
    let b = BrainInformation::create("u1".to_string(), "Ada".to_string(), 7);
    assert_eq!(b.get_id(), "u1");
    assert_eq!(b.get_name(), "Ada");
    assert_eq!(b.get_birthdate(), 7);
}
