use brains::client::{
    apply_updated_brainfart, has_exploded, has_imploded, read_answer, strip_quotes,
    AfterApiAction, FormState, ModalMessage, NewBrainfartView,
};
use brains::model::{BrainInformation, Brainfart, BrainfartInformation, CreateBrainfartRequest};

fn listed(id: &str, blew: &[&str], imploded: &[&str]) -> BrainfartInformation {
    let minds = |ids: &[&str]| -> Vec<BrainInformation> {
        ids.iter().map(|i| BrainInformation::create(i.to_string(), i.to_uppercase(), 0)).collect()
    };
    BrainfartInformation::create(
        Brainfart::create(
            id.to_string(),
            CreateBrainfartRequest::create("t".into(), "c".into()),
            "u0".into(),
            0,
        ),
        "Ada".into(),
        minds(blew),
        minds(imploded),
    )
}

#[test]
fn form_submits_once_at_a_time() {
    let mut form = FormState::create();
    assert!(!form.button_is_enabled());
    assert!(form.update_button_status(true));
    assert!(!form.update_button_status(true));
    assert!(form.button_is_enabled());
    form.submit();
    assert!(form.is_busy && !form.button_is_enabled() && !form.show_warning);
    form.after_api_response(true, AfterApiAction { error_text: "Unknown brain!".to_string() });
    assert!(form.button_is_enabled());
    assert!(form.show_warning);
    assert_eq!(form.error_text, "Unknown brain!");
    form.submit();
    form.after_creation();
    assert!(!form.is_busy && !form.show_warning);
    assert!(form.update_button_status(false));
    assert!(!form.button_is_enabled());
}

#[test]
fn own_reaction_is_shown() {
    let post = listed("p1", &["u1"], &["u2", "u1"]);
    assert!(has_exploded(&post, "u1"));
    assert!(!has_imploded(&post, "u1"));
    assert!(!has_exploded(&post, "u2"));
    assert!(has_imploded(&post, "u2"));
    assert!(!has_exploded(&post, "u3") && !has_imploded(&post, "u3"));
}

#[test]
fn updated_post_replaces_reactions_only() {
    let mut shown = vec![listed("p1", &[], &[]), listed("p2", &["u1"], &[])];
    let mut changed = listed("p2", &[], &["u1"]);
    changed.title = "ignored".to_string();
    assert!(apply_updated_brainfart(&mut shown, changed));
    assert_eq!(shown[1].title, "t");
    assert!(shown[1].blew_minds.is_empty());
    assert_eq!(shown[1].imploded_minds[0].get_id(), "u1");
    assert!(!apply_updated_brainfart(&mut shown, listed("p9", &["u1"], &[])));
    assert_eq!(shown.len(), 2);
}

#[test]
fn overlay_click_closes_only_outside_content() {
    let mut view = NewBrainfartView::create();
    assert!(!view.update(ModalMessage::OverlayClicked));
    assert!(view.update(ModalMessage::TriggerModal));
    assert!(view.show_modal);
    assert!(!view.update(ModalMessage::MouseMovesIntoContent));
    assert!(!view.update(ModalMessage::OverlayClicked));
    assert!(view.show_modal);
    assert!(!view.update(ModalMessage::MouseLeavesContent));
    assert!(view.update(ModalMessage::OverlayClicked));
    assert!(!view.show_modal);
    assert!(view.update(ModalMessage::TriggerModal));
    assert!(view.update(ModalMessage::CloseModal));
    assert!(!view.show_modal);
}

#[test]
fn submitting_builds_the_body_and_blocks_the_form() {
    let mut form = FormState::create();
    form.update_button_status(true);
    let body = form.submit_registration("Ada".into(), "p@ss1234".into(), "p@ss1234".into());
    assert_eq!(body.get_name(), "Ada");
    assert_eq!(body.get_password(), "p@ss1234");
    assert_eq!(body.get_password_extra(), "p@ss1234");
    assert!(form.is_busy && !form.button_is_enabled());
    let mut login = FormState::create();
    let body = login.submit_login("Grace".into(), "hopper".into());
    assert_eq!((body.get_name(), body.get_password()), ("Grace", "hopper"));
    let mut post = FormState::create();
    let body = post.submit_brainfart("idea".into(), "...".into());
    assert_eq!((body.get_title(), body.get_content()), ("idea", "..."));
    assert!(post.is_busy);
}

#[test]
fn answers_lose_their_quotes() {
    assert_eq!(strip_quotes("\"abc.def\""), "abc.def");
    assert_eq!(strip_quotes("a\"b\"c"), "abc");
    assert_eq!(strip_quotes(""), "");
    assert_eq!(strip_quotes("Hjärnor \"ö\""), "Hjärnor ö");
    assert_eq!(read_answer(true, "\"tok\"").unwrap(), "tok");
    let refused = read_answer(false, "\"Unknown brain!\"").unwrap_err();
    assert_eq!(refused.error_text, "Unknown brain!");
}
