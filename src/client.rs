//! What the client decides: when a form may be submitted, what it shows
//! after an answer, and how the user's own reactions are shown.

use vstd::prelude::*;

use crate::model::{
    same_text, BrainInformation, BrainfartInformation, CreateBrainfartRequest,
    ProveOwnsBrainRequest, RegisterBrainRequest,
};

verus! {

/// What a refused request sends back to its form.
#[derive(Debug)]
pub struct AfterApiAction {
    pub error_text: String,
}

/// The state of a form's submit control and warning area.
///
/// The control is disabled while the fields are incomplete and while a
/// request is in flight, so at most one submission per form is in flight.
#[derive(Debug)]
pub struct FormState {
    pub button_disabled: bool,
    pub show_warning: bool,
    pub is_busy: bool,
    pub error_text: String,
}

impl FormState {
    /// A fresh form: nothing typed, so the control is disabled.
    pub fn create() -> (r: FormState)
        ensures
            r.button_disabled,
            !r.show_warning,
            !r.is_busy,
            r.error_text@.len() == 0,
    {
        FormState {
            button_disabled: true,
            show_warning: false,
            is_busy: false,
            error_text: String::new(),
        }
    }

    pub open spec fn spec_button_is_enabled(&self) -> bool {
        !self.button_disabled && !self.is_busy
    }

    /// Whether the form may be submitted now.
    pub fn button_is_enabled(&self) -> (r: bool)
        ensures
            r == self.spec_button_is_enabled(),
    {
        !self.button_disabled && !self.is_busy
    }

    /// Follows the fields: the control is disabled exactly while they are
    /// incomplete. Returns whether that changed.
    pub fn update_button_status(&mut self, fields_valid: bool) -> (r: bool)
        ensures
            final(self).button_disabled == !fields_valid,
            r == (old(self).button_disabled != !fields_valid),
            final(self).show_warning == old(self).show_warning,
            final(self).is_busy == old(self).is_busy,
            final(self).error_text@ == old(self).error_text@,
    {
        let should_be_disabled = !fields_valid;
        let will_value_change = should_be_disabled != self.button_disabled;
        self.button_disabled = should_be_disabled;
        will_value_change
    }

    /// A submission leaves: the form is busy and the warning hidden.
    pub fn submit(&mut self)
        ensures
            final(self).is_busy,
            !final(self).show_warning,
            !final(self).spec_button_is_enabled(),
            final(self).button_disabled == old(self).button_disabled,
            final(self).error_text@ == old(self).error_text@,
    {
        self.is_busy = true;
        self.show_warning = false;
    }

    /// The registration form is submitted: the form is busy, and the body
    /// to send is built from its three fields.
    pub fn submit_registration(&mut self, name: String, password: String, password_extra: String) -> (r:
        RegisterBrainRequest)
        ensures
            final(self).is_busy,
            !final(self).show_warning,
            !final(self).spec_button_is_enabled(),
            final(self).button_disabled == old(self).button_disabled,
            r.spec_name() == name@,
            r.spec_password() == password@,
            r.spec_password_extra() == password_extra@,
    {
        self.submit();
        RegisterBrainRequest::create(name, password, password_extra)
    }

    /// The login form is submitted: the form is busy, and the body to send
    /// is built from its two fields.
    pub fn submit_login(&mut self, name: String, password: String) -> (r: ProveOwnsBrainRequest)
        ensures
            final(self).is_busy,
            !final(self).show_warning,
            !final(self).spec_button_is_enabled(),
            final(self).button_disabled == old(self).button_disabled,
            r.spec_name() == name@,
            r.spec_password() == password@,
    {
        self.submit();
        ProveOwnsBrainRequest::create(name, password)
    }

    /// The new-post form is submitted: the form is busy, and the body to
    /// send is built from its two fields.
    pub fn submit_brainfart(&mut self, title: String, content: String) -> (r: CreateBrainfartRequest)
        ensures
            final(self).is_busy,
            !final(self).show_warning,
            !final(self).spec_button_is_enabled(),
            final(self).button_disabled == old(self).button_disabled,
            r.spec_title() == title@,
            r.spec_content() == content@,
    {
        self.submit();
        CreateBrainfartRequest::create(title, content)
    }

    /// A refusal came back: the form shows its text and may be submitted
    /// again once the fields are complete.
    pub fn after_api_response(&mut self, fields_valid: bool, action: AfterApiAction)
        ensures
            !final(self).is_busy,
            final(self).show_warning,
            final(self).error_text@ == action.error_text@,
            final(self).button_disabled == !fields_valid,
            final(self).spec_button_is_enabled() == fields_valid,
    {
        self.update_button_status(fields_valid);
        self.show_warning = true;
        self.error_text = action.error_text;
        self.is_busy = false;
    }

    /// The creation succeeded: the form is free again and shows no warning.
    pub fn after_creation(&mut self)
        ensures
            !final(self).is_busy,
            !final(self).show_warning,
            final(self).button_disabled == old(self).button_disabled,
            final(self).error_text@ == old(self).error_text@,
    {
        self.is_busy = false;
        self.show_warning = false;
    }
}

/// The text with every double quote removed.
pub open spec fn without_quotes(s: Seq<char>) -> Seq<char>
    decreases s.len(),
{
    if s.len() == 0 {
        Seq::empty()
    } else if s.last() == '"' {
        without_quotes(s.drop_last())
    } else {
        without_quotes(s.drop_last()).push(s.last())
    }
}

/// The text with every double quote removed (an answer's JSON string
/// quotes).
pub fn strip_quotes(text: &str) -> (r: String)
    ensures
        r@ == without_quotes(text@),
{
    let n = text.unicode_len();
    let mut out = String::new();
    let mut i: usize = 0;
    assert(text@.take(0) =~= Seq::<char>::empty());
    while i < n
        invariant
            n == text@.len(),
            i <= n,
            out@ == without_quotes(text@.take(i as int)),
        decreases n - i,
    {
        let c = text.get_char(i);
        let ghost next = text@.take(i + 1);
        assert(next.drop_last() =~= text@.take(i as int));
        assert(next.last() == c);
        if c != '"' {
            let piece = text.substring_char(i, i + 1);
            assert(piece@ =~= seq![c]);
            out.append(piece);
            assert(out@ =~= without_quotes(text@.take(i as int)).push(c));
        }
        i = i + 1;
    }
    assert(text@.take(n as int) =~= text@);
    out
}

/// What a form makes of an answer: where the request succeeded, the token
/// to keep; otherwise the text to show. Either has its quotes removed.
pub fn read_answer(ok: bool, text: &str) -> (r: Result<String, AfterApiAction>)
    ensures
        ok ==> (r matches Ok(t) && t@ == without_quotes(text@)),
        !ok ==> (r matches Err(a) && a.error_text@ == without_quotes(text@)),
{
    let stripped = strip_quotes(text);
    if ok {
        Ok(stripped)
    } else {
        Err(AfterApiAction { error_text: stripped })
    }
}

/// Whether `user` is among `minds`.
pub open spec fn lists_user(minds: Seq<BrainInformation>, user: Seq<char>) -> bool {
    exists|i: int| 0 <= i < minds.len() && (#[trigger] minds[i]).spec_id() == user
}

fn contains_user(minds: &Vec<BrainInformation>, user: &str) -> (r: bool)
    ensures
        r == lists_user(minds@, user@),
{
    let mut i: usize = 0;
    while i < minds.len()
        invariant
            i <= minds@.len(),
            forall|j: int| 0 <= j < i ==> (#[trigger] minds@[j]).spec_id() != user@,
        decreases minds@.len() - i,
    {
        if same_text(minds[i].get_id().as_str(), user) {
            assert(minds@[i as int].spec_id() == user@);
            return true;
        }
        i = i + 1;
    }
    false
}

/// Whether `user` is listed as having exploded over the post.
pub fn has_exploded(brainfart: &BrainfartInformation, user: &str) -> (r: bool)
    ensures
        r == lists_user(brainfart.blew_minds@, user@),
{
    contains_user(&brainfart.blew_minds, user)
}

/// Whether `user` is shown as having imploded over the post; an explosion
/// takes precedence.
pub fn has_imploded(brainfart: &BrainfartInformation, user: &str) -> (r: bool)
    ensures
        r == (!lists_user(brainfart.blew_minds@, user@) && lists_user(
            brainfart.imploded_minds@,
            user@,
        )),
{
    !has_exploded(brainfart, user) && contains_user(&brainfart.imploded_minds, user)
}

/// Takes the reactions of an updated post into the shown list, at the first
/// entry with the same identifier. Returns whether there was one.
pub fn apply_updated_brainfart(
    brainfarts: &mut Vec<BrainfartInformation>,
    changed: BrainfartInformation,
) -> (r: bool)
    ensures
        final(brainfarts)@.len() == old(brainfarts)@.len(),
        r == exists|i: int|
            0 <= i < old(brainfarts)@.len() && (#[trigger] old(brainfarts)@[i]).id@ == changed.id@,
        !r ==> final(brainfarts)@ == old(brainfarts)@,
        r ==> exists|i: int|
            0 <= i < old(brainfarts)@.len() && (#[trigger] old(brainfarts)@[i]).id@ == changed.id@
                && (forall|j: int| 0 <= j < i ==> old(brainfarts)@[j].id@ != changed.id@)
                && final(brainfarts)@ == old(brainfarts)@.update(
                i,
                BrainfartInformation {
                    blew_minds: changed.blew_minds,
                    imploded_minds: changed.imploded_minds,
                    ..old(brainfarts)@[i]
                },
            ),
{
    let mut i: usize = 0;
    while i < brainfarts.len()
        invariant
            i <= brainfarts@.len(),
            brainfarts@ == old(brainfarts)@,
            forall|j: int| 0 <= j < i ==> (#[trigger] brainfarts@[j]).id@ != changed.id@,
        decreases brainfarts@.len() - i,
    {
        if brainfarts[i].id == changed.id {
            let BrainfartInformation { id: _, title: _, content: _, birthdate: _, mastermind_name: _, blew_minds, imploded_minds } = changed;
            brainfarts[i].blew_minds = blew_minds;
            brainfarts[i].imploded_minds = imploded_minds;
            return true;
        }
        i = i + 1;
    }
    false
}


/// What happens around the new-post dialog.
#[derive(Debug, Clone, Copy, PartialEq, Eq, Structural)]
pub enum ModalMessage {
    TriggerModal,
    CloseModal,
    OverlayClicked,
    MouseMovesIntoContent,
    MouseLeavesContent,
}

/// Whether the new-post dialog is open, and whether the pointer is over its
/// content (a click on the overlay outside the content closes it).
#[derive(Debug)]
pub struct NewBrainfartView {
    pub show_modal: bool,
    pub mouse_is_in_content_area: bool,
}

impl NewBrainfartView {
    pub fn create() -> (r: NewBrainfartView)
        ensures
            !r.show_modal,
            !r.mouse_is_in_content_area,
    {
        NewBrainfartView { show_modal: false, mouse_is_in_content_area: false }
    }

    /// Applies `msg`; returns whether the view must be drawn again.
    pub fn update(&mut self, msg: ModalMessage) -> (r: bool)
        ensures
            match msg {
                ModalMessage::TriggerModal => final(self).show_modal && r
                    && final(self).mouse_is_in_content_area == old(self).mouse_is_in_content_area,
                ModalMessage::CloseModal => !final(self).show_modal && r
                    && final(self).mouse_is_in_content_area == old(self).mouse_is_in_content_area,
                ModalMessage::OverlayClicked => if old(self).show_modal
                    && !old(self).mouse_is_in_content_area {
                    !final(self).show_modal && r && !final(self).mouse_is_in_content_area
                } else {
                    *final(self) == *old(self) && !r
                },
                ModalMessage::MouseMovesIntoContent => final(self).mouse_is_in_content_area
                    && final(self).show_modal == old(self).show_modal && !r,
                ModalMessage::MouseLeavesContent => !final(self).mouse_is_in_content_area
                    && final(self).show_modal == old(self).show_modal && !r,
            },
    {
        match msg {
            ModalMessage::TriggerModal => {
                self.show_modal = true;
                true
            },
            ModalMessage::CloseModal => {
                self.show_modal = false;
                true
            },
            ModalMessage::OverlayClicked => {
                if self.show_modal && !self.mouse_is_in_content_area {
                    self.show_modal = false;
                    true
                } else {
                    false
                }
            },
            ModalMessage::MouseLeavesContent => {
                self.mouse_is_in_content_area = false;
                false
            },
            ModalMessage::MouseMovesIntoContent => {
                self.mouse_is_in_content_area = true;
                false
            },
        }
    }
}

} // verus!
