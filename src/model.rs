//! The values that travel between the client and the server.

use vstd::prelude::*;

verus! {

/// Identifiers are carried as their canonical text form.
pub type Uuid = String;

/// A point in time, in milliseconds since the Unix epoch.
pub type Timestamp = i64;

/// Whether two string slices hold the same characters.
pub fn same_text(a: &str, b: &str) -> (r: bool)
    ensures
        r == (a@ == b@),
{
    a.to_owned() == b.to_owned()
}

/// What the public sees of a user.
#[derive(Debug, Clone)]
pub struct BrainInformation {
    id: Uuid,
    name: String,
    birthdate: Timestamp,
}

impl BrainInformation {
    pub closed spec fn spec_id(&self) -> Seq<char> {
        self.id@
    }

    pub closed spec fn spec_name(&self) -> Seq<char> {
        self.name@
    }

    pub closed spec fn spec_birthdate(&self) -> Timestamp {
        self.birthdate
    }

    pub fn get_id(&self) -> (r: &Uuid)
        ensures
            r@ == self.spec_id(),
    {
        &self.id
    }

    pub fn get_name(&self) -> (r: &str)
        ensures
            r@ == self.spec_name(),
    {
        self.name.as_str()
    }

    pub fn get_birthdate(&self) -> (r: Timestamp)
        ensures
            r == self.spec_birthdate(),
    {
        self.birthdate
    }

    pub fn create_from_brain(brain: Brain) -> (r: BrainInformation)
        ensures
            r.spec_id() == brain.spec_id(),
            r.spec_name() == brain.spec_name(),
            r.spec_birthdate() == brain.spec_birthdate(),
    {
        BrainInformation { id: brain.id, name: brain.brainname, birthdate: brain.birthdate }
    }

    pub fn create(id: Uuid, name: String, birthdate: Timestamp) -> (r: BrainInformation)
        ensures
            r.spec_id() == id@,
            r.spec_name() == name@,
            r.spec_birthdate() == birthdate,
    {
        BrainInformation { id, name, birthdate }
    }
}

/// A registered user as the credential store holds it.
#[derive(Debug)]
pub struct Brain {
    id: Uuid,
    brainname: String,
    birthdate: Timestamp,
    encrypted_password: String,
}

impl Brain {
    pub closed spec fn spec_id(&self) -> Seq<char> {
        self.id@
    }

    pub closed spec fn spec_name(&self) -> Seq<char> {
        self.brainname@
    }

    pub closed spec fn spec_birthdate(&self) -> Timestamp {
        self.birthdate
    }

    pub closed spec fn spec_encrypted_password(&self) -> Seq<char> {
        self.encrypted_password@
    }

    pub fn get_name(&self) -> (r: &str)
        ensures
            r@ == self.spec_name(),
    {
        self.brainname.as_str()
    }

    pub fn get_id(&self) -> (r: &Uuid)
        ensures
            r@ == self.spec_id(),
    {
        &self.id
    }

    pub fn get_birthdate(&self) -> (r: Timestamp)
        ensures
            r == self.spec_birthdate(),
    {
        self.birthdate
    }

    pub fn get_encrypted_password(&self) -> (r: &str)
        ensures
            r@ == self.spec_encrypted_password(),
    {
        self.encrypted_password.as_str()
    }

    pub fn register(
        id: Uuid,
        request: RegisterBrainRequest,
        birthdate: Timestamp,
        encrypted_password: String,
    ) -> (r: Brain)
        ensures
            r.spec_id() == id@,
            r.spec_name() == request.spec_name(),
            r.spec_birthdate() == birthdate,
            r.spec_encrypted_password() == encrypted_password@,
    {
        Brain { id, brainname: request.brainname, birthdate, encrypted_password }
    }
}

/// The body of a registration.
#[derive(Debug)]
pub struct RegisterBrainRequest {
    brainname: String,
    password: String,
    password_extra: String,
}

/// Whether a registration form is complete: a name, a password, and the
/// same password typed twice.
pub open spec fn registration_valid(name: Seq<char>, password: Seq<char>, extra: Seq<char>) -> bool {
    name.len() > 0 && password.len() > 0 && password == extra
}

impl RegisterBrainRequest {
    pub closed spec fn spec_name(&self) -> Seq<char> {
        self.brainname@
    }

    pub closed spec fn spec_password(&self) -> Seq<char> {
        self.password@
    }

    pub closed spec fn spec_password_extra(&self) -> Seq<char> {
        self.password_extra@
    }

    pub fn get_name(&self) -> (r: &str)
        ensures
            r@ == self.spec_name(),
    {
        self.brainname.as_str()
    }

    pub fn get_password(&self) -> (r: &str)
        ensures
            r@ == self.spec_password(),
    {
        self.password.as_str()
    }

    pub fn get_password_extra(&self) -> (r: &str)
        ensures
            r@ == self.spec_password_extra(),
    {
        self.password_extra.as_str()
    }

    pub fn create(brainname: String, password: String, password_extra: String) -> (r:
        RegisterBrainRequest)
        ensures
            r.spec_name() == brainname@,
            r.spec_password() == password@,
            r.spec_password_extra() == password_extra@,
    {
        RegisterBrainRequest { brainname, password, password_extra }
    }

    pub fn validate(brainname: &str, password: &str, password_extra: &str) -> (r: bool)
        ensures
            r == registration_valid(brainname@, password@, password_extra@),
    {
        !brainname.is_empty() && !password.is_empty() && same_text(password, password_extra)
    }
}

/// The body of a login.
#[derive(Debug)]
pub struct ProveOwnsBrainRequest {
    brainname: String,
    password: String,
}

/// Whether a login form is complete.
pub open spec fn login_valid(name: Seq<char>, password: Seq<char>) -> bool {
    name.len() > 0 && password.len() > 0
}

impl ProveOwnsBrainRequest {
    pub closed spec fn spec_name(&self) -> Seq<char> {
        self.brainname@
    }

    pub closed spec fn spec_password(&self) -> Seq<char> {
        self.password@
    }

    pub fn get_name(&self) -> (r: &str)
        ensures
            r@ == self.spec_name(),
    {
        self.brainname.as_str()
    }

    pub fn get_password(&self) -> (r: &str)
        ensures
            r@ == self.spec_password(),
    {
        self.password.as_str()
    }

    pub fn create(brainname: String, password: String) -> (r: ProveOwnsBrainRequest)
        ensures
            r.spec_name() == brainname@,
            r.spec_password() == password@,
    {
        ProveOwnsBrainRequest { brainname, password }
    }

    pub fn validate(brainname: &str, password: &str) -> (r: bool)
        ensures
            r == login_valid(brainname@, password@),
    {
        !brainname.is_empty() && !password.is_empty()
    }
}


/// A post as it is listed: its author's name and who reacted how.
#[derive(Debug, Clone)]
pub struct BrainfartInformation {
    pub id: Uuid,
    pub title: String,
    pub content: String,
    pub birthdate: Timestamp,
    pub mastermind_name: String,
    pub blew_minds: Vec<BrainInformation>,
    pub imploded_minds: Vec<BrainInformation>,
}

/// Listed posts are the same post when their identifiers agree.
impl PartialEq for BrainfartInformation {
    fn eq(&self, other: &Self) -> (r: bool) {
        self.id == other.id
    }
}

impl vstd::std_specs::cmp::PartialEqSpecImpl for BrainfartInformation {
    open spec fn obeys_eq_spec() -> bool {
        true
    }

    open spec fn eq_spec(&self, other: &BrainfartInformation) -> bool {
        self.id@ == other.id@
    }
}

impl BrainfartInformation {
    pub fn create(
        brainfart: Brainfart,
        mastermind_name: String,
        blew_minds: Vec<BrainInformation>,
        imploded_minds: Vec<BrainInformation>,
    ) -> (r: BrainfartInformation)
        ensures
            r.id@ == brainfart.id@,
            r.title@ == brainfart.title@,
            r.content@ == brainfart.content@,
            r.birthdate == brainfart.birthdate,
            r.mastermind_name@ == mastermind_name@,
            r.blew_minds@ == blew_minds@,
            r.imploded_minds@ == imploded_minds@,
    {
        BrainfartInformation {
            id: brainfart.id,
            title: brainfart.title,
            content: brainfart.content,
            birthdate: brainfart.birthdate,
            mastermind_name,
            blew_minds,
            imploded_minds,
        }
    }

    /// A placeholder entry, stamped with the current time.
    pub fn empty() -> (r: BrainfartInformation)
        ensures
            r.id@.len() == 0,
            r.title@.len() == 0,
            r.content@.len() == 0,
            r.mastermind_name@.len() == 0,
            r.blew_minds@.len() == 0,
            r.imploded_minds@.len() == 0,
    {
        BrainfartInformation {
            id: String::new(),
            title: String::new(),
            content: String::new(),
            birthdate: crate::clock::now_millis(),
            mastermind_name: String::new(),
            blew_minds: Vec::new(),
            imploded_minds: Vec::new(),
        }
    }
}

/// The body of an explosion (a positive reaction) on a post.
#[derive(Debug)]
pub struct NotifyAboutMindExplosionRequest {
    pub brainfart_id: Uuid,
}

/// The body of an implosion (a negative reaction) on a post.
#[derive(Debug)]
pub struct NotifyAboutMindImplosionRequest {
    pub brainfart_id: Uuid,
}

/// A stored post.
#[derive(Debug)]
pub struct Brainfart {
    pub id: Uuid,
    pub title: String,
    pub content: String,
    pub birthdate: Timestamp,
    pub mastermind_id: Uuid,
}

impl Brainfart {
    pub fn create(
        id: Uuid,
        request: CreateBrainfartRequest,
        mastermind_id: Uuid,
        birthdate: Timestamp,
    ) -> (r: Brainfart)
        ensures
            r.id@ == id@,
            r.title@ == request.spec_title(),
            r.content@ == request.spec_content(),
            r.birthdate == birthdate,
            r.mastermind_id@ == mastermind_id@,
    {
        Brainfart {
            id,
            title: request.title,
            content: request.content,
            birthdate,
            mastermind_id,
        }
    }
}

/// Which posts a listing asks for; every post, for now.
#[derive(Debug)]
pub struct BrainfartFilter {}

impl BrainfartFilter {
    pub fn default() -> (r: BrainfartFilter) {
        BrainfartFilter {}
    }
}

/// The body of a new post.
#[derive(Debug)]
pub struct CreateBrainfartRequest {
    title: String,
    content: String,
}

/// Whether a new post is complete: a title and some content.
pub open spec fn post_valid(title: Seq<char>, content: Seq<char>) -> bool {
    title.len() > 0 && content.len() > 0
}

impl CreateBrainfartRequest {
    pub closed spec fn spec_title(&self) -> Seq<char> {
        self.title@
    }

    pub closed spec fn spec_content(&self) -> Seq<char> {
        self.content@
    }

    pub fn get_title(&self) -> (r: &str)
        ensures
            r@ == self.spec_title(),
    {
        self.title.as_str()
    }

    pub fn get_content(&self) -> (r: &str)
        ensures
            r@ == self.spec_content(),
    {
        self.content.as_str()
    }

    pub fn validate(title: &str, content: &str) -> (r: bool)
        ensures
            r == post_valid(title@, content@),
    {
        !title.is_empty() && !content.is_empty()
    }

    pub fn create(title: String, content: String) -> (r: CreateBrainfartRequest)
        ensures
            r.spec_title() == title@,
            r.spec_content() == content@,
    {
        CreateBrainfartRequest { title, content }
    }
}

/// Who a session token speaks for.
#[derive(Debug, Clone, PartialEq, Eq)]
pub struct JwtInformation {
    pub brainname: String,
    pub id: Uuid,
}

} // verus!
