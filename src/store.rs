//! The credential store and the post store, kept in memory.
//!
//! The board keeps user names unique, posts ordered newest first, and at
//! most one reaction row per (post, user) pair; `rows` says what its tables
//! and operations are as plain values.

use vstd::prelude::*;

use crate::model::{
    post_valid, registration_valid, same_text, Brain, BrainInformation, Brainfart,
    BrainfartFilter, BrainfartInformation, CreateBrainfartRequest,
    NotifyAboutMindExplosionRequest, NotifyAboutMindImplosionRequest, ProveOwnsBrainRequest,
    RegisterBrainRequest, Timestamp, Uuid,
};
use crate::password::{check_password, hash_password, password_matches};
use crate::reactions::ReactionState;
use crate::rows::{
    brain_named, brain_row, brain_with_id, brains_distinct, brains_view, has_post,
    lemma_brain_search, lemma_react, lemma_row_for, listed, listed_view, listing, login_outcome,
    lemma_brain_known_after_push, lemma_post_known_after_insert, newest_first, one_row_per_pair,
    post_row, posts_by_known_authors, rows_point_to_known, posts_distinct, posts_view, react, reaction_row,
    reactions_view, reactor_of, reactors, reactors_view, row_for, state_in, BrainRow, PostRow,
    ReactionRow, Reactor,
};

verus! {

/// A stored reaction.
#[derive(Debug)]
pub struct Reaction {
    pub id: Uuid,
    pub brainfart_id: Uuid,
    pub brain_id: Uuid,
    pub is_explosion: bool,
}

/// Why the store refused a write.
#[derive(Debug, Clone, Copy, PartialEq, Eq, Structural)]
pub enum StoreError {
    /// A required field is empty, or the passwords differ.
    InvalidRequest,
    /// Another user already has this name.
    NameTaken,
    /// The identifier is already in use.
    IdTaken,
    /// The password could not be hashed.
    HashFailed,
    /// No user has this identifier.
    UnknownBrain,
    /// No post has this identifier.
    UnknownBrainfart,
    /// The backing database refused or failed the write.
    Unavailable,
}

fn find_brain_by_id(brains: &Vec<Brain>, id: &str) -> (r: Option<usize>)
    ensures
        match r {
            Some(i) => i < brains@.len() && brain_with_id(brains_view(brains@), id@) == Some(
                brain_row(brains@[i as int]),
            ),
            None => brain_with_id(brains_view(brains@), id@) is None,
        },
{
    let ghost bv = brains_view(brains@);
    let mut i: usize = brains.len();
    assert(bv.take(i as int) =~= bv);
    while i > 0
        invariant
            i <= brains@.len(),
            bv == brains_view(brains@),
            brain_with_id(bv, id@) == brain_with_id(bv.take(i as int), id@),
        decreases i,
    {
        let ghost pre = bv.take(i as int);
        assert(pre.drop_last() =~= bv.take(i - 1));
        i = i - 1;
        if same_text(brains[i].get_id().as_str(), id) {
            return Some(i);
        }
    }
    None
}

fn find_brain_by_name(brains: &Vec<Brain>, name: &str) -> (r: Option<usize>)
    ensures
        match r {
            Some(i) => i < brains@.len() && brain_named(brains_view(brains@), name@) == Some(
                brain_row(brains@[i as int]),
            ),
            None => brain_named(brains_view(brains@), name@) is None,
        },
{
    let ghost bv = brains_view(brains@);
    let mut i: usize = brains.len();
    assert(bv.take(i as int) =~= bv);
    while i > 0
        invariant
            i <= brains@.len(),
            bv == brains_view(brains@),
            brain_named(bv, name@) == brain_named(bv.take(i as int), name@),
        decreases i,
    {
        let ghost pre = bv.take(i as int);
        assert(pre.drop_last() =~= bv.take(i - 1));
        i = i - 1;
        if same_text(brains[i].get_name(), name) {
            return Some(i);
        }
    }
    None
}

fn find_reaction_row(reactions: &Vec<Reaction>, post: &str, user: &str) -> (r: Option<usize>)
    ensures
        match r {
            Some(i) => row_for(reactions_view(reactions@), post@, user@) == Some(i as int),
            None => row_for(reactions_view(reactions@), post@, user@) is None,
        },
{
    let ghost rv = reactions_view(reactions@);
    let mut i: usize = reactions.len();
    assert(rv.take(i as int) =~= rv);
    while i > 0
        invariant
            i <= reactions@.len(),
            rv == reactions_view(reactions@),
            row_for(rv, post@, user@) == row_for(rv.take(i as int), post@, user@),
        decreases i,
    {
        let ghost pre = rv.take(i as int);
        assert(pre.drop_last() =~= rv.take(i - 1));
        i = i - 1;
        if same_text(reactions[i].brainfart_id.as_str(), post) && same_text(
            reactions[i].brain_id.as_str(),
            user,
        ) {
            return Some(i);
        }
    }
    None
}

fn find_post(brainfarts: &Vec<Brainfart>, id: &str) -> (r: Option<usize>)
    ensures
        match r {
            Some(i) => i < brainfarts@.len() && brainfarts@[i as int].id@ == id@ && has_post(
                posts_view(brainfarts@),
                id@,
            ),
            None => !has_post(posts_view(brainfarts@), id@),
        },
{
    let mut i: usize = 0;
    while i < brainfarts.len()
        invariant
            i <= brainfarts@.len(),
            forall|j: int| 0 <= j < i ==> brainfarts@[j].id@ != id@,
        decreases brainfarts@.len() - i,
    {
        if same_text(brainfarts[i].id.as_str(), id) {
            assert(posts_view(brainfarts@)[i as int].id == id@);
            return Some(i);
        }
        i = i + 1;
    }
    assert forall|j: int| 0 <= j < brainfarts@.len() implies (#[trigger] posts_view(
        brainfarts@,
    )[j]).id != id@ by {}
    None
}

/// The users who reacted on `post` with kind `explosion`.
fn reactors_of(reactions: &Vec<Reaction>, brains: &Vec<Brain>, post: &str, explosion: bool) -> (r:
    Vec<BrainInformation>)
    ensures
        reactors_view(r@) == reactors(
            reactions_view(reactions@),
            brains_view(brains@),
            post@,
            explosion,
        ),
{
    let ghost rv = reactions_view(reactions@);
    let ghost bv = brains_view(brains@);
    let mut out: Vec<BrainInformation> = Vec::new();
    let mut j: usize = 0;
    assert(rv.take(0) =~= Seq::<ReactionRow>::empty());
    assert(reactors_view(out@) =~= Seq::<Reactor>::empty());
    while j < reactions.len()
        invariant
            j <= reactions@.len(),
            rv == reactions_view(reactions@),
            bv == brains_view(brains@),
            reactors_view(out@) == reactors(rv.take(j as int), bv, post@, explosion),
        decreases reactions@.len() - j,
    {
        let ghost next = rv.take(j + 1);
        assert(next.drop_last() =~= rv.take(j as int));
        assert(next.last() == reaction_row(reactions@[j as int]));
        let r = &reactions[j];
        if same_text(r.brainfart_id.as_str(), post) && r.is_explosion == explosion {
            match find_brain_by_id(brains, r.brain_id.as_str()) {
                Some(k) => {
                    let b = &brains[k];
                    let info = BrainInformation::create(
                        b.get_id().clone(),
                        b.get_name().to_owned(),
                        b.get_birthdate(),
                    );
                    let ghost before = out@;
                    out.push(info);
                    assert(reactors_view(out@) =~= reactors_view(before).push(reactor_of(info)));
                },
                None => {},
            }
        }
        j = j + 1;
    }
    assert(rv.take(reactions@.len() as int) =~= rv);
    out
}

/// The listing of every post in `brainfarts`, in their order.
pub fn assemble_listing(
    brainfarts: &Vec<Brainfart>,
    brains: &Vec<Brain>,
    reactions: &Vec<Reaction>,
) -> (r: Vec<BrainfartInformation>)
    ensures
        listed_view(r@) == listing(
            posts_view(brainfarts@),
            brains_view(brains@),
            reactions_view(reactions@),
        ),
{
    let ghost pv = posts_view(brainfarts@);
    let ghost bv = brains_view(brains@);
    let ghost rv = reactions_view(reactions@);
    let mut out: Vec<BrainfartInformation> = Vec::new();
    let mut i: usize = 0;
    while i < brainfarts.len()
        invariant
            i <= brainfarts@.len(),
            pv == posts_view(brainfarts@),
            bv == brains_view(brains@),
            rv == reactions_view(reactions@),
            listed_view(out@) =~= listing(pv, bv, rv).take(i as int),
        decreases brainfarts@.len() - i,
    {
        let p = &brainfarts[i];
        let mastermind_name = match find_brain_by_id(brains, p.mastermind_id.as_str()) {
            Some(k) => brains[k].get_name().to_owned(),
            None => String::new(),
        };
        let blew_minds = reactors_of(reactions, brains, p.id.as_str(), true);
        let imploded_minds = reactors_of(reactions, brains, p.id.as_str(), false);
        let entry = BrainfartInformation {
            id: p.id.clone(),
            title: p.title.clone(),
            content: p.content.clone(),
            birthdate: p.birthdate,
            mastermind_name,
            blew_minds,
            imploded_minds,
        };
        let ghost before = out@;
        out.push(entry);
        assert(pv[i as int] == post_row(brainfarts@[i as int]));
        assert(listed_view(out@) =~= listed_view(before).push(listed(pv[i as int], bv, rv)));
        i = i + 1;
    }
    out
}


/// The stores: users, posts and reactions.
pub struct Board {
    brains: Vec<Brain>,
    brainfarts: Vec<Brainfart>,
    reactions: Vec<Reaction>,
}

impl Board {
    pub closed spec fn brains(&self) -> Seq<BrainRow> {
        brains_view(self.brains@)
    }

    pub closed spec fn posts(&self) -> Seq<PostRow> {
        posts_view(self.brainfarts@)
    }

    pub closed spec fn reactions(&self) -> Seq<ReactionRow> {
        reactions_view(self.reactions@)
    }

    /// Names and identifiers are unique, posts run newest first, each
    /// (post, user) pair has at most one reaction row, every reaction row
    /// names a known post and a known user, and every post's author is known.
    pub open spec fn wf(&self) -> bool {
        &&& brains_distinct(self.brains())
        &&& posts_distinct(self.posts())
        &&& newest_first(self.posts())
        &&& one_row_per_pair(self.reactions())
        &&& rows_point_to_known(self.posts(), self.brains(), self.reactions())
        &&& posts_by_known_authors(self.posts(), self.brains())
    }

    /// Empty stores.
    pub fn new() -> (r: Board)
        ensures
            r.wf(),
            r.brains() == Seq::<BrainRow>::empty(),
            r.posts() == Seq::<PostRow>::empty(),
            r.reactions() == Seq::<ReactionRow>::empty(),
    {
        let r = Board { brains: Vec::new(), brainfarts: Vec::new(), reactions: Vec::new() };
        assert(r.brains() =~= Seq::<BrainRow>::empty());
        assert(r.posts() =~= Seq::<PostRow>::empty());
        assert(r.reactions() =~= Seq::<ReactionRow>::empty());
        r
    }

    /// Registers the user `id` from a registration form, at `now`, storing
    /// a salted hash of the password.
    pub fn register_brain(&mut self, id: Uuid, request: RegisterBrainRequest, now: Timestamp) -> (r:
        Result<BrainInformation, StoreError>)
        requires
            old(self).wf(),
        ensures
            final(self).wf(),
            final(self).posts() == old(self).posts(),
            final(self).reactions() == old(self).reactions(),
            (r == Err::<BrainInformation, _>(StoreError::InvalidRequest)) <==> !registration_valid(
                request.spec_name(),
                request.spec_password(),
                request.spec_password_extra(),
            ),
            (r == Err::<BrainInformation, _>(StoreError::NameTaken)) <==> registration_valid(
                request.spec_name(),
                request.spec_password(),
                request.spec_password_extra(),
            ) && brain_named(old(self).brains(), request.spec_name()) is Some,
            (r == Err::<BrainInformation, _>(StoreError::IdTaken)) <==> registration_valid(
                request.spec_name(),
                request.spec_password(),
                request.spec_password_extra(),
            ) && brain_named(old(self).brains(), request.spec_name()) is None && brain_with_id(
                old(self).brains(),
                id@,
            ) is Some,
            r == Err::<BrainInformation, _>(StoreError::HashFailed) ==> registration_valid(
                request.spec_name(),
                request.spec_password(),
                request.spec_password_extra(),
            ) && brain_named(old(self).brains(), request.spec_name()) is None && brain_with_id(
                old(self).brains(),
                id@,
            ) is None,
            r is Err ==> final(self).brains() == old(self).brains(),
            r matches Ok(info) ==> {
                &&& info.spec_id() == id@
                &&& info.spec_name() == request.spec_name()
                &&& info.spec_birthdate() == now
                &&& final(self).brains().len() == old(self).brains().len() + 1
                &&& final(self).brains().drop_last() == old(self).brains()
                &&& final(self).brains().last().id == id@
                &&& final(self).brains().last().name == request.spec_name()
                &&& final(self).brains().last().birthdate == now
                &&& password_matches(
                    request.spec_password(),
                    final(self).brains().last().password_hash,
                )
            },
    {
        if !RegisterBrainRequest::validate(
            request.get_name(),
            request.get_password(),
            request.get_password_extra(),
        ) {
            return Err(StoreError::InvalidRequest);
        }
        if find_brain_by_name(&self.brains, request.get_name()).is_some() {
            return Err(StoreError::NameTaken);
        }
        if find_brain_by_id(&self.brains, id.as_str()).is_some() {
            return Err(StoreError::IdTaken);
        }
        let hash = match hash_registration_password(&request) {
            Some(h) => h,
            None => return Err(StoreError::HashFailed),
        };
        self.store_brain(id, request, now, hash)
    }

    /// Stores the user `id` from a registration form, at `now`, under
    /// `hash`, a hash of the form's password.
    pub fn store_brain(&mut self, id: Uuid, request: RegisterBrainRequest, now: Timestamp, hash: String) -> (r:
        Result<BrainInformation, StoreError>)
        requires
            old(self).wf(),
            password_matches(request.spec_password(), hash@),
        ensures
            final(self).wf(),
            final(self).posts() == old(self).posts(),
            final(self).reactions() == old(self).reactions(),
            (r == Err::<BrainInformation, _>(StoreError::InvalidRequest)) <==> !registration_valid(
                request.spec_name(),
                request.spec_password(),
                request.spec_password_extra(),
            ),
            (r == Err::<BrainInformation, _>(StoreError::NameTaken)) <==> registration_valid(
                request.spec_name(),
                request.spec_password(),
                request.spec_password_extra(),
            ) && brain_named(old(self).brains(), request.spec_name()) is Some,
            r is Ok <==> registration_valid(
                request.spec_name(),
                request.spec_password(),
                request.spec_password_extra(),
            ) && brain_named(old(self).brains(), request.spec_name()) is None && brain_with_id(
                old(self).brains(),
                id@,
            ) is None,
            r is Err ==> final(self).brains() == old(self).brains(),
            r matches Ok(info) ==> {
                &&& info.spec_id() == id@
                &&& info.spec_name() == request.spec_name()
                &&& info.spec_birthdate() == now
                &&& final(self).brains() == old(self).brains().push(
                    BrainRow {
                        id: id@,
                        name: request.spec_name(),
                        birthdate: now,
                        password_hash: hash@,
                    },
                )
            },
    {
        if !RegisterBrainRequest::validate(
            request.get_name(),
            request.get_password(),
            request.get_password_extra(),
        ) {
            return Err(StoreError::InvalidRequest);
        }
        if find_brain_by_name(&self.brains, request.get_name()).is_some() {
            return Err(StoreError::NameTaken);
        }
        if find_brain_by_id(&self.brains, id.as_str()).is_some() {
            return Err(StoreError::IdTaken);
        }
        let info = BrainInformation::create(id.clone(), request.get_name().to_owned(), now);
        let ghost name = request.spec_name();
        let brain = Brain::register(id, request, now, hash);
        let ghost before = self.brains();
        proof {
            lemma_brain_search(before, name, brain.spec_id());
            assert forall|i: int| 0 <= i < self.reactions().len() implies has_post(
                self.posts(),
                (#[trigger] self.reactions()[i]).post,
            ) && brain_with_id(before.push(brain_row(brain)), self.reactions()[i].user) is Some by {
                lemma_brain_known_after_push(before, brain_row(brain), self.reactions()[i].user);
            }
            assert forall|i: int| 0 <= i < self.posts().len() implies brain_with_id(
                before.push(brain_row(brain)),
                (#[trigger] self.posts()[i]).author,
            ) is Some by {
                lemma_brain_known_after_push(before, brain_row(brain), self.posts()[i].author);
            }
        }
        self.brains.push(brain);
        assert(self.brains() =~= before.push(brain_row(brain)));
        assert(self.brains().drop_last() =~= before);
        Ok(info)
    }

    /// Adds the post `id` by the user `author`, made at `now`, keeping the
    /// posts newest first.
    pub fn create_brainfart(
        &mut self,
        id: Uuid,
        request: CreateBrainfartRequest,
        author: Uuid,
        now: Timestamp,
    ) -> (r: Result<Brainfart, StoreError>)
        requires
            old(self).wf(),
        ensures
            final(self).wf(),
            final(self).brains() == old(self).brains(),
            final(self).reactions() == old(self).reactions(),
            (r == Err::<Brainfart, _>(StoreError::InvalidRequest)) <==> !post_valid(
                request.spec_title(),
                request.spec_content(),
            ),
            (r == Err::<Brainfart, _>(StoreError::UnknownBrain)) <==> post_valid(
                request.spec_title(),
                request.spec_content(),
            ) && brain_with_id(old(self).brains(), author@) is None,
            (r == Err::<Brainfart, _>(StoreError::IdTaken)) <==> post_valid(
                request.spec_title(),
                request.spec_content(),
            ) && brain_with_id(old(self).brains(), author@) is Some && has_post(
                old(self).posts(),
                id@,
            ),
            r is Ok <==> post_valid(request.spec_title(), request.spec_content()) && brain_with_id(
                old(self).brains(),
                author@,
            ) is Some && !has_post(old(self).posts(), id@),
            r is Err ==> final(self).posts() == old(self).posts(),
            r matches Ok(p) ==> post_row(p) == (PostRow {
                id: id@,
                title: request.spec_title(),
                content: request.spec_content(),
                birthdate: now,
                author: author@,
            }),
            r matches Ok(p) ==> exists|k: int|
                0 <= k <= old(self).posts().len() && final(self).posts() == #[trigger] old(
                    self,
                ).posts().insert(k, post_row(p)),
    {
        if !CreateBrainfartRequest::validate(request.get_title(), request.get_content()) {
            return Err(StoreError::InvalidRequest);
        }
        if find_brain_by_id(&self.brains, author.as_str()).is_none() {
            return Err(StoreError::UnknownBrain);
        }
        if find_post(&self.brainfarts, id.as_str()).is_some() {
            return Err(StoreError::IdTaken);
        }
        let ghost before = self.posts();
        let mut k: usize = 0;
        while k < self.brainfarts.len() && self.brainfarts[k].birthdate > now
            invariant
                k <= self.brainfarts@.len(),
                before == posts_view(self.brainfarts@),
                forall|j: int| 0 <= j < k ==> before[j].birthdate > now,
            decreases self.brainfarts@.len() - k,
        {
            k = k + 1;
        }
        let stored = Brainfart::create(id, request, author, now);
        let copy = Brainfart {
            id: stored.id.clone(),
            title: stored.title.clone(),
            content: stored.content.clone(),
            birthdate: stored.birthdate,
            mastermind_id: stored.mastermind_id.clone(),
        };
        let ghost new_row = PostRow {
            id: id@,
            title: request.spec_title(),
            content: request.spec_content(),
            birthdate: now,
            author: author@,
        };
        assert(post_row(copy) == new_row);
        self.brainfarts.insert(k, stored);
        proof {
            let row = post_row(copy);
            assert(self.posts() =~= before.insert(k as int, row));
            before.insert_ensures(k as int, row);
            let after = self.posts();
            assert forall|i: int| 0 <= i < self.reactions().len() implies has_post(
                after,
                (#[trigger] self.reactions()[i]).post,
            ) && brain_with_id(self.brains(), self.reactions()[i].user) is Some by {
                lemma_post_known_after_insert(before, k as int, row, self.reactions()[i].post);
            }
            assert forall|i: int| 0 <= i < after.len() implies brain_with_id(
                self.brains(),
                (#[trigger] after[i]).author,
            ) is Some by {
                if i > k {
                    assert(after[i] == before[i - 1]);
                } else if i < k {
                    assert(after[i] == before[i]);
                }
            }
            assert(k < before.len() ==> before[k as int].birthdate <= now);
            assert forall|i: int, j: int| 0 <= i < j < after.len() implies after[i].birthdate
                >= after[j].birthdate by {
                if j < k {
                } else if j == k {
                } else if i < k {
                    assert(after[j] == before[j - 1]);
                } else if i == k {
                    assert(after[j] == before[j - 1]);
                    assert(before[k as int].birthdate >= before[j - 1].birthdate);
                } else {
                    assert(after[i] == before[i - 1]);
                    assert(after[j] == before[j - 1]);
                }
            }
            assert forall|i: int, j: int| 0 <= i < j < after.len() implies after[i].id
                != after[j].id by {
                if i < k && j > k {
                    assert(after[j] == before[j - 1]);
                } else if i > k {
                    assert(after[i] == before[i - 1]);
                    assert(after[j] == before[j - 1]);
                } else if i == k {
                    assert(after[j] == before[j - 1]);
                    assert(before[j - 1].id != id@);
                } else if j == k {
                    assert(before[i].id != id@);
                }
            }
        }
        assert(0 <= k <= before.len() && self.posts() == before.insert(k as int, post_row(copy)));
        assert(self.posts() == old(self).posts().insert(k as int, post_row(copy)));
        assert(exists|k2: int|
            0 <= k2 <= old(self).posts().len() && self.posts() == #[trigger] old(
                self,
            ).posts().insert(k2, post_row(copy)));
        Ok(copy)
    }

    /// Records that `brain_id` asks for a reaction of kind `explosion` on
    /// `brainfart_id`: the pair's row changes its flag, or a new row
    /// `row_id` is added.
    pub fn request_reaction(
        &mut self,
        row_id: Uuid,
        brainfart_id: &str,
        brain_id: &str,
        explosion: bool,
    ) -> (r: Result<(), StoreError>)
        requires
            old(self).wf(),
        ensures
            final(self).wf(),
            final(self).brains() == old(self).brains(),
            final(self).posts() == old(self).posts(),
            (r == Err::<(), _>(StoreError::UnknownBrainfart)) <==> !has_post(
                old(self).posts(),
                brainfart_id@,
            ),
            (r == Err::<(), _>(StoreError::UnknownBrain)) <==> has_post(
                old(self).posts(),
                brainfart_id@,
            ) && brain_with_id(old(self).brains(), brain_id@) is None,
            r is Ok <==> has_post(old(self).posts(), brainfart_id@) && brain_with_id(
                old(self).brains(),
                brain_id@,
            ) is Some,
            r is Err ==> final(self).reactions() == old(self).reactions(),
            r is Ok ==> final(self).reactions() == react(
                old(self).reactions(),
                row_id@,
                brainfart_id@,
                brain_id@,
                explosion,
            ),
    {
        if find_post(&self.brainfarts, brainfart_id).is_none() {
            return Err(StoreError::UnknownBrainfart);
        }
        if find_brain_by_id(&self.brains, brain_id).is_none() {
            return Err(StoreError::UnknownBrain);
        }
        let ghost before = self.reactions();
        proof {
            lemma_react(before, row_id@, brainfart_id@, brain_id@, explosion);
            lemma_row_for(before, brainfart_id@, brain_id@);
        }
        match find_reaction_row(&self.reactions, brainfart_id, brain_id) {
            Some(i) => {
                self.reactions[i].is_explosion = explosion;
                assert(self.reactions() =~= react(
                    before,
                    row_id@,
                    brainfart_id@,
                    brain_id@,
                    explosion,
                ));
            },
            None => {
                let row = Reaction {
                    id: row_id,
                    brainfart_id: brainfart_id.to_owned(),
                    brain_id: brain_id.to_owned(),
                    is_explosion: explosion,
                };
                self.reactions.push(row);
                assert(self.reactions() =~= react(
                    before,
                    row_id@,
                    brainfart_id@,
                    brain_id@,
                    explosion,
                ));
            },
        }
        Ok(())
    }

    /// Records an explosion by `brain_id` on the request's post.
    pub fn register_mind_explosion(
        &mut self,
        row_id: Uuid,
        request: &NotifyAboutMindExplosionRequest,
        brain_id: &str,
    ) -> (r: Result<(), StoreError>)
        requires
            old(self).wf(),
        ensures
            final(self).wf(),
            final(self).brains() == old(self).brains(),
            final(self).posts() == old(self).posts(),
            r is Ok <==> has_post(old(self).posts(), request.brainfart_id@) && brain_with_id(
                old(self).brains(),
                brain_id@,
            ) is Some,
            r is Err ==> final(self).reactions() == old(self).reactions(),
            r is Err ==> r == Err::<(), _>(StoreError::UnknownBrainfart) || r == Err::<(), _>(
                StoreError::UnknownBrain,
            ),
            r is Ok ==> final(self).reactions() == react(
                old(self).reactions(),
                row_id@,
                request.brainfart_id@,
                brain_id@,
                true,
            ),
    {
        self.request_reaction(row_id, request.brainfart_id.as_str(), brain_id, true)
    }

    /// Records an implosion by `brain_id` on the request's post.
    pub fn register_mind_implosion(
        &mut self,
        row_id: Uuid,
        request: &NotifyAboutMindImplosionRequest,
        brain_id: &str,
    ) -> (r: Result<(), StoreError>)
        requires
            old(self).wf(),
        ensures
            final(self).wf(),
            final(self).brains() == old(self).brains(),
            final(self).posts() == old(self).posts(),
            r is Ok <==> has_post(old(self).posts(), request.brainfart_id@) && brain_with_id(
                old(self).brains(),
                brain_id@,
            ) is Some,
            r is Err ==> final(self).reactions() == old(self).reactions(),
            r is Err ==> r == Err::<(), _>(StoreError::UnknownBrainfart) || r == Err::<(), _>(
                StoreError::UnknownBrain,
            ),
            r is Ok ==> final(self).reactions() == react(
                old(self).reactions(),
                row_id@,
                request.brainfart_id@,
                brain_id@,
                false,
            ),
    {
        self.request_reaction(row_id, request.brainfart_id.as_str(), brain_id, false)
    }

    /// What `brain_id` holds on `brainfart_id`.
    pub fn reaction_state(&self, brainfart_id: &str, brain_id: &str) -> (r: ReactionState)
        ensures
            r == state_in(self.reactions(), brainfart_id@, brain_id@),
    {
        match find_reaction_row(&self.reactions, brainfart_id, brain_id) {
            Some(i) => {
                proof {
                    lemma_row_for(self.reactions(), brainfart_id@, brain_id@);
                }
                if self.reactions[i].is_explosion {
                    ReactionState::Exploded
                } else {
                    ReactionState::Imploded
                }
            },
            None => ReactionState::NoReaction,
        }
    }
}

/// The registration's password, salted and hashed; `None` where hashing
/// fails.
pub fn hash_registration_password(request: &RegisterBrainRequest) -> (r: Option<String>)
    ensures
        r matches Some(h) ==> password_matches(request.spec_password(), h@),
{
    hash_password(request.get_password())
}

/// Whether a registration may take a name, given the user (if any) who
/// already holds it.
pub fn name_free(holder: &Option<Uuid>) -> (r: Result<(), StoreError>)
    ensures
        r is Ok <==> holder is None,
        r is Err ==> r == Err::<(), StoreError>(StoreError::NameTaken),
{
    match holder {
        Some(_) => Err(StoreError::NameTaken),
        None => Ok(()),
    }
}

/// What a registration needs before its row is written: the form must be
/// complete, and its password is salted and hashed.
pub fn prepare_registration(request: &RegisterBrainRequest) -> (r: Result<String, StoreError>)
    ensures
        (r == Err::<String, _>(StoreError::InvalidRequest)) <==> !registration_valid(
            request.spec_name(),
            request.spec_password(),
            request.spec_password_extra(),
        ),
        r matches Err(e) ==> e == StoreError::InvalidRequest || e == StoreError::HashFailed,
        r matches Ok(h) ==> password_matches(request.spec_password(), h@),
{
    if !RegisterBrainRequest::validate(
        request.get_name(),
        request.get_password(),
        request.get_password_extra(),
    ) {
        return Err(StoreError::InvalidRequest);
    }
    match hash_registration_password(request) {
        Some(h) => Ok(h),
        None => Err(StoreError::HashFailed),
    }
}

/// The identifier of the user found under the login's name (`found`: the
/// user's identifier and stored hash), where the password matches the hash.
pub fn check_login(found: Option<(Uuid, String)>, request: &ProveOwnsBrainRequest) -> (r: Option<
    Uuid,
>)
    ensures
        match found {
            Some((id, hash)) => if password_matches(request.spec_password(), hash@) {
                r matches Some(i) && i@ == id@
            } else {
                r is None
            },
            None => r is None,
        },
{
    match found {
        Some((id, hash)) => if check_password(request.get_password(), hash.as_str()) {
            Some(id)
        } else {
            None
        },
        None => None,
    }
}

/// The identifier of the user a login names, where the password matches the
/// stored hash.
pub fn verify_password(pool: &Board, request: &ProveOwnsBrainRequest) -> (r: Option<Uuid>)
    ensures
        match r {
            Some(id) => login_outcome(pool.brains(), request.spec_name(), request.spec_password())
                == Some(id@),
            None => login_outcome(pool.brains(), request.spec_name(), request.spec_password()) is None,
        },
{
    let found = match find_brain_by_name(&pool.brains, request.get_name()) {
        Some(i) => {
            let b = &pool.brains[i];
            Some((b.get_id().clone(), b.get_encrypted_password().to_owned()))
        },
        None => None,
    };
    check_login(found, request)
}

/// What the public sees of the user `brain_id`.
pub fn get_brain_information(pool: &Board, brain_id: &str) -> (r: Option<BrainInformation>)
    ensures
        match brain_with_id(pool.brains(), brain_id@) {
            Some(b) => r matches Some(info) && reactor_of(info) == (b.id, b.name, b.birthdate),
            None => r is None,
        },
{
    match find_brain_by_id(&pool.brains, brain_id) {
        Some(k) => {
            let b = &pool.brains[k];
            Some(BrainInformation::create(b.get_id().clone(), b.get_name().to_owned(), b.get_birthdate()))
        },
        None => None,
    }
}

/// Every post, newest first, with its author's name and who reacted how.
pub fn get_brainfarts_using_filter(pool: &Board, filter: BrainfartFilter) -> (r: Vec<
    BrainfartInformation,
>)
    ensures
        listed_view(r@) == listing(pool.posts(), pool.brains(), pool.reactions()),
{
    assemble_listing(&pool.brainfarts, &pool.brains, &pool.reactions)
}

/// The post `brainfart_id`, as it is listed.
pub fn get_brainfart(pool: &Board, brainfart_id: &str) -> (r: Option<BrainfartInformation>)
    ensures
        r is Some <==> has_post(pool.posts(), brainfart_id@),
        r matches Some(f) ==> exists|i: int|
            0 <= i < pool.posts().len() && pool.posts()[i].id == brainfart_id@ && listed_view(
                seq![f],
            )[0] == listed(pool.posts()[i], pool.brains(), pool.reactions()),
{
    match find_post(&pool.brainfarts, brainfart_id) {
        Some(i) => {
            let mut all = assemble_listing(&pool.brainfarts, &pool.brains, &pool.reactions);
            let ghost whole = all@;
            assert(listed_view(whole).len() == whole.len());
            assert(pool.posts().len() == pool.brainfarts@.len());
            let f = all.remove(i);
            assert(listed_view(seq![f])[0] == listed_view(whole)[i as int]);
            Some(f)
        },
        None => None,
    }
}


impl NotifyAboutMindExplosionRequest {
    /// Records this explosion by `foreign_id` in `pool`: the pair's row
    /// changes its flag, or a new row `row_id` is added. `Some` where the
    /// post and the user are known.
    pub fn create(&self, pool: &mut Board, row_id: Uuid, foreign_id: &str) -> (r: Option<()>)
        requires
            old(pool).wf(),
        ensures
            final(pool).wf(),
            final(pool).brains() == old(pool).brains(),
            final(pool).posts() == old(pool).posts(),
            r is Some <==> has_post(old(pool).posts(), self.brainfart_id@) && brain_with_id(
                old(pool).brains(),
                foreign_id@,
            ) is Some,
            r is None ==> final(pool).reactions() == old(pool).reactions(),
            r is Some ==> final(pool).reactions() == react(
                old(pool).reactions(),
                row_id@,
                self.brainfart_id@,
                foreign_id@,
                true,
            ),
    {
        match pool.register_mind_explosion(row_id, self, foreign_id) {
            Ok(()) => Some(()),
            Err(_) => None,
        }
    }
}

impl NotifyAboutMindImplosionRequest {
    /// Records this implosion by `foreign_id` in `pool`: the pair's row
    /// changes its flag, or a new row `row_id` is added. `Some` where the
    /// post and the user are known.
    pub fn create(&self, pool: &mut Board, row_id: Uuid, foreign_id: &str) -> (r: Option<()>)
        requires
            old(pool).wf(),
        ensures
            final(pool).wf(),
            final(pool).brains() == old(pool).brains(),
            final(pool).posts() == old(pool).posts(),
            r is Some <==> has_post(old(pool).posts(), self.brainfart_id@) && brain_with_id(
                old(pool).brains(),
                foreign_id@,
            ) is Some,
            r is None ==> final(pool).reactions() == old(pool).reactions(),
            r is Some ==> final(pool).reactions() == react(
                old(pool).reactions(),
                row_id@,
                self.brainfart_id@,
                foreign_id@,
                false,
            ),
    {
        match pool.register_mind_implosion(row_id, self, foreign_id) {
            Ok(()) => Some(()),
            Err(_) => None,
        }
    }
}

} // verus!
