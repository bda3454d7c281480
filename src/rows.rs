//! The stores as sequences of rows of plain values, what the store's
//! operations mean over them, and what holds of them.

use vstd::prelude::*;

use crate::model::{Brain, BrainInformation, Brainfart, BrainfartInformation, Timestamp};
use crate::password::password_matches;
use crate::reactions::{next_state, state_of_flag, ReactionState};
use crate::store::Reaction;

verus! {

/// A user, as a row of plain values.
pub struct BrainRow {
    pub id: Seq<char>,
    pub name: Seq<char>,
    pub birthdate: Timestamp,
    pub password_hash: Seq<char>,
}

/// A post, as a row of plain values.
pub struct PostRow {
    pub id: Seq<char>,
    pub title: Seq<char>,
    pub content: Seq<char>,
    pub birthdate: Timestamp,
    pub author: Seq<char>,
}

/// A reaction, as a row of plain values.
pub struct ReactionRow {
    pub id: Seq<char>,
    pub post: Seq<char>,
    pub user: Seq<char>,
    pub is_explosion: bool,
}

/// A user who reacted: identifier, name and registration time.
pub type Reactor = (Seq<char>, Seq<char>, Timestamp);

/// A listed post, as plain values.
pub struct ListedPost {
    pub id: Seq<char>,
    pub title: Seq<char>,
    pub content: Seq<char>,
    pub birthdate: Timestamp,
    pub author_name: Seq<char>,
    pub exploded: Seq<Reactor>,
    pub imploded: Seq<Reactor>,
}

pub open spec fn brain_row(b: Brain) -> BrainRow {
    BrainRow {
        id: b.spec_id(),
        name: b.spec_name(),
        birthdate: b.spec_birthdate(),
        password_hash: b.spec_encrypted_password(),
    }
}

pub open spec fn post_row(p: Brainfart) -> PostRow {
    PostRow {
        id: p.id@,
        title: p.title@,
        content: p.content@,
        birthdate: p.birthdate,
        author: p.mastermind_id@,
    }
}

pub open spec fn reaction_row(r: Reaction) -> ReactionRow {
    ReactionRow { id: r.id@, post: r.brainfart_id@, user: r.brain_id@, is_explosion: r.is_explosion }
}

pub open spec fn reactor_of(b: BrainInformation) -> Reactor {
    (b.spec_id(), b.spec_name(), b.spec_birthdate())
}

pub open spec fn brains_view(v: Seq<Brain>) -> Seq<BrainRow> {
    v.map_values(|b: Brain| brain_row(b))
}

pub open spec fn posts_view(v: Seq<Brainfart>) -> Seq<PostRow> {
    v.map_values(|p: Brainfart| post_row(p))
}

pub open spec fn reactions_view(v: Seq<Reaction>) -> Seq<ReactionRow> {
    v.map_values(|r: Reaction| reaction_row(r))
}

pub open spec fn reactors_view(v: Seq<BrainInformation>) -> Seq<Reactor> {
    v.map_values(|b: BrainInformation| reactor_of(b))
}

pub open spec fn listed_view(v: Seq<BrainfartInformation>) -> Seq<ListedPost> {
    v.map_values(
        |f: BrainfartInformation|
            ListedPost {
                id: f.id@,
                title: f.title@,
                content: f.content@,
                birthdate: f.birthdate,
                author_name: f.mastermind_name@,
                exploded: reactors_view(f.blew_minds@),
                imploded: reactors_view(f.imploded_minds@),
            },
    )
}

/// The user registered under `name`, searching from the latest.
pub open spec fn brain_named(bs: Seq<BrainRow>, name: Seq<char>) -> Option<BrainRow>
    decreases bs.len(),
{
    if bs.len() == 0 {
        None
    } else if bs.last().name == name {
        Some(bs.last())
    } else {
        brain_named(bs.drop_last(), name)
    }
}

/// The user whose identifier is `id`, searching from the latest.
pub open spec fn brain_with_id(bs: Seq<BrainRow>, id: Seq<char>) -> Option<BrainRow>
    decreases bs.len(),
{
    if bs.len() == 0 {
        None
    } else if bs.last().id == id {
        Some(bs.last())
    } else {
        brain_with_id(bs.drop_last(), id)
    }
}

/// Whether some post has the identifier `id`.
pub open spec fn has_post(ps: Seq<PostRow>, id: Seq<char>) -> bool {
    exists|i: int| 0 <= i < ps.len() && (#[trigger] ps[i]).id == id
}

/// Whose identifier a login with `name` and `password` yields, if any.
pub open spec fn login_outcome(bs: Seq<BrainRow>, name: Seq<char>, password: Seq<char>) -> Option<
    Seq<char>,
> {
    match brain_named(bs, name) {
        Some(b) => if password_matches(password, b.password_hash) {
            Some(b.id)
        } else {
            None
        },
        None => None,
    }
}

/// The index of the row that holds the reaction of `user` on `post`.
pub open spec fn row_for(rs: Seq<ReactionRow>, post: Seq<char>, user: Seq<char>) -> Option<int>
    decreases rs.len(),
{
    if rs.len() == 0 {
        None
    } else if rs.last().post == post && rs.last().user == user {
        Some(rs.len() - 1)
    } else {
        row_for(rs.drop_last(), post, user)
    }
}

/// How many rows hold a reaction of `user` on `post`.
pub open spec fn pair_count(rs: Seq<ReactionRow>, post: Seq<char>, user: Seq<char>) -> nat
    decreases rs.len(),
{
    if rs.len() == 0 {
        0
    } else {
        pair_count(rs.drop_last(), post, user) + if rs.last().post == post && rs.last().user
            == user {
            1nat
        } else {
            0nat
        }
    }
}

/// What `user` holds on `post`.
pub open spec fn state_in(rs: Seq<ReactionRow>, post: Seq<char>, user: Seq<char>) -> ReactionState {
    match row_for(rs, post, user) {
        Some(i) => state_of_flag(rs[i].is_explosion),
        None => ReactionState::NoReaction,
    }
}

/// The rows after `user` asks for a reaction of kind `explosion` on `post`:
/// the flag of the pair's row changes, or a new row `row_id` is added.
pub open spec fn react(
    rs: Seq<ReactionRow>,
    row_id: Seq<char>,
    post: Seq<char>,
    user: Seq<char>,
    explosion: bool,
) -> Seq<ReactionRow> {
    match row_for(rs, post, user) {
        Some(i) => rs.update(
            i,
            ReactionRow { id: rs[i].id, post: rs[i].post, user: rs[i].user, is_explosion: explosion },
        ),
        None => rs.push(ReactionRow { id: row_id, post, user, is_explosion: explosion }),
    }
}

/// The users who reacted on `post` with kind `explosion`, in the order of
/// their rows; rows whose user is unknown are left out.
pub open spec fn reactors(
    rs: Seq<ReactionRow>,
    bs: Seq<BrainRow>,
    post: Seq<char>,
    explosion: bool,
) -> Seq<Reactor>
    decreases rs.len(),
{
    if rs.len() == 0 {
        Seq::empty()
    } else {
        let prev = reactors(rs.drop_last(), bs, post, explosion);
        let r = rs.last();
        if r.post == post && r.is_explosion == explosion {
            match brain_with_id(bs, r.user) {
                Some(b) => prev.push((b.id, b.name, b.birthdate)),
                None => prev,
            }
        } else {
            prev
        }
    }
}

/// The name of a post's author; empty where the author is unknown.
pub open spec fn author_name(bs: Seq<BrainRow>, id: Seq<char>) -> Seq<char> {
    match brain_with_id(bs, id) {
        Some(b) => b.name,
        None => Seq::empty(),
    }
}

/// How a post is listed.
pub open spec fn listed(p: PostRow, bs: Seq<BrainRow>, rs: Seq<ReactionRow>) -> ListedPost {
    ListedPost {
        id: p.id,
        title: p.title,
        content: p.content,
        birthdate: p.birthdate,
        author_name: author_name(bs, p.author),
        exploded: reactors(rs, bs, p.id, true),
        imploded: reactors(rs, bs, p.id, false),
    }
}

/// The listing of the posts `ps`, in their order.
pub open spec fn listing(ps: Seq<PostRow>, bs: Seq<BrainRow>, rs: Seq<ReactionRow>) -> Seq<
    ListedPost,
> {
    ps.map_values(|p: PostRow| listed(p, bs, rs))
}

/// Posts ordered by creation time, most recent first.
pub open spec fn newest_first(ps: Seq<PostRow>) -> bool {
    forall|i: int, j: int| 0 <= i < j < ps.len() ==> ps[i].birthdate >= ps[j].birthdate
}

/// No two users share a name, and no two share an identifier.
pub open spec fn brains_distinct(bs: Seq<BrainRow>) -> bool {
    forall|i: int, j: int|
        0 <= i < j < bs.len() ==> bs[i].name != bs[j].name && bs[i].id != bs[j].id
}

/// No two posts share an identifier.
pub open spec fn posts_distinct(ps: Seq<PostRow>) -> bool {
    forall|i: int, j: int| 0 <= i < j < ps.len() ==> ps[i].id != ps[j].id
}

/// Every reaction row names a known post and a known user.
pub open spec fn rows_point_to_known(
    ps: Seq<PostRow>,
    bs: Seq<BrainRow>,
    rs: Seq<ReactionRow>,
) -> bool {
    forall|i: int|
        0 <= i < rs.len() ==> has_post(ps, (#[trigger] rs[i]).post) && brain_with_id(
            bs,
            rs[i].user,
        ) is Some
}

/// Every post's author is a known user.
pub open spec fn posts_by_known_authors(ps: Seq<PostRow>, bs: Seq<BrainRow>) -> bool {
    forall|i: int| 0 <= i < ps.len() ==> brain_with_id(bs, (#[trigger] ps[i]).author) is Some
}

/// Where every post's author is known, each listed post carries its
/// author's name.
pub proof fn lemma_listing_author(ps: Seq<PostRow>, bs: Seq<BrainRow>, rs: Seq<ReactionRow>)
    requires
        posts_by_known_authors(ps, bs),
    ensures
        forall|i: int|
            0 <= i < ps.len() ==> (brain_with_id(bs, (#[trigger] ps[i]).author) matches Some(b)
                && listing(ps, bs, rs)[i].author_name == b.name),
{
}

/// A user found before a row is added is still found after.
pub proof fn lemma_brain_known_after_push(bs: Seq<BrainRow>, b: BrainRow, id: Seq<char>)
    requires
        brain_with_id(bs, id) is Some,
    ensures
        brain_with_id(bs.push(b), id) is Some,
{
    assert(bs.push(b).drop_last() =~= bs);
}

/// A post found before one is inserted is still found after.
pub proof fn lemma_post_known_after_insert(ps: Seq<PostRow>, k: int, p: PostRow, id: Seq<char>)
    requires
        0 <= k <= ps.len(),
        has_post(ps, id),
    ensures
        has_post(ps.insert(k, p), id),
{
    ps.insert_ensures(k, p);
    let j = choose|j: int| 0 <= j < ps.len() && (#[trigger] ps[j]).id == id;
    if j < k {
        assert(ps.insert(k, p)[j] == ps[j]);
    } else {
        assert(ps.insert(k, p)[j + 1] == ps[j]);
    }
}

/// Each (post, user) pair has at most one reaction row.
pub open spec fn one_row_per_pair(rs: Seq<ReactionRow>) -> bool {
    forall|post: Seq<char>, user: Seq<char>| #[trigger] pair_count(rs, post, user) <= 1
}


/// Where `row_for` finds a row, it is the pair's row; where it finds none,
/// the pair has no row.
pub proof fn lemma_row_for(rs: Seq<ReactionRow>, post: Seq<char>, user: Seq<char>)
    ensures
        match row_for(rs, post, user) {
            Some(i) => 0 <= i < rs.len() && rs[i].post == post && rs[i].user == user && pair_count(
                rs,
                post,
                user,
            ) >= 1,
            None => pair_count(rs, post, user) == 0,
        },
    decreases rs.len(),
{
    if rs.len() > 0 {
        lemma_row_for(rs.drop_last(), post, user);
    }
}

/// Changing the flag of one row moves no row to another pair.
pub proof fn lemma_update_same_pair(rs: Seq<ReactionRow>, i: int, row: ReactionRow)
    requires
        0 <= i < rs.len(),
        row.post == rs[i].post,
        row.user == rs[i].user,
    ensures
        forall|post: Seq<char>, user: Seq<char>|
            pair_count(#[trigger] rs.update(i, row), post, user) == pair_count(rs, post, user)
                && row_for(rs.update(i, row), post, user) == row_for(rs, post, user),
    decreases rs.len(),
{
    let u = rs.update(i, row);
    if i < rs.len() - 1 {
        lemma_update_same_pair(rs.drop_last(), i, row);
    }
    assert forall|post: Seq<char>, user: Seq<char>|
        pair_count(#[trigger] rs.update(i, row), post, user) == pair_count(rs, post, user)
            && row_for(rs.update(i, row), post, user) == row_for(rs, post, user) by {
        assert(u.last().post == rs.last().post && u.last().user == rs.last().user);
        if i == rs.len() - 1 {
            assert(u.drop_last() =~= rs.drop_last());
        } else {
            assert(u.drop_last() =~= rs.drop_last().update(i, row));
            assert(pair_count(rs.drop_last().update(i, row), post, user) == pair_count(
                rs.drop_last(),
                post,
                user,
            ));
        }
    }
}

/// A request moves its own pair to the requested kind, leaves one row for
/// that pair, and leaves every other pair as it was.
pub proof fn lemma_react(
    rs: Seq<ReactionRow>,
    row_id: Seq<char>,
    post: Seq<char>,
    user: Seq<char>,
    explosion: bool,
)
    requires
        one_row_per_pair(rs),
    ensures
        state_in(react(rs, row_id, post, user, explosion), post, user) == next_state(
            state_in(rs, post, user),
            explosion,
        ),
        pair_count(react(rs, row_id, post, user, explosion), post, user) == 1,
        one_row_per_pair(react(rs, row_id, post, user, explosion)),
        forall|p: Seq<char>, u: Seq<char>|
            !(p == post && u == user) ==> #[trigger] state_in(
                react(rs, row_id, post, user, explosion),
                p,
                u,
            ) == state_in(rs, p, u),
{
    let after = react(rs, row_id, post, user, explosion);
    lemma_row_for(rs, post, user);
    assert(pair_count(rs, post, user) <= 1);
    match row_for(rs, post, user) {
        Some(i) => {
            let row = ReactionRow {
                id: rs[i].id,
                post: rs[i].post,
                user: rs[i].user,
                is_explosion: explosion,
            };
            lemma_update_same_pair(rs, i, row);
            assert(pair_count(after, post, user) == pair_count(rs, post, user));
            assert forall|p: Seq<char>, u: Seq<char>|
                #[trigger] pair_count(after, p, u) <= 1 by {
                assert(pair_count(after, p, u) == pair_count(rs, p, u));
                assert(pair_count(rs, p, u) <= 1);
            }
            assert forall|p: Seq<char>, u: Seq<char>| !(p == post && u == user) implies #[trigger]
                state_in(after, p, u) == state_in(rs, p, u) by {
                assert(row_for(after, p, u) == row_for(rs, p, u));
                lemma_row_for(rs, p, u);
            }
        },
        None => {
            let row = ReactionRow { id: row_id, post, user, is_explosion: explosion };
            assert(after.drop_last() =~= rs);
            assert(after.last() == row);
            assert forall|p: Seq<char>, u: Seq<char>|
                #[trigger] pair_count(after, p, u) <= 1 by {
                assert(pair_count(rs, p, u) <= 1);
            }
            assert forall|p: Seq<char>, u: Seq<char>| !(p == post && u == user) implies #[trigger]
                state_in(after, p, u) == state_in(rs, p, u) by {
                assert(row_for(after, p, u) == row_for(rs, p, u));
                lemma_row_for(rs, p, u);
            }
        },
    }
}

/// After an explosion and then an implosion, the pair holds an implosion,
/// in a single row.
pub proof fn lemma_explosion_then_implosion(
    rs: Seq<ReactionRow>,
    first_row: Seq<char>,
    second_row: Seq<char>,
    post: Seq<char>,
    user: Seq<char>,
)
    requires
        one_row_per_pair(rs),
    ensures
        ({
            let after = react(
                react(rs, first_row, post, user, true),
                second_row,
                post,
                user,
                false,
            );
            &&& state_in(after, post, user) == ReactionState::Imploded
            &&& pair_count(after, post, user) == 1
        }),
{
    lemma_react(rs, first_row, post, user, true);
    lemma_react(react(rs, first_row, post, user, true), second_row, post, user, false);
}

/// Two explosions in a row leave the pair holding an explosion, in a single
/// row.
pub proof fn lemma_explosion_twice(
    rs: Seq<ReactionRow>,
    first_row: Seq<char>,
    second_row: Seq<char>,
    post: Seq<char>,
    user: Seq<char>,
)
    requires
        one_row_per_pair(rs),
    ensures
        ({
            let after = react(react(rs, first_row, post, user, true), second_row, post, user, true);
            &&& state_in(after, post, user) == ReactionState::Exploded
            &&& pair_count(after, post, user) == 1
        }),
{
    lemma_react(rs, first_row, post, user, true);
    lemma_react(react(rs, first_row, post, user, true), second_row, post, user, true);
}


/// Where `brain_named` finds a user, it is one with that name; where it
/// finds none, no user has that name. Likewise for `brain_with_id`.
pub proof fn lemma_brain_search(bs: Seq<BrainRow>, name: Seq<char>, id: Seq<char>)
    ensures
        brain_named(bs, name) matches Some(b) ==> b.name == name && exists|i: int|
            0 <= i < bs.len() && bs[i] == b,
        brain_named(bs, name) is None ==> forall|i: int| 0 <= i < bs.len() ==> bs[i].name != name,
        brain_with_id(bs, id) matches Some(b) ==> b.id == id && exists|i: int|
            0 <= i < bs.len() && bs[i] == b,
        brain_with_id(bs, id) is None ==> forall|i: int| 0 <= i < bs.len() ==> bs[i].id != id,
    decreases bs.len(),
{
    if bs.len() > 0 {
        lemma_brain_search(bs.drop_last(), name, id);
        assert forall|i: int| 0 <= i < bs.len() - 1 implies bs.drop_last()[i] == bs[i] by {}
    }
}

/// Once a registration under a name has added its row, the name is taken:
/// the store finds that row under it, so a second registration under the
/// same name is refused with `NameTaken`.
pub proof fn lemma_name_registered_once(before: Seq<BrainRow>, row: BrainRow)
    ensures
        brain_named(before.push(row), row.name) == Some(row),
{
}

/// A login right after registration, with the registered password, yields
/// the new user's identifier; with a password that does not match the stored
/// hash it yields nothing.
pub proof fn lemma_login_after_register(
    before: Seq<BrainRow>,
    row: BrainRow,
    password: Seq<char>,
    other: Seq<char>,
)
    requires
        password_matches(password, row.password_hash),
        !password_matches(other, row.password_hash),
    ensures
        login_outcome(before.push(row), row.name, password) == Some(row.id),
        login_outcome(before.push(row), row.name, other) is None,
{
    lemma_name_registered_once(before, row);
}

/// A row of the pair is counted.
pub proof fn lemma_pair_counted(rs: Seq<ReactionRow>, post: Seq<char>, user: Seq<char>, j: int)
    requires
        0 <= j < rs.len(),
        rs[j].post == post,
        rs[j].user == user,
    ensures
        pair_count(rs, post, user) >= 1,
    decreases rs.len(),
{
    if j < rs.len() - 1 {
        lemma_pair_counted(rs.drop_last(), post, user, j);
    }
}

/// Where a pair has a single row, `row_for` finds that row.
pub proof fn lemma_unique_row(rs: Seq<ReactionRow>, post: Seq<char>, user: Seq<char>, j: int)
    requires
        0 <= j < rs.len(),
        rs[j].post == post,
        rs[j].user == user,
        pair_count(rs, post, user) <= 1,
    ensures
        row_for(rs, post, user) == Some(j),
    decreases rs.len(),
{
    let last = rs.last();
    if last.post == post && last.user == user {
        if j < rs.len() - 1 {
            lemma_pair_counted(rs.drop_last(), post, user, j);
        }
    } else {
        lemma_unique_row(rs.drop_last(), post, user, j);
    }
}

/// Whether `user` has a row of kind `explosion` on `post`.
pub open spec fn has_row_of_kind(
    rs: Seq<ReactionRow>,
    post: Seq<char>,
    user: Seq<char>,
    explosion: bool,
) -> bool {
    exists|j: int|
        0 <= j < rs.len() && (#[trigger] rs[j]).post == post && rs[j].is_explosion == explosion
            && rs[j].user == user
}

/// Every user listed as reacting on `post` with kind `explosion` has a row
/// of that kind on that post.
pub proof fn lemma_reactors_origin(
    rs: Seq<ReactionRow>,
    bs: Seq<BrainRow>,
    post: Seq<char>,
    explosion: bool,
)
    ensures
        forall|k: int|
            0 <= k < reactors(rs, bs, post, explosion).len() ==> has_row_of_kind(
                rs,
                post,
                (#[trigger] reactors(rs, bs, post, explosion)[k]).0,
                explosion,
            ),
    decreases rs.len(),
{
    if rs.len() > 0 {
        let prev = reactors(rs.drop_last(), bs, post, explosion);
        lemma_reactors_origin(rs.drop_last(), bs, post, explosion);
        lemma_brain_search(bs, Seq::empty(), rs.last().user);
        let all = reactors(rs, bs, post, explosion);
        assert forall|k: int| 0 <= k < all.len() implies has_row_of_kind(
            rs,
            post,
            (#[trigger] all[k]).0,
            explosion,
        ) by {
            if k < prev.len() {
                assert(all[k] == prev[k]);
                assert(has_row_of_kind(rs.drop_last(), post, prev[k].0, explosion));
                let j = choose|j: int|
                    0 <= j < rs.drop_last().len() && (#[trigger] rs.drop_last()[j]).post == post
                        && rs.drop_last()[j].is_explosion == explosion && rs.drop_last()[j].user
                        == prev[k].0;
                assert(rs[j] == rs.drop_last()[j]);
            } else {
                assert(rs[rs.len() - 1] == rs.last());
            }
        }
    } else {
        assert(reactors(rs, bs, post, explosion).len() == 0);
    }
}

/// Listing posts gives them newest first, and lists under each kind of
/// reaction only users who hold that kind on that post.
pub proof fn lemma_listing(ps: Seq<PostRow>, bs: Seq<BrainRow>, rs: Seq<ReactionRow>)
    requires
        newest_first(ps),
        one_row_per_pair(rs),
    ensures
        forall|i: int, j: int|
            0 <= i < j < ps.len() ==> listing(ps, bs, rs)[i].birthdate >= listing(
                ps,
                bs,
                rs,
            )[j].birthdate,
        forall|i: int, k: int|
            0 <= i < ps.len() && 0 <= k < listing(ps, bs, rs)[i].exploded.len() ==> state_in(
                rs,
                ps[i].id,
                (#[trigger] listing(ps, bs, rs)[i].exploded[k]).0,
            ) == ReactionState::Exploded,
        forall|i: int, k: int|
            0 <= i < ps.len() && 0 <= k < listing(ps, bs, rs)[i].imploded.len() ==> state_in(
                rs,
                ps[i].id,
                (#[trigger] listing(ps, bs, rs)[i].imploded[k]).0,
            ) == ReactionState::Imploded,
{
    let l = listing(ps, bs, rs);
    assert forall|i: int, k: int|
        0 <= i < ps.len() && 0 <= k < l[i].exploded.len() implies state_in(
        rs,
        ps[i].id,
        (#[trigger] l[i].exploded[k]).0,
    ) == ReactionState::Exploded by {
        let post = ps[i].id;
        lemma_reactors_origin(rs, bs, post, true);
        let user = reactors(rs, bs, post, true)[k].0;
        assert(has_row_of_kind(rs, post, user, true));
        let j = choose|j: int|
            0 <= j < rs.len() && (#[trigger] rs[j]).post == post && rs[j].is_explosion == true
                && rs[j].user == user;
        assert(pair_count(rs, post, user) <= 1);
        lemma_unique_row(rs, post, user, j);
    }
    assert forall|i: int, k: int|
        0 <= i < ps.len() && 0 <= k < l[i].imploded.len() implies state_in(
        rs,
        ps[i].id,
        (#[trigger] l[i].imploded[k]).0,
    ) == ReactionState::Imploded by {
        let post = ps[i].id;
        lemma_reactors_origin(rs, bs, post, false);
        let user = reactors(rs, bs, post, false)[k].0;
        assert(has_row_of_kind(rs, post, user, false));
        let j = choose|j: int|
            0 <= j < rs.len() && (#[trigger] rs[j]).post == post && rs[j].is_explosion == false
                && rs[j].user == user;
        assert(pair_count(rs, post, user) <= 1);
        lemma_unique_row(rs, post, user, j);
    }
}


/// Whether `user` is among `people`.
pub open spec fn lists_reactor(people: Seq<Reactor>, user: Seq<char>) -> bool {
    exists|k: int| 0 <= k < people.len() && (#[trigger] people[k]).0 == user
}

/// Every row of kind `explosion` on `post` whose user is known puts that
/// user among the post's reactors of that kind.
pub proof fn lemma_reactors_complete(
    rs: Seq<ReactionRow>,
    bs: Seq<BrainRow>,
    post: Seq<char>,
    explosion: bool,
)
    ensures
        forall|j: int|
            0 <= j < rs.len() && (#[trigger] rs[j]).post == post && rs[j].is_explosion
                == explosion && brain_with_id(bs, rs[j].user) is Some ==> lists_reactor(
                reactors(rs, bs, post, explosion),
                rs[j].user,
            ),
    decreases rs.len(),
{
    if rs.len() > 0 {
        let prev = reactors(rs.drop_last(), bs, post, explosion);
        let all = reactors(rs, bs, post, explosion);
        lemma_reactors_complete(rs.drop_last(), bs, post, explosion);
        lemma_brain_search(bs, Seq::empty(), rs.last().user);
        assert forall|j: int|
            0 <= j < rs.len() && (#[trigger] rs[j]).post == post && rs[j].is_explosion
                == explosion && brain_with_id(bs, rs[j].user) is Some implies lists_reactor(
            all,
            rs[j].user,
        ) by {
            if j == rs.len() - 1 {
                assert(all[all.len() - 1].0 == rs[j].user);
            } else {
                assert(rs.drop_last()[j] == rs[j]);
                assert(lists_reactor(prev, rs[j].user));
                let k = choose|k: int| 0 <= k < prev.len() && (#[trigger] prev[k]).0 == rs[j].user;
                assert(all[k] == prev[k]);
            }
        }
    }
}

/// Where every reaction row names a known user, the listing names every
/// user who reacted on a post, under the kind of their reaction.
pub proof fn lemma_listing_names_every_reactor(
    ps: Seq<PostRow>,
    bs: Seq<BrainRow>,
    rs: Seq<ReactionRow>,
)
    requires
        rows_point_to_known(ps, bs, rs),
    ensures
        forall|i: int, j: int|
            0 <= i < ps.len() && 0 <= j < rs.len() && (#[trigger] rs[j]).post == (
            #[trigger] ps[i]).id ==> lists_reactor(
                if rs[j].is_explosion {
                    listing(ps, bs, rs)[i].exploded
                } else {
                    listing(ps, bs, rs)[i].imploded
                },
                rs[j].user,
            ),
{
    assert forall|i: int, j: int|
        0 <= i < ps.len() && 0 <= j < rs.len() && (#[trigger] rs[j]).post == (
        #[trigger] ps[i]).id implies lists_reactor(
        if rs[j].is_explosion {
            listing(ps, bs, rs)[i].exploded
        } else {
            listing(ps, bs, rs)[i].imploded
        },
        rs[j].user,
    ) by {
        lemma_reactors_complete(rs, bs, ps[i].id, rs[j].is_explosion);
    }
}

} // verus!
