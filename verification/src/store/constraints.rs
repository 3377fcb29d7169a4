//! Every query leaves the constraints of the schema in force.

use vstd::prelude::*;
use crate::entities::{club, club_member, user};
use crate::store::query::QueryView;
use crate::store::search::{lemma_position, position};
use crate::store::state::{
    club_with_id,
    club_with_name,
    member_of_user,
    member_outside,
    member_with_id,
    patched,
    user_rival,
    user_with_email,
    user_with_id,
    State,
};

verus! {

/// Filtering keeps rows of the table only, in a table where no two rows
/// clash it leaves no two rows that clash, and it keeps every row that
/// meets the condition.
pub proof fn lemma_filter_rows<T>(
    rows: Seq<T>,
    keep: spec_fn(T) -> bool,
    clash: spec_fn(T, T) -> bool,
)
    requires
        forall|i: int, j: int|
            0 <= i < j < rows.len() ==> !clash(#[trigger] rows[i], #[trigger] rows[j]),
    ensures
        forall|k: int|
            0 <= k < rows.filter(keep).len() ==> keep(#[trigger] rows.filter(keep)[k])
                && rows.contains(rows.filter(keep)[k]),
        forall|i: int, j: int|
            0 <= i < j < rows.filter(keep).len() ==> !clash(
                #[trigger] rows.filter(keep)[i],
                #[trigger] rows.filter(keep)[j],
            ),
        forall|k: int|
            0 <= k < rows.len() && keep(rows[k]) ==> rows.filter(keep).contains(#[trigger] rows[k]),
    decreases rows.len(),
{
    reveal(Seq::filter);
    let kept = rows.filter(keep);
    if rows.len() > 0 {
        let front = rows.drop_last();
        let last = rows.last();
        lemma_filter_rows(front, keep, clash);
        let front_kept = front.filter(keep);
        assert forall|k: int| 0 <= k < kept.len() implies keep(#[trigger] kept[k]) && rows.contains(
            kept[k],
        ) by {
            if k < front_kept.len() {
                assert(kept[k] == front_kept[k]);
                assert(front.contains(front_kept[k]));
                let at = choose|at: int| 0 <= at < front.len() && front[at] == front_kept[k];
                assert(rows[at] == kept[k]);
            } else {
                assert(kept[k] == rows[rows.len() - 1]);
            }
        }
        assert forall|i: int, j: int| 0 <= i < j < kept.len() implies !clash(
            #[trigger] kept[i],
            #[trigger] kept[j],
        ) by {
            assert(kept[i] == front_kept[i]);
            if j < front_kept.len() {
                assert(kept[j] == front_kept[j]);
            } else {
                assert(front.contains(front_kept[i]));
                let at = choose|at: int| 0 <= at < front.len() && front[at] == front_kept[i];
                assert(rows[at] == kept[i]);
                assert(kept[j] == rows[rows.len() - 1]);
            }
        }
        assert forall|k: int| 0 <= k < rows.len() && keep(rows[k]) implies kept.contains(
            #[trigger] rows[k],
        ) by {
            if k < front.len() {
                assert(front[k] == rows[k]);
                assert(front_kept.contains(front[k]));
                let at = choose|at: int| 0 <= at < front_kept.len() && front_kept[at] == front[k];
                assert(kept[at] == rows[k]);
            } else {
                assert(kept[kept.len() - 1] == rows[k]);
            }
        }
    }
}

/// Adding a user leaves the constraints in force.
pub proof fn lemma_insert_user_keeps_wf(
    s: State,
    name_first: Seq<char>,
    name_last: Seq<char>,
    email: Seq<char>,
    password: Seq<char>,
    user_type: Seq<char>,
)
    requires
        s.wf(),
    ensures
        s.insert_user(name_first, name_last, email, password, user_type).0.wf(),
{
    let after = s.insert_user(name_first, name_last, email, password, user_type).0;
    if after != s {
        lemma_position(s.users, user_with_email(email, user_type, None));
        let row = after.users[s.users.len() as int];
        assert forall|i: int, j: int| 0 <= i < j < after.users.len() implies !((
        #[trigger] after.users[i]).email == (#[trigger] after.users[j]).email
            && after.users[i].user_type == after.users[j].user_type) by {
            assert(after.users[i] == s.users[i]);
            if j == s.users.len() {
                assert(!user_with_email(email, user_type, None)(s.users[i]));
            } else {
                assert(after.users[j] == s.users[j]);
            }
        }
        assert forall|i: int, j: int| 0 <= i < j < after.users.len() implies (
        #[trigger] after.users[i]).user_id != (#[trigger] after.users[j]).user_id by {
            assert(after.users[i] == s.users[i]);
            if j < s.users.len() {
                assert(after.users[j] == s.users[j]);
            }
        }
        assert forall|i: int| 0 <= i < after.users.len() implies 1 <= (
        #[trigger] after.users[i]).user_id <= after.user_ids by {
            if i < s.users.len() {
                assert(after.users[i] == s.users[i]);
            }
        }
        assert forall|user_id: i32| s.has_user(user_id) implies after.has_user(user_id) by {
            let k = choose|k: int|
                0 <= k < s.users.len() && user_with_id(user_id, None)(#[trigger] s.users[k]);
            assert(after.users[k] == s.users[k]);
        }
        assert(after.keys_hold());
        assert(after.unique_hold());
        assert(after.references_hold());
    }
}

/// Changing a user leaves the constraints in force.
pub proof fn lemma_update_user_keeps_wf(
    s: State,
    user_id: i32,
    name_first: Option<Seq<char>>,
    name_last: Option<Seq<char>>,
    email: Option<Seq<char>>,
    password: Option<Seq<char>>,
)
    requires
        s.wf(),
    ensures
        s.update_user(user_id, name_first, name_last, email, password).0.wf(),
{
    let after = s.update_user(user_id, name_first, name_last, email, password).0;
    if after != s {
        lemma_position(s.users, user_with_id(user_id, None));
        let at = position(s.users, user_with_id(user_id, None));
        let row = patched(s.users[at], name_first, name_last, email, password);
        assert(after.users == s.users.update(at, row));
        assert(forall|k: int|
            0 <= k < s.users.len() ==> (#[trigger] after.users[k]).user_id == s.users[k].user_id);
        assert forall|i: int, j: int| 0 <= i < j < after.users.len() implies !((
        #[trigger] after.users[i]).email == (#[trigger] after.users[j]).email
            && after.users[i].user_type == after.users[j].user_type) by {
            if i == at {
                assert(after.users[j] == s.users[j]);
                assert(!user_rival(user_id, row.email, row.user_type)(s.users[j]));
            } else if j == at {
                assert(after.users[i] == s.users[i]);
                assert(!user_rival(user_id, row.email, row.user_type)(s.users[i]));
            } else {
                assert(after.users[i] == s.users[i]);
                assert(after.users[j] == s.users[j]);
            }
        }
        assert forall|wanted: i32| s.has_user(wanted) implies after.has_user(wanted) by {
            let k = choose|k: int|
                0 <= k < s.users.len() && user_with_id(wanted, None)(#[trigger] s.users[k]);
            assert(after.users[k].user_id == s.users[k].user_id);
            assert(user_with_id(wanted, None)(after.users[k]));
        }
        assert(after.keys_hold());
        assert(after.unique_hold());
        assert(after.references_hold());
    }
}

/// Adding a membership leaves the constraints in force.
pub proof fn lemma_insert_member_keeps_wf(s: State, user_id: i32, club_id: i32)
    requires
        s.wf(),
    ensures
        s.insert_member(user_id, club_id).0.wf(),
{
    let after = s.insert_member(user_id, club_id).0;
    if after != s {
        lemma_position(s.users, user_with_id(user_id, None));
        lemma_position(s.clubs, club_with_id(club_id));
        lemma_position(s.members, member_of_user(user_id));
        assert forall|i: int, j: int| 0 <= i < j < after.members.len() implies (
        #[trigger] after.members[i]).user_id != (#[trigger] after.members[j]).user_id by {
            assert(after.members[i] == s.members[i]);
            if j == s.members.len() {
                assert(!member_of_user(user_id)(s.members[i]));
            } else {
                assert(after.members[j] == s.members[j]);
            }
        }
        assert forall|i: int, j: int| 0 <= i < j < after.members.len() implies (
        #[trigger] after.members[i]).club_member_id != (
        #[trigger] after.members[j]).club_member_id by {
            assert(after.members[i] == s.members[i]);
            if j < s.members.len() {
                assert(after.members[j] == s.members[j]);
            }
        }
        assert forall|i: int| 0 <= i < after.members.len() implies 1 <= (
        #[trigger] after.members[i]).club_member_id <= after.member_ids by {
            if i < s.members.len() {
                assert(after.members[i] == s.members[i]);
            }
        }
        assert forall|i: int| 0 <= i < after.members.len() implies after.has_user(
            (#[trigger] after.members[i]).user_id,
        ) && after.has_club(after.members[i].club_id) by {
            if i < s.members.len() {
                assert(after.members[i] == s.members[i]);
            }
        }
        assert(after.keys_hold());
        assert(after.unique_hold());
        assert(after.references_hold());
    }
}

/// Removing a membership leaves the constraints in force.
pub proof fn lemma_delete_member_keeps_wf(s: State, club_member_id: i32)
    requires
        s.wf(),
    ensures
        s.delete_member(club_member_id).0.wf(),
{
    let after = s.delete_member(club_member_id).0;
    if after != s {
        let at = position(s.members, member_with_id(club_member_id));
        lemma_position(s.members, member_with_id(club_member_id));
        assert(after.members == s.members.remove(at));
        assert forall|k: int| 0 <= k < after.members.len() implies #[trigger] after.members[k]
            == s.members[if k < at {
            k
        } else {
            k + 1
        }] by {}
        assert forall|i: int, j: int| 0 <= i < j < after.members.len() implies (
        #[trigger] after.members[i]).user_id != (#[trigger] after.members[j]).user_id && (
        after.members[i]).club_member_id != (after.members[j]).club_member_id by {
            let si = if i < at {
                i
            } else {
                i + 1
            };
            let sj = if j < at {
                j
            } else {
                j + 1
            };
            assert(after.members[i] == s.members[si]);
            assert(after.members[j] == s.members[sj]);
        }
        assert forall|i: int| 0 <= i < after.members.len() implies 1 <= (
        #[trigger] after.members[i]).club_member_id <= after.member_ids && after.has_user(
            after.members[i].user_id,
        ) && after.has_club(after.members[i].club_id) by {
            let si = if i < at {
                i
            } else {
                i + 1
            };
            assert(after.members[i] == s.members[si]);
        }
        assert(after.keys_hold());
        assert(after.unique_hold());
        assert(after.references_hold());
    }
}

/// Adding a club with its owner's membership leaves the constraints in
/// force.
pub proof fn lemma_insert_club_keeps_wf(s: State, name: Seq<char>, owner_id: i32)
    requires
        s.wf(),
    ensures
        s.insert_club(name, owner_id).0.wf(),
{
    let after = s.insert_club(name, owner_id).0;
    if after != s {
        lemma_position(s.users, user_with_id(owner_id, None));
        lemma_position(s.clubs, club_with_name(name));
        lemma_position(s.members, member_of_user(owner_id));
        let club = after.clubs[s.clubs.len() as int];
        assert forall|i: int, j: int| 0 <= i < j < after.members.len() implies (
        #[trigger] after.members[i]).user_id != (#[trigger] after.members[j]).user_id && (
        after.members[i]).club_member_id != (after.members[j]).club_member_id by {
            assert(after.members[i] == s.members[i]);
            if j == s.members.len() {
                assert(!member_of_user(owner_id)(s.members[i]));
            } else {
                assert(after.members[j] == s.members[j]);
            }
        }
        assert forall|i: int, j: int| 0 <= i < j < after.clubs.len() implies (
        #[trigger] after.clubs[i]).name != (#[trigger] after.clubs[j]).name && (
        after.clubs[i]).club_id != (after.clubs[j]).club_id by {
            assert(after.clubs[i] == s.clubs[i]);
            if j == s.clubs.len() {
                assert(!club_with_name(name)(s.clubs[i]));
            } else {
                assert(after.clubs[j] == s.clubs[j]);
            }
        }
        assert forall|i: int| 0 <= i < after.clubs.len() implies 1 <= (
        #[trigger] after.clubs[i]).club_id <= after.club_ids && after.has_user(
            after.clubs[i].owner_id,
        ) by {
            if i < s.clubs.len() {
                assert(after.clubs[i] == s.clubs[i]);
            }
        }
        assert forall|wanted: i32| s.has_club(wanted) implies after.has_club(wanted) by {
            let k = choose|k: int|
                0 <= k < s.clubs.len() && club_with_id(wanted)(#[trigger] s.clubs[k]);
            assert(after.clubs[k] == s.clubs[k]);
        }
        assert(club_with_id(club.club_id)(after.clubs[s.clubs.len() as int]));
        assert(after.has_club(club.club_id));
        assert forall|i: int| 0 <= i < after.members.len() implies 1 <= (
        #[trigger] after.members[i]).club_member_id <= after.member_ids && after.has_user(
            after.members[i].user_id,
        ) && after.has_club(after.members[i].club_id) by {
            if i < s.members.len() {
                assert(after.members[i] == s.members[i]);
            }
        }
        assert(after.keys_hold());
        assert(after.unique_hold());
        assert(after.references_hold());
    }
}

/// Changing a club's owner leaves the constraints in force.
pub proof fn lemma_update_club_owner_keeps_wf(s: State, club_id: i32, owner_id: i32)
    requires
        s.wf(),
    ensures
        s.update_club_owner(club_id, owner_id).0.wf(),
{
    let after = s.update_club_owner(club_id, owner_id).0;
    if after != s {
        lemma_position(s.clubs, club_with_id(club_id));
        lemma_position(s.users, user_with_id(owner_id, None));
        let at = position(s.clubs, club_with_id(club_id));
        assert(forall|k: int|
            0 <= k < s.clubs.len() ==> (#[trigger] after.clubs[k]).club_id == s.clubs[k].club_id
                && after.clubs[k].name == s.clubs[k].name);
        assert forall|i: int| 0 <= i < after.clubs.len() implies after.has_user(
            (#[trigger] after.clubs[i]).owner_id,
        ) by {
            if i != at {
                assert(after.clubs[i] == s.clubs[i]);
            }
        }
        assert forall|wanted: i32| s.has_club(wanted) implies after.has_club(wanted) by {
            let k = choose|k: int|
                0 <= k < s.clubs.len() && club_with_id(wanted)(#[trigger] s.clubs[k]);
            assert(after.clubs[k].club_id == s.clubs[k].club_id);
            assert(club_with_id(wanted)(after.clubs[k]));
        }
        assert(after.keys_hold());
        assert(after.unique_hold());
        assert(after.references_hold());
    }
}

/// Removing a club with its memberships leaves the constraints in force.
pub proof fn lemma_delete_club_keeps_wf(s: State, club_id: i32)
    requires
        s.wf(),
    ensures
        s.delete_club(club_id).0.wf(),
{
    let after = s.delete_club(club_id).0;
    if after != s {
        let at = position(s.clubs, club_with_id(club_id));
        lemma_position(s.clubs, club_with_id(club_id));
        let clash = |a: club_member::Model, b: club_member::Model|
            a.user_id == b.user_id || a.club_member_id == b.club_member_id;
        lemma_filter_rows(s.members, member_outside(club_id), clash);
        assert(after.clubs == s.clubs.remove(at));
        assert forall|k: int| 0 <= k < after.clubs.len() implies #[trigger] after.clubs[k]
            == s.clubs[if k < at {
            k
        } else {
            k + 1
        }] by {}
        assert forall|i: int, j: int| 0 <= i < j < after.clubs.len() implies (
        #[trigger] after.clubs[i]).name != (#[trigger] after.clubs[j]).name && (
        after.clubs[i]).club_id != (after.clubs[j]).club_id by {
            let si = if i < at {
                i
            } else {
                i + 1
            };
            let sj = if j < at {
                j
            } else {
                j + 1
            };
            assert(after.clubs[i] == s.clubs[si]);
            assert(after.clubs[j] == s.clubs[sj]);
        }
        assert forall|i: int| 0 <= i < after.clubs.len() implies 1 <= (
        #[trigger] after.clubs[i]).club_id <= after.club_ids && after.has_user(
            after.clubs[i].owner_id,
        ) by {
            let si = if i < at {
                i
            } else {
                i + 1
            };
            assert(after.clubs[i] == s.clubs[si]);
        }
        assert forall|wanted: i32| wanted != club_id && s.has_club(wanted) implies after.has_club(
            wanted,
        ) by {
            let k = choose|k: int|
                0 <= k < s.clubs.len() && club_with_id(wanted)(#[trigger] s.clubs[k]);
            let ak = if k < at {
                k
            } else {
                k - 1
            };
            assert(after.clubs[ak] == s.clubs[k]);
        }
        assert forall|i: int| 0 <= i < after.members.len() implies 1 <= (
        #[trigger] after.members[i]).club_member_id <= after.member_ids && after.has_user(
            after.members[i].user_id,
        ) && after.has_club(after.members[i].club_id) by {
            assert(s.members.contains(after.members[i]));
            let k = choose|k: int| 0 <= k < s.members.len() && s.members[k] == after.members[i];
            assert(member_outside(club_id)(after.members[i]));
        }
        assert forall|i: int, j: int| 0 <= i < j < after.members.len() implies (
        #[trigger] after.members[i]).user_id != (#[trigger] after.members[j]).user_id && (
        after.members[i]).club_member_id != (after.members[j]).club_member_id by {
            assert(!clash(after.members[i], after.members[j]));
        }
        assert(after.keys_hold());
        assert(after.unique_hold());
        assert(after.references_hold());
    }
}

/// Whatever the query, a store whose constraints hold answers with a store
/// whose constraints hold.
pub proof fn lemma_answer_keeps_wf(s: State, query: QueryView)
    requires
        s.wf(),
    ensures
        s.answer(query).0.wf(),
{
    match query {
        QueryView::InsertUser {
            name_first,
            name_last,
            email,
            password,
            user_type,
        } => lemma_insert_user_keeps_wf(s, name_first, name_last, email, password, user_type),
        QueryView::UpdateUser {
            user_id,
            name_first,
            name_last,
            email,
            password,
        } => lemma_update_user_keeps_wf(s, user_id, name_first, name_last, email, password),
        QueryView::InsertMember { user_id, club_id } => lemma_insert_member_keeps_wf(
            s,
            user_id,
            club_id,
        ),
        QueryView::DeleteMember { club_member_id } => lemma_delete_member_keeps_wf(
            s,
            club_member_id,
        ),
        QueryView::InsertClub { name, owner_id } => lemma_insert_club_keeps_wf(s, name, owner_id),
        QueryView::UpdateClubOwner { club_id, owner_id } => lemma_update_club_owner_keeps_wf(
            s,
            club_id,
            owner_id,
        ),
        QueryView::DeleteClub { club_id } => lemma_delete_club_keeps_wf(s, club_id),
        _ => {},
    }
}

} // verus!
