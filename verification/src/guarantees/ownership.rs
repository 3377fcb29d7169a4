//! Every club has an owner who is a coach and a member of that club, and
//! no operation undoes this.

use vstd::prelude::*;
use crate::entities::{club, club_member};
use crate::routes::controllers::club_controller::join_outcome;
use crate::routes::services::auth_service::register_outcome;
use crate::routes::services::club_member_service::{create_membership_outcome, leave_outcome};
use crate::routes::services::club_service::{
    create_outcome,
    delete_outcome,
    is_member_of,
    transfer_outcome,
};
use crate::routes::services::user_service::{reset_outcome, update_outcome};
use crate::store::constraints::{lemma_answer_keeps_wf, lemma_filter_rows};
use crate::store::query::QueryView;
use crate::store::search::{
    lemma_first_match_push,
    lemma_first_match_remove,
    lemma_only_match,
    lemma_position,
    lemma_position_agrees,
    position,
};
use crate::store::state::{
    club_with_id,
    member_of_user,
    member_outside,
    member_with_id,
    user_with_id,
    State,
};
use crate::utils::jwt::ClaimsView;
use crate::utils::password::sha256_hex;
use crate::utils::request_models::auth_models::RegisterView;
use crate::utils::request_models::user_models::UpdateUserView;
use crate::utils::text::{lowercase, trimmed};

verus! {

/// Whether the owner of a club is a coach and a member of that club.
pub open spec fn owner_in_place(s: State, club: club::Row) -> bool {
    s.coach(club.owner_id) is Some && is_member_of(s, club.owner_id, club.club_id)
}

/// Whether every club has its owner in place.
pub open spec fn owners_hold(s: State) -> bool {
    forall|i: int| 0 <= i < s.clubs.len() ==> owner_in_place(s, #[trigger] s.clubs[i])
}

/// Whether a store is in order: the constraints of the schema hold, and
/// every club has its owner in place.
pub open spec fn sound(s: State) -> bool {
    s.wf() && owners_hold(s)
}

/// The empty store is in order.
pub proof fn empty_store_is_sound()
    ensures
        sound(State::empty()),
{
}

/// Adding a user keeps every owner in place.
proof fn lemma_insert_user_keeps_owners(
    s: State,
    name_first: Seq<char>,
    name_last: Seq<char>,
    email: Seq<char>,
    password: Seq<char>,
    user_type: Seq<char>,
)
    requires
        owners_hold(s),
    ensures
        owners_hold(s.insert_user(name_first, name_last, email, password, user_type).0),
{
    let after = s.insert_user(name_first, name_last, email, password, user_type).0;
    if after != s {
        let row = after.users[s.users.len() as int];
        assert(after.users == s.users.push(row));
        assert forall|i: int| 0 <= i < after.clubs.len() implies owner_in_place(
            after,
            #[trigger] after.clubs[i],
        ) by {
            let club = s.clubs[i];
            assert(owner_in_place(s, club));
            lemma_first_match_push(s.users, row, user_with_id(club.owner_id, Some("C"@)));
        }
    }
}

/// Changing a user's names, email or password keeps every owner in place.
proof fn lemma_update_user_keeps_owners(
    s: State,
    user_id: i32,
    name_first: Option<Seq<char>>,
    name_last: Option<Seq<char>>,
    email: Option<Seq<char>>,
    password: Option<Seq<char>>,
)
    requires
        owners_hold(s),
    ensures
        owners_hold(s.update_user(user_id, name_first, name_last, email, password).0),
{
    let after = s.update_user(user_id, name_first, name_last, email, password).0;
    if after != s {
        lemma_position(s.users, user_with_id(user_id, None));
        assert forall|i: int| 0 <= i < after.clubs.len() implies owner_in_place(
            after,
            #[trigger] after.clubs[i],
        ) by {
            let club = s.clubs[i];
            assert(owner_in_place(s, club));
            let wanted = user_with_id(club.owner_id, Some("C"@));
            assert forall|k: int| 0 <= k < s.users.len() implies wanted(#[trigger] s.users[k])
                == wanted(after.users[k]) by {}
            lemma_position_agrees(s.users, wanted, after.users, wanted);
            lemma_position(s.users, wanted);
        }
    }
}

/// Adding a membership keeps every owner in place.
proof fn lemma_insert_member_keeps_owners(s: State, user_id: i32, club_id: i32)
    requires
        owners_hold(s),
    ensures
        owners_hold(s.insert_member(user_id, club_id).0),
{
    let after = s.insert_member(user_id, club_id).0;
    if after != s {
        let row = after.members[s.members.len() as int];
        assert(after.members == s.members.push(row));
        assert forall|i: int| 0 <= i < after.clubs.len() implies owner_in_place(
            after,
            #[trigger] after.clubs[i],
        ) by {
            let club = s.clubs[i];
            assert(owner_in_place(s, club));
            lemma_first_match_push(s.members, row, member_of_user(club.owner_id));
        }
    }
}

/// Adding a club whose owner is a coach keeps every owner in place.
proof fn lemma_insert_club_keeps_owners(s: State, name: Seq<char>, owner_id: i32)
    requires
        owners_hold(s),
        s.coach(owner_id) is Some,
    ensures
        owners_hold(s.insert_club(name, owner_id).0),
{
    let after = s.insert_club(name, owner_id).0;
    if after != s {
        let added = after.clubs[s.clubs.len() as int];
        let member = after.members[s.members.len() as int];
        assert(after.members == s.members.push(member));
        assert forall|i: int| 0 <= i < after.clubs.len() implies owner_in_place(
            after,
            #[trigger] after.clubs[i],
        ) by {
            let club = after.clubs[i];
            lemma_first_match_push(s.members, member, member_of_user(club.owner_id));
            if i < s.clubs.len() {
                assert(club == s.clubs[i]);
                assert(owner_in_place(s, club));
            }
        }
    }
}

/// Removing the membership of a user who owns no club keeps every owner in
/// place.
proof fn lemma_delete_member_keeps_owners(s: State, club_member_id: i32)
    requires
        owners_hold(s),
        forall|i: int, k: int|
            0 <= i < s.clubs.len() && 0 <= k < s.members.len() && (
            #[trigger] s.members[k]).club_member_id == club_member_id ==> (
            #[trigger] s.clubs[i]).owner_id != s.members[k].user_id,
    ensures
        owners_hold(s.delete_member(club_member_id).0),
{
    let after = s.delete_member(club_member_id).0;
    if after != s {
        lemma_position(s.members, member_with_id(club_member_id));
        let at = position(s.members, member_with_id(club_member_id));
        assert(after.members == s.members.remove(at));
        assert forall|i: int| 0 <= i < after.clubs.len() implies owner_in_place(
            after,
            #[trigger] after.clubs[i],
        ) by {
            let club = s.clubs[i];
            assert(owner_in_place(s, club));
            assert(s.clubs[i].owner_id != s.members[at].user_id);
            lemma_first_match_remove(s.members, at, member_of_user(club.owner_id));
        }
    }
}

/// Making a coach who is in the club its owner keeps every owner in place.
proof fn lemma_update_club_owner_keeps_owners(s: State, club_id: i32, owner_id: i32)
    requires
        owners_hold(s),
        s.coach(owner_id) is Some,
        is_member_of(s, owner_id, club_id),
    ensures
        owners_hold(s.update_club_owner(club_id, owner_id).0),
{
    let after = s.update_club_owner(club_id, owner_id).0;
    if after != s {
        lemma_position(s.clubs, club_with_id(club_id));
        let at = position(s.clubs, club_with_id(club_id));
        assert forall|i: int| 0 <= i < after.clubs.len() implies owner_in_place(
            after,
            #[trigger] after.clubs[i],
        ) by {
            if i != at {
                assert(after.clubs[i] == s.clubs[i]);
                assert(owner_in_place(s, s.clubs[i]));
            }
        }
    }
}

/// Removing a club with its memberships keeps every other owner in place.
proof fn lemma_delete_club_keeps_owners(s: State, club_id: i32)
    requires
        sound(s),
    ensures
        owners_hold(s.delete_club(club_id).0),
{
    let after = s.delete_club(club_id).0;
    if after != s {
        lemma_answer_keeps_wf(s, QueryView::DeleteClub { club_id });
        lemma_position(s.clubs, club_with_id(club_id));
        let at = position(s.clubs, club_with_id(club_id));
        let clash = |a: club_member::Model, b: club_member::Model| a.user_id == b.user_id;
        lemma_filter_rows(s.members, member_outside(club_id), clash);
        assert(after.clubs == s.clubs.remove(at));
        assert forall|i: int| 0 <= i < after.clubs.len() implies owner_in_place(
            after,
            #[trigger] after.clubs[i],
        ) by {
            let before = if i < at {
                i
            } else {
                i + 1
            };
            let club = s.clubs[before];
            assert(after.clubs[i] == club);
            assert(owner_in_place(s, club));
            if before < at {
                assert(s.clubs[before].club_id != s.clubs[at].club_id);
            } else {
                assert(s.clubs[at].club_id != s.clubs[before].club_id);
            }
            lemma_position(s.members, member_of_user(club.owner_id));
            let held = position(s.members, member_of_user(club.owner_id));
            let member = s.members[held];
            assert(member_outside(club_id)(member));
            assert(after.members.contains(s.members[held]));
            let kept = choose|k: int| 0 <= k < after.members.len() && after.members[k] == member;
            lemma_only_match(after.members, member_of_user(club.owner_id), kept);
        }
    }
}

/// Registering leaves a store in order.
pub proof fn register_keeps_sound(s: State, json: RegisterView)
    requires
        sound(s),
    ensures
        sound(register_outcome(s, json).0),
{
    lemma_answer_keeps_wf(
        s,
        QueryView::InsertUser {
            name_first: json.name_first,
            name_last: json.name_last,
            email: json.email,
            password: sha256_hex(json.password),
            user_type: json.user_type,
        },
    );
    lemma_insert_user_keeps_owners(
        s,
        json.name_first,
        json.name_last,
        json.email,
        sha256_hex(json.password),
        json.user_type,
    );
}

/// Updating a profile leaves a store in order.
pub proof fn update_keeps_sound(s: State, claim_data: ClaimsView, user_data: UpdateUserView)
    requires
        sound(s),
    ensures
        sound(update_outcome(s, claim_data, user_data).0),
{
    if s.user(claim_data.user_id) is Some {
        let user_id = s.user(claim_data.user_id)->0.user_id;
        lemma_answer_keeps_wf(
            s,
            QueryView::UpdateUser {
                user_id,
                name_first: user_data.name_first,
                name_last: user_data.name_last,
                email: user_data.email,
                password: None,
            },
        );
        lemma_update_user_keeps_owners(
            s,
            user_id,
            user_data.name_first,
            user_data.name_last,
            user_data.email,
            None,
        );
    }
}

/// Resetting a password leaves a store in order.
pub proof fn reset_keeps_sound(
    s: State,
    claim_data: ClaimsView,
    old_pass: Seq<char>,
    new_pass: Seq<char>,
)
    requires
        sound(s),
    ensures
        sound(reset_outcome(s, claim_data, old_pass, new_pass).0),
{
    if s.user(claim_data.user_id) is Some {
        let user_id = s.user(claim_data.user_id)->0.user_id;
        let password = Some(sha256_hex(trimmed(new_pass)));
        lemma_answer_keeps_wf(
            s,
            QueryView::UpdateUser {
                user_id,
                name_first: None,
                name_last: None,
                email: None,
                password,
            },
        );
        lemma_update_user_keeps_owners(s, user_id, None, None, None, password);
    }
}

/// Founding a club leaves a store in order.
pub proof fn create_keeps_sound(s: State, claim_data: ClaimsView, club_name: Seq<char>)
    requires
        sound(s),
    ensures
        sound(create_outcome(s, claim_data, club_name).0),
{
    if s.coach(claim_data.user_id) is Some {
        lemma_answer_keeps_wf(
            s,
            QueryView::InsertClub { name: lowercase(club_name), owner_id: claim_data.user_id },
        );
        lemma_insert_club_keeps_owners(s, lowercase(club_name), claim_data.user_id);
    }
}

/// Joining a club, and being added to one, leave a store in order.
pub proof fn join_keeps_sound(s: State, claim_data: ClaimsView, club_id: i32)
    requires
        sound(s),
    ensures
        sound(join_outcome(s, claim_data, club_id).0),
        sound(create_membership_outcome(s, claim_data, club_id).0),
{
    lemma_answer_keeps_wf(s, QueryView::InsertMember { user_id: claim_data.user_id, club_id });
    lemma_insert_member_keeps_owners(s, claim_data.user_id, club_id);
}

/// Leaving a club leaves a store in order.
pub proof fn leave_keeps_sound(s: State, claim_data: ClaimsView)
    requires
        sound(s),
    ensures
        sound(leave_outcome(s, claim_data).0),
{
    let user_id = claim_data.user_id;
    let after = leave_outcome(s, claim_data).0;
    if after != s {
        let member = s.membership_of(user_id)->0;
        lemma_answer_keeps_wf(s, QueryView::DeleteMember { club_member_id: member.club_member_id });
        lemma_position(s.members, member_of_user(user_id));
        let at = position(s.members, member_of_user(user_id));
        lemma_position(s.clubs, club_with_id(member.club_id));
        assert forall|i: int, k: int|
            0 <= i < s.clubs.len() && 0 <= k < s.members.len() && (
            #[trigger] s.members[k]).club_member_id == member.club_member_id implies (
        #[trigger] s.clubs[i]).owner_id != s.members[k].user_id by {
            if k != at {
                if k < at {
                    assert(s.members[k].club_member_id != s.members[at].club_member_id);
                } else {
                    assert(s.members[at].club_member_id != s.members[k].club_member_id);
                }
            }
            if s.clubs[i].owner_id == user_id {
                assert(owner_in_place(s, s.clubs[i]));
                let found = position(s.clubs, club_with_id(member.club_id));
                if found != i {
                    if found < i {
                        assert(s.clubs[found].club_id != s.clubs[i].club_id);
                    } else {
                        assert(s.clubs[i].club_id != s.clubs[found].club_id);
                    }
                }
            }
        }
        lemma_delete_member_keeps_owners(s, member.club_member_id);
    }
}

/// Deleting a club leaves a store in order.
pub proof fn delete_keeps_sound(s: State, claim_data: ClaimsView)
    requires
        sound(s),
    ensures
        sound(delete_outcome(s, claim_data).0),
{
    if s.owned_club(claim_data.user_id) is Some {
        let club_id = s.owned_club(claim_data.user_id)->0.club_id;
        lemma_answer_keeps_wf(s, QueryView::DeleteClub { club_id });
        lemma_delete_club_keeps_owners(s, club_id);
    }
}

/// Handing a club over leaves a store in order.
pub proof fn transfer_keeps_sound(s: State, claim_data: ClaimsView, new_owner_id: i32)
    requires
        sound(s),
    ensures
        sound(transfer_outcome(s, claim_data, new_owner_id).0),
{
    let after = transfer_outcome(s, claim_data, new_owner_id).0;
    if after != s {
        let club_id = s.owned_club(claim_data.user_id)->0.club_id;
        lemma_answer_keeps_wf(s, QueryView::UpdateClubOwner { club_id, owner_id: new_owner_id });
        lemma_position(s.users, user_with_id(new_owner_id, None));
        let at = position(s.users, user_with_id(new_owner_id, None));
        assert(user_with_id(new_owner_id, Some("C"@))(s.users[at]));
        lemma_position(s.users, user_with_id(new_owner_id, Some("C"@)));
        lemma_update_club_owner_keeps_owners(s, club_id, new_owner_id);
    }
}

} // verus!
