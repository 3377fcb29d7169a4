//! What holds of memberships across operations: a user is in one club at
//! most, and the owner of a club stays in it.

use vstd::prelude::*;
use crate::entities::club_member;
use crate::routes::controllers::club_controller::join_outcome;
use crate::routes::services::club_member_service::{create_membership_outcome, leave_outcome};
use crate::routes::services::club_service::create_outcome;
use crate::store::search::{lemma_first_match_remove, lemma_position, position};
use crate::store::state::{club_with_id, member_of_user, member_with_id, State};
use crate::utils::api_response::{response, ResponseView};
use crate::utils::jwt::ClaimsView;

verus! {

/// In a store whose constraints hold, no two memberships are of one user.
pub proof fn one_membership_per_user(s: State, i: int, j: int)
    requires
        s.wf(),
        0 <= i < s.members.len(),
        0 <= j < s.members.len(),
        i != j,
    ensures
        s.members[i].user_id != s.members[j].user_id,
{
    if i < j {
        assert(s.members[i].user_id != s.members[j].user_id);
    } else {
        assert(s.members[j].user_id != s.members[i].user_id);
    }
}

/// A user who is in a club cannot join a club, be added to one, or found
/// one: each is refused as a conflict and leaves the store as it is.
pub proof fn member_cannot_join(s: State, claim_data: ClaimsView, club_id: i32, name: Seq<char>)
    requires
        s.membership_of(claim_data.user_id) is Some,
    ensures
        s.club(club_id) is Some ==> join_outcome(s, claim_data, club_id) == (
            s,
            Err::<ResponseView, _>(response(409, "User is already a member of a club"@)),
        ),
        create_membership_outcome(s, claim_data, club_id) == (
            s,
            Err::<club_member::Model, _>(
                response(409, "User is already a member of a club"@),
            ),
        ),
        s.coach(claim_data.user_id) is Some ==> create_outcome(s, claim_data, name) == (
            s,
            Err::<ResponseView, _>(response(409, "Users cannot be part of two clubs at once"@)),
        ),
{
}

/// The owner of a club cannot leave it: leaving is refused as a conflict
/// and leaves the store as it is.
pub proof fn owner_cannot_leave(s: State, claim_data: ClaimsView)
    requires
        s.owned_club(claim_data.user_id) is Some,
    ensures
        leave_outcome(s, claim_data) == (
            s,
            Err::<ResponseView, _>(
                response(409, "User cannot leave the club if they are the owner"@),
            ),
        ),
{
}

/// A member who does not own their club can leave it: their membership is
/// gone afterwards, and nothing else has changed.
pub proof fn member_can_leave(s: State, claim_data: ClaimsView, other: i32)
    requires
        s.wf(),
        s.membership_of(claim_data.user_id) is Some,
        s.owned_club(claim_data.user_id) is None,
    ensures
        leave_outcome(s, claim_data).1 == Ok::<_, ResponseView>(
            response(200, "Successfully left club"@),
        ),
        leave_outcome(s, claim_data).0.membership_of(claim_data.user_id) is None,
        other != claim_data.user_id ==> leave_outcome(s, claim_data).0.membership_of(other)
            == s.membership_of(other),
        leave_outcome(s, claim_data).0.users == s.users,
        leave_outcome(s, claim_data).0.clubs == s.clubs,
{
    let user_id = claim_data.user_id;
    let member = s.membership_of(user_id)->0;
    lemma_position(s.members, member_of_user(user_id));
    let at = position(s.members, member_of_user(user_id));
    assert(s.has_club(s.members[at].club_id));
    lemma_position(s.clubs, club_with_id(member.club_id));
    assert(member_with_id(member.club_member_id)(s.members[at]));
    lemma_position(s.members, member_with_id(member.club_member_id));
    let gone = position(s.members, member_with_id(member.club_member_id));
    if gone != at {
        if gone < at {
            assert(s.members[gone].club_member_id != s.members[at].club_member_id);
        } else {
            assert(s.members[at].club_member_id != s.members[gone].club_member_id);
        }
    }
    let after = leave_outcome(s, claim_data).0;
    assert(after.members == s.members.remove(at));
    lemma_position(after.members, member_of_user(user_id));
    let again = position(after.members, member_of_user(user_id));
    if again < after.members.len() {
        let before = if again < at {
            again
        } else {
            again + 1
        };
        assert(after.members[again] == s.members[before]);
        one_membership_per_user(s, at, before);
    }
    if other != user_id {
        lemma_first_match_remove(s.members, at, member_of_user(other));
    }
}

} // verus!
