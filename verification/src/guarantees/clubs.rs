//! What holds of clubs across operations: a name is taken once, whatever
//! its case, and a club changes hands only to a coach in it.

use vstd::prelude::*;
use crate::entities::club;
use crate::routes::services::club_service::{
    can_own,
    create_outcome,
    is_member_of,
    owner_check,
    transfer_outcome,
};
use crate::store::search::{lemma_first_match_push, lemma_position, lemma_position_agrees, position};
use crate::store::state::{club_with_id, club_with_name, user_with_id, State};
use crate::utils::api_response::{response, ResponseView};
use crate::utils::jwt::ClaimsView;
use crate::utils::text::lowercase;

verus! {

/// A user who is found as a coach is found as a user.
pub proof fn lemma_coach_is_user(s: State, user_id: i32)
    requires
        s.coach(user_id) is Some,
    ensures
        s.user(user_id) is Some,
        s.coach(user_id)->0.user_id == user_id,
        s.coach(user_id)->0.user_type == "C"@,
{
    lemma_position(s.users, user_with_id(user_id, Some("C"@)));
    lemma_position(s.users, user_with_id(user_id, None));
    let at = position(s.users, user_with_id(user_id, Some("C"@)));
    assert(user_with_id(user_id, None)(s.users[at]));
}

/// Once a club is founded, founding another under a name that folds to the
/// same lower case is refused as a conflict and leaves the store as it
/// is, whoever the coach that asks.
pub proof fn club_name_is_taken_once(
    s: State,
    founder: ClaimsView,
    name: Seq<char>,
    caller: ClaimsView,
    other_name: Seq<char>,
)
    requires
        create_outcome(s, founder, name).1 is Ok,
        lowercase(other_name) == lowercase(name),
        create_outcome(s, founder, name).0.coach(caller.user_id) is Some,
    ensures
        create_outcome(create_outcome(s, founder, name).0, caller, other_name) == (
            create_outcome(s, founder, name).0,
            Err::<ResponseView, _>(
                if create_outcome(s, founder, name).0.membership_of(caller.user_id) is Some {
                    response(409, "Users cannot be part of two clubs at once"@)
                } else {
                    response(
                        409,
                        "A club with that name already exists. Please try a different name"@,
                    )
                },
            ),
        ),
{
    let after = create_outcome(s, founder, name).0;
    let added = club::Row {
        club_id: (s.club_ids + 1) as i32,
        name: lowercase(name),
        owner_id: founder.user_id,
    };
    lemma_coach_is_user(s, founder.user_id);
    assert(after.clubs == s.clubs.push(added));
    lemma_first_match_push(s.clubs, added, club_with_name(lowercase(name)));
}

/// A successful handover was to a coach who is a member of the club; the
/// club then has the new owner, and the former owner owns it no longer.
pub proof fn handover_changes_owner(s: State, claim_data: ClaimsView, new_owner_id: i32)
    requires
        transfer_outcome(s, claim_data, new_owner_id).1 is Ok,
    ensures
        s.owned_club(claim_data.user_id) is Some,
        can_own(s, new_owner_id),
        ({
            let club_id = s.owned_club(claim_data.user_id)->0.club_id;
            let after = transfer_outcome(s, claim_data, new_owner_id).0;
            &&& is_member_of(s, new_owner_id, club_id)
            &&& owner_check(s, claim_data.user_id, club_id) == Ok::<_, ResponseView>(true)
            &&& owner_check(after, new_owner_id, club_id) == Ok::<_, ResponseView>(true)
            &&& new_owner_id != claim_data.user_id ==> owner_check(
                after,
                claim_data.user_id,
                club_id,
            ) == Ok::<_, ResponseView>(false)
        }),
{
    let club = s.owned_club(claim_data.user_id)->0;
    let member = s.membership_of(claim_data.user_id)->0;
    let after = transfer_outcome(s, claim_data, new_owner_id).0;
    lemma_position(s.clubs, club_with_id(member.club_id));
    lemma_position(s.clubs, club_with_id(club.club_id));
    let at = position(s.clubs, club_with_id(club.club_id));
    let row = club::Row { owner_id: new_owner_id, ..s.clubs[at] };
    assert(after.clubs == s.clubs.update(at, row));
    assert forall|k: int| 0 <= k < s.clubs.len() implies club_with_id(club.club_id)(
        #[trigger] s.clubs[k],
    ) == club_with_id(club.club_id)(after.clubs[k]) by {}
    lemma_position_agrees(
        s.clubs,
        club_with_id(club.club_id),
        after.clubs,
        club_with_id(club.club_id),
    );
}

/// Handing a club over to someone who is not a coach, or to a coach who is
/// not in the club, is refused and leaves the store as it is.
pub proof fn handover_needs_a_coach_in_the_club(
    s: State,
    claim_data: ClaimsView,
    new_owner_id: i32,
)
    requires
        s.owned_club(claim_data.user_id) is Some,
    ensures
        !can_own(s, new_owner_id) ==> transfer_outcome(s, claim_data, new_owner_id) == (
            s,
            Err::<ResponseView, _>(response(422, "New owner must be a coach"@)),
        ),
        can_own(s, new_owner_id) && !is_member_of(
            s,
            new_owner_id,
            s.owned_club(claim_data.user_id)->0.club_id,
        ) ==> transfer_outcome(s, claim_data, new_owner_id) == (
            s,
            Err::<ResponseView, _>(response(403, "The new owner is not a member of the club"@)),
        ),
{
}

} // verus!
