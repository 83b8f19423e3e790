//! Laws of the invitation and score endpoints, stated over the inputs and
//! results of the operations in plain terms: fields, literal numbers and
//! characters, rather than through the spec functions that define them.

use vstd::prelude::*;

use crate::decimal::{decimal, decimal_digits, digit_char};
use crate::error::{error_message, InvitationError};
use crate::invitation::{invitation_vo_spec, is_new_user, ClockReading, ConsumeRequest, Invitation, NewUser};
use crate::invitation_flow::{
    consume_step, delete_step, info_step, list_step, update_step, Action, ConsumeFlow, DeleteFlow,
    Event, InfoFlow, InvitationUpdate, ListFlow, Reply, UpdateFlow, UpdateRequest,
};
use crate::paging::page_offset_spec;
use crate::role::{role_number, role_of_number, SystemUserRole};
use crate::score::{window_end, window_start, TimeBound};

verus! {

// ---------------------------------------------------------------------------
// role numbers
// ---------------------------------------------------------------------------

/// Roles are numbered 0 `Admin`, 1 `MapNeigui`, 2 `MapManager`,
/// 3 `MapPunctuate`, 4 `MapUser`, 5 `Visitor`; no other number is a role,
/// and each role's number reads back as that role.
pub proof fn law_role_numbering(n: int, role: SystemUserRole)
    ensures
        role_of_number(0) == Some(SystemUserRole::Admin),
        role_of_number(1) == Some(SystemUserRole::MapNeigui),
        role_of_number(2) == Some(SystemUserRole::MapManager),
        role_of_number(3) == Some(SystemUserRole::MapPunctuate),
        role_of_number(4) == Some(SystemUserRole::MapUser),
        role_of_number(5) == Some(SystemUserRole::Visitor),
        !(0 <= n <= 5) ==> role_of_number(n) is None,
        role_of_number(role_number(role)) == Some(role),
        0 <= role_number(role) <= 5,
{
}

// ---------------------------------------------------------------------------
// list rows
// ---------------------------------------------------------------------------

/// A list row shows the stored invitation: every field as stored, and its
/// role as the number that reads back as that role under the numbering that
/// updates use (no number when the invitation has no role).
pub proof fn law_list_row_shows_invitation(invitation: Invitation)
    ensures
        invitation_vo_spec(invitation).id == invitation.id,
        invitation_vo_spec(invitation).create_time_millis == invitation.create_time_millis,
        invitation_vo_spec(invitation).update_time_millis == invitation.update_time_millis,
        invitation_vo_spec(invitation).code == invitation.code,
        invitation_vo_spec(invitation).username == invitation.username,
        invitation_vo_spec(invitation).remark == invitation.remark,
        invitation_vo_spec(invitation).access_policy == invitation.access_policy,
        invitation.role is None <==> invitation_vo_spec(invitation).role_id is None,
        invitation_vo_spec(invitation).role_id matches Some(n) ==> role_of_number(n as int)
            == invitation.role,
{
}

/// A listed page holds one row per loaded invitation, in the loaded order,
/// each showing its invitation, with the total that was counted.
pub proof fn law_list_page_shows_loaded_invitations(
    total: u64,
    items: Vec<Invitation>,
    next: ListFlow,
    action: Action,
    i: int,
)
    requires
        list_step(ListFlow::AwaitPage { total }, Event::PageLoaded(items), next, action),
        0 <= i < items@.len(),
    ensures
        next == ListFlow::Finished,
        action matches Action::Reply(Reply::Page(page)) && page.total == total
            && page.record@.len() == items@.len() && page.record@[i].id == items@[i].id
            && page.record@[i].code == items@[i].code && (items@[i].role is None
            <==> page.record@[i].role_id is None) && (page.record@[i].role_id matches Some(n)
            ==> role_of_number(n as int) == items@[i].role),
{
}

/// After the count, a list loads `size` rows after `(current - 1) * size`
/// rows (none before page 1, and at most `u64::MAX`), with the request's
/// filter.
pub proof fn law_list_loads_the_requested_page(
    code: Option<String>,
    username: Option<String>,
    size: u64,
    current: u64,
    total: u64,
    next: ListFlow,
    action: Action,
)
    requires
        list_step(
            ListFlow::AwaitCount(
                crate::invitation_flow::ListRequest { code, username, size, current },
            ),
            Event::InvitationsCounted(total),
            next,
            action,
        ),
    ensures
        next == (ListFlow::AwaitPage { total }),
        action matches Action::LoadPage { filter, limit, offset } && filter.code == code
            && filter.username == username && limit == size && (current <= 1 ==> offset == 0)
            && (current >= 1 && (current - 1) * size <= u64::MAX ==> offset == (current - 1)
            * size) && (current >= 1 && (current - 1) * size > u64::MAX ==> offset
            == u64::MAX),
{
}

// ---------------------------------------------------------------------------
// update
// ---------------------------------------------------------------------------

/// An update of a stored invitation with role id `id` writes the role that
/// `id` numbers, with the given remark, exactly when `id` is one of 0 to 5,
/// and is refused as an invalid role id otherwise; without a role id it
/// writes only the remark. An update of no stored invitation is refused as
/// not found, whatever its role id.
pub proof fn law_update_role_ids(
    request: UpdateRequest,
    invitation: Invitation,
    next: UpdateFlow,
    action: Action,
    missing_next: UpdateFlow,
    missing_action: Action,
)
    requires
        update_step(
            UpdateFlow::AwaitInvitation(request),
            Event::InvitationLoaded(Some(invitation)),
            next,
            action,
        ),
        update_step(
            UpdateFlow::AwaitInvitation(request),
            Event::InvitationLoaded(None),
            missing_next,
            missing_action,
        ),
    ensures
        request.role_id is Some && 0 <= request.role_id->0 <= 5 ==> (next
            == UpdateFlow::AwaitWrite && role_of_number(request.role_id->0 as int) is Some
            && action == Action::UpdateInvitation(
            InvitationUpdate {
                invitation_id: invitation.id,
                role: role_of_number(request.role_id->0 as int),
                remark: request.remark,
            },
        )),
        request.role_id is Some && !(0 <= request.role_id->0 <= 5) ==> (next == UpdateFlow::Finished
            && action == Action::Fail(InvitationError::InvalidRoleId)),
        request.role_id is None ==> (next == UpdateFlow::AwaitWrite && action
            == Action::UpdateInvitation(
            InvitationUpdate { invitation_id: invitation.id, role: None, remark: request.remark },
        )),
        missing_next == UpdateFlow::Finished,
        missing_action == Action::Fail(InvitationError::InvitationNotFound),
{
}

// ---------------------------------------------------------------------------
// consume
// ---------------------------------------------------------------------------

/// The user that consuming an invitation creates: the password is the one
/// given when it is present and not empty, whatever the username, else the
/// code, `_` and the decimal Unix seconds of the clock reading; the username
/// is the one given when present and not empty, else the code; the role is
/// the invitation's whenever it has one, else `MapUser`; it is created at
/// the reading, with version 0, not deleted, the given nickname, the
/// invitation's access policy and no other field set.
pub proof fn law_new_user(
    user: NewUser,
    request: ConsumeRequest,
    invitation: Invitation,
    now: ClockReading,
)
    requires
        is_new_user(user, request, invitation, now),
    ensures
        request.password is Some && request.password->0@.len() > 0 ==> user.password@
            == request.password->0@,
        !(request.password is Some && request.password->0@.len() > 0) ==> user.password@ == request.code@
            + seq!['_'] + decimal(now.unix_secs as int),
        request.username is Some && request.username->0@.len() > 0 ==> user.username@
            == request.username->0@,
        !(request.username is Some && request.username->0@.len() > 0) ==> user.username@
            == request.code@,
        invitation.role matches Some(r) ==> user.role == r,
        invitation.role is None ==> user.role == SystemUserRole::MapUser,
        user.create_time == now,
        user.update_time is None,
        user.version == 0,
        !user.del_flag,
        user.nickname == request.nickname,
        user.access_policy == invitation.access_policy,
        user.creator_id is None && user.updater_id is None,
        user.qq is None && user.phone is None && user.logo is None && user.remark is None,
{
    reveal_strlit("_");
}

// ---------------------------------------------------------------------------
// lookups and refusals
// ---------------------------------------------------------------------------

/// Looking an invitation up: details and consumption refuse an unknown code
/// with "Invitation code not found"; deletion refuses an unknown id with
/// "Invitation not found". A found invitation is answered with itself
/// (details), taken on to the clock (consumption) or deleted by its own id
/// (deletion), and a written deletion is answered with done.
pub proof fn law_lookups_and_refusals(
    request: ConsumeRequest,
    invitation: Invitation,
    steps: Seq<(InfoFlow, Action, ConsumeFlow, Action, DeleteFlow, Action)>,
)
    requires
        steps.len() == 3,
        info_step(InfoFlow::AwaitInvitation, Event::InvitationLoaded(None), steps[0].0, steps[0].1),
        info_step(
            InfoFlow::AwaitInvitation,
            Event::InvitationLoaded(Some(invitation)),
            steps[1].0,
            steps[1].1,
        ),
        consume_step(
            ConsumeFlow::AwaitInvitation(request),
            Event::InvitationLoaded(None),
            steps[0].2,
            steps[0].3,
        ),
        consume_step(
            ConsumeFlow::AwaitInvitation(request),
            Event::InvitationLoaded(Some(invitation)),
            steps[1].2,
            steps[1].3,
        ),
        delete_step(
            DeleteFlow::AwaitInvitation,
            Event::InvitationLoaded(None),
            steps[0].4,
            steps[0].5,
        ),
        delete_step(
            DeleteFlow::AwaitInvitation,
            Event::InvitationLoaded(Some(invitation)),
            steps[1].4,
            steps[1].5,
        ),
        delete_step(DeleteFlow::AwaitWrite, Event::Written, steps[2].4, steps[2].5),
    ensures
        steps[0].1 == Action::Fail(InvitationError::InvitationCodeNotFound),
        steps[0].3 == Action::Fail(InvitationError::InvitationCodeNotFound),
        steps[0].5 == Action::Fail(InvitationError::InvitationNotFound),
        steps[1].1 == Action::Reply(Reply::Info(invitation)),
        steps[1].3 == Action::ReadClock && steps[1].2 == ConsumeFlow::AwaitClock(
            request,
            invitation,
        ),
        steps[1].5 == (Action::DeleteInvitation { id: invitation.id }),
        steps[2].5 == Action::Reply(Reply::Done),
        error_message(InvitationError::InvitationCodeNotFound) =~= seq![
            'I', 'n', 'v', 'i', 't', 'a', 't', 'i', 'o', 'n', ' ', 'c', 'o', 'd', 'e', ' ',
            'n', 'o', 't', ' ', 'f', 'o', 'u', 'n', 'd',
        ],
        error_message(InvitationError::InvitationNotFound) =~= seq![
            'I', 'n', 'v', 'i', 't', 'a', 't', 'i', 'o', 'n', ' ', 'n', 'o', 't', ' ', 'f',
            'o', 'u', 'n', 'd',
        ],
        error_message(InvitationError::InvalidRoleId) =~= seq![
            'I', 'n', 'v', 'a', 'l', 'i', 'd', ' ', 'r', 'o', 'l', 'e', ' ', 'i', 'd',
        ],
{
    reveal_strlit("Invitation code not found");
    reveal_strlit("Invitation not found");
    reveal_strlit("Invalid role id");
}

// ---------------------------------------------------------------------------
// decimal text
// ---------------------------------------------------------------------------

/// The value of a decimal digit character, `-1` for any other character.
pub open spec fn digit_value(c: char) -> int {
    if c == '0' {
        0
    } else if c == '1' {
        1
    } else if c == '2' {
        2
    } else if c == '3' {
        3
    } else if c == '4' {
        4
    } else if c == '5' {
        5
    } else if c == '6' {
        6
    } else if c == '7' {
        7
    } else if c == '8' {
        8
    } else if c == '9' {
        9
    } else {
        -1
    }
}

/// The number that a string of decimal digits reads as.
pub open spec fn digits_value(s: Seq<char>) -> int
    decreases s.len(),
{
    if s.len() == 0 {
        0
    } else {
        digits_value(s.drop_last()) * 10 + digit_value(s.last())
    }
}

/// Every character of `s` is a decimal digit.
pub open spec fn all_digits(s: Seq<char>) -> bool {
    forall|i: int| 0 <= i < s.len() ==> 0 <= #[trigger] digit_value(s[i]) <= 9
}

proof fn lemma_digits_read_back(n: nat)
    ensures
        decimal_digits(n).len() > 0,
        all_digits(decimal_digits(n)),
        digits_value(decimal_digits(n)) == n,
        n > 0 ==> decimal_digits(n)[0] != '0',
    decreases n,
{
    if n >= 10 {
        lemma_digits_read_back(n / 10);
        let prefix = decimal_digits(n / 10);
        let s = decimal_digits(n);
        assert(s == prefix.push(digit_char((n % 10) as int)));
        assert(s.drop_last() =~= prefix);
        assert(digit_value(digit_char((n % 10) as int)) == n % 10);
        assert forall|i: int| 0 <= i < s.len() implies 0 <= #[trigger] digit_value(s[i]) <= 9 by {
            if i < prefix.len() {
                assert(s[i] == prefix[i]);
            }
        }
        assert(s[0] == prefix[0]);
        assert(s.last() == digit_char((n % 10) as int));
        assert(digits_value(s) == digits_value(prefix) * 10 + digit_value(s.last()));
        assert((n / 10) * 10 + n % 10 == n);
    } else {
        let s = decimal_digits(n);
        assert(s.drop_last() =~= Seq::<char>::empty());
        assert(digits_value(s.drop_last()) == 0);
        assert(s.last() == digit_char(n as int));
        assert(digit_value(digit_char(n as int)) == n);
        assert(digits_value(s) == digits_value(s.drop_last()) * 10 + digit_value(s.last()));
    }
}

/// The decimal text of a number reads back as that number: a non-negative
/// number is written as digits only, without a leading zero (other than for
/// 0 itself); a negative one as `-` followed by the digits of its magnitude.
pub proof fn law_decimal_reads_back(n: int)
    ensures
        n >= 0 ==> all_digits(decimal(n)) && digits_value(decimal(n)) == n && decimal(n).len()
            > 0 && (n > 0 ==> decimal(n)[0] != '0'),
        n < 0 ==> decimal(n).len() > 1 && decimal(n)[0] == '-' && all_digits(
            decimal(n).drop_first(),
        ) && digits_value(decimal(n).drop_first()) == -n && decimal(n)[1] != '0',
{
    if n >= 0 {
        lemma_digits_read_back(n as nat);
    } else {
        lemma_digits_read_back((-n) as nat);
        assert(decimal(n).drop_first() =~= decimal_digits((-n) as nat));
    }
}

// ---------------------------------------------------------------------------
// score window
// ---------------------------------------------------------------------------

/// The score window keeps every requested instant that a date-time can hold
/// (from -8334601228800000 to 8210266876799999 milliseconds since the Unix
/// epoch), whatever its value within that range; outside it the start falls
/// back to the earliest instant and the end to the moment the query runs.
pub proof fn law_score_window(start_time: int, end_time: int)
    ensures
        -8334601228800000 <= start_time <= 8210266876799999 ==> window_start(start_time)
            == TimeBound::AtMillis(start_time as i64),
        !(-8334601228800000 <= start_time <= 8210266876799999) ==> window_start(start_time)
            == TimeBound::Earliest,
        -8334601228800000 <= end_time <= 8210266876799999 ==> window_end(end_time)
            == TimeBound::AtMillis(end_time as i64),
        !(-8334601228800000 <= end_time <= 8210266876799999) ==> window_end(end_time)
            == TimeBound::Now,
{
}

/// Page offsets in plain numbers: no row is skipped before page 1 (or the
/// page numbered 0); page `current` skips `(current - 1) * size` rows, or
/// `u64::MAX` where that does not fit.
pub proof fn law_page_offset_value(current: int, size: int)
    requires
        0 <= current <= u64::MAX,
        0 <= size <= u64::MAX,
    ensures
        current <= 1 ==> page_offset_spec(current, size) == 0,
        current >= 1 && (current - 1) * size <= u64::MAX ==> page_offset_spec(current, size)
            == (current - 1) * size,
        current >= 1 && (current - 1) * size > u64::MAX ==> page_offset_spec(current, size)
            == u64::MAX,
{
    if current <= 1 {
        assert(0 * size == 0);
    }
}

} // verus!
