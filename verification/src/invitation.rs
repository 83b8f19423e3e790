//! Invitations, the rows that they become on the wire, and the user that
//! consuming one creates.

use vstd::prelude::*;
use vstd::string::*;

use crate::decimal::{decimal, decimal_string};
use crate::role::{role_number, SystemUserRole};

verus! {

/// A JSON document as stored in a json column (the access policy of an
/// invitation). The library only carries it from one record to another.
#[verifier::external_type_specification]
#[verifier::external_body]
pub struct ExJsonValue(serde_json::Value);

/// An invitation as stored. Times are milliseconds since the Unix epoch, UTC.
pub struct Invitation {
    pub id: i64,
    pub create_time_millis: i64,
    pub update_time_millis: Option<i64>,
    pub code: String,
    pub username: String,
    pub role: Option<SystemUserRole>,
    pub remark: Option<String>,
    pub access_policy: Option<serde_json::Value>,
}

/// An invitation as a list row shows it: the role as its number.
pub struct InvitationVo {
    pub id: i64,
    pub create_time_millis: i64,
    pub update_time_millis: Option<i64>,
    pub code: String,
    pub username: String,
    pub role_id: Option<i64>,
    pub remark: Option<String>,
    pub access_policy: Option<serde_json::Value>,
}

/// The number of an optional role.
pub open spec fn role_id_spec(role: Option<SystemUserRole>) -> Option<i64> {
    match role {
        Some(r) => Some(role_number(r) as i64),
        None => None,
    }
}

/// The list row of `invitation`: every field as stored, the role as its number.
pub open spec fn invitation_vo_spec(invitation: Invitation) -> InvitationVo {
    InvitationVo {
        id: invitation.id,
        create_time_millis: invitation.create_time_millis,
        update_time_millis: invitation.update_time_millis,
        code: invitation.code,
        username: invitation.username,
        role_id: role_id_spec(invitation.role),
        remark: invitation.remark,
        access_policy: invitation.access_policy,
    }
}

/// The list row of `invitation`.
pub fn invitation_vo(invitation: Invitation) -> (vo: InvitationVo)
    ensures
        vo == invitation_vo_spec(invitation),
{
    let role_id = match invitation.role {
        Some(r) => Some(r.id()),
        None => None,
    };
    InvitationVo {
        id: invitation.id,
        create_time_millis: invitation.create_time_millis,
        update_time_millis: invitation.update_time_millis,
        code: invitation.code,
        username: invitation.username,
        role_id,
        remark: invitation.remark,
        access_policy: invitation.access_policy,
    }
}

/// The list rows of `invitations`, in the same order.
pub fn invitation_vos(invitations: Vec<Invitation>) -> (vos: Vec<InvitationVo>)
    ensures
        vos@ == invitations@.map_values(|inv: Invitation| invitation_vo_spec(inv)),
{
    let ghost source = invitations@;
    let mut rest = invitations;
    let mut vos: Vec<InvitationVo> = Vec::new();
    while rest.len() > 0
        invariant
            vos@.len() + rest@.len() == source.len(),
            rest@ == source.subrange(vos@.len() as int, source.len() as int),
            forall|i: int|
                0 <= i < vos@.len() ==> #[trigger] vos@[i] == invitation_vo_spec(source[i]),
        decreases rest@.len(),
    {
        let invitation = rest.remove(0);
        vos.push(invitation_vo(invitation));
    }
    assert(vos@ =~= source.map_values(|inv: Invitation| invitation_vo_spec(inv)));
    vos
}

/// The request to consume an invitation: its code and what the new user
/// chose; a missing or empty username or password is replaced.
pub struct ConsumeRequest {
    pub code: String,
    pub username: Option<String>,
    pub password: Option<String>,
    pub nickname: Option<String>,
}

/// A reading of the clock in UTC: whole seconds since the Unix epoch
/// (rounded down) and the nanoseconds past that second.
#[derive(PartialEq, Eq, Structural, Clone, Copy, Debug)]
pub struct ClockReading {
    pub unix_secs: i64,
    pub subsec_nanos: u32,
}

/// The user that consuming an invitation creates. `password` is in clear,
/// to be hashed for storage; `access_policy` is the invitation's stored
/// policy, to be read as an access-policy list (a document that does not
/// read as one leaves the user without a policy). The store assigns the id.
pub struct NewUser {
    pub version: i64,
    pub create_time: ClockReading,
    pub update_time: Option<ClockReading>,
    pub creator_id: Option<i64>,
    pub updater_id: Option<i64>,
    pub del_flag: bool,
    pub username: String,
    pub password: String,
    pub nickname: Option<String>,
    pub qq: Option<String>,
    pub phone: Option<String>,
    pub logo: Option<String>,
    pub role: SystemUserRole,
    pub access_policy: Option<serde_json::Value>,
    pub remark: Option<String>,
}

/// `text` is given and not empty.
pub open spec fn given(text: Option<String>) -> bool {
    text is Some && text->0@.len() > 0
}

/// The username of the new user: the one given, else the invitation code.
pub open spec fn chosen_username(request: ConsumeRequest) -> Seq<char> {
    if given(request.username) {
        request.username->0@
    } else {
        request.code@
    }
}

/// The password of the new user: the one given, else the invitation code, an
/// underscore and the decimal Unix seconds of the moment of consumption.
pub open spec fn chosen_password(request: ConsumeRequest, unix_secs: int) -> Seq<char> {
    if given(request.password) {
        request.password->0@
    } else {
        request.code@ + "_"@ + decimal(unix_secs)
    }
}

/// The role of the new user: the invitation's, else `MapUser`.
pub open spec fn granted_role(invitation: Invitation) -> SystemUserRole {
    match invitation.role {
        Some(r) => r,
        None => SystemUserRole::MapUser,
    }
}

/// `user` is the user that consuming `invitation` with `request` creates
/// when the clock reads `now`: created at `now`, never updated, with no
/// creator, updater, qq, phone, logo or remark.
pub open spec fn is_new_user(
    user: NewUser,
    request: ConsumeRequest,
    invitation: Invitation,
    now: ClockReading,
) -> bool {
    &&& user.version == 0
    &&& user.create_time == now
    &&& user.update_time is None
    &&& user.creator_id is None
    &&& user.updater_id is None
    &&& !user.del_flag
    &&& user.username@ == chosen_username(request)
    &&& user.password@ == chosen_password(request, now.unix_secs as int)
    &&& user.nickname == request.nickname
    &&& user.qq is None
    &&& user.phone is None
    &&& user.logo is None
    &&& user.role == granted_role(invitation)
    &&& user.access_policy == invitation.access_policy
    &&& user.remark is None
}

fn is_given(text: &Option<String>) -> (b: bool)
    ensures
        b == given(*text),
{
    match text {
        Some(t) => !t.as_str().is_empty(),
        None => false,
    }
}

/// The user that consuming `invitation` with `request` creates when the
/// clock reads `now`.
pub fn new_user(request: ConsumeRequest, invitation: Invitation, now: ClockReading) -> (user: NewUser)
    ensures
        is_new_user(user, request, invitation, now),
{
    let ghost req = request;
    let username_given = is_given(&request.username);
    let password_given = is_given(&request.password);
    let ConsumeRequest { code, username, password, nickname } = request;
    let username = if username_given {
        match username {
            Some(u) => u,
            None => code.clone(),
        }
    } else {
        code.clone()
    };
    let password = if password_given {
        match password {
            Some(p) => p,
            None => code,
        }
    } else {
        let secs = decimal_string(now.unix_secs);
        code.concat("_").concat(secs.as_str())
    };
    let role = match invitation.role {
        Some(r) => r,
        None => SystemUserRole::MapUser,
    };
    NewUser {
        version: 0,
        create_time: now,
        update_time: None,
        creator_id: None,
        updater_id: None,
        del_flag: false,
        username,
        password,
        nickname,
        qq: None,
        phone: None,
        logo: None,
        role,
        access_policy: invitation.access_policy,
        remark: None,
    }
}

} // verus!
