//! The invitation endpoints as step functions. Each endpoint is a flow: it
//! starts with a request and asks for one action at a time (check the
//! caller, load an invitation, write to the store, answer); the caller
//! performs the action and feeds back what came of it as an event. A failed
//! storage call or authorisation check ends the flow on the caller's side,
//! with that failure.

use vstd::prelude::*;
use vstd::string::*;

use crate::error::InvitationError;
use crate::invitation::{
    invitation_vo_spec, invitation_vos, role_id_spec, is_new_user, new_user, ClockReading, ConsumeRequest, Invitation,
    InvitationVo, NewUser,
};
use crate::paging::{page_offset, page_offset_spec};
use crate::role::{role_of_number, SystemUserRole};

verus! {

/// Which invitations a list covers: those whose code and whose username
/// equal the ones given.
pub struct InvitationFilter {
    pub code: Option<String>,
    pub username: Option<String>,
}

/// The changes that an update writes to the invitation `invitation_id`; a
/// field that is `None` keeps its stored value.
pub struct InvitationUpdate {
    pub invitation_id: i64,
    pub role: Option<SystemUserRole>,
    pub remark: Option<String>,
}

/// One page of the invitation list, and how many invitations the filter
/// covers in all.
pub struct InvitationPage {
    pub total: u64,
    pub record: Vec<InvitationVo>,
}

/// The answer to a consumed invitation: the new user's id and `"SUCCESS"`.
pub struct ConsumeReceipt {
    pub user_id: i64,
    pub result: String,
}

/// What the caller reports after performing an action.
pub enum Event {
    /// The caller is authenticated and not anonymous.
    Authorized,
    /// The invitation that was asked for, if one is stored.
    InvitationLoaded(Option<Invitation>),
    /// How many invitations the filter covers.
    InvitationsCounted(u64),
    /// The invitations of the page that was asked for.
    PageLoaded(Vec<Invitation>),
    /// The clock's reading.
    ClockRead(ClockReading),
    /// The new user was stored under this id.
    UserInserted { user_id: i64 },
    /// The update or delete was written.
    Written,
}

/// What a flow answers with when it is done.
pub enum Reply {
    Done,
    Info(Invitation),
    Page(InvitationPage),
    Consumed(ConsumeReceipt),
}

/// What a flow asks the caller to do next.
pub enum Action {
    /// Refuse an anonymous caller.
    RequireNonAnonymous,
    LoadInvitationByCode(String),
    LoadInvitationById(i64),
    CountInvitations(InvitationFilter),
    LoadPage { filter: InvitationFilter, limit: u64, offset: u64 },
    UpdateInvitation(InvitationUpdate),
    ReadClock,
    InsertUser(NewUser),
    /// Delete the invitation with this id.
    DeleteInvitation { id: i64 },
    /// The flow is done: answer.
    Reply(Reply),
    /// The flow is done: refuse.
    Fail(InvitationError),
}

fn clone_text(text: &Option<String>) -> (copy: Option<String>)
    ensures
        copy == *text,
{
    match text {
        Some(t) => Some(t.clone()),
        None => None,
    }
}

// ---------------------------------------------------------------------------
// list
// ---------------------------------------------------------------------------

/// A request for one page of invitations, optionally only those with the
/// given code and username; pages hold `size` rows and count from 1.
pub struct ListRequest {
    pub code: Option<String>,
    pub username: Option<String>,
    pub size: u64,
    pub current: u64,
}

/// Where a list request stands.
pub enum ListFlow {
    AwaitCount(ListRequest),
    AwaitPage { total: u64 },
    Finished,
}

impl ListFlow {
    /// The events that this flow can take next.
    pub open spec fn accepts_spec(&self, event: &Event) -> bool {
        match (*self, *event) {
            (ListFlow::AwaitCount(_), Event::InvitationsCounted(_)) => true,
            (ListFlow::AwaitPage { .. }, Event::PageLoaded(_)) => true,
            _ => false,
        }
    }

    /// Whether this flow can take `event` next.
    pub fn accepts(&self, event: &Event) -> (b: bool)
        ensures
            b == self.accepts_spec(event),
    {
        match (self, event) {
            (ListFlow::AwaitCount(_), Event::InvitationsCounted(_)) => true,
            (ListFlow::AwaitPage { .. }, Event::PageLoaded(_)) => true,
            _ => false,
        }
    }

    /// Start listing: first count the invitations that the filter covers.
    pub fn start(request: ListRequest) -> (res: (ListFlow, Action))
        ensures
            res.1 == Action::CountInvitations(
                InvitationFilter { code: request.code, username: request.username },
            ),
            res.0 == ListFlow::AwaitCount(request),
    {
        let filter = InvitationFilter {
            code: clone_text(&request.code),
            username: clone_text(&request.username),
        };
        (ListFlow::AwaitCount(request), Action::CountInvitations(filter))
    }
}

/// One step of a list request: `next` and `action` follow `flow` on `event`.
pub open spec fn list_step(flow: ListFlow, event: Event, next: ListFlow, action: Action) -> bool {
    match flow {
        ListFlow::AwaitCount(request) => match event {
            Event::InvitationsCounted(total) => {
                &&& next == ListFlow::AwaitPage { total }
                &&& action == Action::LoadPage {
                    filter: InvitationFilter { code: request.code, username: request.username },
                    limit: request.size,
                    offset: page_offset_spec(request.current as int, request.size as int) as u64,
                }
            },
            _ => false,
        },
        ListFlow::AwaitPage { total } => match event {
            Event::PageLoaded(items) => {
                &&& next == ListFlow::Finished
                &&& action matches Action::Reply(Reply::Page(page))
                &&& page.total == total
                &&& page.record@ == items@.map_values(|inv: Invitation| invitation_vo_spec(inv))
            },
            _ => false,
        },
        ListFlow::Finished => false,
    }
}

/// Lists invitations: after the count, load the page `current` of `size`
/// rows, skipping `(current - 1) * size` rows (both saturating), then answer
/// with the total and the page's rows.
pub fn do_list(flow: ListFlow, event: Event) -> (res: (ListFlow, Action))
    requires
        flow.accepts_spec(&event),
    ensures
        list_step(flow, event, res.0, res.1),
{
    match flow {
        ListFlow::AwaitCount(request) => match event {
            Event::InvitationsCounted(total) => {
                let offset = page_offset(request.current, request.size);
                let filter = InvitationFilter { code: request.code, username: request.username };
                (
                    ListFlow::AwaitPage { total },
                    Action::LoadPage { filter, limit: request.size, offset },
                )
            },
            _ => (ListFlow::Finished, Action::Reply(Reply::Done)),
        },
        ListFlow::AwaitPage { total } => match event {
            Event::PageLoaded(items) => {
                let record = invitation_vos(items);
                (ListFlow::Finished, Action::Reply(Reply::Page(InvitationPage { total, record })))
            },
            _ => (ListFlow::Finished, Action::Reply(Reply::Done)),
        },
        ListFlow::Finished => (ListFlow::Finished, Action::Reply(Reply::Done)),
    }
}

// ---------------------------------------------------------------------------
// update
// ---------------------------------------------------------------------------

/// A request to change the invitation with code `code`: its role to the one
/// numbered `role_id` and its remark to `remark`, each where given.
pub struct UpdateRequest {
    pub code: String,
    pub role_id: Option<i64>,
    pub remark: Option<String>,
}

/// Where an update stands.
pub enum UpdateFlow {
    AwaitInvitation(UpdateRequest),
    AwaitWrite,
    Finished,
}

impl UpdateFlow {
    /// The events that this flow can take next.
    pub open spec fn accepts_spec(&self, event: &Event) -> bool {
        match (*self, *event) {
            (UpdateFlow::AwaitInvitation(_), Event::InvitationLoaded(_)) => true,
            (UpdateFlow::AwaitWrite, Event::Written) => true,
            _ => false,
        }
    }

    /// Whether this flow can take `event` next.
    pub fn accepts(&self, event: &Event) -> (b: bool)
        ensures
            b == self.accepts_spec(event),
    {
        match (self, event) {
            (UpdateFlow::AwaitInvitation(_), Event::InvitationLoaded(_)) => true,
            (UpdateFlow::AwaitWrite, Event::Written) => true,
            _ => false,
        }
    }

    /// Start an update: first load the invitation by its code.
    pub fn start(request: UpdateRequest) -> (res: (UpdateFlow, Action))
        ensures
            res.1 == Action::LoadInvitationByCode(request.code),
            res.0 == UpdateFlow::AwaitInvitation(request),
    {
        let code = request.code.clone();
        (UpdateFlow::AwaitInvitation(request), Action::LoadInvitationByCode(code))
    }
}

/// A role id that is given but numbers no role.
pub open spec fn invalid_role_id(role_id: Option<i64>) -> bool {
    role_id matches Some(id) && role_of_number(id as int) is None
}

/// The role that an update sets: the one numbered by the given role id.
pub open spec fn role_to_set(role_id: Option<i64>) -> Option<SystemUserRole> {
    match role_id {
        Some(id) => role_of_number(id as int),
        None => None,
    }
}

/// One step of an update: `next` and `action` follow `flow` on `event`.
pub open spec fn update_step(
    flow: UpdateFlow,
    event: Event,
    next: UpdateFlow,
    action: Action,
) -> bool {
    match flow {
        UpdateFlow::AwaitInvitation(request) => match event {
            Event::InvitationLoaded(None) => {
                &&& next == UpdateFlow::Finished
                &&& action == Action::Fail(InvitationError::InvitationNotFound)
            },
            Event::InvitationLoaded(Some(invitation)) => if invalid_role_id(request.role_id) {
                &&& next == UpdateFlow::Finished
                &&& action == Action::Fail(InvitationError::InvalidRoleId)
            } else {
                &&& next == UpdateFlow::AwaitWrite
                &&& action == Action::UpdateInvitation(
                    InvitationUpdate {
                        invitation_id: invitation.id,
                        role: role_to_set(request.role_id),
                        remark: request.remark,
                    },
                )
            },
            _ => false,
        },
        UpdateFlow::AwaitWrite => match event {
            Event::Written => next == UpdateFlow::Finished && action == Action::Reply(Reply::Done),
            _ => false,
        },
        UpdateFlow::Finished => false,
    }
}

/// Updates an invitation: refuse when no invitation has the code, then when
/// the role id numbers no role; else write the given role and remark.
pub fn do_update(flow: UpdateFlow, event: Event) -> (res: (UpdateFlow, Action))
    requires
        flow.accepts_spec(&event),
    ensures
        update_step(flow, event, res.0, res.1),
{
    match flow {
        UpdateFlow::AwaitInvitation(request) => match event {
            Event::InvitationLoaded(None) => (
                UpdateFlow::Finished,
                Action::Fail(InvitationError::InvitationNotFound),
            ),
            Event::InvitationLoaded(Some(invitation)) => {
                let role = match request.role_id {
                    Some(id) => match SystemUserRole::from_id(id) {
                        Some(r) => Some(r),
                        None => {
                            return (UpdateFlow::Finished, Action::Fail(InvitationError::InvalidRoleId));
                        },
                    },
                    None => None,
                };
                let update = InvitationUpdate {
                    invitation_id: invitation.id,
                    role,
                    remark: request.remark,
                };
                (UpdateFlow::AwaitWrite, Action::UpdateInvitation(update))
            },
            _ => (UpdateFlow::Finished, Action::Reply(Reply::Done)),
        },
        UpdateFlow::AwaitWrite => (UpdateFlow::Finished, Action::Reply(Reply::Done)),
        UpdateFlow::Finished => (UpdateFlow::Finished, Action::Reply(Reply::Done)),
    }
}

// ---------------------------------------------------------------------------
// info
// ---------------------------------------------------------------------------

/// Where a request for an invitation's details stands.
pub enum InfoFlow {
    AwaitAuthorization { code: String },
    AwaitInvitation,
    Finished,
}

impl InfoFlow {
    /// The events that this flow can take next.
    pub open spec fn accepts_spec(&self, event: &Event) -> bool {
        match (*self, *event) {
            (InfoFlow::AwaitAuthorization { .. }, Event::Authorized) => true,
            (InfoFlow::AwaitInvitation, Event::InvitationLoaded(_)) => true,
            _ => false,
        }
    }

    /// Whether this flow can take `event` next.
    pub fn accepts(&self, event: &Event) -> (b: bool)
        ensures
            b == self.accepts_spec(event),
    {
        match (self, event) {
            (InfoFlow::AwaitAuthorization { .. }, Event::Authorized) => true,
            (InfoFlow::AwaitInvitation, Event::InvitationLoaded(_)) => true,
            _ => false,
        }
    }

    /// Start a request for the invitation with code `code`: first refuse an
    /// anonymous caller.
    pub fn start(code: String) -> (res: (InfoFlow, Action))
        ensures
            res.1 == Action::RequireNonAnonymous,
            res.0 == (InfoFlow::AwaitAuthorization { code }),
    {
        (InfoFlow::AwaitAuthorization { code }, Action::RequireNonAnonymous)
    }
}

/// One step of an info request: `next` and `action` follow `flow` on `event`.
pub open spec fn info_step(flow: InfoFlow, event: Event, next: InfoFlow, action: Action) -> bool {
    match flow {
        InfoFlow::AwaitAuthorization { code } => match event {
            Event::Authorized => {
                &&& next == InfoFlow::AwaitInvitation
                &&& action == Action::LoadInvitationByCode(code)
            },
            _ => false,
        },
        InfoFlow::AwaitInvitation => match event {
            Event::InvitationLoaded(None) => {
                &&& next == InfoFlow::Finished
                &&& action == Action::Fail(InvitationError::InvitationCodeNotFound)
            },
            Event::InvitationLoaded(Some(invitation)) => {
                &&& next == InfoFlow::Finished
                &&& action == Action::Reply(Reply::Info(invitation))
            },
            _ => false,
        },
        InfoFlow::Finished => false,
    }
}

/// Shows an invitation to a signed-in caller: load it by its code, answer
/// with it, or refuse when no invitation has the code.
pub fn do_info(flow: InfoFlow, event: Event) -> (res: (InfoFlow, Action))
    requires
        flow.accepts_spec(&event),
    ensures
        info_step(flow, event, res.0, res.1),
{
    match flow {
        InfoFlow::AwaitAuthorization { code } => (
            InfoFlow::AwaitInvitation,
            Action::LoadInvitationByCode(code),
        ),
        InfoFlow::AwaitInvitation => match event {
            Event::InvitationLoaded(None) => (
                InfoFlow::Finished,
                Action::Fail(InvitationError::InvitationCodeNotFound),
            ),
            Event::InvitationLoaded(Some(invitation)) => (
                InfoFlow::Finished,
                Action::Reply(Reply::Info(invitation)),
            ),
            _ => (InfoFlow::Finished, Action::Reply(Reply::Done)),
        },
        InfoFlow::Finished => (InfoFlow::Finished, Action::Reply(Reply::Done)),
    }
}

// ---------------------------------------------------------------------------
// consume
// ---------------------------------------------------------------------------

/// Where the consumption of an invitation stands.
pub enum ConsumeFlow {
    AwaitAuthorization(ConsumeRequest),
    AwaitInvitation(ConsumeRequest),
    AwaitClock(ConsumeRequest, Invitation),
    AwaitInsert { invitation_id: i64 },
    AwaitDelete { user_id: i64 },
    Finished,
}

impl ConsumeFlow {
    /// The events that this flow can take next.
    pub open spec fn accepts_spec(&self, event: &Event) -> bool {
        match (*self, *event) {
            (ConsumeFlow::AwaitAuthorization(_), Event::Authorized) => true,
            (ConsumeFlow::AwaitInvitation(_), Event::InvitationLoaded(_)) => true,
            (ConsumeFlow::AwaitClock(_, _), Event::ClockRead(_)) => true,
            (ConsumeFlow::AwaitInsert { .. }, Event::UserInserted { .. }) => true,
            (ConsumeFlow::AwaitDelete { .. }, Event::Written) => true,
            _ => false,
        }
    }

    /// Whether this flow can take `event` next.
    pub fn accepts(&self, event: &Event) -> (b: bool)
        ensures
            b == self.accepts_spec(event),
    {
        match (self, event) {
            (ConsumeFlow::AwaitAuthorization(_), Event::Authorized) => true,
            (ConsumeFlow::AwaitInvitation(_), Event::InvitationLoaded(_)) => true,
            (ConsumeFlow::AwaitClock(_, _), Event::ClockRead(_)) => true,
            (ConsumeFlow::AwaitInsert { .. }, Event::UserInserted { .. }) => true,
            (ConsumeFlow::AwaitDelete { .. }, Event::Written) => true,
            _ => false,
        }
    }

    /// Start consuming an invitation: first refuse an anonymous caller.
    pub fn start(request: ConsumeRequest) -> (res: (ConsumeFlow, Action))
        ensures
            res.1 == Action::RequireNonAnonymous,
            res.0 == ConsumeFlow::AwaitAuthorization(request),
    {
        (ConsumeFlow::AwaitAuthorization(request), Action::RequireNonAnonymous)
    }
}

/// One step of consuming an invitation: `next` and `action` follow `flow`
/// on `event`.
pub open spec fn consume_step(
    flow: ConsumeFlow,
    event: Event,
    next: ConsumeFlow,
    action: Action,
) -> bool {
    match flow {
        ConsumeFlow::AwaitAuthorization(request) => match event {
            Event::Authorized => {
                &&& next == ConsumeFlow::AwaitInvitation(request)
                &&& action == Action::LoadInvitationByCode(request.code)
            },
            _ => false,
        },
        ConsumeFlow::AwaitInvitation(request) => match event {
            Event::InvitationLoaded(None) => {
                &&& next == ConsumeFlow::Finished
                &&& action == Action::Fail(InvitationError::InvitationCodeNotFound)
            },
            Event::InvitationLoaded(Some(invitation)) => {
                &&& next == ConsumeFlow::AwaitClock(request, invitation)
                &&& action == Action::ReadClock
            },
            _ => false,
        },
        ConsumeFlow::AwaitClock(request, invitation) => match event {
            Event::ClockRead(now) => {
                &&& next == (ConsumeFlow::AwaitInsert { invitation_id: invitation.id })
                &&& action matches Action::InsertUser(user)
                &&& is_new_user(user, request, invitation, now)
            },
            _ => false,
        },
        ConsumeFlow::AwaitInsert { invitation_id } => match event {
            Event::UserInserted { user_id } => {
                &&& next == (ConsumeFlow::AwaitDelete { user_id })
                &&& action == (Action::DeleteInvitation { id: invitation_id })
            },
            _ => false,
        },
        ConsumeFlow::AwaitDelete { user_id } => match event {
            Event::Written => {
                &&& next == ConsumeFlow::Finished
                &&& action matches Action::Reply(Reply::Consumed(receipt))
                &&& receipt.user_id == user_id
                &&& receipt.result@ == "SUCCESS"@
            },
            _ => false,
        },
        ConsumeFlow::Finished => false,
    }
}

/// Consumes an invitation for a signed-in caller: load it by its code
/// (refuse when none has it), read the clock, create the invited user with
/// the invitation's role, then delete the invitation, and answer with the
/// new user's id.
pub fn do_consume(flow: ConsumeFlow, event: Event) -> (res: (ConsumeFlow, Action))
    requires
        flow.accepts_spec(&event),
    ensures
        consume_step(flow, event, res.0, res.1),
{
    match flow {
        ConsumeFlow::AwaitAuthorization(request) => {
            let code = request.code.clone();
            (ConsumeFlow::AwaitInvitation(request), Action::LoadInvitationByCode(code))
        },
        ConsumeFlow::AwaitInvitation(request) => match event {
            Event::InvitationLoaded(None) => (
                ConsumeFlow::Finished,
                Action::Fail(InvitationError::InvitationCodeNotFound),
            ),
            Event::InvitationLoaded(Some(invitation)) => (
                ConsumeFlow::AwaitClock(request, invitation),
                Action::ReadClock,
            ),
            _ => (ConsumeFlow::Finished, Action::Reply(Reply::Done)),
        },
        ConsumeFlow::AwaitClock(request, invitation) => match event {
            Event::ClockRead(now) => {
                let invitation_id = invitation.id;
                let user = new_user(request, invitation, now);
                (ConsumeFlow::AwaitInsert { invitation_id }, Action::InsertUser(user))
            },
            _ => (ConsumeFlow::Finished, Action::Reply(Reply::Done)),
        },
        ConsumeFlow::AwaitInsert { invitation_id } => match event {
            Event::UserInserted { user_id } => (
                ConsumeFlow::AwaitDelete { user_id },
                Action::DeleteInvitation { id: invitation_id },
            ),
            _ => (ConsumeFlow::Finished, Action::Reply(Reply::Done)),
        },
        ConsumeFlow::AwaitDelete { user_id } => {
            let receipt = ConsumeReceipt { user_id, result: String::from_str("SUCCESS") };
            (ConsumeFlow::Finished, Action::Reply(Reply::Consumed(receipt)))
        },
        ConsumeFlow::Finished => (ConsumeFlow::Finished, Action::Reply(Reply::Done)),
    }
}

// ---------------------------------------------------------------------------
// delete
// ---------------------------------------------------------------------------

/// Where the deletion of an invitation stands.
pub enum DeleteFlow {
    AwaitInvitation,
    AwaitWrite,
    Finished,
}

impl DeleteFlow {
    /// The events that this flow can take next.
    pub open spec fn accepts_spec(&self, event: &Event) -> bool {
        match (*self, *event) {
            (DeleteFlow::AwaitInvitation, Event::InvitationLoaded(_)) => true,
            (DeleteFlow::AwaitWrite, Event::Written) => true,
            _ => false,
        }
    }

    /// Whether this flow can take `event` next.
    pub fn accepts(&self, event: &Event) -> (b: bool)
        ensures
            b == self.accepts_spec(event),
    {
        match (self, event) {
            (DeleteFlow::AwaitInvitation, Event::InvitationLoaded(_)) => true,
            (DeleteFlow::AwaitWrite, Event::Written) => true,
            _ => false,
        }
    }

    /// Start deleting the invitation with id `id`: first load it.
    pub fn start(id: i64) -> (res: (DeleteFlow, Action))
        ensures
            res.1 == Action::LoadInvitationById(id),
            res.0 == DeleteFlow::AwaitInvitation,
    {
        (DeleteFlow::AwaitInvitation, Action::LoadInvitationById(id))
    }
}

/// One step of a deletion: `next` and `action` follow `flow` on `event`.
pub open spec fn delete_step(flow: DeleteFlow, event: Event, next: DeleteFlow, action: Action) -> bool {
    match flow {
        DeleteFlow::AwaitInvitation => match event {
            Event::InvitationLoaded(None) => {
                &&& next == DeleteFlow::Finished
                &&& action == Action::Fail(InvitationError::InvitationNotFound)
            },
            Event::InvitationLoaded(Some(invitation)) => {
                &&& next == DeleteFlow::AwaitWrite
                &&& action == (Action::DeleteInvitation { id: invitation.id })
            },
            _ => false,
        },
        DeleteFlow::AwaitWrite => match event {
            Event::Written => next == DeleteFlow::Finished && action == Action::Reply(Reply::Done),
            _ => false,
        },
        DeleteFlow::Finished => false,
    }
}

/// Deletes an invitation: load it by id, delete it, or refuse when no
/// invitation has the id.
pub fn do_delete(flow: DeleteFlow, event: Event) -> (res: (DeleteFlow, Action))
    requires
        flow.accepts_spec(&event),
    ensures
        delete_step(flow, event, res.0, res.1),
{
    match flow {
        DeleteFlow::AwaitInvitation => match event {
            Event::InvitationLoaded(None) => (
                DeleteFlow::Finished,
                Action::Fail(InvitationError::InvitationNotFound),
            ),
            Event::InvitationLoaded(Some(invitation)) => (
                DeleteFlow::AwaitWrite,
                Action::DeleteInvitation { id: invitation.id },
            ),
            _ => (DeleteFlow::Finished, Action::Reply(Reply::Done)),
        },
        DeleteFlow::AwaitWrite => (DeleteFlow::Finished, Action::Reply(Reply::Done)),
        DeleteFlow::Finished => (DeleteFlow::Finished, Action::Reply(Reply::Done)),
    }
}

// ---------------------------------------------------------------------------
// laws
// ---------------------------------------------------------------------------

/// An action that ends a flow: an answer or a refusal.
pub open spec fn is_final(action: Action) -> bool {
    action is Reply || action is Fail
}

/// Every flow ends with its answer or refusal: a step that answers or
/// refuses leaves the flow finished, and a finished flow takes no further
/// event, so nothing is loaded or written after it.
pub proof fn law_flows_end_with_answer(
    list: (ListFlow, Event, ListFlow, Action),
    update: (UpdateFlow, Event, UpdateFlow, Action),
    info: (InfoFlow, Event, InfoFlow, Action),
    consume: (ConsumeFlow, Event, ConsumeFlow, Action),
    delete: (DeleteFlow, Event, DeleteFlow, Action),
    event: Event,
)
    ensures
        list_step(list.0, list.1, list.2, list.3) && is_final(list.3) ==> list.2 == ListFlow::Finished,
        update_step(update.0, update.1, update.2, update.3) && is_final(update.3) ==> update.2
            == UpdateFlow::Finished,
        info_step(info.0, info.1, info.2, info.3) && is_final(info.3) ==> info.2
            == InfoFlow::Finished,
        consume_step(consume.0, consume.1, consume.2, consume.3) && is_final(consume.3)
            ==> consume.2 == ConsumeFlow::Finished,
        delete_step(delete.0, delete.1, delete.2, delete.3) && is_final(delete.3) ==> delete.2
            == DeleteFlow::Finished,
        !ListFlow::Finished.accepts_spec(&event),
        !UpdateFlow::Finished.accepts_spec(&event),
        !InfoFlow::Finished.accepts_spec(&event),
        !ConsumeFlow::Finished.accepts_spec(&event),
        !DeleteFlow::Finished.accepts_spec(&event),
{
}

/// Consuming an invitation, from a signed-in caller to the answer: the
/// invitation is looked up by the request's code; the user created carries
/// the chosen username and password, the given nickname, the invitation's
/// role (`MapUser` where it has none) and its access policy, is created at
/// the clock's reading and has no other field set; the invitation
/// is deleted only after the user is stored; the answer is the new user's
/// id with `"SUCCESS"`.
pub proof fn law_consume_creates_user_then_deletes_invitation(
    request: ConsumeRequest,
    invitation: Invitation,
    now: ClockReading,
    user_id: i64,
    steps: Seq<(ConsumeFlow, Action)>,
)
    requires
        steps.len() == 6,
        steps[0] == (ConsumeFlow::AwaitAuthorization(request), Action::RequireNonAnonymous),
        consume_step(steps[0].0, Event::Authorized, steps[1].0, steps[1].1),
        consume_step(steps[1].0, Event::InvitationLoaded(Some(invitation)), steps[2].0, steps[2].1),
        consume_step(steps[2].0, Event::ClockRead(now), steps[3].0, steps[3].1),
        consume_step(steps[3].0, Event::UserInserted { user_id }, steps[4].0, steps[4].1),
        consume_step(steps[4].0, Event::Written, steps[5].0, steps[5].1),
    ensures
        steps[1].1 == Action::LoadInvitationByCode(request.code),
        steps[2].1 == Action::ReadClock,
        steps[3].1 matches Action::InsertUser(user) && is_new_user(
            user,
            request,
            invitation,
            now,
        ),
        steps[4].1 == (Action::DeleteInvitation { id: invitation.id }),
        steps[5].1 matches Action::Reply(Reply::Consumed(receipt)) && receipt.user_id == user_id
            && receipt.result@ == "SUCCESS"@,
        steps[5].0 == ConsumeFlow::Finished,
{
}

/// An update and the list agree on role numbers: the role that an update
/// with a valid role id writes is listed under that same id, and an update
/// whose role id numbers no role writes nothing and is refused.
pub proof fn law_update_role_is_listed_under_its_id(
    request: UpdateRequest,
    invitation: Invitation,
    next: UpdateFlow,
    action: Action,
)
    requires
        update_step(
            UpdateFlow::AwaitInvitation(request),
            Event::InvitationLoaded(Some(invitation)),
            next,
            action,
        ),
    ensures
        invalid_role_id(request.role_id) ==> (action == Action::Fail(
            InvitationError::InvalidRoleId,
        ) && next == UpdateFlow::Finished),
        !invalid_role_id(request.role_id) ==> (action matches Action::UpdateInvitation(update)
            && update.invitation_id == invitation.id && (request.role_id is Some
            ==> role_id_spec(update.role) == request.role_id)),
{
    if let Some(id) = request.role_id {
        crate::role::lemma_role_of_number_inverse(id as int);
    }
}

} // verus!
