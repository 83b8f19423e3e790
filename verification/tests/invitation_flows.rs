use genshin_map_functions::error::InvitationError;
use genshin_map_functions::invitation::{
    invitation_vo, invitation_vos, new_user, ClockReading, ConsumeRequest, Invitation,
};
use genshin_map_functions::invitation_flow::{
    do_consume, do_delete, do_info, do_list, do_update, Action, ConsumeFlow, DeleteFlow, Event,
    InfoFlow, ListFlow, ListRequest, Reply, UpdateFlow, UpdateRequest,
};
use genshin_map_functions::role::SystemUserRole;

fn invitation(id: i64, code: &str, role: Option<SystemUserRole>) -> Invitation {
    Invitation {
        id,
        create_time_millis: 1700000000123,
        update_time_millis: None,
        code: code.to_string(),
        username: "traveler".to_string(),
        role,
        remark: Some("from the tavern".to_string()),
        access_policy: Some(policy()),
    }
}

fn policy() -> serde_json::Value {
    serde_json::Value::Array(vec![serde_json::Value::String("ip:same_last_ip".to_string())])
}

fn consume_request(username: Option<&str>, password: Option<&str>) -> ConsumeRequest {
    ConsumeRequest {
        code: "INV42".to_string(),
        username: username.map(|s| s.to_string()),
        password: password.map(|s| s.to_string()),
        nickname: Some("Paimon".to_string()),
    }
}

#[test]
fn list_counts_then_loads_the_page() {
    let (flow, action) = ListFlow::start(ListRequest {
        code: Some("INV42".to_string()),
        username: None,
        size: 10,
        current: 3,
    });
    match action {
        Action::CountInvitations(filter) => {
            assert_eq!(filter.code.as_deref(), Some("INV42"));
            assert!(filter.username.is_none());
        }
        _ => panic!("expected a count"),
    }
    let event = Event::InvitationsCounted(25);
    assert!(flow.accepts(&event));
    let (flow, action) = do_list(flow, event);
    match action {
        Action::LoadPage { filter, limit, offset } => {
            assert_eq!(filter.code.as_deref(), Some("INV42"));
            assert_eq!(limit, 10);
            assert_eq!(offset, 20);
        }
        _ => panic!("expected a page load"),
    }
    let event = Event::PageLoaded(vec![
        invitation(1, "A", Some(SystemUserRole::Visitor)),
        invitation(2, "B", None),
    ]);
    assert!(flow.accepts(&event));
    let (flow, action) = do_list(flow, event);
    match action {
        Action::Reply(Reply::Page(page)) => {
            assert_eq!(page.total, 25);
            assert_eq!(page.record.len(), 2);
            assert_eq!(page.record[0].id, 1);
            assert_eq!(page.record[0].code, "A");
            assert_eq!(page.record[0].role_id, Some(5));
            assert_eq!(page.record[0].create_time_millis, 1700000000123);
            assert_eq!(page.record[1].code, "B");
            assert_eq!(page.record[1].role_id, None);
            assert_eq!(page.record[1].remark.as_deref(), Some("from the tavern"));
        }
        _ => panic!("expected the page"),
    }
    assert!(!flow.accepts(&Event::Written));
}

#[test]
fn list_page_zero_starts_at_the_first_row() {
    let (flow, _) = ListFlow::start(ListRequest { code: None, username: None, size: 15, current: 0 });
    let (_, action) = do_list(flow, Event::InvitationsCounted(0));
    match action {
        Action::LoadPage { filter, limit, offset } => {
            assert!(filter.code.is_none() && filter.username.is_none());
            assert_eq!(limit, 15);
            assert_eq!(offset, 0);
        }
        _ => panic!("expected a page load"),
    }
}

#[test]
fn invitation_rows_keep_order_and_fields() {
    let vo = invitation_vo(invitation(9, "Z", Some(SystemUserRole::Admin)));
    assert_eq!(vo.id, 9);
    assert_eq!(vo.role_id, Some(0));
    assert_eq!(vo.username, "traveler");
    assert_eq!(vo.access_policy, Some(policy()));
    let vos = invitation_vos(vec![
        invitation(3, "C", Some(SystemUserRole::MapUser)),
        invitation(1, "A", Some(SystemUserRole::MapManager)),
        invitation(2, "B", None),
    ]);
    let ids: Vec<i64> = vos.iter().map(|v| v.id).collect();
    assert_eq!(ids, vec![3, 1, 2]);
    assert_eq!(vos[0].role_id, Some(4));
    assert_eq!(vos[1].role_id, Some(2));
    assert!(invitation_vos(Vec::new()).is_empty());
}

#[test]
fn update_writes_role_and_remark() {
    let (flow, action) = UpdateFlow::start(UpdateRequest {
        code: "INV42".to_string(),
        role_id: Some(3),
        remark: Some("promoted".to_string()),
    });
    assert!(matches!(action, Action::LoadInvitationByCode(ref c) if c == "INV42"));
    let (flow, action) = do_update(flow, Event::InvitationLoaded(Some(invitation(7, "INV42", None))));
    match action {
        Action::UpdateInvitation(update) => {
            assert_eq!(update.invitation_id, 7);
            assert_eq!(update.role, Some(SystemUserRole::MapPunctuate));
            assert_eq!(update.remark.as_deref(), Some("promoted"));
        }
        _ => panic!("expected an update"),
    }
    assert!(flow.accepts(&Event::Written));
    let (flow, action) = do_update(flow, Event::Written);
    assert!(matches!(action, Action::Reply(Reply::Done)));
    assert!(!flow.accepts(&Event::Written));
}

#[test]
fn update_without_changes_keeps_fields() {
    let (flow, _) = UpdateFlow::start(UpdateRequest { code: "X".to_string(), role_id: None, remark: None });
    let (_, action) = do_update(flow, Event::InvitationLoaded(Some(invitation(8, "X", Some(SystemUserRole::Admin)))));
    match action {
        Action::UpdateInvitation(update) => {
            assert_eq!(update.invitation_id, 8);
            assert_eq!(update.role, None);
            assert_eq!(update.remark, None);
        }
        _ => panic!("expected an update"),
    }
}

#[test]
fn update_refuses_an_unknown_invitation() {
    let (flow, _) = UpdateFlow::start(UpdateRequest { code: "NOPE".to_string(), role_id: Some(99), remark: None });
    let (flow, action) = do_update(flow, Event::InvitationLoaded(None));
    match action {
        Action::Fail(e) => {
            assert_eq!(e, InvitationError::InvitationNotFound);
            assert_eq!(e.message(), "Invitation not found");
        }
        _ => panic!("expected a refusal"),
    }
    assert!(!flow.accepts(&Event::Written));
}

#[test]
fn update_refuses_an_invalid_role_id() {
    for bad in [6i64, -1, 100] {
        let (flow, _) = UpdateFlow::start(UpdateRequest { code: "INV42".to_string(), role_id: Some(bad), remark: Some("r".to_string()) });
        let (flow, action) = do_update(flow, Event::InvitationLoaded(Some(invitation(7, "INV42", None))));
        match action {
            Action::Fail(e) => {
                assert_eq!(e, InvitationError::InvalidRoleId);
                assert_eq!(e.message(), "Invalid role id");
            }
            _ => panic!("expected a refusal"),
        }
        assert!(!flow.accepts(&Event::Written));
    }
}

#[test]
fn info_checks_the_caller_first() {
    let (flow, action) = InfoFlow::start("INV42".to_string());
    assert!(matches!(action, Action::RequireNonAnonymous));
    assert!(!flow.accepts(&Event::InvitationLoaded(None)));
    let (flow, action) = do_info(flow, Event::Authorized);
    assert!(matches!(action, Action::LoadInvitationByCode(ref c) if c == "INV42"));
    let (flow, action) = do_info(flow, Event::InvitationLoaded(Some(invitation(4, "INV42", None))));
    match action {
        Action::Reply(Reply::Info(inv)) => {
            assert_eq!(inv.id, 4);
            assert_eq!(inv.code, "INV42");
        }
        _ => panic!("expected the invitation"),
    }
    assert!(!flow.accepts(&Event::Authorized));
}

#[test]
fn info_refuses_an_unknown_code() {
    let (flow, _) = InfoFlow::start("NOPE".to_string());
    let (flow, _) = do_info(flow, Event::Authorized);
    let (_, action) = do_info(flow, Event::InvitationLoaded(None));
    match action {
        Action::Fail(e) => assert_eq!(e.message(), "Invitation code not found"),
        _ => panic!("expected a refusal"),
    }
}

#[test]
fn consume_creates_the_user_then_deletes_the_invitation() {
    let (flow, action) = ConsumeFlow::start(consume_request(Some("lumine"), Some("secret")));
    assert!(matches!(action, Action::RequireNonAnonymous));
    let (flow, action) = do_consume(flow, Event::Authorized);
    assert!(matches!(action, Action::LoadInvitationByCode(ref c) if c == "INV42"));
    let (flow, action) = do_consume(
        flow,
        Event::InvitationLoaded(Some(invitation(11, "INV42", Some(SystemUserRole::MapManager)))),
    );
    assert!(matches!(action, Action::ReadClock));
    let (flow, action) = do_consume(flow, Event::ClockRead(ClockReading { unix_secs: 1700000000, subsec_nanos: 250 }));
    match action {
        Action::InsertUser(user) => {
            assert_eq!(user.version, 0);
            assert_eq!(user.create_time, ClockReading { unix_secs: 1700000000, subsec_nanos: 250 });
            assert!(user.update_time.is_none());
            assert!(user.creator_id.is_none() && user.updater_id.is_none());
            assert!(user.qq.is_none() && user.phone.is_none() && user.logo.is_none());
            assert!(user.remark.is_none());
            assert!(!user.del_flag);
            assert_eq!(user.username, "lumine");
            assert_eq!(user.password, "secret");
            assert_eq!(user.nickname.as_deref(), Some("Paimon"));
            assert_eq!(user.role, SystemUserRole::MapManager);
            assert_eq!(user.access_policy, Some(policy()));
        }
        _ => panic!("expected the new user"),
    }
    let (flow, action) = do_consume(flow, Event::UserInserted { user_id: 501 });
    assert!(matches!(action, Action::DeleteInvitation { id: 11 }));
    let (flow, action) = do_consume(flow, Event::Written);
    match action {
        Action::Reply(Reply::Consumed(receipt)) => {
            assert_eq!(receipt.user_id, 501);
            assert_eq!(receipt.result, "SUCCESS");
        }
        _ => panic!("expected the receipt"),
    }
    assert!(!flow.accepts(&Event::Written));
}

#[test]
fn consume_defaults_username_password_and_role() {
    let user = new_user(consume_request(Some(""), None), invitation(11, "INV42", None), ClockReading { unix_secs: 1700000000, subsec_nanos: 999_999_999 });
    assert_eq!(user.username, "INV42");
    assert_eq!(user.password, "INV42_1700000000");
    assert_eq!(user.role, SystemUserRole::MapUser);
    assert_eq!(user.create_time.unix_secs, 1700000000);
    assert_eq!(user.access_policy, Some(policy()));
    let user = new_user(consume_request(None, Some("")), invitation(11, "INV42", None), ClockReading { unix_secs: -5, subsec_nanos: 0 });
    assert_eq!(user.username, "INV42");
    assert_eq!(user.password, "INV42_-5");
}

#[test]
fn consume_refuses_an_unknown_code() {
    let (flow, _) = ConsumeFlow::start(consume_request(None, None));
    let (flow, _) = do_consume(flow, Event::Authorized);
    let (flow, action) = do_consume(flow, Event::InvitationLoaded(None));
    match action {
        Action::Fail(e) => assert_eq!(e, InvitationError::InvitationCodeNotFound),
        _ => panic!("expected a refusal"),
    }
    assert!(!flow.accepts(&Event::ClockRead(ClockReading { unix_secs: 0, subsec_nanos: 0 })));
}

#[test]
fn delete_loads_then_deletes() {
    let (flow, action) = DeleteFlow::start(12);
    assert!(matches!(action, Action::LoadInvitationById(12)));
    let (flow, action) = do_delete(flow, Event::InvitationLoaded(Some(invitation(12, "D", None))));
    assert!(matches!(action, Action::DeleteInvitation { id: 12 }));
    let (flow, action) = do_delete(flow, Event::Written);
    assert!(matches!(action, Action::Reply(Reply::Done)));
    assert!(!flow.accepts(&Event::Written));
}

#[test]
fn delete_refuses_an_unknown_id() {
    let (flow, _) = DeleteFlow::start(13);
    let (_, action) = do_delete(flow, Event::InvitationLoaded(None));
    match action {
        Action::Fail(e) => assert_eq!(e.message(), "Invitation not found"),
        _ => panic!("expected a refusal"),
    }
}
