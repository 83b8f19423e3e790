use genshin_map_functions::decimal::decimal_string;
use genshin_map_functions::error::InvitationError;
use genshin_map_functions::paging::page_offset;
use genshin_map_functions::role::SystemUserRole;

#[test]
fn role_ids_map_to_roles() {
    let expected = [
        SystemUserRole::Admin,
        SystemUserRole::MapNeigui,
        SystemUserRole::MapManager,
        SystemUserRole::MapPunctuate,
        SystemUserRole::MapUser,
        SystemUserRole::Visitor,
    ];
    for (id, role) in expected.iter().enumerate() {
        assert_eq!(SystemUserRole::from_id(id as i64), Some(*role));
        assert_eq!(role.id(), id as i64);
    }
    assert_eq!(SystemUserRole::from_id(6), None);
    assert_eq!(SystemUserRole::from_id(-1), None);
    assert_eq!(SystemUserRole::from_id(i64::MAX), None);
}

#[test]
fn role_id_roundtrip() {
    for role in [
        SystemUserRole::Admin,
        SystemUserRole::MapNeigui,
        SystemUserRole::MapManager,
        SystemUserRole::MapPunctuate,
        SystemUserRole::MapUser,
        SystemUserRole::Visitor,
    ] {
        assert_eq!(SystemUserRole::from_id(role.id()), Some(role));
    }
}

#[test]
fn page_offsets() {
    assert_eq!(page_offset(0, 10), 0);
    assert_eq!(page_offset(1, 10), 0);
    assert_eq!(page_offset(2, 10), 10);
    assert_eq!(page_offset(3, 10), 20);
    assert_eq!(page_offset(5, 0), 0);
    assert_eq!(page_offset(u64::MAX, 2), u64::MAX);
    assert_eq!(page_offset(3, u64::MAX), u64::MAX);
    assert_eq!(page_offset(2, u64::MAX), u64::MAX);
}

#[test]
fn pages_are_contiguous() {
    for current in 1..20u64 {
        assert_eq!(page_offset(current + 1, 7), page_offset(current, 7) + 7);
    }
}

#[test]
fn decimal_text_matches_to_string() {
    for n in [
        0i64,
        7,
        9,
        10,
        99,
        100,
        1234567890,
        1700000000,
        -1,
        -10,
        -987654321,
        i64::MAX,
        i64::MIN,
    ] {
        assert_eq!(decimal_string(n), n.to_string());
    }
}

#[test]
fn error_messages() {
    assert_eq!(InvitationError::InvitationNotFound.message(), "Invitation not found");
    assert_eq!(InvitationError::InvitationCodeNotFound.message(), "Invitation code not found");
    assert_eq!(InvitationError::InvalidRoleId.message(), "Invalid role id");
}
