use authorization::Role;
use std::str::FromStr;

#[test]
fn role_names() {
    assert_eq!(Role::NonPrivileged.as_str(), "NonPrivileged");
    assert_eq!(Role::User.as_str(), "User");
    assert_eq!(Role::Administrator.as_str(), "Administrator");
    assert_eq!(Role::Administrator.to_string(), String::from("Administrator"));
    let r: &str = Role::User.as_ref();
    assert_eq!(r, "User");
}

#[test]
fn role_from_texts() {
    assert_eq!(Role::from("User"), Role::User);
    assert_eq!(Role::from("Administrator"), Role::Administrator);
    assert_eq!(Role::from("NonPrivileged"), Role::NonPrivileged);
    assert_eq!(Role::from("user"), Role::NonPrivileged);
    assert_eq!(Role::from("Admin"), Role::NonPrivileged);
    assert_eq!(Role::from(""), Role::NonPrivileged);
    assert_eq!(Role::from(String::from("User")), Role::User);
    assert_eq!(Role::from(&String::from("Administrator")), Role::Administrator);
    assert_eq!(Role::from_str("Administrator"), Ok(Role::Administrator));
    assert_eq!(Role::from_str("Guest"), Ok(Role::NonPrivileged));
}

#[test]
fn role_name_roundtrip() {
    for role in [Role::NonPrivileged, Role::User, Role::Administrator] {
        assert_eq!(Role::from(role.as_str()), role);
        assert_eq!(Role::from_text(&role.to_string()), role);
    }
}

#[test]
fn text_equality() {
    assert!(authorization::role::text_equals("User", "User"));
    assert!(!authorization::role::text_equals("User", "Users"));
    assert!(!authorization::role::text_equals("User", "user"));
    assert!(authorization::role::text_equals("", ""));
    assert!(authorization::role::text_equals("сессия", "сессия"));
}
