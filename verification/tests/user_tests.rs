use matchbot::errors::StoreError;
use matchbot::media::{add_media_key_to_user, remove_media_key_from_user};
use matchbot::rbac::Role;
use matchbot::user::{
    apply_field, apply_state_and_name, default_media_keys, default_user_roles, new_user,
    stamp_interaction, FieldValue, User, UserState, MAX_USER_MEDIA_ITEMS,
};

fn create_test_user_for_media(media_keys: Vec<String>) -> User {
    let mut user = new_user("media_test_user".to_string(), 123, None, 1_700_000_000);
    user.state = UserState::Active;
    user.media_keys = media_keys;
    user
}

#[test]
fn test_add_media_key_logic_direct() {
    let mut user = create_test_user_for_media(vec![]);
    let key1 = "user_id/key1.jpg".to_string();

    user = add_media_key_to_user(&user, key1.clone(), 1).unwrap();
    assert_eq!(user.media_keys.len(), 1);
    assert_eq!(user.media_keys[0], key1);

    for i in 2..=MAX_USER_MEDIA_ITEMS {
        let key = format!("user_id/key{}.jpg", i);
        user = add_media_key_to_user(&user, key, 1).unwrap();
    }
    assert_eq!(user.media_keys.len(), MAX_USER_MEDIA_ITEMS);

    let key_over_limit = "user_id/key_over.jpg".to_string();
    let over = add_media_key_to_user(&user, key_over_limit.clone(), 2);
    let limit_hit = matches!(over, Err(StoreError::LimitExceeded));
    assert!(limit_hit);
    assert_eq!(user.media_keys.len(), MAX_USER_MEDIA_ITEMS);
    assert!(!user.media_keys.contains(&key_over_limit));

    let initial_len_at_limit = user.media_keys.len();
    let existing_key_at_limit = user.media_keys[0].clone();
    let unchanged = add_media_key_to_user(&user, existing_key_at_limit, 3).unwrap();
    assert_eq!(unchanged.media_keys.len(), initial_len_at_limit);
}

#[test]
fn test_remove_media_key_logic_direct() {
    let key1 = "user_id/key1.jpg".to_string();
    let key2 = "user_id/key2.jpg".to_string();
    let key3 = "user_id/key3.jpg".to_string();
    let user = create_test_user_for_media(vec![key1.clone(), key2.clone(), key3.clone()]);

    let key_to_remove = key2.clone();
    let user = remove_media_key_from_user(&user, &key_to_remove, 2);
    assert_eq!(user.media_keys.len(), 2);
    assert!(!user.media_keys.contains(&key_to_remove));
    assert!(user.media_keys.contains(&key1));
    assert!(user.media_keys.contains(&key3));

    let non_existent_key = "user_id/non_existent.jpg".to_string();
    let initial_len_before_non_existent_remove = user.media_keys.len();
    let user = remove_media_key_from_user(&user, &non_existent_key, 3);
    assert_eq!(user.media_keys.len(), initial_len_before_non_existent_remove);
}

#[test]
fn test_user_struct_default_values_for_new_fields() {
    let user = new_user("fresh".to_string(), 42, Some("someone".to_string()), 100);
    assert_eq!(user.media_keys, default_media_keys());
    assert_eq!(user.roles, default_user_roles());
    assert_eq!(user.state, UserState::Onboarding);
    assert!(user.name.is_none());
    assert!(user.age.is_none());
    assert!(user.gender.is_none());
    assert!(user.bio.is_none());
    assert!(user.location_text.is_none());
    assert!(user.latitude_micro.is_none());
    assert!(user.longitude_micro.is_none());
    assert_eq!(user.created_at, 100);
    assert_eq!(user.updated_at, 100);
    assert_eq!(user.last_interaction_at, 100);
}

#[test]
fn test_user_is_profile_complete_logic() {
    let mut user = new_user("u".to_string(), 1, None, 1);
    assert!(!user.is_profile_complete());
    user = apply_state_and_name(&user, Some("Ada".to_string()), UserState::Onboarding, 2);
    assert!(!user.is_profile_complete());
    user = apply_state_and_name(&user, Some("Ada".to_string()), UserState::Active, 3);
    assert!(user.is_profile_complete());
    user = apply_state_and_name(&user, None, UserState::Active, 4);
    assert!(!user.is_profile_complete());
}

#[test]
fn test_default_user_roles_function() {
    assert_eq!(default_user_roles(), vec![Role::User]);
}

#[test]
fn test_default_media_keys_function() {
    assert_eq!(default_media_keys(), Vec::<String>::new());
}

#[test]
fn test_user_serde_defaults() {
    // A row without the newer columns receives exactly these defaults when
    // it is read back.
    assert_eq!(UserState::default(), UserState::New);
    assert_eq!(default_user_roles(), vec![Role::User]);
    assert!(default_media_keys().is_empty());
}

#[test]
fn test_media_add_is_idempotent_no_duplicates() {
    let user = create_test_user_for_media(vec![]);
    let once = add_media_key_to_user(&user, "a.jpg".to_string(), 1).unwrap();
    let twice = add_media_key_to_user(&once, "a.jpg".to_string(), 2).unwrap();
    assert_eq!(once.media_keys, twice.media_keys);
    assert_eq!(twice.media_keys.iter().filter(|k| k.as_str() == "a.jpg").count(), 1);
}

#[test]
fn test_media_add_at_limit_fails_with_limit_exceeded() {
    let mut user = create_test_user_for_media(vec![]);
    for i in 0..MAX_USER_MEDIA_ITEMS {
        user = add_media_key_to_user(&user, format!("k{}", i), 1).unwrap();
    }
    assert_eq!(user.media_keys.len(), MAX_USER_MEDIA_ITEMS);
    match add_media_key_to_user(&user, "fresh-key".to_string(), 2) {
        Err(StoreError::LimitExceeded) => {},
        other => panic!("expected LimitExceeded, got {:?}", other),
    }
    assert_eq!(user.media_keys.len(), MAX_USER_MEDIA_ITEMS);
}

#[test]
fn test_media_remove_absent_is_byte_for_byte_noop() {
    let user = create_test_user_for_media(vec!["a".to_string(), "b".to_string()]);
    let removed = remove_media_key_from_user(&user, "zzz", 9);
    assert_eq!(removed.media_keys, user.media_keys);
    assert_eq!(removed.updated_at, 9);
    assert_eq!(removed.last_interaction_at, 9);
}

#[test]
fn test_media_add_appends_in_upload_order() {
    let mut user = create_test_user_for_media(vec![]);
    user = add_media_key_to_user(&user, "first".to_string(), 1).unwrap();
    user = add_media_key_to_user(&user, "second".to_string(), 2).unwrap();
    user = add_media_key_to_user(&user, "third".to_string(), 3).unwrap();
    assert_eq!(user.media_keys, vec!["first", "second", "third"]);
}

#[test]
fn test_apply_field_updates_only_the_addressed_attribute() {
    let mut user = new_user("u".to_string(), 7, None, 1);
    user = apply_state_and_name(&user, Some("Ada".to_string()), UserState::Active, 2);
    let with_age = apply_field(&user, &FieldValue::Age(30), 3);
    assert_eq!(with_age.age, Some(30));
    assert_eq!(with_age.name.as_deref(), Some("Ada"));
    assert_eq!(with_age.updated_at, 3);
    assert_eq!(with_age.last_interaction_at, 3);
    assert_eq!(with_age.state, UserState::Active);
    let with_bio = apply_field(&with_age, &FieldValue::Bio("hello".to_string()), 4);
    assert_eq!(with_bio.bio.as_deref(), Some("hello"));
    assert_eq!(with_bio.age, Some(30));
    let with_loc = apply_field(
        &with_bio,
        &FieldValue::Location {
            text: Some("Town".to_string()),
            latitude_micro: Some(12_345_600),
            longitude_micro: Some(-7_890_100),
        },
        5,
    );
    assert_eq!(with_loc.location_text.as_deref(), Some("Town"));
    assert_eq!(with_loc.latitude_micro, Some(12_345_600));
    assert_eq!(with_loc.longitude_micro, Some(-7_890_100));
    assert_eq!(with_loc.bio.as_deref(), Some("hello"));
}

#[test]
fn test_stamp_interaction_touches_only_timestamps() {
    let user = new_user("u".to_string(), 7, Some("tg".to_string()), 1);
    let stamped = stamp_interaction(&user, 99);
    assert_eq!(stamped.updated_at, 99);
    assert_eq!(stamped.last_interaction_at, 99);
    assert_eq!(stamped.created_at, 1);
    assert_eq!(stamped.id, user.id);
    assert_eq!(stamped.state, user.state);
    assert_eq!(stamped.roles, user.roles);
}
