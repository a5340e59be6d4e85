use storageclass_policy::settings::{PolicyMode, Settings, ValidationError};

fn names(list: &[&str]) -> Vec<String> {
    list.iter().map(|s| s.to_string()).collect()
}

fn make_settings(
    denied: Option<&[&str]>,
    allowed: Option<&[&str]>,
    fallback: Option<&str>,
) -> Settings {
    Settings {
        denied_storage_classes: denied.map(names),
        allowed_storage_classes: allowed.map(names),
        fallback_storage_class: fallback.map(|s| s.to_string()),
    }
}

fn expect_error(settings: Settings, expected_message: &str) {
    match settings.validate() {
        Ok(_) => panic!("expected a validation error"),
        Err(e) => assert_eq!(e.message(), expected_message),
    }
}

#[test]
fn empty_settings_is_not_valid() {
    let settings = make_settings(None, None, None);
    match settings.validate() {
        Ok(_) => panic!("expected a validation error"),
        Err(e) => {
            assert!(matches!(e, ValidationError::MissingClassList));
            assert_eq!(
                e.message(),
                "One of deniedStorageClasses or allowedStorageClasses must be set"
            );
        }
    }
}

#[test]
fn empty_settings_is_not_valid_regardless_of_fallback() {
    expect_error(
        make_settings(None, None, Some("standard")),
        "One of deniedStorageClasses or allowedStorageClasses must be set",
    );
}

#[test]
fn using_deny_and_allow_lists_at_the_same_time_is_not_valid() {
    let settings = make_settings(Some(&["foo", "bar"]), Some(&["foo", "bar"]), None);
    match settings.validate() {
        Ok(_) => panic!("expected a validation error"),
        Err(e) => {
            assert!(matches!(e, ValidationError::BothClassLists));
            assert_eq!(
                e.message(),
                "Only one of deniedStorageClasses or allowedStorageClasses can be set"
            );
        }
    }
}

#[test]
fn using_both_lists_is_not_valid_regardless_of_fallback() {
    expect_error(
        make_settings(Some(&["foo"]), Some(&["bar"]), Some("baz")),
        "Only one of deniedStorageClasses or allowedStorageClasses can be set",
    );
}

#[test]
fn empty_denied_list_is_not_valid() {
    let settings = make_settings(Some(&[]), None, None);
    match settings.validate() {
        Ok(_) => panic!("expected a validation error"),
        Err(e) => {
            assert!(matches!(e, ValidationError::EmptyDeniedList));
            assert_eq!(e.message(), "deniedStorageClasses cannot be empty");
        }
    }
}

#[test]
fn empty_allowed_list_is_not_valid() {
    let settings = make_settings(None, Some(&[]), None);
    match settings.validate() {
        Ok(_) => panic!("expected a validation error"),
        Err(e) => {
            assert!(matches!(e, ValidationError::EmptyAllowedList));
            assert_eq!(e.message(), "allowedStorageClasses cannot be empty");
        }
    }
}

#[test]
fn denied_list_with_some_item_is_valid() {
    let config = make_settings(Some(&["foo", "bar"]), None, None)
        .validate()
        .unwrap();
    match &config.mode {
        PolicyMode::DenyList(list) => assert_eq!(list, &names(&["foo", "bar"])),
        PolicyMode::AllowList(_) => panic!("expected deny-list mode"),
    }
    assert_eq!(config.fallback_storage_class, None);
    assert!(config.is_well_formed());
}

#[test]
fn allowed_list_with_some_item_is_valid() {
    let config = make_settings(None, Some(&["foo", "bar"]), None)
        .validate()
        .unwrap();
    match &config.mode {
        PolicyMode::AllowList(list) => assert_eq!(list, &names(&["foo", "bar"])),
        PolicyMode::DenyList(_) => panic!("expected allow-list mode"),
    }
    assert_eq!(config.fallback_storage_class, None);
    assert!(config.is_well_formed());
}

#[test]
fn fallback_in_denied_list_is_not_valid() {
    let settings = make_settings(Some(&["foo", "bar"]), None, Some("bar"));
    match settings.validate() {
        Ok(_) => panic!("expected a validation error"),
        Err(e) => {
            assert!(matches!(e, ValidationError::FallbackInDeniedList));
            assert_eq!(
                e.message(),
                "fallbackStorageClass cannot be in deniedStorageClasses"
            );
        }
    }
}

#[test]
fn fallback_not_in_denied_list_is_valid() {
    let config = make_settings(Some(&["foo", "bar"]), None, Some("baz"))
        .validate()
        .unwrap();
    match &config.mode {
        PolicyMode::DenyList(list) => assert_eq!(list, &names(&["foo", "bar"])),
        PolicyMode::AllowList(_) => panic!("expected deny-list mode"),
    }
    assert_eq!(config.fallback_storage_class, Some("baz".to_string()));
    assert!(config.is_well_formed());
}

#[test]
fn fallback_class_not_in_allowed_list_is_not_valid() {
    let settings = make_settings(None, Some(&["foo", "bar"]), Some("baz"));
    match settings.validate() {
        Ok(_) => panic!("expected a validation error"),
        Err(e) => {
            assert!(matches!(e, ValidationError::FallbackNotInAllowedList));
            assert_eq!(
                e.message(),
                "fallbackStorageClass must be in allowedStorageClasses"
            );
        }
    }
}

#[test]
fn fallback_class_in_allowed_list_is_valid() {
    let config = make_settings(None, Some(&["foo", "bar"]), Some("foo"))
        .validate()
        .unwrap();
    match &config.mode {
        PolicyMode::AllowList(list) => assert_eq!(list, &names(&["foo", "bar"])),
        PolicyMode::DenyList(_) => panic!("expected allow-list mode"),
    }
    assert_eq!(config.fallback_storage_class, Some("foo".to_string()));
    assert!(config.is_well_formed());
}

#[test]
fn hand_built_configuration_with_fallback_in_deny_list_is_ill_formed() {
    let config = storageclass_policy::settings::PolicyConfiguration {
        mode: PolicyMode::DenyList(names(&["foo", "bar"])),
        fallback_storage_class: Some("bar".to_string()),
    };
    assert!(!config.is_well_formed());
}

#[test]
fn hand_built_configuration_with_empty_list_is_ill_formed() {
    let config = storageclass_policy::settings::PolicyConfiguration {
        mode: PolicyMode::AllowList(names(&[])),
        fallback_storage_class: None,
    };
    assert!(!config.is_well_formed());
}
