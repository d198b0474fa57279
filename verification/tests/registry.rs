use payment_gateway::gateway::{position_of_user, Gateway};
use payment_gateway::identity::AccountId;
use payment_gateway::registry::{is_valid_email, RegistryError};

fn person(n: u8) -> AccountId {
    AccountId::from_bytes(vec![n]).unwrap()
}

#[test]
fn registration_is_refused_for_each_reason() {
    let mut gateway = Gateway::new();
    assert_eq!(
        gateway.register_user(&AccountId::anonymous(), String::from("w"), None, None, 1).unwrap_err(),
        RegistryError::Anonymous
    );
    assert_eq!(
        gateway.register_user(&person(1), String::new(), None, None, 1).unwrap_err(),
        RegistryError::EmptyWalletAddress
    );
    let user = gateway
        .register_user(&person(1), String::from("w1"), Some(String::from("ada")), None, 5)
        .unwrap();
    assert!(user.id == person(1));
    assert_eq!(user.wallet_address, "w1");
    assert_eq!(user.created_at, 5);
    assert_eq!(user.username.as_deref(), Some("ada"));
    assert_eq!(user.email, None);
    assert_eq!(
        gateway.register_user(&person(1), String::from("w2"), None, None, 6).unwrap_err(),
        RegistryError::AlreadyRegistered
    );
    // a registered caller is told so even without a wallet address
    assert_eq!(
        gateway.register_user(&person(1), String::new(), None, None, 6).unwrap_err(),
        RegistryError::AlreadyRegistered
    );
    assert_eq!(gateway.users.len(), 1);
    assert!(gateway.is_user_registered(&person(1)));
    assert!(!gateway.is_user_registered(&person(2)));
    assert_eq!(gateway.debug_get_user_count(), 1);
}

#[test]
fn registration_by_email_wants_a_free_address() {
    let mut gateway = Gateway::new();
    let by = |gateway: &mut Gateway, who: &AccountId, email: &str| {
        gateway.register_user_by_email(who, String::from(email), None, String::from("w"), 9)
    };
    assert_eq!(by(&mut gateway, &AccountId::anonymous(), "a@b").unwrap_err(), RegistryError::Anonymous);
    assert_eq!(by(&mut gateway, &person(1), "").unwrap_err(), RegistryError::InvalidEmail);
    assert_eq!(by(&mut gateway, &person(1), "ab.c").unwrap_err(), RegistryError::InvalidEmail);
    let user = by(&mut gateway, &person(1), "a@b").unwrap();
    assert_eq!(user.email.as_deref(), Some("a@b"));
    assert_eq!(by(&mut gateway, &person(2), "a@b").unwrap_err(), RegistryError::EmailTaken);
    assert_eq!(by(&mut gateway, &person(1), "a@b").unwrap_err(), RegistryError::EmailTaken);
    assert_eq!(by(&mut gateway, &person(1), "c@d").unwrap_err(), RegistryError::AlreadyRegistered);
    assert!(by(&mut gateway, &person(2), "A@b").is_ok());
    assert!(!gateway.check_email_availability("a@b"));
    assert!(gateway.check_email_availability("x@y"));
    assert!(gateway.get_user_by_email("a@b").unwrap().id == person(1));
    assert!(gateway.get_user_by_email("A@b").unwrap().id == person(2));
    assert!(gateway.get_user_by_email("x@y").is_none());
}

#[test]
fn email_needs_an_at_sign() {
    assert!(is_valid_email("a@b"));
    assert!(is_valid_email("@"));
    assert!(!is_valid_email(""));
    assert!(!is_valid_email("ab"));
}

#[test]
fn profile_is_changed_in_place() {
    let mut gateway = Gateway::new();
    gateway.register_user(&person(1), String::from("w1"), None, None, 1).unwrap();
    gateway.register_user(&person(2), String::from("w2"), None, None, 2).unwrap();
    assert_eq!(
        gateway.update_user_profile(&AccountId::anonymous(), None, None).unwrap_err(),
        RegistryError::Anonymous
    );
    assert_eq!(
        gateway.update_user_profile(&person(3), None, None).unwrap_err(),
        RegistryError::NotFound
    );
    let changed = gateway
        .update_user_profile(&person(2), Some(String::from("bob")), Some(String::from("b@x")))
        .unwrap();
    assert_eq!(changed.username.as_deref(), Some("bob"));
    assert_eq!(changed.email.as_deref(), Some("b@x"));
    assert_eq!(changed.wallet_address, "w2");
    assert_eq!(changed.created_at, 2);
    assert_eq!(gateway.users.len(), 2);
    assert_eq!(gateway.users[1], changed);
    assert_eq!(gateway.get_user(&person(2)), Some(changed.clone()));
    assert_eq!(gateway.get_user_by_id(&person(2)), Some(changed));
    assert_eq!(gateway.get_user(&person(3)), None);
    assert_eq!(position_of_user(&gateway.users, &person(2)), Some(1));
    assert_eq!(position_of_user(&gateway.users, &person(9)), None);
}

#[test]
fn all_users_are_listed_with_their_text() {
    let mut gateway = Gateway::new();
    gateway.register_user(&person(1), String::from("w1"), None, None, 1).unwrap();
    gateway.register_user(&AccountId::from_bytes(vec![]).unwrap(), String::from("w0"), None, None, 2).unwrap();
    let all = gateway.debug_get_all_users();
    assert_eq!(all.len(), 2);
    assert_eq!(all[0].0, person(1).to_text());
    assert_eq!(all[1].0, "aaaaa-aa");
    assert_eq!(all[1].1.wallet_address, "w0");
}

#[test]
fn registry_errors_have_their_words() {
    assert_eq!(RegistryError::Anonymous.message(), "Anonymous users cannot register");
    assert_eq!(RegistryError::AlreadyRegistered.message(), "User already registered");
    assert_eq!(RegistryError::EmptyWalletAddress.message(), "Wallet address cannot be empty");
    assert_eq!(RegistryError::InvalidEmail.message(), "Valid email is required");
    assert_eq!(
        RegistryError::EmailTaken.message(),
        "Email already registered. Please use a different email."
    );
    assert_eq!(RegistryError::NotFound.message(), "User not found. Please register first");
}
