use payment_gateway::identity::AccountId;
use payment_gateway::profiles::{read_saved_identity, ProfileError, Profiles};
use payment_gateway::types::NotificationSettings;
use payment_gateway::wallet::{simple_decrypt, simple_encrypt, DecryptError};
use sha2::{Digest, Sha256};

fn user(n: u8) -> AccountId {
    AccountId::from_bytes(vec![n, 0, n]).unwrap()
}

#[allow(deprecated)]
fn expected_secret(data: &str, password: &str) -> String {
    let key = Sha256::digest(password.as_bytes());
    let bytes: Vec<u8> = data.as_bytes().iter().enumerate().map(|(i, b)| b ^ key[i % 32]).collect();
    base64::encode(bytes)
}

#[test]
fn secret_is_combined_with_the_digest_of_the_password_and_written_as_base64() {
    let long = "0123456789abcdef0123456789abcdef0123456789abcdef";
    assert_eq!(simple_encrypt("hello", "password"), expected_secret("hello", "password"));
    assert_eq!(simple_encrypt(long, "pw"), expected_secret(long, "pw"));
    assert_eq!(simple_encrypt("", "password"), "");
    assert_ne!(simple_encrypt("hello", "password"), simple_encrypt("hello", "passwore"));
    assert_ne!(simple_encrypt("hello", "password"), "hello");
}

#[test]
fn secret_is_read_with_the_password_it_was_kept_under() {
    let long = "a secret that is longer than the thirty-two bytes of the key, ñ included";
    for data in ["hello", "", long] {
        let stored = simple_encrypt(data, "correct horse");
        assert_eq!(simple_decrypt(&stored, "correct horse"), Ok(String::from(data)));
    }
}

#[test]
#[allow(deprecated)]
fn what_cannot_be_read_is_refused() {
    assert_eq!(simple_decrypt("not base64!", "pw"), Err(DecryptError::InvalidFormat));
    assert_eq!(simple_decrypt("a", "pw"), Err(DecryptError::InvalidFormat));
    // a byte that becomes 0xff under this password is no text
    let key = Sha256::digest(b"pw");
    let stored = base64::encode([0xffu8 ^ key[0]]);
    assert_eq!(simple_decrypt(&stored, "pw"), Err(DecryptError::NotText));
    assert_eq!(DecryptError::InvalidFormat.message(), "Invalid encrypted data format");
    assert_eq!(DecryptError::NotText.message(), "Failed to decrypt data");
}

#[test]
fn wallet_secret_is_kept_once_per_address() {
    let mut profiles = Profiles::new();
    let save = |p: &mut Profiles, email: &str, secret: &str, password: &str| {
        p.save_wallet_identity_by_email(email, secret, password, String::from("main"), 100)
    };
    assert_eq!(save(&mut profiles, "", "s", "123456"), Err(ProfileError::InvalidEmail));
    assert_eq!(save(&mut profiles, "nobody", "s", "123456"), Err(ProfileError::InvalidEmail));
    assert_eq!(save(&mut profiles, "a@b", "", "123456"), Err(ProfileError::SecretRequired));
    assert_eq!(save(&mut profiles, "a@b", "s", "12345"), Err(ProfileError::PasswordTooShort));
    assert!(profiles.wallet_identities.is_empty());
    assert!(!profiles.check_wallet_identity_exists("a@b"));
    assert_eq!(save(&mut profiles, "Ada@Example.COM", "beef", "123456"), Ok(()));
    assert_eq!(profiles.wallet_identities.len(), 1);
    let kept = &profiles.wallet_identities[0];
    assert_eq!(kept.email, "ada@example.com");
    assert_eq!(kept.encrypted_secret_key, expected_secret("beef", "123456"));
    assert_eq!(kept.wallet_name, "main");
    assert_eq!((kept.created_at, kept.last_accessed, kept.access_count), (100, 100, 0));
    assert!(profiles.check_wallet_identity_exists("ada@example.com"));
    assert!(profiles.check_wallet_identity_exists("ADA@EXAMPLE.COM"));
    assert!(!profiles.check_wallet_identity_exists("bob@example.com"));
    assert_eq!(save(&mut profiles, "ADA@example.com", "cafe", "654321"), Err(ProfileError::IdentityExists));
    assert_eq!(profiles.wallet_identities.len(), 1);
}

#[test]
fn wallet_secret_is_given_back_and_the_read_is_counted() {
    let mut profiles = Profiles::new();
    profiles.save_wallet_identity_by_email("a@b", "beef", "123456", String::from("main"), 100).unwrap();
    assert_eq!(
        profiles.get_wallet_identity_by_email("ab", "123456", 200).unwrap_err(),
        ProfileError::InvalidEmail
    );
    assert_eq!(
        profiles.get_wallet_identity_by_email("a@b", "", 200).unwrap_err(),
        ProfileError::PasswordRequired
    );
    assert_eq!(
        profiles.get_wallet_identity_by_email("c@d", "123456", 200).unwrap_err(),
        ProfileError::IdentityNotFound
    );
    assert_eq!(profiles.wallet_identities[0].access_count, 0);
    let first = profiles.get_wallet_identity_by_email("A@B", "123456", 200).unwrap();
    assert_eq!(first.secret_key_hex, "beef");
    assert_eq!(first.wallet_name, "main");
    assert_eq!((first.created_at, first.last_accessed, first.access_count), (100, 200, 1));
    let second = profiles.get_wallet_identity_by_email("a@b", "123456", 300).unwrap();
    assert_eq!((second.last_accessed, second.access_count), (300, 2));
    assert_eq!(profiles.wallet_identities[0].access_count, 2);
    assert_eq!(profiles.wallet_identities[0].last_accessed, 300);
}

#[test]
fn password_of_a_wallet_secret_can_be_changed() {
    let mut profiles = Profiles::new();
    profiles.save_wallet_identity_by_email("a@b", "beef", "123456", String::from("main"), 100).unwrap();
    assert_eq!(
        profiles.update_wallet_identity_password("a@b", "123456", "short", 150),
        Err(ProfileError::PasswordTooShort)
    );
    assert_eq!(
        profiles.update_wallet_identity_password("x@y", "123456", "abcdefg", 150),
        Err(ProfileError::IdentityNotFound)
    );
    assert_eq!(profiles.update_wallet_identity_password("a@b", "123456", "abcdefg", 150), Ok(()));
    let kept = &profiles.wallet_identities[0];
    assert_eq!(kept.encrypted_secret_key, expected_secret("beef", "abcdefg"));
    assert_eq!((kept.created_at, kept.last_accessed, kept.access_count), (100, 150, 0));
    assert_eq!(profiles.get_wallet_identity_by_email("a@b", "abcdefg", 160).unwrap().secret_key_hex, "beef");
    assert_eq!(ProfileError::InvalidPassword.message(), "Invalid password");
    assert_eq!(ProfileError::IdentityNotFound.message(), "No wallet found for this email");
    assert_eq!(ProfileError::PasswordTooShort.message(), "Password must be at least 6 characters");
    assert_eq!(ProfileError::IdentityExists.message(), "Wallet identity already exists for this email");
    assert_eq!(ProfileError::SecretRequired.message(), "Secret key is required");
    assert_eq!(ProfileError::PasswordRequired.message(), "Password is required");
    assert_eq!(ProfileError::InvalidEmail.message(), "Valid email is required");
    assert_eq!(ProfileError::SessionNotFound.message(), "Session not found");
    assert_eq!(ProfileError::Anonymous.message(), "Anonymous users are not allowed");
}

#[test]
fn wrong_password_is_told_when_what_comes_out_is_no_text() {
    let mut profiles = Profiles::new();
    profiles.save_wallet_identity_by_email("a@b", "beef", "123456", String::from("main"), 100).unwrap();
    // keep bytes that are no text under the password "123456"
    let key = Sha256::digest(b"123456");
    #[allow(deprecated)]
    let broken = base64::encode([0xffu8 ^ key[0]]);
    profiles.wallet_identities[0].encrypted_secret_key = broken;
    assert_eq!(
        profiles.get_wallet_identity_by_email("a@b", "123456", 200).unwrap_err(),
        ProfileError::InvalidPassword
    );
    assert_eq!(
        profiles.update_wallet_identity_password("a@b", "123456", "abcdefg", 200),
        Err(ProfileError::InvalidPassword)
    );
    assert_eq!(profiles.wallet_identities[0].access_count, 0);
    assert_eq!(profiles.wallet_identities[0].last_accessed, 100);
}

#[test]
fn saved_identity_is_read_out_of_its_text() {
    let pair = |a: &str, b: &str| Some((String::from(a), String::from(b)));
    assert_eq!(read_saved_identity("wallet_seed:abc;name:main"), pair("abc", "main"));
    assert_eq!(read_saved_identity("wallet_seed:;name:"), pair("", ""));
    assert_eq!(read_saved_identity("wallet_seed:abc;title:main"), pair("abc", ""));
    assert_eq!(read_saved_identity("wallet_seed:abc;"), pair("abc", ""));
    assert_eq!(read_saved_identity("wallet_seed:abc;name:ma;in"), pair("abc", "ma"));
    assert_eq!(read_saved_identity("wallet_seed:abc;nam"), pair("abc", ""));
    assert_eq!(read_saved_identity("wallet_seed:abc"), None);
    assert_eq!(read_saved_identity("UTC"), None);
    assert_eq!(read_saved_identity(""), None);
    assert_eq!(read_saved_identity("wallet_seed"), None);
    assert_eq!(read_saved_identity("Wallet_seed:abc;name:x"), None);
    assert_eq!(read_saved_identity(";wallet_seed:abc;name:x"), None);
}

#[test]
fn wallet_seed_is_kept_with_the_preferences() {
    let mut profiles = Profiles::new();
    assert_eq!(
        profiles.save_wallet_identity(&AccountId::anonymous(), "seed", "main", 5),
        Err(ProfileError::Anonymous)
    );
    assert_eq!(profiles.get_saved_wallet_identity(&user(1)), None);
    assert_eq!(profiles.save_wallet_identity(&user(1), "seed", "main", 5), Ok(()));
    assert_eq!(profiles.user_preferences.len(), 1);
    let kept = &profiles.user_preferences[0];
    assert_eq!(kept.timezone, "wallet_seed:seed;name:main");
    assert_eq!(kept.preferred_currency, "USD");
    assert_eq!(kept.ui_theme, "light");
    assert_eq!(kept.language, "en");
    assert_eq!(kept.updated_at, 5);
    assert!(kept.notification_settings.email_notifications);
    assert!(!kept.notification_settings.marketing_emails);
    assert_eq!(
        profiles.get_saved_wallet_identity(&user(1)),
        Some((String::from("seed"), String::from("main")))
    );
    assert_eq!(profiles.save_wallet_identity(&user(1), "other", "second", 9), Ok(()));
    assert_eq!(profiles.user_preferences.len(), 1);
    assert_eq!(
        profiles.get_saved_wallet_identity(&user(1)),
        Some((String::from("other"), String::from("second")))
    );
    assert_eq!(profiles.get_saved_wallet_identity(&user(2)), None);
}

#[test]
fn preferences_keep_what_is_not_given() {
    let mut profiles = Profiles::new();
    assert_eq!(
        profiles
            .update_user_preferences(&AccountId::anonymous(), None, None, None, None, None, 1)
            .unwrap_err(),
        ProfileError::Anonymous
    );
    assert_eq!(profiles.get_user_preferences(&user(1)), None);
    let first = profiles
        .update_user_preferences(&user(1), Some(String::from("EUR")), None, None, None, None, 10)
        .unwrap();
    assert_eq!(first.preferred_currency, "EUR");
    assert_eq!(first.ui_theme, "light");
    assert_eq!(first.language, "en");
    assert_eq!(first.timezone, "UTC");
    assert_eq!(first.updated_at, 10);
    let quiet = NotificationSettings {
        email_notifications: false,
        push_notifications: false,
        transaction_alerts: true,
        marketing_emails: false,
    };
    let second = profiles
        .update_user_preferences(
            &user(1),
            None,
            Some(quiet),
            Some(String::from("dark")),
            Some(String::from("id")),
            Some(String::from("Asia/Jakarta")),
            20,
        )
        .unwrap();
    assert_eq!(second.preferred_currency, "EUR");
    assert_eq!(second.notification_settings, quiet);
    assert_eq!(second.ui_theme, "dark");
    assert_eq!(second.language, "id");
    assert_eq!(second.timezone, "Asia/Jakarta");
    assert_eq!(second.updated_at, 20);
    assert_eq!(profiles.user_preferences.len(), 1);
    assert_eq!(profiles.get_user_preferences(&user(1)), Some(second));
    profiles.update_user_preferences(&user(2), None, None, None, None, None, 30).unwrap();
    assert_eq!(profiles.user_preferences.len(), 2);
    assert_eq!(profiles.user_preferences[0].language, "id");
}

#[test]
fn sessions_are_opened_stamped_and_ended() {
    let mut profiles = Profiles::new();
    assert_eq!(
        profiles
            .create_user_session(&AccountId::anonymous(), String::from("ip"), String::from("ua"), 1)
            .unwrap_err(),
        ProfileError::Anonymous
    );
    let session = profiles
        .create_user_session(&user(1), String::from("1.2.3.4"), String::from("agent"), 100)
        .unwrap();
    assert_eq!(session.session_id, format!("SES_{}_{}", &user(1).to_text()[..8], 100));
    assert!(session.user_id == user(1));
    assert_eq!((session.created_at, session.last_activity), (100, 100));
    assert_eq!(session.ip_address, "1.2.3.4");
    assert_eq!(session.user_agent, "agent");
    assert!(session.is_active);
    let other = profiles
        .create_user_session(&user(1), String::from("ip"), String::from("ua"), 101)
        .unwrap();
    profiles.create_user_session(&user(2), String::from("ip"), String::from("ua"), 102).unwrap();
    assert_eq!(profiles.user_sessions.len(), 3);
    // the same caller at the same time gets the same session again
    profiles.create_user_session(&user(1), String::from("new"), String::from("ua"), 100).unwrap();
    assert_eq!(profiles.user_sessions.len(), 3);
    assert_eq!(profiles.user_sessions[0].ip_address, "new");

    let stamped = profiles.update_session_activity(&other.session_id, 500).unwrap();
    assert_eq!(stamped.last_activity, 500);
    assert_eq!(stamped.created_at, 101);
    assert_eq!(profiles.user_sessions[1].last_activity, 500);
    assert_eq!(
        profiles.update_session_activity("none", 500).unwrap_err(),
        ProfileError::SessionNotFound
    );
    assert_eq!(profiles.end_user_session("none"), Err(ProfileError::SessionNotFound));
    assert_eq!(profiles.end_user_session(&session.session_id), Ok(()));
    assert!(!profiles.user_sessions[0].is_active);
    let active: Vec<String> =
        profiles.get_active_sessions(&user(1)).into_iter().map(|s| s.session_id).collect();
    assert_eq!(active, vec![other.session_id]);
    assert_eq!(profiles.get_active_sessions(&user(2)).len(), 1);
    assert!(profiles.get_active_sessions(&user(3)).is_empty());
}
