//! What the gateway keeps about its users beside their money: wallet
//! secrets under a password, preferences and sessions.

use crate::identity::{anonymous_bytes, principal_text, AccountId};
use crate::registry::{is_email, is_valid_email};
use crate::rows::{chosen, pick_marked, views_of};
use crate::text::{chars_of, decimal, push_decimal, same_text, to_unicode_lower, unicode_lower};
use crate::types::{
    EncryptedWalletIdentity, NotificationSettings, UserPreferences, UserPreferencesView,
    UserSession, UserSessionView, WalletIdentityResult, WalletIdentityView,
};
use crate::wallet::{decrypted, encrypted, simple_decrypt, simple_encrypt};
use vstd::prelude::*;
use vstd::string::StringExecFns;
use vstd::utf8::encode_utf8;

verus! {

/// Fewest bytes that a password may have.
pub const MIN_PASSWORD_BYTES: usize = 6;

/// The tables of wallet secrets, preferences and sessions.
#[derive(Debug)]
pub struct Profiles {
    pub wallet_identities: Vec<EncryptedWalletIdentity>,
    pub user_preferences: Vec<UserPreferences>,
    pub user_sessions: Vec<UserSession>,
}

/// What a `Profiles` holds.
pub struct ProfilesView {
    pub wallet_identities: Seq<WalletIdentityView>,
    pub user_preferences: Seq<UserPreferencesView>,
    pub user_sessions: Seq<UserSessionView>,
}

impl View for Profiles {
    type V = ProfilesView;

    open spec fn view(&self) -> ProfilesView {
        ProfilesView {
            wallet_identities: views_of(self.wallet_identities@),
            user_preferences: views_of(self.user_preferences@),
            user_sessions: views_of(self.user_sessions@),
        }
    }
}

/// Why a request about a profile was refused.
#[derive(Clone, Copy, Debug, PartialEq, Eq, Structural)]
pub enum ProfileError {
    /// The caller is not authenticated.
    Anonymous,
    /// The e-mail address is empty or has no `@`.
    InvalidEmail,
    /// No secret was given.
    SecretRequired,
    /// The password has fewer than six bytes.
    PasswordTooShort,
    /// A secret is kept for this e-mail address already.
    IdentityExists,
    /// No password was given.
    PasswordRequired,
    /// No secret is kept for this e-mail address.
    IdentityNotFound,
    /// The secret cannot be read with this password.
    InvalidPassword,
    /// There is no session with this identifier.
    SessionNotFound,
}

/// The position of the wallet secret kept for the e-mail address `email`,
/// given in lower case.
pub open spec fn find_identity(rows: Seq<WalletIdentityView>, email: Seq<char>) -> Option<int>
    decreases rows.len(),
{
    if rows.len() == 0 {
        None
    } else {
        match find_identity(rows.drop_last(), email) {
            Some(i) => Some(i),
            None => if rows.last().email == email {
                Some(rows.len() - 1)
            } else {
                None
            },
        }
    }
}

/// The position of the preferences kept for `user`.
pub open spec fn find_preferences(rows: Seq<UserPreferencesView>, user: Seq<u8>) -> Option<int>
    decreases rows.len(),
{
    if rows.len() == 0 {
        None
    } else {
        match find_preferences(rows.drop_last(), user) {
            Some(i) => Some(i),
            None => if rows.last().user_id == user {
                Some(rows.len() - 1)
            } else {
                None
            },
        }
    }
}

/// The position of the session with the identifier `id`.
pub open spec fn find_session(rows: Seq<UserSessionView>, id: Seq<char>) -> Option<int>
    decreases rows.len(),
{
    if rows.len() == 0 {
        None
    } else {
        match find_session(rows.drop_last(), id) {
            Some(i) => Some(i),
            None => if rows.last().session_id == id {
                Some(rows.len() - 1)
            } else {
                None
            },
        }
    }
}

/// The preferences with `row` kept for its account, in the place of those
/// that were kept for it, if any.
pub open spec fn with_preferences(rows: Seq<UserPreferencesView>, row: UserPreferencesView) -> Seq<
    UserPreferencesView,
> {
    match find_preferences(rows, row.user_id) {
        Some(i) => rows.update(i, row),
        None => rows.push(row),
    }
}

/// The sessions with `row` kept under its identifier, in the place of the
/// session that was kept under it, if any.
pub open spec fn with_session(rows: Seq<UserSessionView>, row: UserSessionView) -> Seq<
    UserSessionView,
> {
    match find_session(rows, row.session_id) {
        Some(i) => rows.update(i, row),
        None => rows.push(row),
    }
}

/// The preferences of an account that has chosen none.
pub open spec fn default_preferences(user: Seq<u8>, now: u64) -> UserPreferencesView {
    UserPreferencesView {
        user_id: user,
        preferred_currency: "USD"@,
        notification_settings: NotificationSettings {
            email_notifications: true,
            push_notifications: true,
            transaction_alerts: true,
            marketing_emails: false,
        },
        ui_theme: "light"@,
        language: "en"@,
        timezone: "UTC"@,
        updated_at: now,
    }
}

/// The preferences of `user` as they are kept, or those of an account that
/// has chosen none.
pub open spec fn current_preferences(rows: Seq<UserPreferencesView>, user: Seq<u8>, now: u64) -> UserPreferencesView {
    match find_preferences(rows, user) {
        Some(i) => rows[i],
        None => default_preferences(user, now),
    }
}

/// `value` where one is given, else `kept`.
pub open spec fn chosen_text(value: Option<Seq<char>>, kept: Seq<char>) -> Seq<char> {
    match value {
        Some(text) => text,
        None => kept,
    }
}

/// The first position of `s` from `from` on that holds a semicolon, or the
/// length of `s`.
pub open spec fn field_end(s: Seq<char>, from: int) -> int
    decreases s.len() - from,
{
    if from >= s.len() {
        s.len() as int
    } else if s[from] == ';' {
        from
    } else {
        field_end(s, from + 1)
    }
}

/// The wallet seed and name that the text `kept` holds: it must begin with
/// `wallet_seed:` and hold a semicolon; the seed stands between the two, the
/// name in the next field behind `name:`, and is empty where that is
/// missing.
pub open spec fn saved_identity(kept: Seq<char>) -> Option<(Seq<char>, Seq<char>)> {
    let mark = "wallet_seed:"@;
    let first = field_end(kept, 0);
    if kept.len() < mark.len() || kept.take(mark.len() as int) != mark || first >= kept.len() {
        None
    } else {
        let second = field_end(kept, first + 1);
        let field = kept.subrange(first + 1, second);
        let name = if field.len() >= 5 && field.take(5) == "name:"@ {
            field.skip(5)
        } else {
            Seq::empty()
        };
        Some((kept.subrange(mark.len() as int, first), name))
    }
}

/// The identifier of the session that `caller` opens at `now`: `SES_`, the
/// first eight characters of the caller's textual form, `_` and the time.
pub open spec fn session_id_for(caller: Seq<u8>, now: u64) -> Seq<char> {
    let text = principal_text(caller);
    let prefix = if text.len() < 8 {
        text
    } else {
        text.take(8)
    };
    "SES_"@ + prefix + "_"@ + decimal(now as nat)
}

/// The checks before a wallet secret is kept, in their order.
pub open spec fn saving_check(
    rows: Seq<WalletIdentityView>,
    email: Seq<char>,
    secret: Seq<char>,
    password: Seq<char>,
) -> Result<(), ProfileError> {
    if !is_email(email) {
        Err(ProfileError::InvalidEmail)
    } else if secret.len() == 0 {
        Err(ProfileError::SecretRequired)
    } else if encode_utf8(password).len() < MIN_PASSWORD_BYTES {
        Err(ProfileError::PasswordTooShort)
    } else if find_identity(rows, unicode_lower(email)) is Some {
        Err(ProfileError::IdentityExists)
    } else {
        Ok(())
    }
}

/// What reading the wallet secret of `email` with `password` gives: the
/// position of its row and the secret.
pub open spec fn reading_check(rows: Seq<WalletIdentityView>, email: Seq<char>, password: Seq<char>) -> Result<
    (int, Seq<char>),
    ProfileError,
> {
    if !is_email(email) {
        Err(ProfileError::InvalidEmail)
    } else if password.len() == 0 {
        Err(ProfileError::PasswordRequired)
    } else {
        match find_identity(rows, unicode_lower(email)) {
            None => Err(ProfileError::IdentityNotFound),
            Some(i) => match decrypted(rows[i].encrypted_secret_key, password) {
                Err(_) => Err(ProfileError::InvalidPassword),
                Ok(secret) => Ok((i, secret)),
            },
        }
    }
}

/// What changing the password of the wallet secret of `email` gives: the
/// position of its row and the secret.
pub open spec fn change_check(
    rows: Seq<WalletIdentityView>,
    email: Seq<char>,
    old_password: Seq<char>,
    new_password: Seq<char>,
) -> Result<(int, Seq<char>), ProfileError> {
    if encode_utf8(new_password).len() < MIN_PASSWORD_BYTES {
        Err(ProfileError::PasswordTooShort)
    } else {
        match find_identity(rows, unicode_lower(email)) {
            None => Err(ProfileError::IdentityNotFound),
            Some(i) => match decrypted(rows[i].encrypted_secret_key, old_password) {
                Err(_) => Err(ProfileError::InvalidPassword),
                Ok(secret) => Ok((i, secret)),
            },
        }
    }
}

/// A wallet secret found among the first `n` rows is the one found among
/// all.
proof fn lemma_identity_stays(rows: Seq<WalletIdentityView>, email: Seq<char>, n: int)
    requires
        0 <= n <= rows.len(),
        find_identity(rows.take(n), email) is Some,
    ensures
        find_identity(rows, email) == find_identity(rows.take(n), email),
    decreases rows.len() - n,
{
    if n < rows.len() {
        assert(rows.take(n + 1).drop_last() == rows.take(n));
        lemma_identity_stays(rows, email, n + 1);
    } else {
        assert(rows.take(n) == rows);
    }
}

/// Preferences found among the first `n` rows are those found among all.
proof fn lemma_preferences_stay(rows: Seq<UserPreferencesView>, user: Seq<u8>, n: int)
    requires
        0 <= n <= rows.len(),
        find_preferences(rows.take(n), user) is Some,
    ensures
        find_preferences(rows, user) == find_preferences(rows.take(n), user),
    decreases rows.len() - n,
{
    if n < rows.len() {
        assert(rows.take(n + 1).drop_last() == rows.take(n));
        lemma_preferences_stay(rows, user, n + 1);
    } else {
        assert(rows.take(n) == rows);
    }
}

/// A session found among the first `n` rows is the one found among all.
proof fn lemma_session_stays(rows: Seq<UserSessionView>, id: Seq<char>, n: int)
    requires
        0 <= n <= rows.len(),
        find_session(rows.take(n), id) is Some,
    ensures
        find_session(rows, id) == find_session(rows.take(n), id),
    decreases rows.len() - n,
{
    if n < rows.len() {
        assert(rows.take(n + 1).drop_last() == rows.take(n));
        lemma_session_stays(rows, id, n + 1);
    } else {
        assert(rows.take(n) == rows);
    }
}

impl ProfileError {
    /// What to tell the caller.
    pub fn message(&self) -> (text: String)
        ensures
            text@ == match *self {
                ProfileError::Anonymous => "Anonymous users are not allowed"@,
                ProfileError::InvalidEmail => "Valid email is required"@,
                ProfileError::SecretRequired => "Secret key is required"@,
                ProfileError::PasswordTooShort => "Password must be at least 6 characters"@,
                ProfileError::IdentityExists => "Wallet identity already exists for this email"@,
                ProfileError::PasswordRequired => "Password is required"@,
                ProfileError::IdentityNotFound => "No wallet found for this email"@,
                ProfileError::InvalidPassword => "Invalid password"@,
                ProfileError::SessionNotFound => "Session not found"@,
            },
    {
        match self {
            ProfileError::Anonymous => String::from_str("Anonymous users are not allowed"),
            ProfileError::InvalidEmail => String::from_str("Valid email is required"),
            ProfileError::SecretRequired => String::from_str("Secret key is required"),
            ProfileError::PasswordTooShort => String::from_str(
                "Password must be at least 6 characters",
            ),
            ProfileError::IdentityExists => String::from_str(
                "Wallet identity already exists for this email",
            ),
            ProfileError::PasswordRequired => String::from_str("Password is required"),
            ProfileError::IdentityNotFound => String::from_str("No wallet found for this email"),
            ProfileError::InvalidPassword => String::from_str("Invalid password"),
            ProfileError::SessionNotFound => String::from_str("Session not found"),
        }
    }
}

/// The first position of `chars` from `from` on that holds a semicolon, or
/// the length of `chars`.
fn end_of_field(chars: &Vec<char>, from: usize) -> (end: usize)
    requires
        from <= chars.len(),
    ensures
        end == field_end(chars@, from as int),
        from <= end <= chars.len(),
{
    let mut i: usize = from;
    while i < chars.len() && chars[i] != ';'
        invariant
            from <= i <= chars.len(),
            field_end(chars@, from as int) == field_end(chars@, i as int),
        decreases chars.len() - i,
    {
        i += 1;
    }
    i
}

/// The characters of `chars` from `from` up to `to` as a string.
fn text_between(chars: &Vec<char>, from: usize, to: usize) -> (text: String)
    requires
        from <= to <= chars.len(),
    ensures
        text@ == chars@.subrange(from as int, to as int),
{
    let mut text = String::new();
    let mut i: usize = from;
    while i < to
        invariant
            from <= i <= to,
            to <= chars.len(),
            text@ == chars@.subrange(from as int, i as int),
        decreases to - i,
    {
        text.push(chars[i]);
        assert(chars@.subrange(from as int, i + 1) == chars@.subrange(from as int, i as int).push(
            chars@[i as int],
        ));
        i += 1;
    }
    text
}

/// Whether `chars` holds `mark` from the position `from` on.
fn has_mark(chars: &Vec<char>, from: usize, to: usize, mark: &str) -> (r: bool)
    requires
        from <= to <= chars.len(),
    ensures
        r == (to - from >= mark@.len() && chars@.subrange(from as int, to as int).take(
            mark@.len() as int,
        ) == mark@),
{
    let wanted = chars_of(mark);
    if to - from < wanted.len() {
        return false;
    }
    let ghost field = chars@.subrange(from as int, to as int);
    let mut i: usize = 0;
    while i < wanted.len()
        invariant
            i <= wanted.len(),
            from <= to <= chars.len(),
            wanted.len() <= to - from,
            wanted@ == mark@,
            field == chars@.subrange(from as int, to as int),
            field.take(i as int) == mark@.take(i as int),
        decreases wanted.len() - i,
    {
        if chars[from + i] != wanted[i] {
            assert(field.take(mark@.len() as int)[i as int] != mark@[i as int]);
            return false;
        }
        assert(field.take(i + 1) == field.take(i as int).push(field[i as int]));
        assert(mark@.take(i + 1) == mark@.take(i as int).push(mark@[i as int]));
        i += 1;
    }
    assert(mark@.take(mark@.len() as int) == mark@);
    true
}

/// Reads the wallet seed and name out of the text they are kept in.
pub fn read_saved_identity(kept: &str) -> (r: Option<(String, String)>)
    ensures
        match saved_identity(kept@) {
            Some(pair) => r matches Some(found) && found.0@ == pair.0 && found.1@ == pair.1,
            None => r is None,
        },
{
    let chars = chars_of(kept);
    let n = chars.len();
    proof {
        reveal_strlit("wallet_seed:");
        reveal_strlit("name:");
    }
    assert(chars@.subrange(0, n as int) == chars@);
    if !has_mark(&chars, 0, n, "wallet_seed:") {
        return None;
    }
    let first = end_of_field(&chars, 0);
    if first >= n {
        return None;
    }
    assert(first >= 12) by {
        if first < 12 {
            assert(chars@.take(12)[first as int] == "wallet_seed:"@[first as int]);
            lemma_field_end_holds(chars@, 0);
        }
    }
    let second = end_of_field(&chars, first + 1);
    let seed = text_between(&chars, 12, first);
    let name = if has_mark(&chars, first + 1, second, "name:") {
        let name = text_between(&chars, first + 6, second);
        assert(chars@.subrange(first + 6, second as int) == chars@.subrange(
            first + 1,
            second as int,
        ).skip(5));
        name
    } else {
        String::new()
    };
    Some((seed, name))
}

/// A field ends at a semicolon or at the end of the text.
proof fn lemma_field_end_holds(s: Seq<char>, from: int)
    requires
        0 <= from <= s.len(),
    ensures
        from <= field_end(s, from) <= s.len(),
        field_end(s, from) < s.len() ==> s[field_end(s, from)] == ';',
    decreases s.len() - from,
{
    if from < s.len() && s[from] != ';' {
        lemma_field_end_holds(s, from + 1);
    }
}

impl Profiles {
    /// Tables that hold nothing.
    pub fn new() -> (profiles: Profiles)
        ensures
            profiles@ == (ProfilesView {
                wallet_identities: Seq::empty(),
                user_preferences: Seq::empty(),
                user_sessions: Seq::empty(),
            }),
    {
        let profiles = Profiles {
            wallet_identities: Vec::new(),
            user_preferences: Vec::new(),
            user_sessions: Vec::new(),
        };
        assert(profiles@.wallet_identities =~= Seq::<WalletIdentityView>::empty());
        assert(profiles@.user_preferences =~= Seq::<UserPreferencesView>::empty());
        assert(profiles@.user_sessions =~= Seq::<UserSessionView>::empty());
        profiles
    }

    /// The position of the wallet secret kept for `email`, given in lower case.
    fn position_of_identity(&self, email: &str) -> (r: Option<usize>)
        ensures
            r is Some == find_identity(self@.wallet_identities, email@) is Some,
            r matches Some(i) ==> i < self.wallet_identities@.len() && find_identity(self@.wallet_identities, email@)
                == Some(i as int),
    {
        let ghost all = self@.wallet_identities;
        let mut i: usize = 0;
        while i < self.wallet_identities.len()
            invariant
                i <= self.wallet_identities.len(),
                all == views_of(self.wallet_identities@),
                find_identity(all.take(i as int), email@) is None,
            decreases self.wallet_identities.len() - i,
        {
            assert(all.take(i + 1).drop_last() == all.take(i as int));
            assert(all.take(i + 1).last() == self.wallet_identities@[i as int]@);
            if same_text(self.wallet_identities[i].email.as_str(), email) {
                proof {
                    lemma_identity_stays(all, email@, i as int + 1);
                }
                return Some(i);
            }
            i += 1;
        }
        assert(all.take(self.wallet_identities@.len() as int) == all);
        None
    }

    /// The position of the preferences kept for `user`.
    fn position_of_preferences(&self, user: &AccountId) -> (r: Option<usize>)
        ensures
            r is Some == find_preferences(self@.user_preferences, user@) is Some,
            r matches Some(i) ==> i < self.user_preferences@.len() && find_preferences(self@.user_preferences, user@)
                == Some(i as int),
    {
        let ghost all = self@.user_preferences;
        let mut i: usize = 0;
        while i < self.user_preferences.len()
            invariant
                i <= self.user_preferences.len(),
                all == views_of(self.user_preferences@),
                find_preferences(all.take(i as int), user@) is None,
            decreases self.user_preferences.len() - i,
        {
            assert(all.take(i + 1).drop_last() == all.take(i as int));
            assert(all.take(i + 1).last() == self.user_preferences@[i as int]@);
            if self.user_preferences[i].user_id.same(user) {
                proof {
                    lemma_preferences_stay(all, user@, i as int + 1);
                }
                return Some(i);
            }
            i += 1;
        }
        assert(all.take(self.user_preferences@.len() as int) == all);
        None
    }

    /// The position of the session with the identifier `id`.
    fn position_of_session(&self, id: &str) -> (r: Option<usize>)
        ensures
            r is Some == find_session(self@.user_sessions, id@) is Some,
            r matches Some(i) ==> i < self.user_sessions@.len() && find_session(self@.user_sessions, id@)
                == Some(i as int),
    {
        let ghost all = self@.user_sessions;
        let mut i: usize = 0;
        while i < self.user_sessions.len()
            invariant
                i <= self.user_sessions.len(),
                all == views_of(self.user_sessions@),
                find_session(all.take(i as int), id@) is None,
            decreases self.user_sessions.len() - i,
        {
            assert(all.take(i + 1).drop_last() == all.take(i as int));
            assert(all.take(i + 1).last() == self.user_sessions@[i as int]@);
            if same_text(self.user_sessions[i].session_id.as_str(), id) {
                proof {
                    lemma_session_stays(all, id@, i as int + 1);
                }
                return Some(i);
            }
            i += 1;
        }
        assert(all.take(self.user_sessions@.len() as int) == all);
        None
    }

    /// Keeps the wallet secret `secret_key_hex` for `email` under
    /// `password`. The address is kept in lower case; one secret is kept per
    /// address.
    pub fn save_wallet_identity_by_email(
        &mut self,
        email: &str,
        secret_key_hex: &str,
        password: &str,
        wallet_name: String,
        now: u64,
    ) -> (r: Result<(), ProfileError>)
        ensures
            r == saving_check(old(self)@.wallet_identities, email@, secret_key_hex@, password@),
            r is Err ==> final(self)@ == old(self)@,
            r is Ok ==> final(self)@ == (ProfilesView {
                wallet_identities: old(self)@.wallet_identities.push(
                    WalletIdentityView {
                        email: unicode_lower(email@),
                        encrypted_secret_key: encrypted(secret_key_hex@, password@),
                        wallet_name: wallet_name@,
                        created_at: now,
                        last_accessed: now,
                        access_count: 0,
                    },
                ),
                ..old(self)@
            }),
    {
        if !is_valid_email(email) {
            return Err(ProfileError::InvalidEmail);
        }
        if secret_key_hex.is_empty() {
            return Err(ProfileError::SecretRequired);
        }
        if password.as_bytes().len() < MIN_PASSWORD_BYTES {
            return Err(ProfileError::PasswordTooShort);
        }
        let email_lower = to_unicode_lower(email);
        if self.position_of_identity(email_lower.as_str()).is_some() {
            return Err(ProfileError::IdentityExists);
        }
        let identity = EncryptedWalletIdentity {
            email: email_lower,
            encrypted_secret_key: simple_encrypt(secret_key_hex, password),
            wallet_name,
            created_at: now,
            last_accessed: now,
            access_count: 0,
        };
        let ghost kept = identity@;
        self.wallet_identities.push(identity);
        assert(self@.wallet_identities =~= old(self)@.wallet_identities.push(kept));
        Ok(())
    }

    /// Reads the wallet secret kept for `email` with `password`. A read
    /// that succeeds is counted and stamped on the row.
    pub fn get_wallet_identity_by_email(&mut self, email: &str, password: &str, now: u64) -> (r: Result<
        WalletIdentityResult,
        ProfileError,
    >)
        ensures
            match reading_check(old(self)@.wallet_identities, email@, password@) {
                Err(error) => r is Err && r->Err_0 == error && final(self)@ == old(self)@,
                Ok(found) => {
                    let row = old(self)@.wallet_identities[found.0];
                    let count = if row.access_count == u64::MAX {
                        u64::MAX
                    } else {
                        (row.access_count + 1) as u64
                    };
                    &&& r is Ok
                    &&& r->Ok_0.secret_key_hex@ == found.1
                    &&& r->Ok_0.wallet_name@ == row.wallet_name
                    &&& r->Ok_0.created_at == row.created_at
                    &&& r->Ok_0.last_accessed == now
                    &&& r->Ok_0.access_count == count
                    &&& final(self)@ == (ProfilesView {
                        wallet_identities: old(self)@.wallet_identities.update(
                            found.0,
                            WalletIdentityView { last_accessed: now, access_count: count, ..row },
                        ),
                        ..old(self)@
                    })
                },
            },
    {
        if !is_valid_email(email) {
            return Err(ProfileError::InvalidEmail);
        }
        if password.is_empty() {
            return Err(ProfileError::PasswordRequired);
        }
        let email_lower = to_unicode_lower(email);
        let at = match self.position_of_identity(email_lower.as_str()) {
            Some(at) => at,
            None => {
                return Err(ProfileError::IdentityNotFound);
            },
        };
        assert(self@.wallet_identities[at as int] == self.wallet_identities@[at as int]@);
        let secret_key_hex = match simple_decrypt(
            self.wallet_identities[at].encrypted_secret_key.as_str(),
            password,
        ) {
            Ok(secret) => secret,
            Err(_) => {
                return Err(ProfileError::InvalidPassword);
            },
        };
        let row = &self.wallet_identities[at];
        let count = row.access_count.saturating_add(1);
        let result = WalletIdentityResult {
            secret_key_hex,
            wallet_name: row.wallet_name.clone(),
            created_at: row.created_at,
            last_accessed: now,
            access_count: count,
        };
        let updated = EncryptedWalletIdentity {
            email: row.email.clone(),
            encrypted_secret_key: row.encrypted_secret_key.clone(),
            wallet_name: row.wallet_name.clone(),
            created_at: row.created_at,
            last_accessed: now,
            access_count: count,
        };
        let ghost kept = updated@;
        self.wallet_identities.set(at, updated);
        assert(self@.wallet_identities =~= old(self)@.wallet_identities.update(at as int, kept));
        Ok(result)
    }

    /// Whether a wallet secret is kept for `email`.
    pub fn check_wallet_identity_exists(&self, email: &str) -> (r: bool)
        ensures
            r == find_identity(self@.wallet_identities, unicode_lower(email@)) is Some,
    {
        let email_lower = to_unicode_lower(email);
        self.position_of_identity(email_lower.as_str()).is_some()
    }

    /// Puts the wallet secret kept for `email` under another password: it is
    /// read with the old one and kept again with the new one.
    pub fn update_wallet_identity_password(
        &mut self,
        email: &str,
        old_password: &str,
        new_password: &str,
        now: u64,
    ) -> (r: Result<(), ProfileError>)
        ensures
            match change_check(old(self)@.wallet_identities, email@, old_password@, new_password@) {
                Err(error) => r is Err && r->Err_0 == error && final(self)@ == old(self)@,
                Ok(found) => r is Ok && final(self)@ == (ProfilesView {
                    wallet_identities: old(self)@.wallet_identities.update(
                        found.0,
                        WalletIdentityView {
                            encrypted_secret_key: encrypted(found.1, new_password@),
                            last_accessed: now,
                            ..old(self)@.wallet_identities[found.0]
                        },
                    ),
                    ..old(self)@
                }),
            },
    {
        if new_password.as_bytes().len() < MIN_PASSWORD_BYTES {
            return Err(ProfileError::PasswordTooShort);
        }
        let email_lower = to_unicode_lower(email);
        let at = match self.position_of_identity(email_lower.as_str()) {
            Some(at) => at,
            None => {
                return Err(ProfileError::IdentityNotFound);
            },
        };
        assert(self@.wallet_identities[at as int] == self.wallet_identities@[at as int]@);
        let secret = match simple_decrypt(
            self.wallet_identities[at].encrypted_secret_key.as_str(),
            old_password,
        ) {
            Ok(secret) => secret,
            Err(_) => {
                return Err(ProfileError::InvalidPassword);
            },
        };
        let row = &self.wallet_identities[at];
        let updated = EncryptedWalletIdentity {
            email: row.email.clone(),
            encrypted_secret_key: simple_encrypt(secret.as_str(), new_password),
            wallet_name: row.wallet_name.clone(),
            created_at: row.created_at,
            last_accessed: now,
            access_count: row.access_count,
        };
        let ghost kept = updated@;
        self.wallet_identities.set(at, updated);
        assert(self@.wallet_identities =~= old(self)@.wallet_identities.update(at as int, kept));
        Ok(())
    }

    /// The preferences of `caller` as they are kept, or those of an account
    /// that has chosen none.
    fn preferences_or_default(&self, caller: &AccountId, now: u64) -> (r: UserPreferences)
        ensures
            r@ == current_preferences(self@.user_preferences, caller@, now),
    {
        match self.position_of_preferences(caller) {
            Some(i) => {
                assert(self@.user_preferences[i as int] == self.user_preferences@[i as int]@);
                self.user_preferences[i].clone()
            },
            None => UserPreferences {
                user_id: caller.clone(),
                preferred_currency: String::from_str("USD"),
                notification_settings: NotificationSettings {
                    email_notifications: true,
                    push_notifications: true,
                    transaction_alerts: true,
                    marketing_emails: false,
                },
                ui_theme: String::from_str("light"),
                language: String::from_str("en"),
                timezone: String::from_str("UTC"),
                updated_at: now,
            },
        }
    }

    /// Keeps `preferences` for their account, in the place of those that
    /// were kept for it, if any.
    fn store_preferences(&mut self, preferences: UserPreferences)
        ensures
            final(self)@ == (ProfilesView {
                user_preferences: with_preferences(old(self)@.user_preferences, preferences@),
                ..old(self)@
            }),
    {
        match self.position_of_preferences(&preferences.user_id) {
            Some(i) => {
                self.user_preferences.set(i, preferences);
                assert(self@.user_preferences =~= old(self)@.user_preferences.update(
                    i as int,
                    preferences@,
                ));
            },
            None => {
                self.user_preferences.push(preferences);
                assert(self@.user_preferences =~= old(self)@.user_preferences.push(preferences@));
            },
        }
    }

    /// Keeps a wallet seed and its name with the preferences of `caller`, in
    /// the field of the time zone.
    pub fn save_wallet_identity(
        &mut self,
        caller: &AccountId,
        encrypted_seed: &str,
        wallet_name: &str,
        now: u64,
    ) -> (r: Result<(), ProfileError>)
        ensures
            caller@ == anonymous_bytes() ==> r == Err::<(), ProfileError>(ProfileError::Anonymous)
                && final(self)@ == old(self)@,
            caller@ != anonymous_bytes() ==> r is Ok && final(self)@ == (ProfilesView {
                user_preferences: with_preferences(
                    old(self)@.user_preferences,
                    UserPreferencesView {
                        user_id: caller@,
                        timezone: "wallet_seed:"@ + encrypted_seed@ + ";name:"@ + wallet_name@,
                        updated_at: now,
                        ..current_preferences(old(self)@.user_preferences, caller@, now)
                    },
                ),
                ..old(self)@
            }),
    {
        if caller.is_anonymous() {
            return Err(ProfileError::Anonymous);
        }
        let current = self.preferences_or_default(caller, now);
        let mut wallet_info = String::from_str("wallet_seed:");
        wallet_info.append(encrypted_seed);
        wallet_info.append(";name:");
        wallet_info.append(wallet_name);
        let updated = UserPreferences {
            user_id: caller.clone(),
            preferred_currency: current.preferred_currency,
            notification_settings: current.notification_settings,
            ui_theme: current.ui_theme,
            language: current.language,
            timezone: wallet_info,
            updated_at: now,
        };
        self.store_preferences(updated);
        Ok(())
    }

    /// The wallet seed and name kept with the preferences of `caller`.
    pub fn get_saved_wallet_identity(&self, caller: &AccountId) -> (r: Option<(String, String)>)
        ensures
            match find_preferences(self@.user_preferences, caller@) {
                None => r is None,
                Some(i) => match saved_identity(self@.user_preferences[i].timezone) {
                    Some(pair) => r matches Some(found) && found.0@ == pair.0 && found.1@
                        == pair.1,
                    None => r is None,
                },
            },
    {
        match self.position_of_preferences(caller) {
            Some(i) => {
                assert(self@.user_preferences[i as int] == self.user_preferences@[i as int]@);
                read_saved_identity(self.user_preferences[i].timezone.as_str())
            },
            None => None,
        }
    }

    /// Changes the preferences of `caller`: each value that is given takes
    /// the place of the one that is kept.
    pub fn update_user_preferences(
        &mut self,
        caller: &AccountId,
        preferred_currency: Option<String>,
        notification_settings: Option<NotificationSettings>,
        ui_theme: Option<String>,
        language: Option<String>,
        timezone: Option<String>,
        now: u64,
    ) -> (r: Result<UserPreferences, ProfileError>)
        ensures
            caller@ == anonymous_bytes() ==> r is Err && r->Err_0 == ProfileError::Anonymous
                && final(self)@ == old(self)@,
            caller@ != anonymous_bytes() ==> {
                let kept = current_preferences(old(self)@.user_preferences, caller@, now);
                &&& r is Ok
                &&& r->Ok_0@ == (UserPreferencesView {
                    user_id: caller@,
                    preferred_currency: chosen_text(
                        crate::types::text_of(preferred_currency),
                        kept.preferred_currency,
                    ),
                    notification_settings: match notification_settings {
                        Some(settings) => settings,
                        None => kept.notification_settings,
                    },
                    ui_theme: chosen_text(crate::types::text_of(ui_theme), kept.ui_theme),
                    language: chosen_text(crate::types::text_of(language), kept.language),
                    timezone: chosen_text(crate::types::text_of(timezone), kept.timezone),
                    updated_at: now,
                })
                &&& final(self)@ == (ProfilesView {
                    user_preferences: with_preferences(old(self)@.user_preferences, r->Ok_0@),
                    ..old(self)@
                })
            },
    {
        if caller.is_anonymous() {
            return Err(ProfileError::Anonymous);
        }
        let kept = self.preferences_or_default(caller, now);
        let preferences = UserPreferences {
            user_id: caller.clone(),
            preferred_currency: match preferred_currency {
                Some(text) => text,
                None => kept.preferred_currency,
            },
            notification_settings: match notification_settings {
                Some(settings) => settings,
                None => kept.notification_settings,
            },
            ui_theme: match ui_theme {
                Some(text) => text,
                None => kept.ui_theme,
            },
            language: match language {
                Some(text) => text,
                None => kept.language,
            },
            timezone: match timezone {
                Some(text) => text,
                None => kept.timezone,
            },
            updated_at: now,
        };
        let copy = preferences.clone();
        self.store_preferences(preferences);
        Ok(copy)
    }

    /// The preferences kept for `caller`.
    pub fn get_user_preferences(&self, caller: &AccountId) -> (r: Option<UserPreferences>)
        ensures
            match find_preferences(self@.user_preferences, caller@) {
                Some(i) => r is Some && r->0@ == self@.user_preferences[i],
                None => r is None,
            },
    {
        match self.position_of_preferences(caller) {
            Some(i) => {
                assert(self@.user_preferences[i as int] == self.user_preferences@[i as int]@);
                Some(self.user_preferences[i].clone())
            },
            None => None,
        }
    }

    /// Opens a session of `caller` at `now`.
    pub fn create_user_session(
        &mut self,
        caller: &AccountId,
        ip_address: String,
        user_agent: String,
        now: u64,
    ) -> (r: Result<UserSession, ProfileError>)
        ensures
            caller@ == anonymous_bytes() ==> r is Err && r->Err_0 == ProfileError::Anonymous
                && final(self)@ == old(self)@,
            caller@ != anonymous_bytes() ==> r is Ok && r->Ok_0@ == (UserSessionView {
                user_id: caller@,
                session_id: session_id_for(caller@, now),
                created_at: now,
                last_activity: now,
                ip_address: ip_address@,
                user_agent: user_agent@,
                is_active: true,
            }) && final(self)@ == (ProfilesView {
                user_sessions: with_session(old(self)@.user_sessions, r->Ok_0@),
                ..old(self)@
            }),
    {
        if caller.is_anonymous() {
            return Err(ProfileError::Anonymous);
        }
        let text = caller.to_text();
        let chars = chars_of(text.as_str());
        let mut session_id = String::from_str("SES_");
        let count: usize = if chars.len() < 8 {
            chars.len()
        } else {
            8
        };
        let mut i: usize = 0;
        while i < count
            invariant
                i <= count,
                count <= chars.len(),
                session_id@ == "SES_"@ + chars@.take(i as int),
            decreases count - i,
        {
            session_id.push(chars[i]);
            i += 1;
        }
        assert(chars@.take(chars@.len() as int) == chars@);
        session_id.append("_");
        push_decimal(&mut session_id, now);
        let session = UserSession {
            user_id: caller.clone(),
            session_id,
            created_at: now,
            last_activity: now,
            ip_address,
            user_agent,
            is_active: true,
        };
        let copy = session.clone();
        match self.position_of_session(session.session_id.as_str()) {
            Some(at) => {
                self.user_sessions.set(at, session);
                assert(self@.user_sessions =~= old(self)@.user_sessions.update(at as int, copy@));
            },
            None => {
                self.user_sessions.push(session);
                assert(self@.user_sessions =~= old(self)@.user_sessions.push(copy@));
            },
        }
        Ok(copy)
    }

    /// Stamps the session `session_id` as active at `now`.
    pub fn update_session_activity(&mut self, session_id: &str, now: u64) -> (r: Result<
        UserSession,
        ProfileError,
    >)
        ensures
            match find_session(old(self)@.user_sessions, session_id@) {
                None => r is Err && r->Err_0 == ProfileError::SessionNotFound && final(self)@
                    == old(self)@,
                Some(i) => r is Ok && r->Ok_0@ == (UserSessionView {
                    last_activity: now,
                    ..old(self)@.user_sessions[i]
                }) && final(self)@ == (ProfilesView {
                    user_sessions: old(self)@.user_sessions.update(i, r->Ok_0@),
                    ..old(self)@
                }),
            },
    {
        match self.position_of_session(session_id) {
            None => Err(ProfileError::SessionNotFound),
            Some(at) => {
                assert(self@.user_sessions[at as int] == self.user_sessions@[at as int]@);
                let mut session = self.user_sessions[at].clone();
                session.last_activity = now;
                let copy = session.clone();
                self.user_sessions.set(at, session);
                assert(self@.user_sessions =~= old(self)@.user_sessions.update(at as int, copy@));
                Ok(copy)
            },
        }
    }

    /// Ends the session `session_id`.
    pub fn end_user_session(&mut self, session_id: &str) -> (r: Result<(), ProfileError>)
        ensures
            match find_session(old(self)@.user_sessions, session_id@) {
                None => r is Err && r->Err_0 == ProfileError::SessionNotFound && final(self)@
                    == old(self)@,
                Some(i) => r is Ok && final(self)@ == (ProfilesView {
                    user_sessions: old(self)@.user_sessions.update(
                        i,
                        UserSessionView { is_active: false, ..old(self)@.user_sessions[i] },
                    ),
                    ..old(self)@
                }),
            },
    {
        match self.position_of_session(session_id) {
            None => Err(ProfileError::SessionNotFound),
            Some(at) => {
                assert(self@.user_sessions[at as int] == self.user_sessions@[at as int]@);
                let mut session = self.user_sessions[at].clone();
                session.is_active = false;
                let ghost kept = session@;
                self.user_sessions.set(at, session);
                assert(self@.user_sessions =~= old(self)@.user_sessions.update(at as int, kept));
                Ok(())
            },
        }
    }

    /// The sessions of `caller` that were not ended.
    pub fn get_active_sessions(&self, caller: &AccountId) -> (r: Vec<UserSession>)
        ensures
            views_of(r@) == chosen(
                self@.user_sessions,
                |s: UserSessionView| s.user_id == caller@ && s.is_active,
            ),
    {
        let mut marks: Vec<bool> = Vec::new();
        let mut i: usize = 0;
        while i < self.user_sessions.len()
            invariant
                i <= self.user_sessions.len(),
                marks@.len() == i,
                forall|k: int|
                    0 <= k < i ==> marks@[k] == (self@.user_sessions[k].user_id == caller@
                        && self@.user_sessions[k].is_active),
            decreases self.user_sessions.len() - i,
        {
            let session = &self.user_sessions[i];
            marks.push(session.user_id.same(caller) && session.is_active);
            i += 1;
        }
        assert(marks@ =~= Seq::new(
            self@.user_sessions.len(),
            |i: int|
                (|s: UserSessionView| s.user_id == caller@ && s.is_active)(self@.user_sessions[i]),
        ));
        pick_marked(&self.user_sessions, &marks)
    }
}

} // verus!
