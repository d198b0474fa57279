//! The accounts that are registered with the gateway.

use crate::gateway::{
    extends, is_registered, position_of_user, user_position, Gateway, GatewayView,
};
use crate::identity::{anonymous_bytes, principal_text, AccountId};
use crate::rows::views_of;
use crate::text::{chars_of, same_text};
use crate::types::{text_of, User, UserView};
use vstd::prelude::*;
use vstd::string::StringExecFns;

verus! {

/// Why an account was not registered or changed.
#[derive(Clone, Copy, Debug, PartialEq, Eq, Structural)]
pub enum RegistryError {
    /// The caller is not authenticated.
    Anonymous,
    /// The caller is registered already.
    AlreadyRegistered,
    /// No wallet address was given.
    EmptyWalletAddress,
    /// The e-mail address is empty or has no `@`.
    InvalidEmail,
    /// Another account has this e-mail address.
    EmailTaken,
    /// The caller is not registered.
    NotFound,
}

/// Whether an account has the e-mail address `email`.
pub open spec fn email_taken(users: Seq<UserView>, email: Seq<char>) -> bool {
    exists|i: int| 0 <= i < users.len() && (#[trigger] users[i]).email == Some(email)
}

/// The position of the first account with the e-mail address `email`.
pub open spec fn email_position(users: Seq<UserView>, email: Seq<char>) -> Option<int>
    decreases users.len(),
{
    if users.len() == 0 {
        None
    } else {
        match email_position(users.drop_last(), email) {
            Some(i) => Some(i),
            None => if users.last().email == Some(email) {
                Some(users.len() - 1)
            } else {
                None
            },
        }
    }
}

/// An e-mail address is found at a position exactly where it is taken, and
/// then it is the address of the account at that position.
pub proof fn lemma_email_position(users: Seq<UserView>, email: Seq<char>)
    ensures
        email_position(users, email) is Some == email_taken(users, email),
        email_position(users, email) matches Some(i) ==> 0 <= i < users.len() && users[i].email
            == Some(email),
    decreases users.len(),
{
    if users.len() > 0 {
        let front = users.drop_last();
        lemma_email_position(front, email);
        if email_taken(front, email) {
            let i = choose|i: int| 0 <= i < front.len() && (#[trigger] front[i]).email == Some(email);
            assert(users[i] == front[i]);
        }
        if email_taken(users, email) && !email_taken(front, email) {
            let i = choose|i: int| 0 <= i < users.len() && (#[trigger] users[i]).email == Some(email);
            if i < front.len() {
                assert(front[i] == users[i]);
            }
        }
        match email_position(front, email) {
            Some(i) => {
                assert(front[i] == users[i]);
            },
            None => {},
        }
    }
}

/// An e-mail address found among the first `n` accounts is the one found
/// among all.
proof fn lemma_email_stays(users: Seq<UserView>, email: Seq<char>, n: int)
    requires
        0 <= n <= users.len(),
        email_position(users.take(n), email) is Some,
    ensures
        email_position(users, email) == email_position(users.take(n), email),
    decreases users.len() - n,
{
    if n < users.len() {
        assert(users.take(n + 1).drop_last() == users.take(n));
        lemma_email_stays(users, email, n + 1);
    } else {
        assert(users.take(n) == users);
    }
}

/// Whether `email` can be an e-mail address: it is not empty and holds `@`.
pub open spec fn is_email(email: Seq<char>) -> bool {
    email.len() > 0 && email.contains('@')
}

/// The account that is registered for `caller` at `now`.
pub open spec fn new_user(
    caller: Seq<u8>,
    wallet_address: Seq<char>,
    username: Option<Seq<char>>,
    email: Option<Seq<char>>,
    now: u64,
) -> UserView {
    UserView { id: caller, wallet_address, created_at: now, username, email }
}

/// What registering `caller` gives: an unauthenticated caller, a caller that
/// is registered and an empty wallet address are refused, in this order.
pub open spec fn registration(
    state: GatewayView,
    caller: Seq<u8>,
    wallet_address: Seq<char>,
    username: Option<Seq<char>>,
    email: Option<Seq<char>>,
    now: u64,
) -> Result<UserView, RegistryError> {
    if caller == anonymous_bytes() {
        Err(RegistryError::Anonymous)
    } else if is_registered(state.users, caller) {
        Err(RegistryError::AlreadyRegistered)
    } else if wallet_address.len() == 0 {
        Err(RegistryError::EmptyWalletAddress)
    } else {
        Ok(new_user(caller, wallet_address, username, email, now))
    }
}

/// What registering `caller` under an e-mail address gives: an
/// unauthenticated caller, an address that is none, an address that is taken
/// and a caller that is registered are refused, in this order.
pub open spec fn registration_by_email(
    state: GatewayView,
    caller: Seq<u8>,
    email: Seq<char>,
    username: Option<Seq<char>>,
    wallet_address: Seq<char>,
    now: u64,
) -> Result<UserView, RegistryError> {
    if caller == anonymous_bytes() {
        Err(RegistryError::Anonymous)
    } else if !is_email(email) {
        Err(RegistryError::InvalidEmail)
    } else if email_taken(state.users, email) {
        Err(RegistryError::EmailTaken)
    } else if is_registered(state.users, caller) {
        Err(RegistryError::AlreadyRegistered)
    } else {
        Ok(new_user(caller, wallet_address, username, Some(email), now))
    }
}

impl RegistryError {
    /// What to tell the caller.
    pub fn message(&self) -> (text: String)
        ensures
            text@ == match *self {
                RegistryError::Anonymous => "Anonymous users cannot register"@,
                RegistryError::AlreadyRegistered => "User already registered"@,
                RegistryError::EmptyWalletAddress => "Wallet address cannot be empty"@,
                RegistryError::InvalidEmail => "Valid email is required"@,
                RegistryError::EmailTaken => "Email already registered. Please use a different email."@,
                RegistryError::NotFound => "User not found. Please register first"@,
            },
    {
        match self {
            RegistryError::Anonymous => String::from_str("Anonymous users cannot register"),
            RegistryError::AlreadyRegistered => String::from_str("User already registered"),
            RegistryError::EmptyWalletAddress => String::from_str("Wallet address cannot be empty"),
            RegistryError::InvalidEmail => String::from_str("Valid email is required"),
            RegistryError::EmailTaken => String::from_str(
                "Email already registered. Please use a different email.",
            ),
            RegistryError::NotFound => String::from_str("User not found. Please register first"),
        }
    }
}

/// Whether `email` can be an e-mail address.
pub fn is_valid_email(email: &str) -> (r: bool)
    ensures
        r == is_email(email@),
{
    let chars = chars_of(email);
    let mut i: usize = 0;
    while i < chars.len()
        invariant
            i <= chars.len(),
            chars@ == email@,
            forall|k: int| 0 <= k < i ==> chars@[k] != '@',
        decreases chars.len() - i,
    {
        if chars[i] == '@' {
            return true;
        }
        i += 1;
    }
    false
}

impl Gateway {
    /// The position of the first account with the e-mail address `email`.
    fn position_of_email(&self, email: &str) -> (r: Option<usize>)
        ensures
            r is Some == email_position(self@.users, email@) is Some,
            r is Some == email_taken(self@.users, email@),
            r matches Some(i) ==> i < self.users@.len() && email_position(self@.users, email@)
                == Some(i as int),
    {
        let ghost all = self@.users;
        let mut i: usize = 0;
        proof {
            lemma_email_position(all, email@);
        }
        while i < self.users.len()
            invariant
                i <= self.users.len(),
                all == views_of(self.users@),
                email_position(all.take(i as int), email@) is None,
            decreases self.users.len() - i,
        {
            assert(all.take(i + 1).drop_last() == all.take(i as int));
            assert(all.take(i + 1).last() == self.users@[i as int]@);
            let found = match &self.users[i].email {
                Some(own) => same_text(own.as_str(), email),
                None => false,
            };
            if found {
                proof {
                    lemma_email_stays(all, email@, i as int + 1);
                }
                return Some(i);
            }
            i += 1;
        }
        assert(all.take(self.users@.len() as int) == all);
        None
    }

    /// Registers `caller` as an account.
    pub fn register_user(
        &mut self,
        caller: &AccountId,
        wallet_address: String,
        username: Option<String>,
        email: Option<String>,
        now: u64,
    ) -> (r: Result<User, RegistryError>)
        ensures
            extends(old(self)@, final(self)@),
            match registration(
                old(self)@,
                caller@,
                wallet_address@,
                text_of(username),
                text_of(email),
                now,
            ) {
                Err(error) => r is Err && r->Err_0 == error && final(self)@ == old(self)@,
                Ok(user) => r is Ok && r->Ok_0@ == user && final(self)@ == (GatewayView {
                    users: old(self)@.users.push(user),
                    ..old(self)@
                }),
            },
    {
        if caller.is_anonymous() {
            return Err(RegistryError::Anonymous);
        }
        if self.is_user_registered(caller) {
            return Err(RegistryError::AlreadyRegistered);
        }
        if wallet_address.as_str().is_empty() {
            return Err(RegistryError::EmptyWalletAddress);
        }
        let user = User {
            id: caller.clone(),
            wallet_address,
            created_at: now,
            username,
            email,
        };
        let copy = user.clone();
        self.users.push(user);
        assert(self@.users =~= old(self)@.users.push(copy@));
        Ok(copy)
    }

    /// Registers `caller` as an account under an e-mail address that no
    /// other account has.
    pub fn register_user_by_email(
        &mut self,
        caller: &AccountId,
        email: String,
        username: Option<String>,
        wallet_address: String,
        now: u64,
    ) -> (r: Result<User, RegistryError>)
        ensures
            extends(old(self)@, final(self)@),
            match registration_by_email(
                old(self)@,
                caller@,
                email@,
                text_of(username),
                wallet_address@,
                now,
            ) {
                Err(error) => r is Err && r->Err_0 == error && final(self)@ == old(self)@,
                Ok(user) => r is Ok && r->Ok_0@ == user && final(self)@ == (GatewayView {
                    users: old(self)@.users.push(user),
                    ..old(self)@
                }),
            },
    {
        if caller.is_anonymous() {
            return Err(RegistryError::Anonymous);
        }
        if !is_valid_email(email.as_str()) {
            return Err(RegistryError::InvalidEmail);
        }
        if self.position_of_email(email.as_str()).is_some() {
            return Err(RegistryError::EmailTaken);
        }
        if self.is_user_registered(caller) {
            return Err(RegistryError::AlreadyRegistered);
        }
        let user = User {
            id: caller.clone(),
            wallet_address,
            created_at: now,
            username,
            email: Some(email),
        };
        let copy = user.clone();
        self.users.push(user);
        assert(self@.users =~= old(self)@.users.push(copy@));
        Ok(copy)
    }

    /// Whether no account has the e-mail address `email`.
    pub fn check_email_availability(&self, email: &str) -> (r: bool)
        ensures
            r == !email_taken(self@.users, email@),
    {
        self.position_of_email(email).is_none()
    }

    /// The first account with the e-mail address `email`.
    pub fn get_user_by_email(&self, email: &str) -> (r: Option<User>)
        ensures
            match email_position(self@.users, email@) {
                Some(i) => r is Some && r->0@ == self@.users[i],
                None => r is None,
            },
    {
        match self.position_of_email(email) {
            Some(i) => {
                assert(self@.users[i as int] == self.users@[i as int]@);
                Some(self.users[i].clone())
            },
            None => None,
        }
    }

    /// The account of `caller`.
    pub fn get_user(&self, caller: &AccountId) -> (r: Option<User>)
        ensures
            match user_position(self@.users, caller@) {
                Some(i) => r is Some && r->0@ == self@.users[i],
                None => r is None,
            },
    {
        self.get_user_by_id(caller)
    }

    /// Gives the account of `caller` another name and e-mail address.
    pub fn update_user_profile(
        &mut self,
        caller: &AccountId,
        username: Option<String>,
        email: Option<String>,
    ) -> (r: Result<User, RegistryError>)
        ensures
            extends(old(self)@, final(self)@),
            caller@ == anonymous_bytes() ==> r is Err && r->Err_0 == RegistryError::Anonymous
                && final(self)@ == old(self)@,
            caller@ != anonymous_bytes() ==> match user_position(old(self)@.users, caller@) {
                None => r is Err && r->Err_0 == RegistryError::NotFound && final(self)@ == old(
                    self,
                )@,
                Some(i) => r is Ok && r->Ok_0@ == (UserView {
                    username: text_of(username),
                    email: text_of(email),
                    ..old(self)@.users[i]
                }) && final(self)@ == (GatewayView {
                    users: old(self)@.users.update(i, r->Ok_0@),
                    ..old(self)@
                }),
            },
    {
        if caller.is_anonymous() {
            return Err(RegistryError::Anonymous);
        }
        match position_of_user(&self.users, caller) {
            None => Err(RegistryError::NotFound),
            Some(i) => {
                let current = &self.users[i];
                assert(self@.users[i as int] == current@);
                let user = User {
                    id: current.id.clone(),
                    wallet_address: current.wallet_address.clone(),
                    created_at: current.created_at,
                    username,
                    email,
                };
                let copy = user.clone();
                self.users.set(i, user);
                assert(self@.users =~= old(self)@.users.update(i as int, copy@));
                Ok(copy)
            },
        }
    }

    /// All accounts, each with the textual form of its identity.
    pub fn debug_get_all_users(&self) -> (all: Vec<(String, User)>)
        ensures
            all@.len() == self@.users.len(),
            forall|i: int|
                0 <= i < all@.len() ==> (#[trigger] all@[i]).0@ == principal_text(
                    self@.users[i].id,
                ) && all@[i].1@ == self@.users[i],
    {
        let mut all: Vec<(String, User)> = Vec::new();
        let mut i: usize = 0;
        while i < self.users.len()
            invariant
                i <= self.users.len(),
                all@.len() == i,
                forall|k: int|
                    0 <= k < i ==> (#[trigger] all@[k]).0@ == principal_text(self@.users[k].id)
                        && all@[k].1@ == self@.users[k],
            decreases self.users.len() - i,
        {
            assert(self@.users[i as int] == self.users@[i as int]@);
            all.push((self.users[i].id.to_text(), self.users[i].clone()));
            i += 1;
        }
        all
    }

    /// The number of accounts.
    pub fn debug_get_user_count(&self) -> (count: u64)
        ensures
            count == self@.users.len(),
    {
        self.users.len() as u64
    }
}

} // verus!
