//! Account registrar and store model: an in-memory account table with the
//! uniqueness guarantee the relational store enforces through its unique
//! constraint on logins. Registration checks availability, hashes, and
//! persists atomically with respect to this store value, turning a
//! duplicate login into a distinguishable conflict; login fetches the
//! stored record, verifies the password and issues a signed token.

use vstd::prelude::*;
use vstd::string::StringSliceAdditionalSpecFns;
use vstd::utf8::is_ascii_chars;
use crate::credentials::fits_argon2;
use crate::credentials::generate_salt;
use crate::credentials::hash_of;
use crate::credentials::hash_password;
use crate::credentials::is_valid_salt;
use crate::credentials::lemma_valid_salt_fits_argon2;
use crate::credentials::verify_password;
use crate::errors::ApiError;
use crate::token::TokenClaims;
use crate::token::claims_of;
use crate::token::issue_token;
use crate::token::token_of;

verus! {

/// The security level every self-registered account starts with: the
/// standard user tier. A privileged caller may override it through
/// `register_with_level`.
pub const DEFAULT_SECURITY_LVL: i32 = 2;

/// One identity record: unique id and login, the derived password hash,
/// the per-account salt, and the role tag.
#[derive(Clone, Debug)]
pub struct Account {
    pub id: i32,
    pub login: String,
    pub hashed_password: String,
    pub salt: String,
    pub security_lvl: i32,
}

/// The public view of an account returned to clients: id and login,
/// never the hash or the salt.
#[derive(Clone, Debug)]
pub struct AccountView {
    pub id: i32,
    pub login: String,
}

/// Whether some account in the sequence carries this login.
pub open spec fn contains_login(s: Seq<Account>, login: Seq<char>) -> bool {
    exists|i: int| 0 <= i < s.len() && #[trigger] s[i].login@ == login
}

/// The account table of one store partition, together with the id counter
/// the store assigns new records from.
pub struct AccountStore {
    pub accounts: Vec<Account>,
    pub next_id: i32,
}

impl AccountStore {
    /// Well-formedness: logins are unique, ids are unique and below the
    /// counter, and every stored salt is a well-formed ASCII salt.
    pub open spec fn wf(&self) -> bool {
        &&& forall|i: int, j: int|
            0 <= i < j < self.accounts@.len() ==> self.accounts@[i].login@
                != self.accounts@[j].login@
        &&& forall|i: int, j: int|
            0 <= i < j < self.accounts@.len() ==> self.accounts@[i].id != self.accounts@[j].id
        &&& forall|i: int|
            0 <= i < self.accounts@.len() ==> #[trigger] self.accounts@[i].id < self.next_id
        &&& forall|i: int|
            0 <= i < self.accounts@.len() ==> is_valid_salt(#[trigger] self.accounts@[i].salt@)
                && is_ascii_chars(self.accounts@[i].salt@)
    }

    /// An empty store; ids are assigned from 1, as the backing store does.
    pub fn new() -> (s: AccountStore)
        ensures
            s.wf(),
            s.accounts@.len() == 0,
            s.next_id == 1,
    {
        AccountStore { accounts: Vec::new(), next_id: 1 }
    }

    /// All stored records, the store's own view of its table.
    pub fn accounts(&self) -> (r: &Vec<Account>)
        ensures
            r@ == self.accounts@,
    {
        &self.accounts
    }

    /// The client-facing listing: one public view per record, id and login
    /// only, never the hash or the salt.
    pub fn account_views(&self) -> (r: Vec<AccountView>)
        ensures
            r@.len() == self.accounts@.len(),
            forall|i: int|
                0 <= i < r@.len() ==> #[trigger] r@[i].id == self.accounts@[i].id && r@[i].login@
                    == self.accounts@[i].login@,
    {
        let mut views: Vec<AccountView> = Vec::new();
        let n = self.accounts.len();
        let mut k: usize = 0;
        while k < n
            invariant
                k <= n,
                n == self.accounts@.len(),
                views@.len() == k,
                forall|i: int|
                    0 <= i < k ==> #[trigger] views@[i].id == self.accounts@[i].id
                        && views@[i].login@ == self.accounts@[i].login@,
            decreases n - k,
        {
            let a = &self.accounts[k];
            views.push(AccountView { id: a.id, login: a.login.clone() });
            k += 1;
        }
        views
    }

    /// The index of the account carrying this login, if any.
    pub fn find_by_login(&self, login: &str) -> (r: Option<usize>)
        ensures
            r matches Some(i) ==> i < self.accounts@.len() && self.accounts@[i as int].login@
                == login@,
            r is None ==> !contains_login(self.accounts@, login@),
    {
        let target: String = login.to_owned();
        let n = self.accounts.len();
        let mut k: usize = 0;
        while k < n
            invariant
                k <= n,
                n == self.accounts@.len(),
                target@ == login@,
                forall|i: int| 0 <= i < k ==> #[trigger] self.accounts@[i].login@ != login@,
            decreases n - k,
        {
            if self.accounts[k].login == target {
                return Some(k);
            }
            k += 1;
        }
        None
    }

    /// The uniqueness check of registration: whether no stored account
    /// carries this login yet.
    pub fn is_login_available(&self, login: &str) -> (avail: bool)
        ensures
            avail == !contains_login(self.accounts@, login@),
    {
        match self.find_by_login(login) {
            Some(_) => false,
            None => true,
        }
    }

    /// Registers a new account at an explicit security level, for
    /// privileged callers; `register` is the self-service path. Checks
    /// uniqueness, generates a salt, hashes the password keyed with the
    /// hashing secret, and persists the record, returning the public view.
    /// A taken login is a conflict that leaves the store unchanged.
    pub fn register_with_level(
        &mut self,
        login: &str,
        password: &str,
        hash_secret: &str,
        security_lvl: i32,
    ) -> (r: Result<AccountView, ApiError>)
        requires
            old(self).wf(),
        ensures
            final (self).wf(),
            contains_login(old(self).accounts@, login@) ==> (r matches Err(e) && e
                == ApiError::Conflict),
            r is Err ==> *final (self) == *old(self),
            r matches Err(e) ==> (e == ApiError::Conflict || e == ApiError::ServiceFault || e
                == ApiError::StoreFault),
            (r matches Err(e) && e == ApiError::Conflict) ==> contains_login(
                old(self).accounts@,
                login@,
            ),
            !contains_login(old(self).accounts@, login@) && old(self).next_id < i32::MAX
                && fits_argon2(password.spec_bytes()) && fits_argon2(hash_secret.spec_bytes())
                ==> r is Ok,
            r matches Ok(v) ==> ({
                let n = old(self).accounts@.len() as int;
                let a = final (self).accounts@[n];
                &&& !contains_login(old(self).accounts@, login@)
                &&& final (self).accounts@.len() == n + 1
                &&& (forall|i: int|
                    0 <= i < n ==> final (self).accounts@[i] == old(self).accounts@[i])
                &&& a.login@ == login@
                &&& a.id == v.id
                &&& a.id == old(self).next_id
                &&& a.security_lvl == security_lvl
                &&& a.hashed_password@ == hash_of(password@, a.salt@, hash_secret@)
                &&& is_valid_salt(a.salt@)
                &&& v.login@ == login@
                &&& contains_login(final (self).accounts@, login@)
            }),
    {
        if !self.is_login_available(login) {
            return Err(ApiError::Conflict);
        }
        if self.next_id == i32::MAX {
            return Err(ApiError::StoreFault);
        }
        let salt = generate_salt();
        let hash = match hash_password(password, salt.as_str(), hash_secret) {
            Ok(h) => h,
            Err(e) => {
                proof {
                    lemma_valid_salt_fits_argon2(salt@);
                }
                return Err(e);
            },
        };
        let id = self.next_id;
        self.next_id = self.next_id + 1;
        let account = Account {
            id,
            login: login.to_owned(),
            hashed_password: hash,
            salt,
            security_lvl,
        };
        self.accounts.push(account);
        proof {
            let n = old(self).accounts@.len() as int;
            assert forall|i: int, j: int|
                0 <= i < j < self.accounts@.len() implies self.accounts@[i].login@
                != self.accounts@[j].login@ by {
                if j == n {
                    assert(!contains_login(old(self).accounts@, login@));
                    assert(old(self).accounts@[i].login@ != login@);
                }
            }
            assert(contains_login(self.accounts@, login@)) by {
                assert(self.accounts@[n].login@ == login@);
            }
        }
        Ok(AccountView { id, login: login.to_owned() })
    }

    /// Self-service registration: a new account at the default security
    /// level, the standard user tier.
    pub fn register(&mut self, login: &str, password: &str, hash_secret: &str) -> (r: Result<
        AccountView,
        ApiError,
    >)
        requires
            old(self).wf(),
        ensures
            final (self).wf(),
            contains_login(old(self).accounts@, login@) ==> (r matches Err(e) && e
                == ApiError::Conflict),
            r is Err ==> *final (self) == *old(self),
            r matches Err(e) ==> (e == ApiError::Conflict || e == ApiError::ServiceFault || e
                == ApiError::StoreFault),
            (r matches Err(e) && e == ApiError::Conflict) ==> contains_login(
                old(self).accounts@,
                login@,
            ),
            !contains_login(old(self).accounts@, login@) && old(self).next_id < i32::MAX
                && fits_argon2(password.spec_bytes()) && fits_argon2(hash_secret.spec_bytes())
                ==> r is Ok,
            r matches Ok(v) ==> ({
                let n = old(self).accounts@.len() as int;
                let a = final (self).accounts@[n];
                &&& !contains_login(old(self).accounts@, login@)
                &&& final (self).accounts@.len() == n + 1
                &&& (forall|i: int|
                    0 <= i < n ==> final (self).accounts@[i] == old(self).accounts@[i])
                &&& a.login@ == login@
                &&& a.id == v.id
                &&& a.id == old(self).next_id
                &&& a.security_lvl == DEFAULT_SECURITY_LVL
                &&& a.hashed_password@ == hash_of(password@, a.salt@, hash_secret@)
                &&& is_valid_salt(a.salt@)
                &&& v.login@ == login@
                &&& contains_login(final (self).accounts@, login@)
            }),
    {
        self.register_with_level(login, password, hash_secret, DEFAULT_SECURITY_LVL)
    }

    /// Login: fetches the stored record by login, verifies the presented
    /// password against the stored hash, and on success issues a token
    /// carrying the stored id and security level. An unknown login and a
    /// wrong password fail with the same authentication error, though the
    /// early return on an unknown login still leaks its absence through
    /// response latency: a known weakness of this lookup-first shape.
    pub fn authenticate(
        &self,
        login: &str,
        password: &str,
        hash_secret: &str,
        signing_secret: &[u8],
    ) -> (r: Result<String, ApiError>)
        requires
            self.wf(),
        ensures
            !contains_login(self.accounts@, login@) ==> (r matches Err(e) && e
                == ApiError::AuthenticationFailure),
            (exists|i: int|
                0 <= i < self.accounts@.len() && #[trigger] self.accounts@[i].login@ == login@
                    && self.accounts@[i].hashed_password@ != hash_of(
                    password@,
                    self.accounts@[i].salt@,
                    hash_secret@,
                )) ==> r is Err,
            (exists|i: int|
                0 <= i < self.accounts@.len() && #[trigger] self.accounts@[i].login@ == login@
                    && self.accounts@[i].hashed_password@ != hash_of(
                    password@,
                    self.accounts@[i].salt@,
                    hash_secret@,
                )) && fits_argon2(password.spec_bytes()) && fits_argon2(hash_secret.spec_bytes())
                ==> (r matches Err(e) && e == ApiError::AuthenticationFailure),
            r matches Ok(t) ==> (exists|i: int|
                0 <= i < self.accounts@.len() && #[trigger] self.accounts@[i].login@ == login@
                    && self.accounts@[i].hashed_password@ == hash_of(
                    password@,
                    self.accounts@[i].salt@,
                    hash_secret@,
                ) && t@ == token_of(
                    self.accounts@[i].id,
                    self.accounts@[i].security_lvl,
                    signing_secret@,
                ) && claims_of(t@, signing_secret@) == Some(
                    (self.accounts@[i].id, self.accounts@[i].security_lvl),
                ) && t@.len() > 0),
            (exists|i: int|
                0 <= i < self.accounts@.len() && #[trigger] self.accounts@[i].login@ == login@
                    && self.accounts@[i].hashed_password@ == hash_of(
                    password@,
                    self.accounts@[i].salt@,
                    hash_secret@,
                )) && fits_argon2(password.spec_bytes()) && fits_argon2(hash_secret.spec_bytes())
                ==> r is Ok,
    {
        let idx = match self.find_by_login(login) {
            Some(i) => i,
            None => return Err(ApiError::AuthenticationFailure),
        };
        let a = &self.accounts[idx];
        let salt_ref = a.salt.as_str();
        proof {
            lemma_valid_salt_fits_argon2(salt_ref@);
        }
        let matches_stored = match verify_password(
            a.hashed_password.as_str(),
            password,
            salt_ref,
            hash_secret,
        ) {
            Ok(b) => b,
            Err(e) => return Err(e),
        };
        if !matches_stored {
            return Err(ApiError::AuthenticationFailure);
        }
        let claims = TokenClaims { id: a.id, security_lvl: a.security_lvl };
        issue_token(&claims, signing_secret)
    }

    /// The administrative deletion keyed on login: removes the account and
    /// returns the deleted record, or fails without touching the store
    /// when no account carries the login.
    pub fn delete_account(&mut self, login: &str) -> (r: Result<Account, ApiError>)
        requires
            old(self).wf(),
        ensures
            final (self).wf(),
            !contains_login(old(self).accounts@, login@) ==> (r matches Err(e) && e
                == ApiError::StoreFault),
            contains_login(old(self).accounts@, login@) ==> r is Ok,
            r is Err ==> *final (self) == *old(self),
            r matches Ok(a) ==> a.login@ == login@ && (exists|i: int|
                0 <= i < old(self).accounts@.len() && old(self).accounts@[i] == a
                    && final (self).accounts@ == old(self).accounts@.remove(i)) && !contains_login(
                final (self).accounts@,
                login@,
            ) && final (self).next_id == old(self).next_id,
    {
        let idx = match self.find_by_login(login) {
            Some(i) => i,
            None => return Err(ApiError::StoreFault),
        };
        let removed = self.accounts.remove(idx);
        proof {
            let s0 = old(self).accounts@;
            let s1 = self.accounts@;
            let k = idx as int;
            assert forall|j: int| 0 <= j < s1.len() implies #[trigger] s1[j].login@ != login@ by {
                let j0 = if j < k {
                    j
                } else {
                    j + 1
                };
                assert(s1[j] == s0[j0]);
                assert(s0[k].login@ == login@);
            }
        }
        Ok(removed)
    }
}

} // verus!
