//! Accounts and the table that holds them.

use vstd::prelude::*;
use crate::error::AuthError;
use crate::password::hash_password;
use crate::password::hash_result;
use crate::password::hashing_outcome;

verus! {

/// The capability tier of an account.
#[derive(Clone, Copy, Debug, PartialEq, Eq, Structural)]
pub enum Role {
    Admin,
    User,
    Guest,
}

impl Role {
    /// The number that stands for the role in an account record.
    pub open spec fn spec_id(self) -> i32 {
        match self {
            Role::Admin => 1,
            Role::User => 2,
            Role::Guest => 3,
        }
    }

    /// The number that stands for the role in an account record.
    #[verifier::when_used_as_spec(spec_id)]
    pub fn id(self) -> (id: i32)
        ensures
            id == self.spec_id(),
    {
        match self {
            Role::Admin => 1,
            Role::User => 2,
            Role::Guest => 3,
        }
    }

    /// The role that a number stands for, if any.
    pub fn from_id(id: i32) -> (role: Option<Role>)
        ensures
            match role {
                Some(r) => r.spec_id() == id,
                None => id < 1 || id > 3,
            },
    {
        if id == 1 {
            Some(Role::Admin)
        } else if id == 2 {
            Some(Role::User)
        } else if id == 3 {
            Some(Role::Guest)
        } else {
            None
        }
    }
}

/// An account. The identifier is absent until the store has assigned one.
#[derive(Debug)]
pub struct Account {
    pub account_id: Option<i32>,
    pub username: String,
    pub password_hash: String,
    pub role_id: i32,
}

/// The mathematical content of an `Account`.
pub ghost struct AccountView {
    pub account_id: Option<i32>,
    pub username: Seq<char>,
    pub password_hash: Seq<char>,
    pub role_id: i32,
}

impl View for Account {
    type V = AccountView;

    open spec fn view(&self) -> AccountView {
        AccountView {
            account_id: self.account_id,
            username: self.username@,
            password_hash: self.password_hash@,
            role_id: self.role_id,
        }
    }
}

impl Clone for Account {
    fn clone(&self) -> (copy: Account)
        ensures
            copy@ == self@,
    {
        Account {
            account_id: self.account_id,
            username: self.username.clone(),
            password_hash: self.password_hash.clone(),
            role_id: self.role_id,
        }
    }
}

/// The number under which an account owns its sessions: its identifier, or
/// zero while it has none.
pub open spec fn owner_id(a: AccountView) -> i32 {
    match a.account_id {
        Some(id) => id,
        None => 0,
    }
}

/// What every table of accounts satisfies: each account has an identifier
/// and a name, and no two share either.
pub open spec fn accounts_wf(t: Seq<AccountView>) -> bool {
    &&& forall|i: int|
        0 <= i < t.len() ==> (#[trigger] t[i]).account_id.is_some() && t[i].username.len() > 0
    &&& forall|i: int, j: int|
        0 <= i < j < t.len() ==> (#[trigger] t[i]).username != (#[trigger] t[j]).username
            && t[i].account_id != t[j].account_id
}

/// Whether account `i` carries the name.
pub open spec fn is_named(t: Seq<AccountView>, username: Seq<char>, i: int) -> bool {
    0 <= i < t.len() && t[i].username == username
}

/// Whether account `i` carries the identifier.
pub open spec fn is_numbered(t: Seq<AccountView>, account_id: i32, i: int) -> bool {
    0 <= i < t.len() && t[i].account_id == Some(account_id)
}

/// The account with the name, if there is one.
pub open spec fn by_name(t: Seq<AccountView>, username: Seq<char>) -> Option<AccountView> {
    if exists|i: int| is_named(t, username, i) {
        Some(t[choose|i: int| is_named(t, username, i)])
    } else {
        None
    }
}

/// The account with the identifier, if there is one.
pub open spec fn by_id(t: Seq<AccountView>, account_id: i32) -> Option<AccountView> {
    if exists|i: int| is_numbered(t, account_id, i) {
        Some(t[choose|i: int| is_numbered(t, account_id, i)])
    } else {
        None
    }
}

/// The largest identifier in use, or zero.
pub open spec fn largest_id(t: Seq<AccountView>) -> int
    decreases t.len(),
{
    if t.len() == 0 {
        0
    } else {
        let rest = largest_id(t.drop_last());
        let last = owner_id(t.last()) as int;
        if last > rest {
            last
        } else {
            rest
        }
    }
}

/// What adding a fully formed account does to the table.
///
/// An account without identifier or name is invalid input; one whose
/// identifier or name is taken is refused by the store.
pub open spec fn added(t: Seq<AccountView>, a: AccountView) -> (
    Seq<AccountView>,
    Result<(), AuthError>,
) {
    if a.account_id.is_none() || a.username.len() == 0 {
        (t, Err(AuthError::InvalidInput))
    } else if by_name(t, a.username).is_some() || by_id(t, owner_id(a)).is_some() {
        (t, Err(AuthError::StorageError))
    } else {
        (t.push(a), Ok(()))
    }
}

/// The account that registering creates: it gets the identifier after the
/// largest in use.
pub open spec fn new_account(
    t: Seq<AccountView>,
    username: Seq<char>,
    password_hash: Seq<char>,
    role_id: i32,
) -> AccountView {
    AccountView {
        account_id: Some((largest_id(t) + 1) as i32),
        username,
        password_hash,
        role_id,
    }
}

/// What registering an account does to the table, and what it returns.
///
/// An empty name is invalid input; a name that is taken, or a table whose
/// identifiers are used up, is a storage error.
pub open spec fn registered(
    t: Seq<AccountView>,
    username: Seq<char>,
    password_hash: Seq<char>,
    role_id: i32,
) -> (Seq<AccountView>, Result<AccountView, AuthError>) {
    if username.len() == 0 {
        (t, Err(AuthError::InvalidInput))
    } else if by_name(t, username).is_some() || largest_id(t) >= i32::MAX {
        (t, Err(AuthError::StorageError))
    } else {
        let a = new_account(t, username, password_hash, role_id);
        (t.push(a), Ok(a))
    }
}

/// The mathematical content of what registering returns.
pub open spec fn account_result(r: Result<Account, AuthError>) -> Result<AccountView, AuthError> {
    match r {
        Ok(a) => Ok(a@),
        Err(e) => Err(e),
    }
}

/// The mathematical content of what a lookup returns.
pub open spec fn account_found(r: Option<Account>) -> Option<AccountView> {
    match r {
        Some(a) => Some(a@),
        None => None,
    }
}

/// No identifier in use exceeds the largest.
pub proof fn lemma_largest_id_bounds(t: Seq<AccountView>, i: int)
    requires
        0 <= i < t.len(),
    ensures
        owner_id(t[i]) <= largest_id(t),
        largest_id(t) >= 0,
    decreases t.len(),
{
    if i < t.len() - 1 {
        lemma_largest_id_bounds(t.drop_last(), i);
    } else if t.len() > 1 {
        lemma_largest_id_bounds(t.drop_last(), 0);
    }
}

/// Pushing an account that shares no name or identifier keeps the table
/// well formed.
pub proof fn lemma_push_wf(t: Seq<AccountView>, a: AccountView)
    requires
        accounts_wf(t),
        a.account_id.is_some(),
        a.username.len() > 0,
        forall|i: int| 0 <= i < t.len() ==> (#[trigger] t[i]).username != a.username,
        forall|i: int| 0 <= i < t.len() ==> (#[trigger] t[i]).account_id != a.account_id,
    ensures
        accounts_wf(t.push(a)),
{
    let p = t.push(a);
    assert forall|i: int, j: int| 0 <= i < j < p.len() implies (#[trigger] p[i]).username != (
    #[trigger] p[j]).username && p[i].account_id != p[j].account_id by {
        if j < t.len() {
            assert(t[i].username != t[j].username);
        } else {
            assert(t[i].username != a.username);
        }
    }
}

/// The table of accounts.
///
/// Every account in it has an identifier and a name, and no two share
/// either.
pub struct AccountStore {
    accounts: Vec<Account>,
}

/// The accounts of a vector, as mathematical values.
pub open spec fn account_views(accounts: Seq<Account>) -> Seq<AccountView> {
    Seq::new(accounts.len(), |i: int| accounts[i]@)
}

impl View for AccountStore {
    type V = Seq<AccountView>;

    closed spec fn view(&self) -> Seq<AccountView> {
        let t = account_views(self.accounts@);
        if accounts_wf(t) {
            t
        } else {
            Seq::empty()
        }
    }
}

/// The table of a store is always well formed.
pub proof fn lemma_accounts_wf(store: AccountStore)
    ensures
        accounts_wf(store@),
{
}

impl AccountStore {
    #[verifier::type_invariant]
    spec fn inv(self) -> bool {
        accounts_wf(account_views(self.accounts@))
    }

    /// A store without accounts.
    pub fn new() -> (store: AccountStore)
        ensures
            store@ == Seq::<AccountView>::empty(),
    {
        AccountStore { accounts: Vec::new() }
    }

    /// How many accounts the table holds.
    pub fn len(&self) -> (n: usize)
        ensures
            n == self@.len(),
    {
        proof {
            use_type_invariant(self);
        }
        self.accounts.len()
    }

    /// A copy of every account, in table order.
    pub fn accounts(&self) -> (accounts: Vec<Account>)
        ensures
            account_views(accounts@) == self@,
    {
        proof {
            use_type_invariant(self);
        }
        let n = self.accounts.len();
        let mut accounts: Vec<Account> = Vec::new();
        let mut i: usize = 0;
        while i < n
            invariant
                n == self.accounts.len(),
                i <= n,
                self@ == account_views(self.accounts@),
                accounts@.len() == i,
                forall|k: int| 0 <= k < i ==> (#[trigger] accounts@[k])@ == self@[k],
            decreases n - i,
        {
            accounts.push(self.accounts[i].clone());
            i += 1;
        }
        assert(account_views(accounts@) =~= self@);
        accounts
    }

    /// Looks up the account with the name.
    pub fn find_by_username(&self, username: &String) -> (found: Option<Account>)
        ensures
            account_found(found) == by_name(self@, username@),
    {
        proof {
            use_type_invariant(self);
        }
        let n = self.accounts.len();
        let mut i: usize = 0;
        while i < n
            invariant
                n == self.accounts.len(),
                i <= n,
                self@ == account_views(self.accounts@),
                accounts_wf(self@),
                forall|k: int| 0 <= k < i ==> !is_named(self@, username@, k),
            decreases n - i,
        {
            if self.accounts[i].username == *username {
                proof {
                    assert(is_named(self@, username@, i as int));
                    let c = choose|k: int| is_named(self@, username@, k);
                    if c < i {
                        assert(self@[c].username != self@[i as int].username);
                    } else if i < c {
                        assert(self@[i as int].username != self@[c].username);
                    }
                }
                return Some(self.accounts[i].clone());
            }
            i += 1;
        }
        None
    }

    /// Looks up the account with the identifier.
    pub fn find_by_id(&self, account_id: i32) -> (found: Option<Account>)
        ensures
            account_found(found) == by_id(self@, account_id),
    {
        proof {
            use_type_invariant(self);
        }
        let n = self.accounts.len();
        let mut i: usize = 0;
        while i < n
            invariant
                n == self.accounts.len(),
                i <= n,
                self@ == account_views(self.accounts@),
                accounts_wf(self@),
                forall|k: int| 0 <= k < i ==> !is_numbered(self@, account_id, k),
            decreases n - i,
        {
            let hit = match self.accounts[i].account_id {
                Some(id) => id == account_id,
                None => false,
            };
            if hit {
                proof {
                    assert(is_numbered(self@, account_id, i as int));
                    let c = choose|k: int| is_numbered(self@, account_id, k);
                    if c < i {
                        assert(self@[c].account_id != self@[i as int].account_id);
                    } else if i < c {
                        assert(self@[i as int].account_id != self@[c].account_id);
                    }
                }
                return Some(self.accounts[i].clone());
            }
            i += 1;
        }
        None
    }

    /// Adds a fully formed account, identifier included.
    pub fn add(&mut self, account: Account) -> (result: Result<(), AuthError>)
        ensures
            (final(self)@, result) == added(old(self)@, account@),
    {
        proof {
            use_type_invariant(&*self);
        }
        let id = match account.account_id {
            Some(id) => id,
            None => {
                return Err(AuthError::InvalidInput);
            },
        };
        if account.username.as_str().is_empty() {
            return Err(AuthError::InvalidInput);
        }
        if self.find_by_username(&account.username).is_some() {
            return Err(AuthError::StorageError);
        }
        if self.find_by_id(id).is_some() {
            return Err(AuthError::StorageError);
        }
        let ghost before = self@;
        proof {
            assert forall|i: int| 0 <= i < before.len() implies (#[trigger] before[i]).username
                != account@.username by {
                assert(!is_named(before, account@.username, i));
            }
            assert forall|i: int| 0 <= i < before.len() implies (#[trigger] before[i]).account_id
                != account@.account_id by {
                assert(!is_numbered(before, id, i));
            }
            lemma_push_wf(before, account@);
        }
        let mut accounts: Vec<Account> = Vec::new();
        std::mem::swap(&mut accounts, &mut self.accounts);
        accounts.push(account);
        assert(account_views(accounts@) =~= before.push(account@));
        self.accounts = accounts;
        Ok(())
    }

    /// The largest identifier in use, or zero.
    fn largest_id_in_use(&self) -> (largest: i32)
        ensures
            largest == largest_id(self@),
    {
        proof {
            use_type_invariant(self);
        }
        let ghost t = self@;
        let n = self.accounts.len();
        let mut largest: i32 = 0;
        let mut i: usize = 0;
        proof {
            assert(t.take(0) =~= Seq::<AccountView>::empty());
        }
        while i < n
            invariant
                n == self.accounts.len(),
                i <= n,
                t == self@,
                self@ == account_views(self.accounts@),
                largest == largest_id(t.take(i as int)),
            decreases n - i,
        {
            proof {
                assert(t.take(i + 1).drop_last() =~= t.take(i as int));
                assert(t.take(i + 1).last() == t[i as int]);
            }
            let id = match self.accounts[i].account_id {
                Some(id) => id,
                None => 0,
            };
            if id > largest {
                largest = id;
            }
            i += 1;
        }
        proof {
            assert(t.take(n as int) =~= t);
        }
        largest
    }

    /// Registers an account under the identifier after the largest in use.
    pub fn insert(&mut self, username: String, password_hash: String, role_id: i32) -> (result:
        Result<Account, AuthError>)
        ensures
            (final(self)@, account_result(result)) == registered(
                old(self)@,
                username@,
                password_hash@,
                role_id,
            ),
    {
        if username.as_str().is_empty() {
            return Err(AuthError::InvalidInput);
        }
        if self.find_by_username(&username).is_some() {
            return Err(AuthError::StorageError);
        }
        let largest = self.largest_id_in_use();
        if largest >= i32::MAX {
            return Err(AuthError::StorageError);
        }
        let account = Account {
            account_id: Some(largest + 1),
            username,
            password_hash,
            role_id,
        };
        let copy = account.clone();
        proof {
            let t = self@;
            lemma_accounts_wf(*self);
            let fresh: i32 = (largest + 1) as i32;
            assert(by_id(t, fresh).is_none()) by {
                assert forall|i: int| !#[trigger] is_numbered(t, fresh, i) by {
                    if 0 <= i < t.len() {
                        lemma_largest_id_bounds(t, i);
                    }
                }
            }
        }
        match self.add(account) {
            Ok(()) => Ok(copy),
            Err(e) => Err(e),
        }
    }
}

/// Looks up the account with the identifier.
pub fn get_account_by_id(store: &AccountStore, account_id: i32) -> (found: Option<Account>)
    ensures
        account_found(found) == by_id(store@, account_id),
{
    store.find_by_id(account_id)
}

/// Looks up the account with the name.
pub fn get_account_by_username(store: &AccountStore, username: String) -> (found: Option<Account>)
    ensures
        account_found(found) == by_name(store@, username@),
{
    store.find_by_username(&username)
}

/// What registering an account under a password does, given the salt that
/// is drawn: the password is hashed under it, and the account is registered
/// under the hash. Where the password cannot be hashed, nothing is stored.
pub open spec fn saved(
    t: Seq<AccountView>,
    username: Seq<char>,
    password: Seq<char>,
    salt: Seq<char>,
    role: Role,
) -> (Seq<AccountView>, Result<AccountView, AuthError>) {
    match hashing_outcome(password, salt) {
        Ok(encoded) => registered(t, username, encoded, role.spec_id()),
        Err(e) => (t, Err(e)),
    }
}

/// Hashes the password under a fresh random salt and registers the account
/// under the hash.
///
/// An empty password is refused before anything is stored.
pub fn save_new_account(
    store: &mut AccountStore,
    username: String,
    password: String,
    role: Role,
) -> (result: Result<Account, AuthError>)
    ensures
        exists|salt: Seq<char>|
            (final(store)@, account_result(result)) == #[trigger] saved(
                old(store)@,
                username@,
                password@,
                salt,
                role,
            ),
{
    let hashed = hash_password(password);
    let ghost salt = choose|salt: Seq<char>|
        hash_result(hashed) == #[trigger] hashing_outcome(password@, salt);
    let result = match hashed {
        Ok(encoded) => {
            let role_id = role.id();
            store.insert(username, encoded, role_id)
        },
        Err(e) => Err(e),
    };
    assert((store@, account_result(result)) == saved(
        old(store)@,
        username@,
        password@,
        salt,
        role,
    ));
    result
}

} // verus!
