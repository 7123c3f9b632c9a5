//! The accounts of an anchor on the origins that it signs in to: one
//! default account per origin, which exists without being created, and the
//! accounts created beside it.

use crate::anchor::Anchor;
use crate::search::{first_index, lemma_first_index};
use crate::types::{
    AccountInfo, AccountNameValidationError, AccountNumber, AccountUpdate, CheckMaxAccountError,
    AuthorizationKey, CreateAccountError, FrontendHostname, GetAccountsError,
    UpdateAccountError,
};
use vstd::prelude::*;
use vstd::string::*;

verus! {

/// The accounts of one anchor.
///
/// `named` holds the created accounts in the order of their creation.
/// `defaults` holds the default accounts that an update has written to;
/// the default account of any other origin is not stored.
pub struct AccountRegistry {
    pub named: Vec<AccountInfo>,
    pub defaults: Vec<AccountInfo>,
    pub next_account_number: AccountNumber,
}

/// The accounts of `s` on `origin`, in their order in `s`.
pub open spec fn accounts_of(s: Seq<AccountInfo>, origin: Seq<char>) -> Seq<AccountInfo>
    decreases s.len(),
{
    if s.len() == 0 {
        Seq::empty()
    } else if s.last().origin@ == origin {
        accounts_of(s.drop_last(), origin).push(s.last())
    } else {
        accounts_of(s.drop_last(), origin)
    }
}

/// The account is on `origin`.
pub open spec fn on_origin(origin: Seq<char>) -> spec_fn(AccountInfo) -> bool {
    |a: AccountInfo| a.origin@ == origin
}

/// The account is on `origin` and has the number `number`.
pub open spec fn numbered(origin: Seq<char>, number: AccountNumber) -> spec_fn(AccountInfo) -> bool {
    |a: AccountInfo| a.origin@ == origin && a.account_number == Some(number)
}

/// The default account of an origin that no update has written to.
pub open spec fn spec_fresh_default(origin: FrontendHostname) -> AccountInfo {
    AccountInfo { account_number: None, origin, last_used: None, name: None }
}

/// The default account of `origin`: the stored one where there is one.
pub open spec fn spec_default_account(defaults: Seq<AccountInfo>, origin: FrontendHostname) -> AccountInfo {
    if first_index(defaults, on_origin(origin@)) < defaults.len() {
        defaults[first_index(defaults, on_origin(origin@))]
    } else {
        spec_fresh_default(origin)
    }
}

/// What `get_accounts` lists: the default account, then the created ones.
pub open spec fn spec_accounts(registry: AccountRegistry, origin: FrontendHostname) -> Seq<
    AccountInfo,
> {
    seq![spec_default_account(registry.defaults@, origin)] + accounts_of(
        registry.named@,
        origin@,
    )
}

/// No two accounts of `s` are on the same origin.
pub open spec fn distinct_origins(s: Seq<AccountInfo>) -> bool {
    forall|i: int, j: int|
        0 <= i < s.len() && 0 <= j < s.len() && i != j ==> (#[trigger] s[i]).origin@ != (
        #[trigger] s[j]).origin@
}

/// Every account of `s` has a number below `next`.
pub open spec fn numbers_below(s: Seq<AccountInfo>, next: AccountNumber) -> bool {
    forall|i: int|
        0 <= i < s.len() ==> match (#[trigger] s[i]).account_number {
            Some(n) => n < next,
            None => false,
        }
}

/// Every account among `accounts_of` is one of `s`, so what holds of all
/// of `s` holds of them.
pub proof fn lemma_accounts_of_numbered(s: Seq<AccountInfo>, origin: Seq<char>, next: AccountNumber)
    requires
        numbers_below(s, next),
    ensures
        numbers_below(accounts_of(s, origin), next),
        accounts_of(s, origin).len() <= s.len(),
        forall|i: int|
            0 <= i < accounts_of(s, origin).len() ==> (#[trigger] accounts_of(s, origin)[i]).origin@
                == origin,
    decreases s.len(),
{
    if s.len() > 0 {
        let rest = s.drop_last();
        assert forall|i: int| 0 <= i < rest.len() implies match (#[trigger] rest[i]).account_number {
            Some(n) => n < next,
            None => false,
        } by {
            assert(rest[i] == s[i]);
        }
        lemma_accounts_of_numbered(rest, origin, next);
        assert(s.last() == s[s.len() - 1]);
    }
}

/// The account `a` after `update` was written into it: an update without
/// a name leaves the name as it is.
pub open spec fn spec_renamed(a: AccountInfo, update: AccountUpdate) -> AccountInfo {
    AccountInfo {
        name: if update.name.is_some() {
            update.name
        } else {
            a.name
        },
        ..a
    }
}

/// There is an account for `update_account` to write to: the created
/// account of that number, or the default account, for which a number is
/// left where it is not stored yet.
pub open spec fn spec_update_target(
    registry: AccountRegistry,
    origin: Seq<char>,
    account_number: Option<AccountNumber>,
) -> bool {
    match account_number {
        Some(n) => first_index(registry.named@, numbered(origin, n)) < registry.named@.len(),
        None => first_index(registry.defaults@, on_origin(origin)) < registry.defaults@.len()
            || registry.next_account_number < u64::MAX,
    }
}

/// The account that `update_account` returns.
pub open spec fn spec_updated_account(
    registry: AccountRegistry,
    origin: FrontendHostname,
    account_number: Option<AccountNumber>,
    update: AccountUpdate,
) -> AccountInfo {
    match account_number {
        Some(n) => spec_renamed(
            registry.named@[first_index(registry.named@, numbered(origin@, n))],
            update,
        ),
        None => if first_index(registry.defaults@, on_origin(origin@)) < registry.defaults@.len() {
            spec_renamed(
                registry.defaults@[first_index(registry.defaults@, on_origin(origin@))],
                update,
            )
        } else {
            AccountInfo {
                account_number: Some(registry.next_account_number),
                origin,
                last_used: None,
                name: update.name,
            }
        },
    }
}

/// The created accounts after an accepted `update_account`.
pub open spec fn spec_named_after(
    registry: AccountRegistry,
    origin: FrontendHostname,
    account_number: Option<AccountNumber>,
    update: AccountUpdate,
) -> Seq<AccountInfo> {
    match account_number {
        Some(n) => registry.named@.update(
            first_index(registry.named@, numbered(origin@, n)),
            spec_updated_account(registry, origin, account_number, update),
        ),
        None => registry.named@,
    }
}

/// The stored default accounts after an accepted `update_account`.
pub open spec fn spec_defaults_after(
    registry: AccountRegistry,
    origin: FrontendHostname,
    account_number: Option<AccountNumber>,
    update: AccountUpdate,
) -> Seq<AccountInfo> {
    let a = spec_updated_account(registry, origin, account_number, update);
    match account_number {
        Some(n) => registry.defaults@,
        None => if first_index(registry.defaults@, on_origin(origin@)) < registry.defaults@.len() {
            registry.defaults@.update(first_index(registry.defaults@, on_origin(origin@)), a)
        } else {
            registry.defaults@.push(a)
        },
    }
}

/// The next account number after an accepted `update_account`: one was
/// handed out where the default account was first stored.
pub open spec fn spec_next_after(
    registry: AccountRegistry,
    origin: Seq<char>,
    account_number: Option<AccountNumber>,
) -> int {
    if account_number.is_none() && first_index(registry.defaults@, on_origin(origin))
        >= registry.defaults@.len() {
        registry.next_account_number + 1
    } else {
        registry.next_account_number as int
    }
}

/// A created account is counted on its own origin and on no other: on its
/// origin the accounts grow by exactly that account, so each creation
/// brings the count one nearer to the maximum, at which creation is refused.
pub proof fn lemma_create_counts(named: Seq<AccountInfo>, a: AccountInfo, origin: Seq<char>)
    ensures
        a.origin@ == origin ==> accounts_of(named.push(a), origin) == accounts_of(
            named,
            origin,
        ).push(a),
        a.origin@ != origin ==> accounts_of(named.push(a), origin) == accounts_of(named, origin),
{
    assert(named.push(a).drop_last() =~= named);
    assert(named.push(a).last() == a);
}

/// The list of the accounts on an origin always starts with the one default
/// account of the origin, whether or not it was ever written to, and every
/// entry after it is a created account with a number. Where no update
/// has written to the default account, it is the only entry without a number.
pub proof fn lemma_one_default_entry(registry: AccountRegistry, origin: FrontendHostname)
    requires
        registry.wf(),
    ensures
        spec_accounts(registry, origin).len() == 1 + accounts_of(registry.named@, origin@).len(),
        spec_accounts(registry, origin)[0] == spec_default_account(registry.defaults@, origin),
        spec_accounts(registry, origin)[0].origin@ == origin@,
        forall|i: int|
            1 <= i < spec_accounts(registry, origin).len() ==> (#[trigger] spec_accounts(
                registry,
                origin,
            )[i]).account_number.is_some(),
        first_index(registry.defaults@, on_origin(origin@)) >= registry.defaults@.len()
            ==> spec_accounts(registry, origin)[0] == spec_fresh_default(origin),
{
    lemma_accounts_of_numbered(registry.named@, origin@, registry.next_account_number);
    lemma_first_index(registry.defaults@, on_origin(origin@));
    let created = accounts_of(registry.named@, origin@);
    assert forall|i: int| 1 <= i < spec_accounts(registry, origin).len() implies (
    #[trigger] spec_accounts(registry, origin)[i]).account_number.is_some() by {
        assert(spec_accounts(registry, origin)[i] == created[i - 1]);
    }
}

/// A copy of an account.
pub fn clone_account(a: &AccountInfo) -> (r: AccountInfo)
    ensures
        r == *a,
{
    let name = match &a.name {
        Some(n) => Some(n.clone()),
        None => None,
    };
    AccountInfo {
        account_number: a.account_number,
        origin: a.origin.clone(),
        last_used: a.last_used,
        name,
    }
}

/// Whether one more account may be created beside `count` others.
pub fn check_max_accounts(count: usize, max_accounts: usize) -> (r: Result<
    (),
    CheckMaxAccountError,
>)
    ensures
        r.is_ok() <==> count < max_accounts,
{
    if count < max_accounts {
        Ok(())
    } else {
        Err(CheckMaxAccountError::AccountLimitReached)
    }
}

/// Whether `name` has at most `max_name_length` characters.
pub fn validate_account_name(name: &String, max_name_length: usize) -> (r: Result<
    (),
    AccountNameValidationError,
>)
    ensures
        r.is_ok() <==> name@.len() <= max_name_length,
{
    if name.as_str().unicode_len() <= max_name_length {
        Ok(())
    } else {
        Err(AccountNameValidationError::NameTooLong)
    }
}

/// The name of an update, if it has one, is within the bound.
pub open spec fn name_fits(name: Option<String>, max_name_length: usize) -> bool {
    match name {
        Some(n) => n@.len() <= max_name_length,
        None => true,
    }
}

impl AccountRegistry {
    /// Every stored account has a number, the next number to hand out is
    /// above them all, and no origin has two stored default accounts.
    pub open spec fn wf(self) -> bool {
        &&& numbers_below(self.named@, self.next_account_number)
        &&& numbers_below(self.defaults@, self.next_account_number)
        &&& distinct_origins(self.defaults@)
    }

    /// The registry of an anchor that has no stored account.
    pub fn new() -> (r: AccountRegistry)
        ensures
            r.wf(),
            r.named@.len() == 0,
            r.defaults@.len() == 0,
            r.next_account_number == 1,
    {
        AccountRegistry { named: Vec::new(), defaults: Vec::new(), next_account_number: 1 }
    }

    /// How many accounts were created on `origin`.
    pub fn count_accounts(&self, origin: &FrontendHostname) -> (r: usize)
        ensures
            r == accounts_of(self.named@, origin@).len(),
    {
        let mut count: usize = 0;
        let mut i: usize = 0;
        while i < self.named.len()
            invariant
                i <= self.named@.len(),
                count <= i,
                count == accounts_of(self.named@.take(i as int), origin@).len(),
            decreases self.named@.len() - i,
        {
            assert(self.named@.take(i + 1).drop_last() =~= self.named@.take(i as int));
            if self.named[i].origin == *origin {
                count += 1;
            }
            i += 1;
        }
        assert(self.named@.take(i as int) =~= self.named@);
        count
    }

    /// The position of the stored default account of `origin`, if one is stored.
    pub fn find_default(&self, origin: &FrontendHostname) -> (r: Option<usize>)
        ensures
            match r {
                Some(i) => i < self.defaults@.len() && i == first_index(
                    self.defaults@,
                    on_origin(origin@),
                ),
                None => first_index(self.defaults@, on_origin(origin@)) == self.defaults@.len(),
            },
    {
        let mut i: usize = 0;
        while i < self.defaults.len()
            invariant
                i <= self.defaults@.len(),
                forall|j: int| 0 <= j < i ==> !on_origin(origin@)(#[trigger] self.defaults@[j]),
            decreases self.defaults@.len() - i,
        {
            if self.defaults[i].origin == *origin {
                proof {
                    lemma_first_index(self.defaults@, on_origin(origin@));
                    assert(on_origin(origin@)(self.defaults@[i as int]));
                }
                return Some(i);
            }
            i += 1;
        }
        proof {
            lemma_first_index(self.defaults@, on_origin(origin@));
        }
        None
    }

    /// The position of the account created on `origin` under `number`, if any.
    pub fn find_account(&self, origin: &FrontendHostname, number: AccountNumber) -> (r: Option<
        usize,
    >)
        ensures
            match r {
                Some(i) => i < self.named@.len() && i == first_index(
                    self.named@,
                    numbered(origin@, number),
                ),
                None => first_index(self.named@, numbered(origin@, number)) == self.named@.len(),
            },
    {
        let mut i: usize = 0;
        while i < self.named.len()
            invariant
                i <= self.named@.len(),
                forall|j: int|
                    0 <= j < i ==> !numbered(origin@, number)(#[trigger] self.named@[j]),
            decreases self.named@.len() - i,
        {
            let same = match self.named[i].account_number {
                Some(n) => n == number,
                None => false,
            };
            if same && self.named[i].origin == *origin {
                proof {
                    lemma_first_index(self.named@, numbered(origin@, number));
                    assert(numbered(origin@, number)(self.named@[i as int]));
                }
                return Some(i);
            }
            i += 1;
        }
        proof {
            lemma_first_index(self.named@, numbered(origin@, number));
        }
        None
    }

    /// Creates an account named `name` on `origin` for `anchor`, on behalf
    /// of a caller who authenticated with the key `caller` and whose
    /// principal is `principal`.
    ///
    /// The caller is checked first, then the name, then the number of
    /// accounts created on the origin. A refused call changes nothing. The
    /// new account gets the next account number and comes last.
    pub fn create_account(
        &mut self,
        anchor: &Anchor,
        caller: &AuthorizationKey,
        principal: candid::Principal,
        origin: FrontendHostname,
        name: String,
        max_accounts: usize,
        max_name_length: usize,
    ) -> (r: Result<AccountInfo, CreateAccountError>)
        requires
            old(self).wf(),
        ensures
            final(self).wf(),
            final(self).defaults == old(self).defaults,
            match r {
                Ok(a) => anchor.authorizes(*caller) && name@.len() <= max_name_length
                    && accounts_of(old(self).named@, origin@).len() < max_accounts
                        && old(self).next_account_number < u64::MAX
                        && a == (
                AccountInfo {
                    account_number: Some(old(self).next_account_number),
                    origin,
                    last_used: None,
                    name: Some(name),
                })
                    && final(self).named@ == old(self).named@.push(a)
                    && final(self).next_account_number == old(self).next_account_number + 1,
                Err(e) => *final(self) == *old(self) && (if !anchor.authorizes(*caller) {
                    e == CreateAccountError::Unauthorized(principal)
                } else if name@.len() > max_name_length {
                    e == CreateAccountError::NameTooLong
                } else if accounts_of(old(self).named@, origin@).len() >= max_accounts {
                    e == CreateAccountError::AccountLimitReached
                } else {
                    (e matches CreateAccountError::InternalCanisterError(text) && text@
                        == "account numbers are used up"@) && old(self).next_account_number
                        == u64::MAX
                }),
            },
    {
        if !anchor.is_authorized(caller) {
            return Err(CreateAccountError::Unauthorized(principal));
        }
        match validate_account_name(&name, max_name_length) {
            Err(e) => { return Err(CreateAccountError::from(e)); },
            Ok(_) => {},
        }
        match check_max_accounts(self.count_accounts(&origin), max_accounts) {
            Err(e) => { return Err(CreateAccountError::from(e)); },
            Ok(_) => {},
        }
        if self.next_account_number == u64::MAX {
            return Err(
                CreateAccountError::InternalCanisterError("account numbers are used up".to_owned()),
            );
        }
        let account = AccountInfo {
            account_number: Some(self.next_account_number),
            origin,
            last_used: None,
            name: Some(name),
        };
        let copy = clone_account(&account);
        self.named.push(account);
        self.next_account_number = self.next_account_number + 1;
        Ok(copy)
    }

    /// Writes `update` into an account of `anchor` on `origin`, on behalf of
    /// a caller who authenticated with the key `caller`, and returns the
    /// account as it then is.
    ///
    /// A number selects the account created under it. `None` selects the
    /// default account of the origin, which is stored from its first update
    /// on, under the next account number. The caller is checked first, then
    /// the name. A refused call changes nothing.
    pub fn update_account(
        &mut self,
        anchor: &Anchor,
        caller: &AuthorizationKey,
        principal: candid::Principal,
        origin: FrontendHostname,
        account_number: Option<AccountNumber>,
        update: AccountUpdate,
        max_name_length: usize,
    ) -> (r: Result<AccountInfo, UpdateAccountError>)
        requires
            old(self).wf(),
        ensures
            final(self).wf(),
            match r {
                Ok(a) => anchor.authorizes(*caller) && name_fits(
                    update.name,
                    max_name_length,
                ) && spec_update_target(*old(self), origin@, account_number) && final(self).named@
                    == spec_named_after(*old(self), origin, account_number, update)
                        && final(self).defaults@ == spec_defaults_after(*old(self), origin, account_number, update)
                    && final(self).next_account_number == spec_next_after(
                    *old(self),
                    origin@,
                    account_number,
                ) && a == spec_updated_account(*old(self), origin, account_number, update),
                Err(e) => *final(self) == *old(self) && (if !anchor.authorizes(*caller) {
                    e == UpdateAccountError::Unauthorized(principal)
                } else if !name_fits(update.name, max_name_length) {
                    e == UpdateAccountError::NameTooLong
                } else {
                    (e matches UpdateAccountError::InternalCanisterError(text) && text@ == (
                    if account_number.is_some() {
                        "no such account"@
                    } else {
                        "account numbers are used up"@
                    })) && !spec_update_target(*old(self), origin@, account_number)
                }),
            },
    {
        if !anchor.is_authorized(caller) {
            return Err(UpdateAccountError::Unauthorized(principal));
        }
        match &update.name {
            Some(n) => {
                match validate_account_name(n, max_name_length) {
                    Err(e) => { return Err(UpdateAccountError::from(e)); },
                    Ok(_) => {},
                }
            },
            None => {},
        }
        match account_number {
            Some(number) => {
                match self.find_account(&origin, number) {
                    None => Err(
                        UpdateAccountError::InternalCanisterError("no such account".to_owned()),
                    ),
                    Some(i) => {
                        let mut a = self.named.remove(i);
                        match update.name {
                            Some(n) => { a.name = Some(n); },
                            None => {},
                        }
                        let copy = clone_account(&a);
                        self.named.insert(i, a);
                        assert(self.named@ =~= old(self).named@.update(i as int, copy));
                        Ok(copy)
                    },
                }
            },
            None => {
                match self.find_default(&origin) {
                    Some(i) => {
                        let mut a = self.defaults.remove(i);
                        match update.name {
                            Some(n) => { a.name = Some(n); },
                            None => {},
                        }
                        let copy = clone_account(&a);
                        self.defaults.insert(i, a);
                        proof {
                            let before = old(self).defaults@;
                            let after = self.defaults@;
                            assert(after =~= before.update(i as int, copy));
                            assert forall|x: int, y: int|
                                0 <= x < after.len() && 0 <= y < after.len() && x != y implies (
                            #[trigger] after[x]).origin@ != (#[trigger] after[y]).origin@ by {
                                assert(before[x].origin@ != before[y].origin@);
                            }
                        }
                        Ok(copy)
                    },
                    None => {
                        if self.next_account_number == u64::MAX {
                            return Err(
                                UpdateAccountError::InternalCanisterError(
                                    "account numbers are used up".to_owned(),
                                ),
                            );
                        }
                        let a = AccountInfo {
                            account_number: Some(self.next_account_number),
                            origin,
                            last_used: None,
                            name: update.name,
                        };
                        let copy = clone_account(&a);
                        self.defaults.push(a);
                        self.next_account_number = self.next_account_number + 1;
                        proof {
                            let before = old(self).defaults@;
                            let after = self.defaults@;
                            lemma_first_index(before, on_origin(origin@));
                            assert forall|x: int, y: int|
                                0 <= x < after.len() && 0 <= y < after.len() && x != y implies (
                            #[trigger] after[x]).origin@ != (#[trigger] after[y]).origin@ by {
                                if x < before.len() && y < before.len() {
                                    assert(before[x].origin@ != before[y].origin@);
                                } else if x < before.len() {
                                    assert(!on_origin(origin@)(before[x]));
                                } else {
                                    assert(!on_origin(origin@)(before[y]));
                                }
                            }
                        }
                        Ok(copy)
                    },
                }
            },
        }
    }

    /// The accounts of `anchor` on `origin`, for a caller who authenticated
    /// with the key `caller`: the default account first, then the created accounts in the
    /// order of their creation.
    pub fn get_accounts(
        &self,
        anchor: &Anchor,
        caller: &AuthorizationKey,
        principal: candid::Principal,
        origin: &FrontendHostname,
    ) -> (r: Result<Vec<AccountInfo>, GetAccountsError>)
        ensures
            match r {
                Ok(v) => anchor.authorizes(*caller) && v@ == spec_accounts(*self, *origin),
                Err(e) => !anchor.authorizes(*caller) && e == GetAccountsError::Unauthorized(
                    principal,
                ),
            },
    {
        if !anchor.is_authorized(caller) {
            return Err(GetAccountsError::Unauthorized(principal));
        }
        let mut out: Vec<AccountInfo> = Vec::new();
        match self.find_default(origin) {
            Some(i) => out.push(clone_account(&self.defaults[i])),
            None => out.push(
                AccountInfo {
                    account_number: None,
                    origin: origin.clone(),
                    last_used: None,
                    name: None,
                },
            ),
        }
        let ghost head = seq![spec_default_account(self.defaults@, *origin)];
        assert(out@ =~= head);
        let mut i: usize = 0;
        while i < self.named.len()
            invariant
                i <= self.named@.len(),
                out@ == head + accounts_of(self.named@.take(i as int), origin@),
            decreases self.named@.len() - i,
        {
            assert(self.named@.take(i + 1).drop_last() =~= self.named@.take(i as int));
            if self.named[i].origin == *origin {
                out.push(clone_account(&self.named[i]));
                assert(out@ =~= head + accounts_of(self.named@.take(i + 1), origin@));
            }
            i += 1;
        }
        assert(self.named@.take(i as int) =~= self.named@);
        Ok(out)
    }
}

} // verus!
