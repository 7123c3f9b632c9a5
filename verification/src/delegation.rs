//! Delegations: a session key is prepared for an anchor and an origin, and
//! the prepared delegation is fetched, signed, by a call that matches it.

use crate::anchor::Anchor;
use crate::devices::bytes_eq;
use crate::search::{first_index, lemma_first_index};
use crate::types::{
    AccountDelegationError, AccountNumber, AnchorNumber, AuthorizationKey, Delegation,
    FrontendHostname,
    PrepareAccountDelegation, SessionKey, Signature, SignedDelegation, Timestamp, UserKey,
};
use vstd::prelude::*;

verus! {

/// A delegation that was prepared and not yet fetched.
pub struct PendingDelegation {
    pub anchor_number: AnchorNumber,
    pub session_key: SessionKey,
    pub origin: FrontendHostname,
    pub account: Option<AccountNumber>,
    pub expiration: Timestamp,
    pub targets: Option<Vec<candid::Principal>>,
}

/// The prepared delegations, at most one for each anchor, session key,
/// origin and account.
pub struct DelegationIssuer {
    pub pending: Vec<PendingDelegation>,
}

/// The delegation was prepared for this anchor, session key, origin and account.
pub open spec fn prepared_for(
    anchor_number: AnchorNumber,
    session_key: Seq<u8>,
    origin: Seq<char>,
    account: Option<AccountNumber>,
) -> spec_fn(PendingDelegation) -> bool {
    |p: PendingDelegation|
        p.anchor_number == anchor_number && p.session_key@ == session_key && p.origin@ == origin
            && p.account == account
}

/// Two delegations were prepared for the same anchor, session key, origin
/// and account.
pub open spec fn same_key(a: PendingDelegation, b: PendingDelegation) -> bool {
    a.anchor_number == b.anchor_number && a.session_key@ == b.session_key@ && a.origin@
        == b.origin@ && a.account == b.account
}

/// No two delegations in `s` were prepared for the same key.
pub open spec fn distinct_keys(s: Seq<PendingDelegation>) -> bool {
    forall|i: int, j: int|
        0 <= i < s.len()
            && 0 <= j < s.len()
            && i != j ==> !same_key(#[trigger] s[i], #[trigger] s[j])
}

/// The expiration that a delegation gets: the requested one, cut down to
/// the ceiling.
pub open spec fn spec_effective_expiration(requested: Timestamp, ceiling: Timestamp) -> Timestamp {
    if requested < ceiling {
        requested
    } else {
        ceiling
    }
}

/// The prepared delegations after `p` was prepared: `p` comes last, and
/// takes the place of one that was prepared for the same key.
pub open spec fn spec_prepared(s: Seq<PendingDelegation>, p: PendingDelegation) -> Seq<
    PendingDelegation,
> {
    let i = first_index(
        s,
        prepared_for(p.anchor_number, p.session_key@, p.origin@, p.account),
    );
    if i < s.len() {
        s.remove(i).push(p)
    } else {
        s.push(p)
    }
}

/// The position of the prepared delegation that a call to fetch one
/// matches at `now`, if any: the one prepared for the same key, where it
/// has the expiration asked for and has not run out.
pub open spec fn spec_lookup(
    s: Seq<PendingDelegation>,
    anchor_number: AnchorNumber,
    session_key: Seq<u8>,
    origin: Seq<char>,
    account: Option<AccountNumber>,
    expiration: Timestamp,
    now: Timestamp,
) -> Option<int> {
    let i = first_index(s, prepared_for(anchor_number, session_key, origin, account));
    if i < s.len() && s[i].expiration == expiration && now < expiration {
        Some(i)
    } else {
        None
    }
}

/// Taking out the delegation prepared for the key of `p` leaves none for that key.
proof fn lemma_removed_key(s: Seq<PendingDelegation>, p: PendingDelegation)
    requires
        distinct_keys(s),
    ensures
        distinct_keys(spec_prepared(s, p)),
        spec_prepared(s, p).len() > 0,
        spec_prepared(s, p).last() == p,
        forall|j: int|
            0 <= j < spec_prepared(s, p).len() - 1 ==> !same_key(
                #[trigger] spec_prepared(s, p)[j],
                p,
            ),
        forall|j: int|
            0 <= j < spec_prepared(s, p).len() - 1 ==> exists|k: int|
                0 <= k < s.len() && s[k] == #[trigger] spec_prepared(s, p)[j],
{
    let f = prepared_for(p.anchor_number, p.session_key@, p.origin@, p.account);
    let i = first_index(s, f);
    lemma_first_index(s, f);
    let t = spec_prepared(s, p);
    assert forall|j: int| 0 <= j < t.len() - 1 implies !same_key(#[trigger] t[j], p) && exists|
        k: int,
    |
        0 <= k < s.len() && s[k] == t[j] by {
        if i < s.len() {
            let k = if j < i {
                j
            } else {
                j + 1
            };
            assert(t[j] == s[k]);
            assert(f(s[i]));
            assert(!same_key(s[k], s[i]));
        } else {
            assert(t[j] == s[j]);
            assert(!f(s[j]));
        }
    }
    assert forall|a: int, b: int| 0 <= a < t.len() && 0 <= b < t.len() && a != b implies !same_key(
        #[trigger] t[a],
        #[trigger] t[b],
    ) by {
        if a < t.len() - 1 && b < t.len() - 1 {
            if i < s.len() {
                let a2 = if a < i {
                    a
                } else {
                    a + 1
                };
                let b2 = if b < i {
                    b
                } else {
                    b + 1
                };
                assert(!same_key(s[a2], s[b2]));
            } else {
                assert(!same_key(s[a], s[b]));
            }
        } else if a < t.len() - 1 {
            assert(!same_key(t[a], p));
        } else {
            assert(!same_key(t[b], p));
        }
    }
}

/// A delegation that was prepared is fetched by a call with the same
/// anchor, session key, origin, account and expiration, made before it runs
/// out. A call with another session key, for which nothing was prepared,
/// finds no delegation.
pub proof fn lemma_prepare_then_get(
    s: Seq<PendingDelegation>,
    p: PendingDelegation,
    other_key: Seq<u8>,
    now: Timestamp,
)
    requires
        distinct_keys(s),
        now < p.expiration,
        other_key != p.session_key@,
        forall|j: int|
            0 <= j < s.len() ==> !prepared_for(p.anchor_number, other_key, p.origin@, p.account)(
                #[trigger] s[j],
            ),
    ensures
        spec_lookup(
            spec_prepared(s, p),
            p.anchor_number,
            p.session_key@,
            p.origin@,
            p.account,
            p.expiration,
            now,
        ) == Some(spec_prepared(s, p).len() - 1),
        spec_prepared(s, p).last() == p,
        forall|expiration: Timestamp|
            spec_lookup(
                spec_prepared(s, p),
                p.anchor_number,
                other_key,
                p.origin@,
                p.account,
                expiration,
                now,
            ) == None::<int>,
{
    let t = spec_prepared(s, p);
    lemma_removed_key(s, p);
    let f = prepared_for(p.anchor_number, p.session_key@, p.origin@, p.account);
    lemma_first_index(t, f);
    let i = first_index(t, f);
    assert(f(t[t.len() - 1]));
    if i < t.len() - 1 {
        assert(same_key(t[i], p));
    }
    let g = prepared_for(p.anchor_number, other_key, p.origin@, p.account);
    lemma_first_index(t, g);
    let k = first_index(t, g);
    if k < t.len() {
        if k < t.len() - 1 {
            let m = choose|m: int| 0 <= m < s.len() && s[m] == t[k];
            assert(!g(s[m]));
        }
    }
}

/// The entry of the list of restricted origins is the one of `origin`.
pub open spec fn restricts(origin: Seq<char>) -> spec_fn((String, Vec<candid::Principal>)) -> bool {
    |entry: (String, Vec<candid::Principal>)| entry.0@ == origin
}

/// The targets of a delegation on `origin`: where the origin is among the
/// restricted ones, the principals listed for it, in their order; where it
/// is not, none, and the delegation is good for the origin's own principal.
pub open spec fn spec_scoped_targets(
    restricted: Seq<(String, Vec<candid::Principal>)>,
    origin: Seq<char>,
) -> Option<Seq<candid::Principal>> {
    if first_index(restricted, restricts(origin)) < restricted.len() {
        Some(restricted[first_index(restricted, restricts(origin))].1@)
    } else {
        None
    }
}

/// The targets of a delegation on `origin`, given the restricted origins,
/// each with the principals that a delegation on it is good for.
pub fn scoped_targets(
    restricted: &Vec<(String, Vec<candid::Principal>)>,
    origin: &FrontendHostname,
) -> (r: Option<Vec<candid::Principal>>)
    ensures
        match r {
            Some(v) => spec_scoped_targets(restricted@, origin@) == Some(v@),
            None => spec_scoped_targets(restricted@, origin@).is_none(),
        },
{
    let mut i: usize = 0;
    while i < restricted.len()
        invariant
            i <= restricted@.len(),
            forall|j: int| 0 <= j < i ==> !restricts(origin@)(#[trigger] restricted@[j]),
        decreases restricted@.len() - i,
    {
        if restricted[i].0 == *origin {
            proof {
                lemma_first_index(restricted@, restricts(origin@));
                assert(restricts(origin@)(restricted@[i as int]));
            }
            let listed = &restricted[i].1;
            let mut out: Vec<candid::Principal> = Vec::new();
            let mut k: usize = 0;
            while k < listed.len()
                invariant
                    k <= listed@.len(),
                    out@ == listed@.take(k as int),
                decreases listed@.len() - k,
            {
                out.push(listed[k].clone());
                assert(out@ =~= listed@.take(k + 1));
                k += 1;
            }
            assert(listed@.take(k as int) =~= listed@);
            return Some(out);
        }
        i += 1;
    }
    proof {
        lemma_first_index(restricted@, restricts(origin@));
    }
    None
}

impl DelegationIssuer {
    /// No two prepared delegations share a key.
    pub open spec fn wf(self) -> bool {
        distinct_keys(self.pending@)
    }

    /// An issuer with nothing prepared.
    pub fn new() -> (r: DelegationIssuer)
        ensures
            r.wf(),
            r.pending@.len() == 0,
    {
        DelegationIssuer { pending: Vec::new() }
    }

    /// The position of the delegation prepared for this key, if any.
    pub fn find(
        &self,
        anchor_number: AnchorNumber,
        session_key: &SessionKey,
        origin: &FrontendHostname,
        account: Option<AccountNumber>,
    ) -> (r: Option<usize>)
        ensures
            match r {
                Some(i) => i < self.pending@.len() && i == first_index(
                    self.pending@,
                    prepared_for(anchor_number, session_key@, origin@, account),
                ),
                None => first_index(
                    self.pending@,
                    prepared_for(anchor_number, session_key@, origin@, account),
                ) == self.pending@.len(),
            },
    {
        let ghost f = prepared_for(anchor_number, session_key@, origin@, account);
        let mut i: usize = 0;
        while i < self.pending.len()
            invariant
                i <= self.pending@.len(),
                f == prepared_for(anchor_number, session_key@, origin@, account),
                forall|j: int| 0 <= j < i ==> !f(#[trigger] self.pending@[j]),
            decreases self.pending@.len() - i,
        {
            let p = &self.pending[i];
            let same_account = match (p.account, account) {
                (Some(a), Some(b)) => a == b,
                (None, None) => true,
                _ => false,
            };
            if p.anchor_number == anchor_number && same_account && p.origin == *origin && bytes_eq(
                &p.session_key,
                session_key,
            ) {
                proof {
                    lemma_first_index(self.pending@, f);
                    assert(f(self.pending@[i as int]));
                }
                return Some(i);
            }
            i += 1;
        }
        proof {
            lemma_first_index(self.pending@, f);
        }
        None
    }

    /// Prepares a delegation of `anchor` to `session_key` on `origin`, on
    /// behalf of a caller who authenticated with the key `caller`.
    ///
    /// `user_key` is the key under which the signer signs for the anchor on
    /// this origin; it is handed back with the expiration that the
    /// delegation gets. A delegation prepared earlier for the same key is
    /// superseded. A refused call changes nothing.
    pub fn prepare_delegation(
        &mut self,
        anchor: &Anchor,
        caller: &AuthorizationKey,
        principal: candid::Principal,
        user_key: UserKey,
        session_key: SessionKey,
        origin: FrontendHostname,
        account: Option<AccountNumber>,
        targets: Option<Vec<candid::Principal>>,
        requested_expiration: Timestamp,
        max_expiration: Timestamp,
    ) -> (r: Result<PrepareAccountDelegation, AccountDelegationError>)
        requires
            old(self).wf(),
        ensures
            final(self).wf(),
            match r {
                Ok(prepared) => anchor.authorizes(*caller) && prepared == (
                PrepareAccountDelegation {
                    user_key,
                    expiration: spec_effective_expiration(requested_expiration, max_expiration),
                }) && final(self).pending@ == spec_prepared(
                    old(self).pending@,
                    PendingDelegation {
                        anchor_number: anchor.anchor_number,
                        session_key,
                        origin,
                        account,
                        expiration: spec_effective_expiration(requested_expiration, max_expiration),
                        targets,
                    },
                ),
                Err(e) => !anchor.authorizes(*caller) && *final(self) == *old(self) && e
                    == AccountDelegationError::Unauthorized(principal),
            },
    {
        if !anchor.is_authorized(caller) {
            return Err(AccountDelegationError::Unauthorized(principal));
        }
        let expiration = if requested_expiration < max_expiration {
            requested_expiration
        } else {
            max_expiration
        };
        match self.find(anchor.anchor_number, &session_key, &origin, account) {
            Some(i) => { self.pending.remove(i); },
            None => {},
        }
        let p = PendingDelegation {
            anchor_number: anchor.anchor_number,
            session_key,
            origin,
            account,
            expiration,
            targets,
        };
        proof {
            lemma_removed_key(old(self).pending@, p);
        }
        self.pending.push(p);
        Ok(PrepareAccountDelegation { user_key, expiration })
    }

    /// Fetches the delegation prepared for this key, on behalf of a caller
    /// who authenticated with the key `caller`, with `signature` as the
    /// signature that the signer gave for it.
    ///
    /// The call has to name the expiration that the delegation got, before
    /// it has run out. The delegation is then handed out and dropped;
    /// otherwise nothing changes.
    pub fn get_delegation(
        &mut self,
        anchor: &Anchor,
        caller: &AuthorizationKey,
        principal: candid::Principal,
        session_key: SessionKey,
        origin: &FrontendHostname,
        account: Option<AccountNumber>,
        expiration: Timestamp,
        now: Timestamp,
        signature: Signature,
    ) -> (r: Result<SignedDelegation, AccountDelegationError>)
        requires
            old(self).wf(),
        ensures
            final(self).wf(),
            match r {
                Ok(signed) => anchor.authorizes(*caller) && match spec_lookup(
                    old(self).pending@,
                    anchor.anchor_number,
                    session_key@,
                    origin@,
                    account,
                    expiration,
                    now,
                ) {
                    Some(i) => signed == (SignedDelegation {
                        delegation: Delegation {
                            pubkey: session_key,
                            expiration,
                            targets: old(self).pending@[i].targets,
                        },
                        signature,
                    }) && final(self).pending@ == old(self).pending@.remove(i),
                    None => false,
                },
                Err(e) => *final(self) == *old(self) && (if !anchor.authorizes(*caller) {
                    e == AccountDelegationError::Unauthorized(principal)
                } else {
                    e == AccountDelegationError::NoSuchDelegation && spec_lookup(
                        old(self).pending@,
                        anchor.anchor_number,
                        session_key@,
                        origin@,
                        account,
                        expiration,
                        now,
                    ).is_none()
                }),
            },
    {
        if !anchor.is_authorized(caller) {
            return Err(AccountDelegationError::Unauthorized(principal));
        }
        let i = match self.find(anchor.anchor_number, &session_key, origin, account) {
            None => { return Err(AccountDelegationError::NoSuchDelegation); },
            Some(i) => i,
        };
        if self.pending[i].expiration != expiration || !(now < expiration) {
            return Err(AccountDelegationError::NoSuchDelegation);
        }
        let p = self.pending.remove(i);
        proof {
            let s = old(self).pending@;
            let t = self.pending@;
            assert forall|a: int, b: int|
                0 <= a < t.len() && 0 <= b < t.len() && a != b implies !same_key(
                #[trigger] t[a],
                #[trigger] t[b],
            ) by {
                let a2 = if a < i { a } else { a + 1 };
                let b2 = if b < i { b } else { b + 1 };
                assert(!same_key(s[a2], s[b2]));
            }
        }
        Ok(
            SignedDelegation {
                delegation: Delegation { pubkey: session_key, expiration, targets: p.targets },
                signature,
            },
        )
    }
}

} // verus!
