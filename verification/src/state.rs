//! The data model: the global configuration singleton, the lease record kept
//! for each registered name, per-name approvals, per-owner blanket operator
//! grants, and the plain values a command arrives with.

use vstd::prelude::*;

verus! {

/// A point on the registry's clock, or "never".  The host supplies the
/// current clock value (`now`) with every command; the registry never reads a
/// clock itself.  A deadline of `AtTime(t)` has passed once `t <= now`.
#[derive(Clone, Copy, Debug, PartialEq, Eq, Structural)]
pub enum Expiration {
    /// The grant never expires.
    Never,
    /// The grant expires once the clock reaches this value.
    AtTime(u64),
}

impl Expiration {
    /// Whether this deadline has passed at clock value `now`.
    pub open spec fn spec_is_expired(self, now: u64) -> bool {
        match self {
            Expiration::Never => false,
            Expiration::AtTime(t) => t <= now,
        }
    }

    /// A deadline of `AtTime(t)` has passed once `t <= now`; `Never` has not.
    pub fn is_expired(&self, now: u64) -> (r: bool)
        ensures
            r == self.spec_is_expired(now),
    {
        match self {
            Expiration::Never => false,
            Expiration::AtTime(t) => *t <= now,
        }
    }
}

/// One unit of payment attached to a command: an amount of a named currency.
#[derive(Clone, Debug, PartialEq)]
pub struct Coin {
    pub denom: String,
    pub amount: u128,
}

/// Who sent the command, and the payment attached to it.
#[derive(Clone, Debug)]
pub struct MessageInfo {
    pub sender: String,
    pub funds: Vec<Coin>,
}

/// The host-supplied facts a command executes under: the current clock value,
/// and the verdicts of the host capabilities that the core itself cannot
/// evaluate.  Time only advances through `now`; the registry never reads a
/// wall clock.
#[derive(Clone, Debug)]
pub struct Env {
    /// The current clock value.
    pub now: u64,
    /// The address-validation capability's verdict for the recipient (or
    /// target contract) string named in the command, where one is named;
    /// ignored by every other command.
    pub recipient_valid: bool,
    /// The decoding capability's verdict on the opaque payload of a
    /// send-to-contract command; ignored by every other command.
    pub payload_decodable: bool,
}

/// The global configuration singleton: created at deployment, mutated only by
/// the admin, never deleted.
#[derive(Clone, Debug, PartialEq)]
pub struct State {
    /// Clock units per one purchased "year" of lease.
    pub blocks_per_year: u64,
    /// The admin: may change configuration and withdraw collected fees.
    pub owner: String,
    /// Base used to construct a per-name metadata image reference.
    pub meta_url: String,
    /// The single currency unit accepted as payment.
    pub denom: String,
    /// Unit price for names of six or more characters.
    pub cost_for_6: u64,
    /// Unit price for names of five characters.
    pub cost_for_5: u64,
    /// Unit price for names of four characters.
    pub cost_for_4: u64,
    /// Unit price for names of three characters.
    pub cost_for_3: u64,
    /// Unit price for names of two characters.
    pub cost_for_2: u64,
    /// Unit price for single-character names.
    pub cost_for_1: u64,
}

/// A time-bounded grant letting one specific delegate transfer one specific
/// name on the owner's behalf.
#[derive(Debug, PartialEq)]
pub struct Approval {
    /// Account that may transfer or send the name.
    pub spender: String,
    /// When the approval expires.
    pub expires: Expiration,
}

impl Clone for Approval {
    fn clone(&self) -> (res: Self)
        ensures
            res == *self,
    {
        Approval { spender: self.spender.clone(), expires: self.expires }
    }
}

/// The lease record for one registered name: created on first successful
/// registration, overwritten by later commands, never deleted — an expired
/// record merely becomes invisible and re-registerable.
#[derive(Debug, PartialEq)]
pub struct Name {
    /// The name itself: unique, case-sensitive key.
    pub id: String,
    /// The clock value at which the lease stops being valid.
    pub expires: u64,
    /// The current holder.
    pub owner: String,
    /// Per-name transfer delegations, at most one per delegate.
    pub approvals: Vec<Approval>,
    /// A URL to an avatar image associated with the name.
    pub avatar_url: Option<String>,
    /// Chain-specific addresses carried opaquely for resolution.
    pub secret_address: Option<String>,
    pub crypto_org_address: Option<String>,
    pub starname_address: Option<String>,
    pub persistence_address: Option<String>,
    pub kava_address: Option<String>,
    pub terra_address: Option<String>,
    /// Social handles carried opaquely for display.
    pub website: Option<String>,
    pub email: Option<String>,
    pub twitter: Option<String>,
    pub telegram: Option<String>,
    pub discord: Option<String>,
    pub instagram: Option<String>,
    pub reddit: Option<String>,
}

/// A blanket grant letting one delegate transfer any name owned by the
/// granting owner.  Following the NFT-style interface convention, the field
/// `owner` names the grantee; the granting owner is the key the grant is
/// stored under.
#[derive(Debug, PartialEq)]
pub struct Operator {
    /// The grantee: authorized to act on all of the grantor's names.
    pub owner: String,
    /// When the blanket grant expires.
    pub expires: Expiration,
}

impl Clone for Operator {
    fn clone(&self) -> (res: Self)
        ensures
            res == *self,
    {
        Operator { owner: self.owner.clone(), expires: self.expires }
    }
}

/// All blanket grants stored under one granting owner.
#[derive(Clone, Debug)]
pub struct OperatorEntry {
    /// The granting owner the grants are stored under.
    pub grantor: String,
    /// The grants themselves, an unordered collection; duplicates allowed.
    pub grants: Vec<Operator>,
}

impl Clone for Name {
    fn clone(&self) -> (res: Self)
        ensures
            res.id == self.id,
            res.expires == self.expires,
            res.owner == self.owner,
            res.approvals@ == self.approvals@,
            res.avatar_url == self.avatar_url,
            res.secret_address == self.secret_address,
            res.crypto_org_address == self.crypto_org_address,
            res.starname_address == self.starname_address,
            res.persistence_address == self.persistence_address,
            res.kava_address == self.kava_address,
            res.terra_address == self.terra_address,
            res.website == self.website,
            res.email == self.email,
            res.twitter == self.twitter,
            res.telegram == self.telegram,
            res.discord == self.discord,
            res.instagram == self.instagram,
            res.reddit == self.reddit,
    {
        Name {
            id: self.id.clone(),
            expires: self.expires,
            owner: self.owner.clone(),
            approvals: clone_approvals(&self.approvals),
            avatar_url: clone_opt_string(&self.avatar_url),
            secret_address: clone_opt_string(&self.secret_address),
            crypto_org_address: clone_opt_string(&self.crypto_org_address),
            starname_address: clone_opt_string(&self.starname_address),
            persistence_address: clone_opt_string(&self.persistence_address),
            kava_address: clone_opt_string(&self.kava_address),
            terra_address: clone_opt_string(&self.terra_address),
            website: clone_opt_string(&self.website),
            email: clone_opt_string(&self.email),
            twitter: clone_opt_string(&self.twitter),
            telegram: clone_opt_string(&self.telegram),
            discord: clone_opt_string(&self.discord),
            instagram: clone_opt_string(&self.instagram),
            reddit: clone_opt_string(&self.reddit),
        }
    }
}

/// A copy of an optional identity or URL, equal to the one given.
pub fn clone_opt_string(o: &Option<String>) -> (r: Option<String>)
    ensures
        r == *o,
{
    match o {
        Some(s) => Some(s.clone()),
        None => None,
    }
}

/// A copy of an approval list, element for element.
pub fn clone_approvals(aps: &Vec<Approval>) -> (r: Vec<Approval>)
    ensures
        r@ == aps@,
{
    let mut r: Vec<Approval> = Vec::new();
    let n = aps.len();
    let mut i: usize = 0;
    while i < n
        invariant
            n == aps@.len(),
            i <= n,
            r@ == aps@.subrange(0, i as int),
        decreases n - i,
    {
        r.push(aps[i].clone());
        proof {
            assert(r@ =~= aps@.subrange(0, i as int + 1));
        }
        i += 1;
    }
    proof {
        assert(aps@.subrange(0, n as int) =~= aps@);
    }
    r
}

/// A copy of a blanket-grant list, element for element.
pub fn clone_operators(ops: &Vec<Operator>) -> (r: Vec<Operator>)
    ensures
        r@ == ops@,
{
    let mut r: Vec<Operator> = Vec::new();
    let n = ops.len();
    let mut i: usize = 0;
    while i < n
        invariant
            n == ops@.len(),
            i <= n,
            r@ == ops@.subrange(0, i as int),
        decreases n - i,
    {
        r.push(ops[i].clone());
        proof {
            assert(r@ =~= ops@.subrange(0, i as int + 1));
        }
        i += 1;
    }
    proof {
        assert(ops@.subrange(0, n as int) =~= ops@);
    }
    r
}

/// No two entries of an approval list name the same delegate.
pub open spec fn distinct_spenders(aps: Seq<Approval>) -> bool {
    forall|i: int, j: int| 0 <= i < j < aps.len() ==> aps[i].spender@ != aps[j].spender@
}

/// The approval list with every entry of the given delegate removed, order
/// of the remaining entries kept.
pub open spec fn spec_remove_spender(aps: Seq<Approval>, sp: Seq<char>) -> Seq<Approval>
    decreases aps.len(),
{
    if aps.len() == 0 {
        Seq::<Approval>::empty()
    } else {
        let init = spec_remove_spender(aps.drop_last(), sp);
        if aps.last().spender@ == sp {
            init
        } else {
            init.push(aps.last())
        }
    }
}

/// Removal removes exactly the named delegate's entries: none of it remains,
/// every entry kept comes from the list given, and distinctness of delegates
/// survives.
pub proof fn lemma_remove_spender(aps: Seq<Approval>, sp: Seq<char>)
    ensures
        forall|i: int|
            0 <= i < spec_remove_spender(aps, sp).len() ==> spec_remove_spender(aps, sp)[i].spender@
                != sp,
        forall|i: int|
            0 <= i < spec_remove_spender(aps, sp).len() ==> exists|j: int|
                0 <= j < aps.len() && #[trigger] spec_remove_spender(aps, sp)[i] == #[trigger] aps[j],
        distinct_spenders(aps) ==> distinct_spenders(spec_remove_spender(aps, sp)),
    decreases aps.len(),
{
    if aps.len() == 0 {
    } else {
        let prefix = aps.drop_last();
        lemma_remove_spender(prefix, sp);
        let init = spec_remove_spender(prefix, sp);
        let r = spec_remove_spender(aps, sp);
        assert forall|i: int| 0 <= i < r.len() implies exists|j: int|
            0 <= j < aps.len() && #[trigger] r[i] == #[trigger] aps[j] by {
            if i < init.len() {
                let j = choose|j: int| 0 <= j < prefix.len() && init[i] == prefix[j];
                assert(aps[j] == prefix[j]);
                assert(r[i] == aps[j]);
            } else {
                assert(r[i] == aps[aps.len() - 1]);
            }
        }
        if distinct_spenders(aps) {
            assert(distinct_spenders(prefix));
            if aps.last().spender@ != sp {
                assert forall|i: int, j: int| 0 <= i < j < r.len() implies r[i].spender@
                    != r[j].spender@ by {
                    if j < init.len() {
                    } else {
                        assert(r[j] == aps.last());
                        let w = choose|w: int| 0 <= w < prefix.len() && init[i] == prefix[w];
                        assert(aps[w] == prefix[w]);
                        assert(aps[w].spender@ != aps[aps.len() - 1].spender@);
                    }
                }
            }
        }
    }
}

/// The approval list with every entry of delegate `spender` removed.
pub fn remove_spender(aps: &Vec<Approval>, spender: &String) -> (r: Vec<Approval>)
    ensures
        r@ == spec_remove_spender(aps@, spender@),
{
    let mut r: Vec<Approval> = Vec::new();
    let n = aps.len();
    let mut i: usize = 0;
    proof {
        assert(aps@.subrange(0, 0) =~= Seq::<Approval>::empty());
    }
    while i < n
        invariant
            n == aps@.len(),
            i <= n,
            r@ == spec_remove_spender(aps@.subrange(0, i as int), spender@),
        decreases n - i,
    {
        proof {
            let sub = aps@.subrange(0, i as int + 1);
            assert(sub.drop_last() =~= aps@.subrange(0, i as int));
            assert(sub.last() == aps@[i as int]);
        }
        if !(aps[i].spender == *spender) {
            r.push(aps[i].clone());
        }
        i += 1;
    }
    proof {
        assert(aps@.subrange(0, n as int) =~= aps@);
    }
    r
}

/// Whether the record carries no optional profile field.
pub open spec fn no_profile(n: Name) -> bool {
    &&& n.avatar_url is None
    &&& n.secret_address is None
    &&& n.crypto_org_address is None
    &&& n.starname_address is None
    &&& n.persistence_address is None
    &&& n.kava_address is None
    &&& n.terra_address is None
    &&& n.website is None
    &&& n.email is None
    &&& n.twitter is None
    &&& n.telegram is None
    &&& n.discord is None
    &&& n.instagram is None
    &&& n.reddit is None
}

/// Whether the record's optional profile fields are exactly the given values.
pub open spec fn profile_is(
    n: Name,
    avatar_url: Option<String>,
    secret_address: Option<String>,
    crypto_org_address: Option<String>,
    starname_address: Option<String>,
    persistence_address: Option<String>,
    kava_address: Option<String>,
    terra_address: Option<String>,
    website: Option<String>,
    email: Option<String>,
    twitter: Option<String>,
    telegram: Option<String>,
    discord: Option<String>,
    instagram: Option<String>,
    reddit: Option<String>,
) -> bool {
    &&& n.avatar_url == avatar_url
    &&& n.secret_address == secret_address
    &&& n.crypto_org_address == crypto_org_address
    &&& n.starname_address == starname_address
    &&& n.persistence_address == persistence_address
    &&& n.kava_address == kava_address
    &&& n.terra_address == terra_address
    &&& n.website == website
    &&& n.email == email
    &&& n.twitter == twitter
    &&& n.telegram == telegram
    &&& n.discord == discord
    &&& n.instagram == instagram
    &&& n.reddit == reddit
}

/// Whether two records carry the same optional profile fields.
pub open spec fn same_profile(a: Name, b: Name) -> bool {
    &&& a.avatar_url == b.avatar_url
    &&& a.secret_address == b.secret_address
    &&& a.crypto_org_address == b.crypto_org_address
    &&& a.starname_address == b.starname_address
    &&& a.persistence_address == b.persistence_address
    &&& a.kava_address == b.kava_address
    &&& a.terra_address == b.terra_address
    &&& a.website == b.website
    &&& a.email == b.email
    &&& a.twitter == b.twitter
    &&& a.telegram == b.telegram
    &&& a.discord == b.discord
    &&& a.instagram == b.instagram
    &&& a.reddit == b.reddit
}

} // verus!
