//! The planet registry and its validation saga.
//!
//! The registry lists vault ("planet") contracts under their addresses, in
//! ascending address order, each with a bounded title and description.
//! Adding a planet runs a validation round trip: a fixed amount is bonded
//! into the new planet, the minted shares are unbonded again, and the
//! balance afterwards must equal the balance before less the two transfer
//! levies the round trip crosses.

use vstd::prelude::*;

use crate::asset::AssetInfo;
use crate::dispatch::{Dispatch, ReplyTag, SubCall};
use crate::error::ContractError;
use crate::protocol::starflet::{PlanetResponse, PlanetsResponse};
use crate::strutil::{lemma_lex_transitive, lemma_lex_trichotomy, lex_lt, str_eq, str_lt};

verus! {

/// Longest title the registry accepts, in characters.
pub const MAX_TITLE: usize = 80;

/// Longest description the registry accepts, in characters.
pub const MAX_DESCRIPTION: usize = 200;

/// Most entries one page of the listing can hold.
pub const MAX_LIMIT: u32 = 30;

/// Entries per page when no limit is asked for.
pub const DEFAULT_LIMIT: u32 = 10;

/// Amount bonded and unbonded again to validate a newly added planet.
pub const VALIDATION_AMOUNT: u128 = 1_000_000;

/// The registry's configuration: who administers it.
#[derive(Clone, Debug, PartialEq, Eq)]
pub struct Config {
    pub admin: String,
}

/// One registered planet.
#[derive(Clone, Debug, PartialEq, Eq)]
pub struct PlanetInfo {
    pub contract_addr: String,
    pub title: String,
    pub description: String,
}

impl PlanetInfo {
    /// This entry as a query response.
    pub fn to_normal(&self) -> (r: PlanetResponse)
        ensures
            r.contract_addr@ == self.contract_addr@,
            r.title@ == self.title@,
            r.description@ == self.description@,
    {
        PlanetResponse {
            contract_addr: self.contract_addr.clone(),
            title: self.title.clone(),
            description: self.description.clone(),
        }
    }
}

/// Continuation of an in-flight planet validation: the planet under test,
/// its share token, its underlying asset, and the registry's balance
/// snapshot taken before the round trip began.
#[derive(Clone, Debug, PartialEq, Eq)]
pub struct TmpAddPlanet {
    pub planet_addr: String,
    pub vaults_addr: String,
    pub asset_info: AssetInfo,
    pub balance: u128,
}

/// The registry state: configuration, the ordered entries, and the
/// single-slot continuation of the validation saga.
#[derive(Clone, Debug, PartialEq, Eq)]
pub struct StarfletState {
    pub config: Config,
    pub planets: Vec<PlanetInfo>,
    pub tmp_add_planet: Option<TmpAddPlanet>,
}

/// Entries stand in strictly ascending address order; in particular no
/// address appears twice.
pub open spec fn sorted_keys(planets: Seq<PlanetInfo>) -> bool {
    forall|i: int, j: int|
        0 <= i < j < planets.len() ==> #[trigger] lex_lt(
            planets[i].contract_addr@,
            planets[j].contract_addr@,
        )
}

/// In a sorted registry two distinct positions hold distinct addresses.
pub proof fn lemma_sorted_distinct(planets: Seq<PlanetInfo>, i: int, j: int)
    requires
        sorted_keys(planets),
        0 <= i < planets.len(),
        0 <= j < planets.len(),
        i != j,
    ensures
        planets[i].contract_addr@ != planets[j].contract_addr@,
{
    if i < j {
        lemma_lex_trichotomy(planets[i].contract_addr@, planets[j].contract_addr@);
    } else {
        lemma_lex_trichotomy(planets[j].contract_addr@, planets[i].contract_addr@);
    }
}

/// The page of responses drawn from the first `i` entries: every entry
/// whose address comes strictly after `start`, in order.
pub open spec fn spec_page(
    planets: Seq<PlanetInfo>,
    start: Option<Seq<char>>,
    i: int,
) -> Seq<(Seq<char>, Seq<char>, Seq<char>)>
    decreases i,
{
    if i <= 0 || i > planets.len() {
        Seq::empty()
    } else {
        let prev = spec_page(planets, start, i - 1);
        let p = planets[i - 1];
        if match start {
            None => true,
            Some(s) => lex_lt(s, p.contract_addr@),
        } {
            prev.push((p.contract_addr@, p.title@, p.description@))
        } else {
            prev
        }
    }
}

/// The character sequences of a response, for contracts.
pub open spec fn response_views(r: PlanetResponse) -> (Seq<char>, Seq<char>, Seq<char>) {
    (r.contract_addr@, r.title@, r.description@)
}

impl StarfletState {
    /// The registry invariant: entries in strictly ascending address order.
    pub open spec fn wf(self) -> bool {
        sorted_keys(self.planets@)
    }

    /// Whether some entry holds the given address.
    pub open spec fn spec_has_planet(self, addr: Seq<char>) -> bool {
        exists|i: int|
            0 <= i < self.planets@.len() && #[trigger] self.planets@[i].contract_addr@ == addr
    }

    /// Opens the registry: whoever instantiates it administers it.
    pub fn instantiate(admin: String) -> (r: StarfletState)
        ensures
            r.wf(),
            r.config.admin == admin,
            r.planets@.len() == 0,
            r.tmp_add_planet is None,
    {
        StarfletState { config: Config { admin }, planets: Vec::new(), tmp_add_planet: None }
    }

    /// Replaces the administrator when a new one is given. Only the
    /// current administrator may update.
    pub fn try_update_config(&mut self, sender: &String, admin: Option<String>) -> (r: Result<
        (),
        ContractError,
    >)
        requires
            old(self).wf(),
        ensures
            final(self).wf(),
            final(self).planets == old(self).planets,
            final(self).tmp_add_planet == old(self).tmp_add_planet,
            match r {
                Ok(()) => {
                    &&& sender@ == old(self).config.admin@
                    &&& final(self).config.admin == match admin {
                        Some(a) => a,
                        None => old(self).config.admin,
                    }
                },
                Err(e) => {
                    &&& e == ContractError::Unauthorized
                    &&& sender@ != old(self).config.admin@
                    &&& *final(self) == *old(self)
                },
            },
    {
        if *sender != self.config.admin {
            return Err(ContractError::Unauthorized);
        }
        if let Some(new_admin) = admin {
            self.config.admin = new_admin;
        }
        Ok(())
    }

    /// Stores an entry under its address, replacing any entry already
    /// there and keeping the entries in ascending address order. The title
    /// and description must fit the registry's bounds.
    pub fn store_planet(&mut self, planet_info: PlanetInfo) -> (r: Result<(), ContractError>)
        requires
            old(self).wf(),
        ensures
            final(self).wf(),
            final(self).config == old(self).config,
            final(self).tmp_add_planet == old(self).tmp_add_planet,
            match r {
                Ok(()) => {
                    &&& planet_info.title@.len() <= MAX_TITLE
                    &&& planet_info.description@.len() <= MAX_DESCRIPTION
                    &&& final(self).planets@.contains(planet_info)
                    &&& final(self).spec_has_planet(planet_info.contract_addr@)
                    &&& forall|p: PlanetInfo| #[trigger]
                        final(self).planets@.contains(p) ==> p == planet_info || (old(self).planets@.contains(p) && p.contract_addr@ != planet_info.contract_addr@)
                    &&& forall|p: PlanetInfo| #[trigger]
                        old(self).planets@.contains(p) && p.contract_addr@
                            != planet_info.contract_addr@ ==> final(self).planets@.contains(p)
                },
                Err(e) => {
                    &&& *final(self) == *old(self)
                    &&& (e == ContractError::TitleTooLong || e
                        == ContractError::DescriptionTooLong)
                    &&& (e == ContractError::TitleTooLong <==> planet_info.title@.len()
                        > MAX_TITLE)
                    &&& (e == ContractError::DescriptionTooLong <==> planet_info.title@.len()
                        <= MAX_TITLE && planet_info.description@.len() > MAX_DESCRIPTION)
                },
            },
    {
        if planet_info.title.unicode_len() > MAX_TITLE {
            return Err(ContractError::TitleTooLong);
        }
        if planet_info.description.unicode_len() > MAX_DESCRIPTION {
            return Err(ContractError::DescriptionTooLong);
        }
        let ghost pre = self.planets@;
        let n = self.planets.len();
        let mut idx: usize = 0;
        while idx < n && str_lt(self.planets[idx].contract_addr.as_str(),
            planet_info.contract_addr.as_str())
            invariant
                idx <= n,
                n == self.planets@.len(),
                self.planets@ == pre,
                forall|k: int|
                    0 <= k < idx ==> lex_lt(
                        #[trigger] self.planets@[k].contract_addr@,
                        planet_info.contract_addr@,
                    ),
            decreases n - idx,
        {
            idx = idx + 1;
        }
        if idx < n && str_eq(self.planets[idx].contract_addr.as_str(),
            planet_info.contract_addr.as_str()) {
            // same address: replace the entry in place
            let ghost key_match = self.planets@[idx as int].contract_addr@
                == planet_info.contract_addr@;
            self.planets.remove(idx);
            proof {
                pre.remove_ensures(idx as int);
            }
            self.planets.insert(idx, planet_info);
            proof {
                let mid = pre.remove(idx as int);
                let post = self.planets@;
                mid.insert_ensures(idx as int, planet_info);
                assert(post =~= pre.update(idx as int, planet_info));
                assert forall|i: int, j: int| 0 <= i < j < post.len() implies #[trigger] lex_lt(
                    post[i].contract_addr@,
                    post[j].contract_addr@,
                ) by {
                    assert(lex_lt(pre[i].contract_addr@, pre[j].contract_addr@));
                    assert(post[i].contract_addr@ == pre[i].contract_addr@);
                    assert(post[j].contract_addr@ == pre[j].contract_addr@);
                }
                assert(post[idx as int] == planet_info);
                assert forall|p: PlanetInfo| #[trigger] post.contains(p) implies p == planet_info
                    || (pre.contains(p) && p.contract_addr@ != planet_info.contract_addr@) by {
                    let i = choose|i: int| 0 <= i < post.len() && post[i] == p;
                    if i != idx {
                        assert(pre[i] == p);
                        lemma_sorted_distinct(pre, i, idx as int);
                    }
                }
                assert forall|p: PlanetInfo| pre.contains(p) && p.contract_addr@
                    != planet_info.contract_addr@ implies #[trigger] post.contains(p) by {
                    let i = choose|i: int| 0 <= i < pre.len() && pre[i] == p;
                    lemma_sorted_distinct(pre, i, idx as int);
                    assert(i != idx);
                    assert(post[i] == p);
                }
                assert(post[idx as int].contract_addr@ == planet_info.contract_addr@);
            }
            Ok(())
        } else {
            // first position whose address is not below the new one: insert
            proof {
                if idx < n {
                    lemma_lex_trichotomy(
                        pre[idx as int].contract_addr@,
                        planet_info.contract_addr@,
                    );
                }
            }
            self.planets.insert(idx, planet_info);
            proof {
                let post = self.planets@;
                pre.insert_ensures(idx as int, planet_info);
                assert(post == pre.insert(idx as int, planet_info));
                assert forall|i: int, j: int| 0 <= i < j < post.len() implies #[trigger] lex_lt(
                    post[i].contract_addr@,
                    post[j].contract_addr@,
                ) by {
                    let a = post[i];
                    let b = post[j];
                    if i < idx && j == idx {
                        // a is an old entry below the new one
                    } else if i == idx && j > idx {
                        // the new entry stands below every entry it displaced
                        if idx < n {
                            if j > idx + 1 {
                                lemma_lex_transitive(
                                    planet_info.contract_addr@,
                                    pre[idx as int].contract_addr@,
                                    pre[j - 1].contract_addr@,
                                );
                            }
                        }
                    } else if j < idx {
                        assert(lex_lt(pre[i].contract_addr@, pre[j].contract_addr@));
                    } else if i > idx {
                        assert(lex_lt(pre[i - 1].contract_addr@, pre[j - 1].contract_addr@));
                    } else if i < idx && j > idx {
                        assert(lex_lt(pre[i].contract_addr@, pre[j - 1].contract_addr@));
                    }
                }
                assert forall|p: PlanetInfo| #[trigger] post.contains(p) implies p == planet_info
                    || (pre.contains(p) && p.contract_addr@ != planet_info.contract_addr@) by {
                    let i = choose|i: int| 0 <= i < post.len() && post[i] == p;
                    if i < idx {
                        assert(pre[i] == p);
                        lemma_lex_trichotomy(p.contract_addr@, planet_info.contract_addr@);
                    } else if i > idx {
                        assert(pre[i - 1] == p);
                        if idx < n {
                            if i - 1 > idx {
                                lemma_lex_transitive(
                                    planet_info.contract_addr@,
                                    pre[idx as int].contract_addr@,
                                    pre[i - 1].contract_addr@,
                                );
                            }
                            lemma_lex_trichotomy(planet_info.contract_addr@, p.contract_addr@);
                        }
                    }
                }
                assert forall|p: PlanetInfo| #[trigger] pre.contains(p) && p.contract_addr@
                    != planet_info.contract_addr@ implies post.contains(p) by {
                    let i = choose|i: int| 0 <= i < pre.len() && pre[i] == p;
                    if i < idx {
                        assert(post[i] == p);
                    } else {
                        assert(post[i + 1] == p);
                    }
                }
            }
            Ok(())
        }
    }

    /// The entry under an address, if any.
    pub fn load_planet(&self, contract_addr: &str) -> (r: Option<PlanetInfo>)
        requires
            self.wf(),
        ensures
            match r {
                Some(p) => self.planets@.contains(p) && p.contract_addr@ == contract_addr@,
                None => !self.spec_has_planet(contract_addr@),
            },
    {
        let n = self.planets.len();
        let mut idx: usize = 0;
        while idx < n
            invariant
                idx <= n,
                n == self.planets@.len(),
                forall|k: int|
                    0 <= k < idx ==> #[trigger] self.planets@[k].contract_addr@
                        != contract_addr@,
            decreases n - idx,
        {
            if str_eq(self.planets[idx].contract_addr.as_str(), contract_addr) {
                let p = PlanetInfo {
                    contract_addr: self.planets[idx].contract_addr.clone(),
                    title: self.planets[idx].title.clone(),
                    description: self.planets[idx].description.clone(),
                };
                proof {
                    assert(self.planets@[idx as int].contract_addr@ == p.contract_addr@);
                }
                return Some(p);
            }
            idx = idx + 1;
        }
        None
    }

    /// Removes the entry under an address, if any; says whether one was
    /// there. When no entry holds the address the registry is untouched.
    pub fn remove_planet(&mut self, contract_addr: &str) -> (r: bool)
        requires
            old(self).wf(),
        ensures
            final(self).wf(),
            final(self).config == old(self).config,
            final(self).tmp_add_planet == old(self).tmp_add_planet,
            r == old(self).spec_has_planet(contract_addr@),
            !final(self).spec_has_planet(contract_addr@),
            !old(self).spec_has_planet(contract_addr@) ==> *final(self) == *old(self),
            forall|p: PlanetInfo| #[trigger]
                final(self).planets@.contains(p) ==> old(self).planets@.contains(p),
            forall|p: PlanetInfo| #[trigger]
                old(self).planets@.contains(p) && p.contract_addr@ != contract_addr@ ==> final(self).planets@.contains(p),
    {
        let ghost pre = self.planets@;
        let n = self.planets.len();
        let mut idx: usize = 0;
        while idx < n && !str_eq(self.planets[idx].contract_addr.as_str(), contract_addr)
            invariant
                idx <= n,
                n == self.planets@.len(),
                self.planets@ == pre,
                forall|k: int|
                    0 <= k < idx ==> #[trigger] self.planets@[k].contract_addr@
                        != contract_addr@,
            decreases n - idx,
        {
            idx = idx + 1;
        }
        if idx == n {
            return false;
        }
        proof {
            assert(pre[idx as int].contract_addr@ == contract_addr@);
        }
        self.planets.remove(idx);
        proof {
            let post = self.planets@;
            pre.remove_ensures(idx as int);
            assert(post == pre.remove(idx as int));
            assert forall|i: int, j: int| 0 <= i < j < post.len() implies #[trigger] lex_lt(
                post[i].contract_addr@,
                post[j].contract_addr@,
            ) by {
                if j < idx {
                    assert(lex_lt(pre[i].contract_addr@, pre[j].contract_addr@));
                } else if i >= idx {
                    assert(lex_lt(pre[i + 1].contract_addr@, pre[j + 1].contract_addr@));
                } else {
                    assert(lex_lt(pre[i].contract_addr@, pre[j + 1].contract_addr@));
                }
            }
            assert forall|i: int| 0 <= i < post.len() implies #[trigger] post[i].contract_addr@
                != contract_addr@ by {
                if i < idx {
                    lemma_sorted_distinct(pre, i, idx as int);
                } else {
                    lemma_sorted_distinct(pre, i + 1, idx as int);
                }
            }
            assert forall|p: PlanetInfo| #[trigger] post.contains(p) implies pre.contains(p) by {
                let i = choose|i: int| 0 <= i < post.len() && post[i] == p;
                if i < idx {
                    assert(pre[i] == p);
                } else {
                    assert(pre[i + 1] == p);
                }
            }
            assert forall|p: PlanetInfo| pre.contains(p) && p.contract_addr@ != contract_addr@
                implies #[trigger] post.contains(p) by {
                let i = choose|i: int| 0 <= i < pre.len() && pre[i] == p;
                if i < idx {
                    assert(post[i] == p);
                } else if i > idx {
                    assert(post[i - 1] == p);
                }
            }
        }
        true
    }

    /// One page of the listing: every entry whose address comes strictly
    /// after `start_after` (all of them when none is given), in ascending
    /// address order, cut to the asked-for limit, capped by the page
    /// bound, defaulting when none is asked for.
    pub fn load_planets(&self, start_after: Option<&str>, limit: Option<u32>) -> (r: Vec<
        PlanetResponse,
    >)
        requires
            self.wf(),
        ensures
            ({
                let start = match start_after {
                    Some(s) => Some(s@),
                    None => None,
                };
                let lim = (match limit {
                    Some(l) => if l < MAX_LIMIT {
                        l
                    } else {
                        MAX_LIMIT
                    },
                    None => DEFAULT_LIMIT,
                }) as int;
                let page = spec_page(self.planets@, start, self.planets@.len() as int);
                &&& r@.len() == (if lim <= page.len() {
                    lim
                } else {
                    page.len() as int
                })
                &&& forall|k: int|
                    0 <= k < r@.len() ==> #[trigger] response_views(r@[k]) == page[k]
            }),
    {
        let lim_u32: u32 = match limit {
            Some(l) => if l < MAX_LIMIT {
                l
            } else {
                MAX_LIMIT
            },
            None => DEFAULT_LIMIT,
        };
        let lim = lim_u32 as usize;
        let ghost start = match start_after {
            Some(s) => Some(s@),
            None => None::<Seq<char>>,
        };
        let n = self.planets.len();
        let mut result: Vec<PlanetResponse> = Vec::new();
        let mut idx: usize = 0;
        while idx < n
            invariant
                idx <= n,
                n == self.planets@.len(),
                start == (match start_after {
                    Some(s) => Some(s@),
                    None => None::<Seq<char>>,
                }),
                result@.len() == (if lim as int <= spec_page(self.planets@, start, idx as int).len() {
                    lim as int
                } else {
                    spec_page(self.planets@, start, idx as int).len() as int
                }),
                forall|k: int|
                    0 <= k < result@.len() ==> #[trigger] response_views(result@[k]) == spec_page(
                        self.planets@,
                        start,
                        idx as int,
                    )[k],
            decreases n - idx,
        {
            let visible = match start_after {
                Some(s) => str_lt(s, self.planets[idx].contract_addr.as_str()),
                None => true,
            };
            if visible && result.len() < lim {
                let response = self.planets[idx].to_normal();
                result.push(response);
            }
            idx = idx + 1;
        }
        result
    }


    /// One page of the listing, wrapped as a query response.
    pub fn query_planets(&self, start_after: Option<&str>, limit: Option<u32>) -> (r:
        PlanetsResponse)
        requires
            self.wf(),
        ensures
            ({
                let start = match start_after {
                    Some(s) => Some(s@),
                    None => None,
                };
                let lim = (match limit {
                    Some(l) => if l < MAX_LIMIT {
                        l
                    } else {
                        MAX_LIMIT
                    },
                    None => DEFAULT_LIMIT,
                }) as int;
                let page = spec_page(self.planets@, start, self.planets@.len() as int);
                &&& r.planets@.len() == (if lim <= page.len() {
                    lim
                } else {
                    page.len() as int
                })
                &&& forall|k: int|
                    0 <= k < r.planets@.len() ==> #[trigger] response_views(r.planets@[k])
                        == page[k]
            }),
    {
        PlanetsResponse { planets: self.load_planets(start_after, limit) }
    }

    /// Registers a planet and begins its validation round trip: the entry
    /// is stored, the balance snapshot is recorded, and the validation
    /// bond is dispatched. Only the administrator may add, and not while a
    /// validation is already in flight.
    pub fn try_add_planet(
        &mut self,
        sender: &String,
        contract_addr: String,
        title: String,
        description: String,
        vaults_addr: String,
        asset_info: AssetInfo,
        balance: u128,
    ) -> (r: Result<SubCall, ContractError>)
        requires
            old(self).wf(),
        ensures
            final(self).wf(),
            final(self).config == old(self).config,
            match r {
                Ok(call) => {
                    &&& sender@ == old(self).config.admin@
                    &&& old(self).tmp_add_planet is None
                    &&& title@.len() <= MAX_TITLE
                    &&& description@.len() <= MAX_DESCRIPTION
                    &&& final(self).planets@.contains(
                        PlanetInfo { contract_addr, title, description },
                    )
                    &&& final(self).tmp_add_planet matches Some(t)
                    &&& t.planet_addr@ == contract_addr@
                    &&& t.vaults_addr == vaults_addr
                    &&& t.asset_info == asset_info
                    &&& t.balance == balance
                    &&& call.tag == ReplyTag::ValidateBond
                    &&& call.msg matches Dispatch::PlanetBond { planet_addr, amount }
                    &&& planet_addr@ == contract_addr@
                    &&& amount == VALIDATION_AMOUNT
                },
                Err(e) => {
                    &&& (e == ContractError::Unauthorized <==> sender@ != old(self).config.admin@)
                    &&& (e == ContractError::ConflictingOperation <==> sender@ == old(self).config.admin@ && old(self).tmp_add_planet is Some)
                    &&& (sender@ != old(self).config.admin@ || old(self).tmp_add_planet is Some ==> *final(self) == *old(self))
                },
            },
    {
        if *sender != self.config.admin {
            return Err(ContractError::Unauthorized);
        }
        if self.tmp_add_planet.is_some() {
            return Err(ContractError::ConflictingOperation);
        }
        let planet_addr = contract_addr.clone();
        let dispatch_addr = contract_addr.clone();
        let stored = self.store_planet(PlanetInfo { contract_addr, title, description });
        if let Err(e) = stored {
            return Err(e);
        }
        self.tmp_add_planet = Some(
            TmpAddPlanet { planet_addr, vaults_addr, asset_info, balance },
        );
        Ok(
            SubCall {
                msg: Dispatch::PlanetBond {
                    planet_addr: dispatch_addr,
                    amount: VALIDATION_AMOUNT,
                },
                tag: ReplyTag::ValidateBond,
                always: false,
            },
        )
    }

    /// Resumes the validation when the bond's outcome arrives: the bond
    /// must have minted shares, which are sent back to the planet to be
    /// unbonded again.
    pub fn resume_validate_bond(&self, vaults_balance: u128) -> (r: Result<
        SubCall,
        ContractError,
    >)
        ensures
            match r {
                Ok(call) => {
                    &&& self.tmp_add_planet matches Some(t)
                    &&& vaults_balance > 0
                    &&& call.tag == ReplyTag::ValidateUnbond
                    &&& call.msg matches Dispatch::PlanetUnbondShares {
                        vaults_addr,
                        planet_addr,
                        amount,
                    }
                    &&& vaults_addr@ == t.vaults_addr@
                    &&& planet_addr@ == t.planet_addr@
                    &&& amount == vaults_balance
                },
                Err(e) => {
                    &&& (e == ContractError::InvalidReplyId || e == ContractError::FailBond)
                    &&& (e == ContractError::InvalidReplyId <==> self.tmp_add_planet is None)
                    &&& (e == ContractError::FailBond <==> self.tmp_add_planet is Some
                        && vaults_balance == 0)
                },
            },
    {
        let t = match &self.tmp_add_planet {
            Some(t) => t,
            None => {
                return Err(ContractError::InvalidReplyId);
            },
        };
        if vaults_balance == 0 {
            return Err(ContractError::FailBond);
        }
        Ok(
            SubCall {
                msg: Dispatch::PlanetUnbondShares {
                    vaults_addr: t.vaults_addr.clone(),
                    planet_addr: t.planet_addr.clone(),
                    amount: vaults_balance,
                },
                tag: ReplyTag::ValidateUnbond,
                always: false,
            },
        )
    }

    /// Resumes the validation when the unbond's outcome arrives: the
    /// balance now held must equal the snapshot less the two transfer
    /// levies the round trip crossed; any other balance is slippage the
    /// accounting model does not admit. On success the continuation is
    /// cleared.
    pub fn resume_validate_unbond(&mut self, balance: u128, tax: u128) -> (r: Result<
        (),
        ContractError,
    >)
        requires
            old(self).wf(),
        ensures
            final(self).wf(),
            final(self).config == old(self).config,
            final(self).planets == old(self).planets,
            ({
                let t = old(self).tmp_add_planet->Some_0;
                match r {
                    Ok(()) => {
                        &&& old(self).tmp_add_planet is Some
                        &&& tax * 2 <= t.balance
                        &&& t.balance - tax * 2 == balance
                        &&& final(self).tmp_add_planet is None
                    },
                    Err(e) => {
                        &&& *final(self) == *old(self)
                        &&& (e == ContractError::InvalidReplyId <==> old(self).tmp_add_planet is None)
                        &&& (e == ContractError::BrokenInvariant <==> old(self).tmp_add_planet is Some && tax * 2 > t.balance)
                        &&& (e matches ContractError::FailBondAndUnbond(exp, got) <==> old(self).tmp_add_planet is Some && tax * 2 <= t.balance && t.balance - tax * 2
                            != balance)
                        &&& (e matches ContractError::FailBondAndUnbond(exp, got) ==> exp
                            == t.balance - tax * 2 && got == balance)
                    },
                }
            }),
    {
        let t_balance = match &self.tmp_add_planet {
            Some(t) => t.balance,
            None => {
                return Err(ContractError::InvalidReplyId);
            },
        };
        if tax > t_balance / 2 {
            proof {
                assert(tax * 2 > t_balance) by (nonlinear_arith)
                    requires
                        tax > t_balance / 2,
                        t_balance >= 0,
                        tax >= 0,
                        t_balance / 2 >= (t_balance - 1) / 2,
                ;
            }
            return Err(ContractError::BrokenInvariant);
        }
        proof {
            assert(tax * 2 <= t_balance) by (nonlinear_arith)
                requires
                    tax <= t_balance / 2,
                    t_balance >= 0,
            ;
        }
        let base_amount = t_balance - tax * 2;
        if base_amount != balance {
            return Err(ContractError::FailBondAndUnbond(base_amount, balance));
        }
        self.tmp_add_planet = None;
        Ok(())
    }

    /// Edits the title and/or description of a registered planet. Only
    /// the administrator may edit, and the planet must be registered.
    pub fn try_edit_planet(
        &mut self,
        sender: &String,
        contract_addr: &String,
        title: Option<String>,
        description: Option<String>,
    ) -> (r: Result<(), ContractError>)
        requires
            old(self).wf(),
        ensures
            final(self).wf(),
            final(self).config == old(self).config,
            final(self).tmp_add_planet == old(self).tmp_add_planet,
            match r {
                Ok(()) => {
                    &&& sender@ == old(self).config.admin@
                    &&& old(self).spec_has_planet(contract_addr@)
                    &&& final(self).spec_has_planet(contract_addr@)
                    &&& forall|q: PlanetInfo| #[trigger]
                        final(self).planets@.contains(q) && q.contract_addr@ == contract_addr@
                            ==> (title matches Some(t) ==> q.title@ == t@) && (
                        description matches Some(d) ==> q.description@ == d@)
                },
                Err(e) => {
                    &&& (e == ContractError::Unauthorized ==> sender@ != old(self).config.admin@ && *final(self) == *old(self))
                    &&& (e == ContractError::PlanetNotFound ==> !old(self).spec_has_planet(
                        contract_addr@,
                    ) && *final(self) == *old(self))
                },
            },
    {
        if *sender != self.config.admin {
            return Err(ContractError::Unauthorized);
        }
        let current = match self.load_planet(contract_addr.as_str()) {
            Some(p) => p,
            None => {
                return Err(ContractError::PlanetNotFound);
            },
        };
        let new_title = match title {
            Some(t) => t,
            None => current.title,
        };
        let new_description = match description {
            Some(d) => d,
            None => current.description,
        };
        let updated = PlanetInfo {
            contract_addr: current.contract_addr,
            title: new_title,
            description: new_description,
        };
        proof {
            assert(updated.contract_addr@ == contract_addr@);
        }
        let stored = self.store_planet(updated);
        match stored {
            Ok(()) => Ok(()),
            Err(e) => Err(e),
        }
    }

    /// Removes a registered planet. Only the administrator may remove,
    /// and the planet must be registered.
    pub fn try_remove_planet(&mut self, sender: &String, contract_addr: &String) -> (r: Result<
        (),
        ContractError,
    >)
        requires
            old(self).wf(),
        ensures
            final(self).wf(),
            final(self).config == old(self).config,
            final(self).tmp_add_planet == old(self).tmp_add_planet,
            match r {
                Ok(()) => {
                    &&& sender@ == old(self).config.admin@
                    &&& old(self).spec_has_planet(contract_addr@)
                    &&& !final(self).spec_has_planet(contract_addr@)
                    &&& forall|p: PlanetInfo| #[trigger]
                        final(self).planets@.contains(p) ==> old(self).planets@.contains(p)
                    &&& forall|p: PlanetInfo| #[trigger]
                        old(self).planets@.contains(p) && p.contract_addr@ != contract_addr@
                            ==> final(self).planets@.contains(p)
                },
                Err(e) => {
                    &&& *final(self) == *old(self)
                    &&& (e == ContractError::Unauthorized <==> sender@ != old(self).config.admin@)
                    &&& (e == ContractError::PlanetNotFound <==> sender@ == old(self).config.admin@ && !old(self).spec_has_planet(contract_addr@))
                },
            },
    {
        if *sender != self.config.admin {
            return Err(ContractError::Unauthorized);
        }
        let removed = self.remove_planet(contract_addr.as_str());
        if removed {
            Ok(())
        } else {
            Err(ContractError::PlanetNotFound)
        }
    }
}

} // verus!
