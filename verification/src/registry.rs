//! The registry and its operations.

use vstd::prelude::*;
use crate::artifact::{qr_uri, redirect_url};
use crate::identity::{is_management, Identity};
use crate::metadata::{clone_metadata, MetadataDesc, MetadataValView};
use crate::model::{count_owned, valid_tokens, StateView};
use crate::types::{
    default_logo, default_logo_view, Error, InitArgs, InterfaceId, LogoResult, MintResult, Nft,
};

verus! {

/// The registry: the tokens, the custodians, the collection's attributes and
/// the transaction counter.
#[derive(Debug, PartialEq, Eq)]
pub struct State {
    nfts: Vec<Nft>,
    custodians: Vec<Identity>,
    name: String,
    symbol: String,
    logo: Option<LogoResult>,
    base_url: String,
    txid: u128,
}

/// What is kept of a registry while it is suspended.
#[derive(Debug, PartialEq, Eq)]
pub struct StableState {
    pub state: State,
}

impl View for StableState {
    type V = StateView;

    open spec fn view(&self) -> StateView {
        self.state@
    }
}

impl View for State {
    type V = StateView;

    closed spec fn view(&self) -> StateView {
        StateView {
            nfts: self.nfts.deep_view(),
            custodians: self.custodians.deep_view().to_set(),
            name: self.name@,
            symbol: self.symbol@,
            logo: match self.logo {
                Some(logo) => Some(logo@),
                None => None,
            },
            base_url: self.base_url@,
            txid: self.txid as nat,
        }
    }
}

impl Default for State {
    /// A registry with no token, no custodian and no attribute set.
    fn default() -> (r: State)
        ensures
            r@ == StateView::empty(),
    {
        State::new()
    }
}

/// Where `who` stands in `list`, if anywhere.
fn position(list: &Vec<Identity>, who: &Identity) -> (r: Option<usize>)
    ensures
        r is Some <==> list.deep_view().contains(who@),
        r is Some ==> r->0 < list@.len() && list@[r->0 as int]@ == who@,
{
    let mut i: usize = 0;
    while i < list.len()
        invariant
            i <= list@.len(),
            forall|k: int| 0 <= k < i ==> list.deep_view()[k] != who@,
        decreases list@.len() - i,
    {
        if list[i].same(who) {
            assert(list.deep_view()[i as int] == who@);
            return Some(i);
        }
        i += 1;
    }
    None
}

/// The identities of `list`, each once, in the order of their first occurrence.
fn distinct(list: &Vec<Identity>) -> (r: Vec<Identity>)
    ensures
        r.deep_view().no_duplicates(),
        r.deep_view().to_set() == list.deep_view().to_set(),
{
    let mut kept: Vec<Identity> = Vec::new();
    let mut i: usize = 0;
    assert(kept.deep_view() =~= Seq::empty());
    while i < list.len()
        invariant
            i <= list@.len(),
            kept.deep_view().no_duplicates(),
            forall|k: int| 0 <= k < i ==> kept.deep_view().contains(#[trigger] list.deep_view()[k]),
            forall|id: Seq<u8>| kept.deep_view().contains(id) ==> list.deep_view().contains(id),
        decreases list@.len() - i,
    {
        if position(&kept, &list[i]).is_none() {
            let ghost before = kept.deep_view();
            let id = list[i].clone();
            kept.push(id);
            assert(kept.deep_view() =~= before.push(id@));
            assert(id@ == list.deep_view()[i as int]);
            assert forall|k: int| 0 <= k <= i implies kept.deep_view().contains(
                #[trigger] list.deep_view()[k],
            ) by {
                if k < i {
                    let at = choose|at: int|
                        0 <= at < before.len() && before[at] == list.deep_view()[k];
                    assert(kept.deep_view()[at] == list.deep_view()[k]);
                } else {
                    assert(kept.deep_view()[before.len() as int] == list.deep_view()[k]);
                }
            }
            assert forall|other: Seq<u8>| kept.deep_view().contains(other) implies list.deep_view().contains(
                other,
            ) by {
                let at = choose|at: int|
                    0 <= at < kept.deep_view().len() && kept.deep_view()[at] == other;
                if at < before.len() {
                    assert(before.contains(other));
                } else {
                    assert(list.deep_view()[i as int] == other);
                }
            }
        }
        i += 1;
    }
    assert(kept.deep_view().to_set() =~= list.deep_view().to_set()) by {
        assert forall|id: Seq<u8>| list.deep_view().contains(id) implies kept.deep_view().contains(
            id,
        ) by {
            let at = choose|at: int| 0 <= at < list.deep_view().len() && list.deep_view()[at] == id;
            assert(kept.deep_view().contains(list.deep_view()[at]));
        }
    }
    kept
}

/// Whether `nfts` can be the tokens of a registry.
fn check_tokens(nfts: &Vec<Nft>) -> (r: bool)
    ensures
        r == valid_tokens(nfts.deep_view()),
{
    let ghost view = nfts.deep_view();
    let mut i: usize = 0;
    while i < nfts.len()
        invariant
            i <= nfts@.len(),
            view == nfts.deep_view(),
            forall|k: int| 0 <= k < i ==> (#[trigger] view[k]).id == k,
            forall|k: int, j: int|
                0 <= k < i && k < j < view.len() && !is_management(view[k].owner) ==> (
                #[trigger] view[k]).owner != (#[trigger] view[j]).owner,
        decreases nfts@.len() - i,
    {
        if nfts[i].id != i as u64 {
            assert(view[i as int].id != i);
            return false;
        }
        if !nfts[i].owner.is_management() {
            let mut j: usize = i + 1;
            while j < nfts.len()
                invariant
                    i < j <= nfts@.len(),
                    view == nfts.deep_view(),
                    !is_management(view[i as int].owner),
                    forall|k: int| i < k < j ==> view[i as int].owner != (#[trigger] view[k]).owner,
                decreases nfts@.len() - j,
            {
                if nfts[i].owner.same(&nfts[j].owner) {
                    assert(view[i as int].owner == view[j as int].owner);
                    return false;
                }
                j += 1;
            }
        }
        i += 1;
    }
    assert forall|k: int, j: int|
        0 <= k < view.len() && 0 <= j < view.len() && k != j && !is_management(
            view[k].owner,
        ) implies (#[trigger] view[k]).owner != (#[trigger] view[j]).owner by {
        if j < k && view[k].owner == view[j].owner {
            assert(!is_management(view[j].owner));
        }
    }
    true
}

impl State {
    #[verifier::type_invariant]
    spec fn inv(&self) -> bool {
        &&& self@.wf()
        &&& self.custodians.deep_view().no_duplicates()
    }

    /// A registry with no token, no custodian and no attribute set.
    pub fn new() -> (r: State)
        ensures
            r@ == StateView::empty(),
            r@.wf(),
    {
        let r = State {
            nfts: Vec::new(),
            custodians: Vec::new(),
            name: String::new(),
            symbol: String::new(),
            logo: None,
            base_url: String::new(),
            txid: 0,
        };
        assert(r.nfts.deep_view() =~= Seq::empty());
        assert(r.custodians.deep_view() =~= Seq::empty());
        assert(r.custodians.deep_view().to_set() =~= Set::empty());
        r
    }

    /// The registry made of these parts, where `nfts` can be the tokens of
    /// one. Of `custodians`, each identity is kept once.
    pub fn from_parts(
        nfts: Vec<Nft>,
        custodians: Vec<Identity>,
        name: String,
        symbol: String,
        logo: Option<LogoResult>,
        base_url: String,
        txid: u128,
    ) -> (r: Option<State>)
        ensures
            r is Some <==> valid_tokens(nfts.deep_view()),
            r is Some ==> r->0@ == (StateView {
                nfts: nfts.deep_view(),
                custodians: custodians.deep_view().to_set(),
                name: name@,
                symbol: symbol@,
                logo: match logo {
                    Some(logo) => Some(logo@),
                    None => None,
                },
                base_url: base_url@,
                txid: txid as nat,
            }),
            r is Some ==> r->0@.wf(),
    {
        if !check_tokens(&nfts) {
            return None;
        }
        let custodians = distinct(&custodians);
        Some(State { nfts, custodians, name, symbol, logo, base_url, txid })
    }

    /// Sets the registry up: the custodians, who are `caller` alone where
    /// `args` names none or gives an empty list, and the collection's
    /// attributes. Tokens and the transaction counter stay as they are.
    pub fn init(&mut self, caller: &Identity, args: InitArgs)
        ensures
            final(self)@ == old(self)@.after_init(caller@, args@),
            final(self)@.wf(),
    {
        proof {
            use_type_invariant(&*self);
        }
        let mut custodians = match args.custodians {
            Some(list) => distinct(&list),
            None => Vec::new(),
        };
        let ghost given = custodians.deep_view();
        if custodians.len() == 0 {
            custodians.push(caller.clone());
            assert(given.to_set() =~= Set::empty()) by {
                assert(given =~= Seq::empty());
            }
            assert(custodians.deep_view() =~= seq![caller@]);
            assert(seq![caller@].to_set() =~= set![caller@]) by {
                assert(seq![caller@][0] == caller@);
            }
        } else {
            assert(given.to_set().contains(given[0]));
        }
        self.custodians = custodians;
        self.name = args.name;
        self.symbol = args.symbol;
        self.logo = args.logo;
        self.base_url = args.base_url;
    }

    /// Suspends the registry: hands all of it out, and leaves an empty one.
    pub fn pre_upgrade(&mut self) -> (r: StableState)
        ensures
            r@ == old(self)@.snapshot(),
            r@.wf(),
            final(self)@ == old(self)@.after_pre_upgrade(),
    {
        proof {
            use_type_invariant(&*self);
        }
        let mut state = State::new();
        std::mem::swap(self, &mut state);
        StableState { state }
    }

    /// Resumes the registry from what was kept of it.
    pub fn post_upgrade(&mut self, stable: StableState)
        ensures
            final(self)@ == old(self)@.after_post_upgrade(stable@),
            final(self)@.wf(),
    {
        proof {
            use_type_invariant(&stable.state);
        }
        *self = stable.state;
    }

    /// The tokens, each at the position that is its id.
    pub fn nfts(&self) -> (r: &Vec<Nft>)
        ensures
            r.deep_view() == self@.nfts,
    {
        &self.nfts
    }

    /// The custodians, each once.
    pub fn custodians(&self) -> (r: &Vec<Identity>)
        ensures
            r.deep_view().to_set() == self@.custodians,
            r.deep_view().no_duplicates(),
    {
        proof {
            use_type_invariant(self);
        }
        &self.custodians
    }

    /// The logo that was set, if one was.
    pub fn stored_logo(&self) -> (r: &Option<LogoResult>)
        ensures
            self@.logo == match *r {
                Some(logo) => Some(logo@),
                None => None,
            },
    {
        &self.logo
    }

    /// The transaction id that the next successful change is given.
    pub fn txid(&self) -> (r: u128)
        ensures
            r == self@.txid,
    {
        self.txid
    }

    /// The position of the live token that `who` holds, if they hold one.
    fn find(&self, who: &Identity) -> (r: Option<usize>)
        ensures
            r is Some <==> self@.is_holder(who@),
            r is Some ==> r->0 == self@.token_of(who@) && self@.holds(who@, r->0 as int),
    {
        proof {
            use_type_invariant(self);
        }
        if who.is_management() {
            return None;
        }
        let mut i: usize = 0;
        while i < self.nfts.len()
            invariant
                i <= self.nfts@.len(),
                !is_management(who@),
                self@.wf(),
                self@.nfts == self.nfts.deep_view(),
                forall|k: int| 0 <= k < i ==> !self@.holds(who@, k),
            decreases self.nfts@.len() - i,
        {
            if self.nfts[i].owner.same(who) {
                assert(self@.holds(who@, i as int));
                return Some(i);
            }
            i += 1;
        }
        None
    }

    /// Whether `principal` is a custodian.
    pub fn is_custodian(&self, principal: &Identity) -> (r: bool)
        ensures
            r == self@.custodians.contains(principal@),
    {
        position(&self.custodians, principal).is_some()
    }

    /// The number of tokens attributed to `user`.
    pub fn balance_of(&self, user: &Identity) -> (r: u64)
        ensures
            r == self@.balance_of(user@),
    {
        let mut count: u64 = 0;
        let mut i: usize = 0;
        let ghost nfts = self.nfts.deep_view();
        while i < self.nfts.len()
            invariant
                i <= self.nfts@.len(),
                nfts == self.nfts.deep_view(),
                count == count_owned(nfts.take(i as int), user@),
                count <= i,
            decreases self.nfts@.len() - i,
        {
            assert(nfts.take(i + 1).drop_last() =~= nfts.take(i as int));
            if self.nfts[i].owner.same(user) {
                count += 1;
            }
            i += 1;
        }
        assert(nfts.take(i as int) =~= nfts);
        count
    }

    /// The holder of `token_id`; the management identity for a burned token.
    pub fn owner_of(&self, token_id: u64) -> (r: Result<Identity, Error>)
        ensures
            match r {
                Ok(owner) => self@.owner_of(token_id) == Ok::<Seq<u8>, Error>(owner@),
                Err(e) => self@.owner_of(token_id) == Err::<Seq<u8>, Error>(e),
            },
    {
        if token_id >= self.nfts.len() as u64 {
            return Err(Error::InvalidTokenId);
        }
        Ok(self.nfts[token_id as usize].owner.clone())
    }

    /// The description of `token_id`.
    pub fn get_metadata(&self, token_id: u64) -> (r: Result<MetadataDesc, Error>)
        ensures
            match r {
                Ok(metadata) => self@.metadata_of(token_id) == Ok::<
                    Seq<(Seq<char>, MetadataValView)>,
                    Error,
                >(metadata.deep_view()),
                Err(e) => self@.metadata_of(token_id) == Err::<
                    Seq<(Seq<char>, MetadataValView)>,
                    Error,
                >(e),
            },
    {
        if token_id >= self.nfts.len() as u64 {
            return Err(Error::InvalidTokenId);
        }
        Ok(clone_metadata(&self.nfts[token_id as usize].metadata))
    }

    /// What `caller` is shown for their live token: the `data:` address of a
    /// QR code that leads to the token's link. A caller without a live token,
    /// and a step that fails, are answered with a sentence that says so.
    pub fn get_metadata_for_user(&self, caller: &Identity) -> (r: String)
        ensures
            r@ == self@.redirect_artifact(caller@),
    {
        let index = match self.find(caller) {
            Some(index) => index,
            None => {
                return String::from_str("No NFT found for user");
            },
        };
        let url = redirect_url(self.base_url.as_str(), self.nfts[index].id);
        match qr_uri(url.as_str()) {
            Ok(address) => address,
            Err(complaint) => complaint,
        }
    }

    /// Moving a token from one holder to another is not offered: the answer is
    /// always `Unauthorized`, and nothing changes.
    pub fn transfer_from(&mut self, from: &Identity, to: &Identity, token_id: u64) -> (r: Result<
        u128,
        Error,
    >)
        ensures
            r == Err::<u128, Error>(Error::Unauthorized),
            *final(self) == *old(self),
    {
        Err(Error::Unauthorized)
    }

    /// The capabilities that the registry advertises.
    pub fn supported_interfaces() -> (r: Vec<InterfaceId>)
        ensures
            r@ == seq![InterfaceId::Mint],
    {
        let mut r: Vec<InterfaceId> = Vec::new();
        r.push(InterfaceId::Mint);
        assert(r@ =~= seq![InterfaceId::Mint]);
        r
    }

    /// The collection's name.
    pub fn name(&self) -> (r: String)
        ensures
            r@ == self@.name,
    {
        self.name.clone()
    }

    /// The collection's symbol.
    pub fn symbol(&self) -> (r: String)
        ensures
            r@ == self@.symbol,
    {
        self.symbol.clone()
    }

    /// The collection's logo; the built-in placeholder while none is set.
    pub fn logo(&self) -> (r: LogoResult)
        ensures
            r@ == match self@.logo {
                Some(logo) => logo,
                None => default_logo_view(),
            },
    {
        match &self.logo {
            Some(logo) => logo.clone(),
            None => default_logo(),
        }
    }

    /// The address on which links to tokens are built.
    pub fn base_url(&self) -> (r: String)
        ensures
            r@ == self@.base_url,
    {
        self.base_url.clone()
    }

    /// The number of tokens ever minted, burned ones included.
    pub fn total_supply(&self) -> (r: u64)
        ensures
            r == self@.nfts.len(),
    {
        self.nfts.len() as u64
    }

    /// Issues the next transaction id.
    pub fn next_txid(&mut self) -> (r: u128)
        requires
            old(self)@.txid < u128::MAX,
        ensures
            r == old(self)@.txid,
            final(self)@ == old(self)@.issued(),
    {
        proof {
            use_type_invariant(&*self);
        }
        let r = self.txid;
        self.txid = r + 1;
        r
    }

    /// Mints a token described by `metadata` for `caller`, who may hold no
    /// live token yet.
    pub fn mint(&mut self, caller: &Identity, metadata: MetadataDesc) -> (r: Result<
        MintResult,
        Error,
    >)
        requires
            old(self)@.mint_error(caller@) is None ==> old(self)@.txid < u128::MAX,
        ensures
            match old(self)@.mint_error(caller@) {
                Some(e) => r == Err::<MintResult, Error>(e),
                None => r == Ok::<MintResult, Error>(old(self)@.minted()),
            },
            final(self)@ == old(self)@.after_mint(caller@, metadata.deep_view()),
            final(self)@.wf(),
    {
        proof {
            use_type_invariant(&*self);
        }
        if self.find(caller).is_some() {
            return Err(Error::AlreadyExists);
        }
        let token_id = self.nfts.len() as u64;
        let nft = Nft { owner: caller.clone(), approved: None, id: token_id, metadata };
        let ghost before = self.nfts.deep_view();
        assert forall|i: int| 0 <= i < before.len() && !is_management(before[i].owner) implies (
        #[trigger] before[i]).owner != caller@ by {
            assert(!old(self)@.holds(caller@, i));
        }
        let mut nfts: Vec<Nft> = Vec::new();
        std::mem::swap(&mut self.nfts, &mut nfts);
        nfts.push(nft);
        assert(nfts.deep_view() =~= before.push(nft@));
        self.nfts = nfts;
        let id = self.next_txid();
        Ok(MintResult { id, token_id })
    }

    /// Replaces the description of the live token that `caller` holds, and
    /// withdraws its delegate.
    pub fn change_nft_info(&mut self, caller: &Identity, metadata: MetadataDesc) -> (r: Result<
        String,
        Error,
    >)
        requires
            old(self)@.change_error(caller@) is None ==> old(self)@.txid < u128::MAX,
        ensures
            match old(self)@.change_error(caller@) {
                Some(e) => r == Err::<String, Error>(e),
                None => r is Ok && r->Ok_0@ == "Transaction successful"@,
            },
            final(self)@ == old(self)@.after_change(caller@, metadata.deep_view()),
            final(self)@.wf(),
    {
        proof {
            use_type_invariant(&*self);
        }
        let index = match self.find(caller) {
            Some(index) => index,
            None => {
                return Err(Error::InvalidTokenId);
            },
        };
        let ghost view = metadata.deep_view();
        let mut nfts: Vec<Nft> = Vec::new();
        std::mem::swap(&mut self.nfts, &mut nfts);
        nfts[index].approved = None;
        nfts[index].metadata = metadata;
        assert(nfts.deep_view() =~= old(self)@.after_change(caller@, view).nfts);
        self.nfts = nfts;
        self.next_txid();
        Ok(String::from_str("Transaction successful"))
    }

    /// Names the collection, on behalf of a custodian.
    pub fn set_name(&mut self, caller: &Identity, name: String) -> (r: Result<(), Error>)
        requires
            old(self)@.admin_error(caller@) is None ==> old(self)@.txid < u128::MAX,
        ensures
            match old(self)@.admin_error(caller@) {
                Some(e) => r == Err::<(), Error>(e),
                None => r is Ok,
            },
            final(self)@ == old(self)@.after_set_name(caller@, name@),
            final(self)@.wf(),
    {
        proof {
            use_type_invariant(&*self);
        }
        if !self.is_custodian(caller) {
            return Err(Error::Unauthorized);
        }
        self.name = name;
        self.next_txid();
        Ok(())
    }

    /// Gives the collection its symbol, on behalf of a custodian.
    pub fn set_symbol(&mut self, caller: &Identity, sym: String) -> (r: Result<(), Error>)
        requires
            old(self)@.admin_error(caller@) is None ==> old(self)@.txid < u128::MAX,
        ensures
            match old(self)@.admin_error(caller@) {
                Some(e) => r == Err::<(), Error>(e),
                None => r is Ok,
            },
            final(self)@ == old(self)@.after_set_symbol(caller@, sym@),
            final(self)@.wf(),
    {
        proof {
            use_type_invariant(&*self);
        }
        if !self.is_custodian(caller) {
            return Err(Error::Unauthorized);
        }
        self.symbol = sym;
        self.next_txid();
        Ok(())
    }

    /// Gives the collection a logo, or takes it away, on behalf of a custodian.
    pub fn set_logo(&mut self, caller: &Identity, logo: Option<LogoResult>) -> (r: Result<
        (),
        Error,
    >)
        requires
            old(self)@.admin_error(caller@) is None ==> old(self)@.txid < u128::MAX,
        ensures
            match old(self)@.admin_error(caller@) {
                Some(e) => r == Err::<(), Error>(e),
                None => r is Ok,
            },
            final(self)@ == old(self)@.after_set_logo(
                caller@,
                match logo {
                    Some(logo) => Some(logo@),
                    None => None,
                },
            ),
            final(self)@.wf(),
    {
        proof {
            use_type_invariant(&*self);
        }
        if !self.is_custodian(caller) {
            return Err(Error::Unauthorized);
        }
        self.logo = logo;
        self.next_txid();
        Ok(())
    }

    /// Sets the address on which links to tokens are built, on behalf of a
    /// custodian.
    pub fn set_base_url(&mut self, caller: &Identity, url: String) -> (r: Result<(), Error>)
        requires
            old(self)@.admin_error(caller@) is None ==> old(self)@.txid < u128::MAX,
        ensures
            match old(self)@.admin_error(caller@) {
                Some(e) => r == Err::<(), Error>(e),
                None => r is Ok,
            },
            final(self)@ == old(self)@.after_set_base_url(caller@, url@),
            final(self)@.wf(),
    {
        proof {
            use_type_invariant(&*self);
        }
        if !self.is_custodian(caller) {
            return Err(Error::Unauthorized);
        }
        self.base_url = url;
        self.next_txid();
        Ok(())
    }

    /// Makes `user` a custodian (`custodian`), or makes them one no longer, on
    /// behalf of a custodian. The last custodian may be removed.
    pub fn set_custodian(&mut self, caller: &Identity, user: Identity, custodian: bool) -> (r:
        Result<(), Error>)
        requires
            old(self)@.admin_error(caller@) is None ==> old(self)@.txid < u128::MAX,
        ensures
            match old(self)@.admin_error(caller@) {
                Some(e) => r == Err::<(), Error>(e),
                None => r is Ok,
            },
            final(self)@ == old(self)@.after_set_custodian(caller@, user@, custodian),
            final(self)@.wf(),
    {
        proof {
            use_type_invariant(&*self);
        }
        if !self.is_custodian(caller) {
            return Err(Error::Unauthorized);
        }
        let found = position(&self.custodians, &user);
        let ghost before = self.custodians.deep_view();
        let mut custodians: Vec<Identity> = Vec::new();
        std::mem::swap(&mut self.custodians, &mut custodians);
        if custodian {
            if found.is_none() {
                custodians.push(user);
                assert(custodians.deep_view() =~= before.push(user@));
            }
            assert(custodians.deep_view().to_set() =~= before.to_set().insert(user@)) by {
                assert forall|id: Seq<u8>| before.contains(id) implies custodians.deep_view().contains(
                    id,
                ) by {
                    let at = choose|at: int| 0 <= at < before.len() && before[at] == id;
                    assert(custodians.deep_view()[at] == id);
                }
                if found.is_none() {
                    assert(custodians.deep_view()[before.len() as int] == user@);
                }
            }
        } else {
            match found {
                Some(at) => {
                    custodians.remove(at);
                    assert(custodians.deep_view() =~= before.remove(at as int));
                    assert(custodians.deep_view().to_set() =~= before.to_set().remove(user@)) by {
                        assert forall|id: Seq<u8>| before.contains(id) && id != user@ implies custodians.deep_view().contains(
                        id) by {
                            let k = choose|k: int| 0 <= k < before.len() && before[k] == id;
                            if k < at {
                                assert(custodians.deep_view()[k] == id);
                            } else {
                                assert(custodians.deep_view()[k - 1] == id);
                            }
                        }
                        assert forall|id: Seq<u8>|
                            custodians.deep_view().contains(id) implies before.contains(id) && id
                            != user@ by {
                            let k = choose|k: int|
                                0 <= k < custodians.deep_view().len() && custodians.deep_view()[k]
                                    == id;
                            if k < at {
                                assert(before[k] == id);
                            } else {
                                assert(before[k + 1] == id);
                            }
                            assert(before[at as int] == user@);
                        }
                    }
                },
                None => {
                    assert(custodians.deep_view().to_set() =~= before.to_set().remove(user@));
                },
            }
        }
        self.custodians = custodians;
        self.next_txid();
        Ok(())
    }

    /// Burns `token_id` on behalf of `caller`, who must hold it.
    pub fn burn(&mut self, caller: &Identity, token_id: u64) -> (r: Result<u128, Error>)
        requires
            old(self)@.burn_error(caller@, token_id) is None ==> old(self)@.txid < u128::MAX,
        ensures
            match old(self)@.burn_error(caller@, token_id) {
                Some(e) => r == Err::<u128, Error>(e),
                None => r == Ok::<u128, Error>(old(self)@.txid as u128),
            },
            final(self)@ == old(self)@.after_burn(caller@, token_id),
            final(self)@.wf(),
    {
        proof {
            use_type_invariant(&*self);
        }
        if token_id >= self.nfts.len() as u64 {
            return Err(Error::InvalidTokenId);
        }
        let index = token_id as usize;
        if !self.nfts[index].owner.same(caller) {
            return Err(Error::Unauthorized);
        }
        let mut nfts: Vec<Nft> = Vec::new();
        std::mem::swap(&mut self.nfts, &mut nfts);
        nfts[index].owner = Identity::management();
        assert(nfts.deep_view() =~= old(self)@.after_burn(caller@, token_id).nfts);
        self.nfts = nfts;
        Ok(self.next_txid())
    }
}

} // verus!
