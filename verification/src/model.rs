//! The registry as a mathematical value, and what each operation makes of it.

use vstd::prelude::*;
use crate::artifact::{qr_uri_text, redirect_url_text};
use crate::identity::is_management;
use crate::metadata::MetadataValView;
use crate::types::{Error, InitArgsView, LogoView, MintResult, NftView};

verus! {

/// What a registry stands for.
pub ghost struct StateView {
    /// The tokens, each at the position that is its id.
    pub nfts: Seq<NftView>,
    /// The identities that may administer the collection.
    pub custodians: Set<Seq<u8>>,
    pub name: Seq<char>,
    pub symbol: Seq<char>,
    pub logo: Option<LogoView>,
    pub base_url: Seq<char>,
    /// The transaction id that the next successful change is given.
    pub txid: nat,
}

/// A request that changes the registry when it succeeds.
pub ghost enum Call {
    Mint { metadata: Seq<(Seq<char>, MetadataValView)> },
    Burn { token_id: u64 },
    ChangeNftInfo { metadata: Seq<(Seq<char>, MetadataValView)> },
    TransferFrom { from: Seq<u8>, to: Seq<u8>, token_id: u64 },
    SetName { name: Seq<char> },
    SetSymbol { symbol: Seq<char> },
    SetLogo { logo: Option<LogoView> },
    SetBaseUrl { base_url: Seq<char> },
    SetCustodian { user: Seq<u8>, custodian: bool },
}

/// The custodians of a registry set up by `caller`: those `given`, where
/// there is at least one; else `caller` alone.
pub open spec fn initial_custodians(caller: Seq<u8>, given: Option<Set<Seq<u8>>>) -> Set<Seq<u8>> {
    match given {
        Some(custodians) => if custodians =~= Set::empty() {
            set![caller]
        } else {
            custodians
        },
        None => set![caller],
    }
}

/// How many of `nfts` are attributed to `who`.
pub open spec fn count_owned(nfts: Seq<NftView>, who: Seq<u8>) -> nat
    decreases nfts.len(),
{
    if nfts.len() == 0 {
        0
    } else {
        count_owned(nfts.drop_last(), who) + if nfts.last().owner == who {
            1nat
        } else {
            0nat
        }
    }
}

/// Whether `nfts` can be the tokens of a registry: each id is the token's
/// position, and no real identity holds two of them.
pub open spec fn valid_tokens(nfts: Seq<NftView>) -> bool {
    &&& forall|i: int| 0 <= i < nfts.len() ==> (#[trigger] nfts[i]).id == i
    &&& forall|i: int, j: int|
        0 <= i < nfts.len() && 0 <= j < nfts.len() && i != j && !is_management(nfts[i].owner)
            ==> (#[trigger] nfts[i]).owner != (#[trigger] nfts[j]).owner
}

impl StateView {
    /// The registry before anything was done to it.
    pub open spec fn empty() -> StateView {
        StateView {
            nfts: Seq::empty(),
            custodians: Set::empty(),
            name: Seq::empty(),
            symbol: Seq::empty(),
            logo: None,
            base_url: Seq::empty(),
            txid: 0,
        }
    }

    /// Whether the token at `index` is live: held by a real identity.
    pub open spec fn live(self, index: int) -> bool {
        0 <= index < self.nfts.len() && !is_management(self.nfts[index].owner)
    }

    /// Whether the token at `index` is live and held by `who`.
    pub open spec fn holds(self, who: Seq<u8>, index: int) -> bool {
        self.live(index) && self.nfts[index].owner == who
    }

    /// Whether `who` holds a live token.
    pub open spec fn is_holder(self, who: Seq<u8>) -> bool {
        exists|index: int| self.holds(who, index)
    }

    /// The position of the live token that `who` holds.
    pub open spec fn token_of(self, who: Seq<u8>) -> int
        recommends
            self.is_holder(who),
    {
        choose|index: int| self.holds(who, index)
    }

    /// What the registry keeps true of itself: ids are positions, no identity
    /// holds two live tokens, and the custodians are finitely many.
    pub open spec fn wf(self) -> bool {
        &&& valid_tokens(self.nfts)
        &&& self.custodians.finite()
    }

    /// The number of tokens attributed to `who`.
    pub open spec fn balance_of(self, who: Seq<u8>) -> nat {
        count_owned(self.nfts, who)
    }

    /// Whether `token_id` names a token.
    pub open spec fn in_range(self, token_id: u64) -> bool {
        token_id < self.nfts.len()
    }

    /// The holder of `token_id`.
    pub open spec fn owner_of(self, token_id: u64) -> Result<Seq<u8>, Error> {
        if self.in_range(token_id) {
            Ok(self.nfts[token_id as int].owner)
        } else {
            Err(Error::InvalidTokenId)
        }
    }

    /// The description of `token_id`.
    pub open spec fn metadata_of(self, token_id: u64) -> Result<
        Seq<(Seq<char>, MetadataValView)>,
        Error,
    > {
        if self.in_range(token_id) {
            Ok(self.nfts[token_id as int].metadata)
        } else {
            Err(Error::InvalidTokenId)
        }
    }

    /// The registry with one more transaction id issued.
    pub open spec fn issued(self) -> StateView {
        StateView { txid: self.txid + 1, ..self }
    }

    /// The registry after it was set up with `args` by `caller`: the
    /// custodians are those that `args` names, and `caller` alone where it
    /// names none.
    pub open spec fn after_init(self, caller: Seq<u8>, args: InitArgsView) -> StateView {
        StateView {
            custodians: initial_custodians(caller, args.custodians),
            name: args.name,
            symbol: args.symbol,
            logo: args.logo,
            base_url: args.base_url,
            ..self
        }
    }

    /// What `caller` is shown for their token: the address of the QR code
    /// for the token's link, or the complaint that says why there is none.
    pub open spec fn redirect_artifact(self, caller: Seq<u8>) -> Seq<char> {
        if self.is_holder(caller) {
            let token_id = self.nfts[self.token_of(caller)].id;
            match qr_uri_text(redirect_url_text(self.base_url, token_id)) {
                Ok(address) => address,
                Err(complaint) => complaint,
            }
        } else {
            "No NFT found for user"@
        }
    }

    /// What is kept of the registry while it is suspended: all of it.
    pub open spec fn snapshot(self) -> StateView {
        self
    }

    /// The registry left behind while it is suspended.
    pub open spec fn after_pre_upgrade(self) -> StateView {
        StateView::empty()
    }

    /// The registry after it was resumed from `snapshot`.
    pub open spec fn after_post_upgrade(self, snapshot: StateView) -> StateView {
        snapshot
    }

    /// Why a mint by `caller` fails, if it does.
    pub open spec fn mint_error(self, caller: Seq<u8>) -> Option<Error> {
        if self.is_holder(caller) {
            Some(Error::AlreadyExists)
        } else {
            None
        }
    }

    /// What a successful mint hands back.
    pub open spec fn minted(self) -> MintResult {
        MintResult { id: self.txid as u128, token_id: self.nfts.len() as u64 }
    }

    /// The registry after `caller` asked to mint a token described by `metadata`.
    pub open spec fn after_mint(
        self,
        caller: Seq<u8>,
        metadata: Seq<(Seq<char>, MetadataValView)>,
    ) -> StateView {
        if self.mint_error(caller) is Some {
            self
        } else {
            StateView {
                nfts: self.nfts.push(
                    NftView {
                        owner: caller,
                        approved: None,
                        id: self.nfts.len() as u64,
                        metadata,
                    },
                ),
                ..self.issued()
            }
        }
    }

    /// Why burning `token_id` by `caller` fails, if it does.
    pub open spec fn burn_error(self, caller: Seq<u8>, token_id: u64) -> Option<Error> {
        if !self.in_range(token_id) {
            Some(Error::InvalidTokenId)
        } else if self.nfts[token_id as int].owner != caller {
            Some(Error::Unauthorized)
        } else {
            None
        }
    }

    /// The registry after `caller` asked to burn `token_id`.
    pub open spec fn after_burn(self, caller: Seq<u8>, token_id: u64) -> StateView {
        if self.burn_error(caller, token_id) is Some {
            self
        } else {
            StateView {
                nfts: self.nfts.update(
                    token_id as int,
                    NftView { owner: Seq::empty(), ..self.nfts[token_id as int] },
                ),
                ..self.issued()
            }
        }
    }

    /// Why a change of `caller`'s token fails, if it does.
    pub open spec fn change_error(self, caller: Seq<u8>) -> Option<Error> {
        if self.is_holder(caller) {
            None
        } else {
            Some(Error::InvalidTokenId)
        }
    }

    /// The registry after `caller` asked to describe their token by `metadata`.
    pub open spec fn after_change(
        self,
        caller: Seq<u8>,
        metadata: Seq<(Seq<char>, MetadataValView)>,
    ) -> StateView {
        if self.change_error(caller) is Some {
            self
        } else {
            let index = self.token_of(caller);
            StateView {
                nfts: self.nfts.update(
                    index,
                    NftView { approved: None, metadata, ..self.nfts[index] },
                ),
                ..self.issued()
            }
        }
    }

    /// Why a transfer fails: it is not offered.
    pub open spec fn transfer_error(self) -> Option<Error> {
        Some(Error::Unauthorized)
    }

    /// Why an administrative change by `caller` fails, if it does.
    pub open spec fn admin_error(self, caller: Seq<u8>) -> Option<Error> {
        if self.custodians.contains(caller) {
            None
        } else {
            Some(Error::Unauthorized)
        }
    }

    /// The registry after `caller` asked to name the collection `name`.
    pub open spec fn after_set_name(self, caller: Seq<u8>, name: Seq<char>) -> StateView {
        if self.admin_error(caller) is Some {
            self
        } else {
            StateView { name, ..self.issued() }
        }
    }

    /// The registry after `caller` asked to give the collection the symbol `symbol`.
    pub open spec fn after_set_symbol(self, caller: Seq<u8>, symbol: Seq<char>) -> StateView {
        if self.admin_error(caller) is Some {
            self
        } else {
            StateView { symbol, ..self.issued() }
        }
    }

    /// The registry after `caller` asked to give the collection the logo `logo`.
    pub open spec fn after_set_logo(self, caller: Seq<u8>, logo: Option<LogoView>) -> StateView {
        if self.admin_error(caller) is Some {
            self
        } else {
            StateView { logo, ..self.issued() }
        }
    }

    /// The registry after `caller` asked to build links on `base_url`.
    pub open spec fn after_set_base_url(self, caller: Seq<u8>, base_url: Seq<char>) -> StateView {
        if self.admin_error(caller) is Some {
            self
        } else {
            StateView { base_url, ..self.issued() }
        }
    }

    /// The registry after `caller` asked to make `user` a custodian
    /// (`custodian`) or to make them one no longer.
    pub open spec fn after_set_custodian(
        self,
        caller: Seq<u8>,
        user: Seq<u8>,
        custodian: bool,
    ) -> StateView {
        if self.admin_error(caller) is Some {
            self
        } else {
            StateView {
                custodians: if custodian {
                    self.custodians.insert(user)
                } else {
                    self.custodians.remove(user)
                },
                ..self.issued()
            }
        }
    }

    /// Why `call` by `caller` fails, if it does.
    pub open spec fn error_of(self, caller: Seq<u8>, call: Call) -> Option<Error> {
        match call {
            Call::Mint { .. } => self.mint_error(caller),
            Call::Burn { token_id } => self.burn_error(caller, token_id),
            Call::ChangeNftInfo { .. } => self.change_error(caller),
            Call::TransferFrom { .. } => self.transfer_error(),
            Call::SetName { .. } => self.admin_error(caller),
            Call::SetSymbol { .. } => self.admin_error(caller),
            Call::SetLogo { .. } => self.admin_error(caller),
            Call::SetBaseUrl { .. } => self.admin_error(caller),
            Call::SetCustodian { .. } => self.admin_error(caller),
        }
    }

    /// The registry after `call` by `caller`.
    pub open spec fn after(self, caller: Seq<u8>, call: Call) -> StateView {
        match call {
            Call::Mint { metadata } => self.after_mint(caller, metadata),
            Call::Burn { token_id } => self.after_burn(caller, token_id),
            Call::ChangeNftInfo { metadata } => self.after_change(caller, metadata),
            Call::TransferFrom { .. } => self,
            Call::SetName { name } => self.after_set_name(caller, name),
            Call::SetSymbol { symbol } => self.after_set_symbol(caller, symbol),
            Call::SetLogo { logo } => self.after_set_logo(caller, logo),
            Call::SetBaseUrl { base_url } => self.after_set_base_url(caller, base_url),
            Call::SetCustodian { user, custodian } => self.after_set_custodian(
                caller,
                user,
                custodian,
            ),
        }
    }
}

} // verus!
