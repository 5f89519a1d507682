//! The plain values that the registry takes, keeps and hands out.

use vstd::prelude::*;
use crate::identity::Identity;
use crate::metadata::{clone_metadata, MetadataDesc, MetadataValView};

verus! {

/// Why the registry turned an operation down.
#[derive(Debug, Clone, Copy, PartialEq, Eq, Structural)]
pub enum Error {
    /// The token id names no token.
    InvalidTokenId,
    /// The caller is neither the owner nor a custodian, as the operation asks.
    Unauthorized,
    /// The caller already holds a live token.
    AlreadyExists,
}

/// A capability that the registry can advertise.
#[derive(Debug, Clone, Copy, PartialEq, Eq, Structural)]
pub enum InterfaceId {
    Approval,
    TransactionHistory,
    Mint,
    Burn,
    TransferNotification,
}

/// What a successful mint hands back.
#[derive(Debug, Clone, Copy, PartialEq, Eq, Structural)]
pub struct MintResult {
    /// The transaction id issued for the mint.
    pub id: u128,
    /// The id of the new token.
    pub token_id: u64,
}

/// A logo: an encoded image and the MIME type it is to be read as.
#[derive(Debug, PartialEq, Eq)]
pub struct LogoResult {
    pub logo_type: String,
    pub data: String,
}

/// What a `LogoResult` stands for.
pub ghost struct LogoView {
    pub logo_type: Seq<char>,
    pub data: Seq<char>,
}

impl View for LogoResult {
    type V = LogoView;

    open spec fn view(&self) -> LogoView {
        LogoView { logo_type: self.logo_type@, data: self.data@ }
    }
}

impl DeepView for LogoResult {
    type V = LogoView;

    open spec fn deep_view(&self) -> LogoView {
        self@
    }
}

/// What the built-in placeholder logo stands for: a white pixel, as a PNG in
/// base64.
pub open spec fn default_logo_view() -> LogoView {
    LogoView {
        logo_type: "image/png"@,
        data: "iVBORw0KGgoAAAANSUhEUgAAAAEAAAABCAAAAAA6fptVAAAACklEQVR42mP4DwABAQEAHLCMmQAAAABJRU5ErkJggg=="@,
    }
}

/// The built-in placeholder logo, shown while the collection has none.
pub fn default_logo() -> (r: LogoResult)
    ensures
        r@ == default_logo_view(),
{
    LogoResult {
        logo_type: String::from_str("image/png"),
        data: String::from_str(
            "iVBORw0KGgoAAAANSUhEUgAAAAEAAAABCAAAAAA6fptVAAAACklEQVR42mP4DwABAQEAHLCMmQAAAABJRU5ErkJggg==",
        ),
    }
}

impl Clone for LogoResult {
    fn clone(&self) -> (r: LogoResult)
        ensures
            r@ == self@,
    {
        LogoResult { logo_type: self.logo_type.clone(), data: self.data.clone() }
    }
}

/// One token of the registry.
#[derive(Debug, PartialEq, Eq)]
pub struct Nft {
    /// The holder; the management identity once the token is burned.
    pub owner: Identity,
    /// A delegate, if one was named.
    pub approved: Option<Identity>,
    /// The token's position in the registry, which is also its id.
    pub id: u64,
    /// The token's description.
    pub metadata: MetadataDesc,
}

/// What an `Nft` stands for.
pub ghost struct NftView {
    pub owner: Seq<u8>,
    pub approved: Option<Seq<u8>>,
    pub id: u64,
    pub metadata: Seq<(Seq<char>, MetadataValView)>,
}

impl View for Nft {
    type V = NftView;

    open spec fn view(&self) -> NftView {
        NftView {
            owner: self.owner@,
            approved: match self.approved {
                Some(delegate) => Some(delegate@),
                None => None,
            },
            id: self.id,
            metadata: self.metadata.deep_view(),
        }
    }
}

impl DeepView for Nft {
    type V = NftView;

    open spec fn deep_view(&self) -> NftView {
        self@
    }
}

impl Clone for Nft {
    fn clone(&self) -> (r: Nft)
        ensures
            r@ == self@,
    {
        let approved = match &self.approved {
            Some(delegate) => Some(delegate.clone()),
            None => None,
        };
        Nft {
            owner: self.owner.clone(),
            approved,
            id: self.id,
            metadata: clone_metadata(&self.metadata),
        }
    }
}

/// What the registry is set up with.
#[derive(Debug, PartialEq, Eq)]
pub struct InitArgs {
    /// The custodians; where none are given, the caller becomes the only one.
    pub custodians: Option<Vec<Identity>>,
    pub logo: Option<LogoResult>,
    pub name: String,
    pub symbol: String,
    pub base_url: String,
}

/// What an `InitArgs` stands for.
pub ghost struct InitArgsView {
    pub custodians: Option<Set<Seq<u8>>>,
    pub logo: Option<LogoView>,
    pub name: Seq<char>,
    pub symbol: Seq<char>,
    pub base_url: Seq<char>,
}

impl View for InitArgs {
    type V = InitArgsView;

    open spec fn view(&self) -> InitArgsView {
        InitArgsView {
            custodians: match self.custodians {
                Some(list) => Some(list.deep_view().to_set()),
                None => None,
            },
            logo: match self.logo {
                Some(logo) => Some(logo@),
                None => None,
            },
            name: self.name@,
            symbol: self.symbol@,
            base_url: self.base_url@,
        }
    }
}

} // verus!
