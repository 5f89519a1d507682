//! What holds of the registry whatever is asked of it.

use vstd::prelude::*;
use crate::identity::is_management;
use crate::metadata::MetadataValView;
use crate::model::{count_owned, Call, StateView};
use crate::types::{Error, InitArgsView, NftView};

verus! {

/// Where none of `nfts` is attributed to `who`, their count is zero.
pub proof fn lemma_count_none(nfts: Seq<NftView>, who: Seq<u8>)
    requires
        forall|i: int| 0 <= i < nfts.len() ==> (#[trigger] nfts[i]).owner != who,
    ensures
        count_owned(nfts, who) == 0,
    decreases nfts.len(),
{
    if nfts.len() > 0 {
        lemma_count_none(nfts.drop_last(), who);
    }
}

/// One more token counts for its owner, and for nobody else.
pub proof fn lemma_count_push(nfts: Seq<NftView>, nft: NftView, who: Seq<u8>)
    ensures
        count_owned(nfts.push(nft), who) == count_owned(nfts, who) + if nft.owner == who {
            1nat
        } else {
            0nat
        },
{
    assert(nfts.push(nft).drop_last() =~= nfts);
}

/// A token that changes hands counts no longer for the one and now for the
/// other.
pub proof fn lemma_count_update(nfts: Seq<NftView>, index: int, nft: NftView, who: Seq<u8>)
    requires
        0 <= index < nfts.len(),
    ensures
        count_owned(nfts.update(index, nft), who) + if nfts[index].owner == who {
            1nat
        } else {
            0nat
        } == count_owned(nfts, who) + if nft.owner == who {
            1nat
        } else {
            0nat
        },
    decreases nfts.len(),
{
    let changed = nfts.update(index, nft);
    if index == nfts.len() - 1 {
        assert(changed.drop_last() =~= nfts.drop_last());
    } else {
        assert(changed.drop_last() =~= nfts.drop_last().update(index, nft));
        lemma_count_update(nfts.drop_last(), index, nft, who);
    }
}

/// A real identity that holds a live token is attributed exactly that one.
pub proof fn lemma_holder_has_one(s: StateView, who: Seq<u8>, index: int)
    requires
        s.wf(),
        s.holds(who, index),
    ensures
        s.balance_of(who) == 1,
        s.token_of(who) == index,
{
    let gone = NftView { owner: Seq::empty(), ..s.nfts[index] };
    let rest = s.nfts.update(index, gone);
    lemma_count_update(s.nfts, index, gone, who);
    assert forall|i: int| 0 <= i < rest.len() implies (#[trigger] rest[i]).owner != who by {
        if i != index {
            assert(s.nfts[index].owner != s.nfts[i].owner);
        }
    }
    lemma_count_none(rest, who);
    let chosen = s.token_of(who);
    assert(s.holds(who, chosen));
    if chosen != index {
        assert(s.nfts[index].owner != s.nfts[chosen].owner);
    }
}

/// After a real identity has minted, exactly one token is attributed to it,
/// and a second mint by it is refused as `AlreadyExists`.
pub proof fn lemma_mint_once(
    s: StateView,
    caller: Seq<u8>,
    metadata: Seq<(Seq<char>, MetadataValView)>,
)
    requires
        s.wf(),
        !is_management(caller),
        s.mint_error(caller) is None,
    ensures
        s.after_mint(caller, metadata).balance_of(caller) == 1,
        s.after_mint(caller, metadata).mint_error(caller) == Some(Error::AlreadyExists),
{
    let after = s.after_mint(caller, metadata);
    assert forall|i: int| 0 <= i < s.nfts.len() implies (#[trigger] s.nfts[i]).owner != caller by {
        assert(!s.holds(caller, i));
    }
    lemma_count_none(s.nfts, caller);
    lemma_count_push(s.nfts, after.nfts.last(), caller);
    assert(after.holds(caller, s.nfts.len() as int));
}

/// A token id out of range is answered with `InvalidTokenId` by the query
/// for the owner, by the query for the description and by a burn, and the
/// burn changes nothing.
pub proof fn lemma_out_of_range(s: StateView, caller: Seq<u8>, token_id: u64)
    requires
        !s.in_range(token_id),
    ensures
        s.owner_of(token_id) == Err::<Seq<u8>, Error>(Error::InvalidTokenId),
        s.metadata_of(token_id) == Err::<Seq<(Seq<char>, MetadataValView)>, Error>(
            Error::InvalidTokenId,
        ),
        s.burn_error(caller, token_id) == Some(Error::InvalidTokenId),
        s.after_burn(caller, token_id) == s,
{
}

/// A burn by anyone but the token's owner is refused as `Unauthorized`, and
/// changes nothing.
pub proof fn lemma_burn_by_other(s: StateView, caller: Seq<u8>, token_id: u64)
    requires
        s.in_range(token_id),
        s.nfts[token_id as int].owner != caller,
    ensures
        s.burn_error(caller, token_id) == Some(Error::Unauthorized),
        s.after_burn(caller, token_id) == s,
{
}

/// A burn by the token's owner succeeds, and the token then belongs to the
/// management identity.
pub proof fn lemma_burn_by_owner(s: StateView, caller: Seq<u8>, token_id: u64)
    requires
        s.in_range(token_id),
        s.nfts[token_id as int].owner == caller,
    ensures
        s.burn_error(caller, token_id) is None,
        s.after_burn(caller, token_id).owner_of(token_id) == Ok::<Seq<u8>, Error>(Seq::empty()),
        is_management(s.after_burn(caller, token_id).nfts[token_id as int].owner),
{
}

/// After a real identity has burned its token, no token is attributed to it.
pub proof fn lemma_burn_leaves_nothing(s: StateView, caller: Seq<u8>, token_id: u64)
    requires
        s.wf(),
        !is_management(caller),
        s.burn_error(caller, token_id) is None,
    ensures
        s.after_burn(caller, token_id).balance_of(caller) == 0,
{
    let index = token_id as int;
    assert(s.holds(caller, index));
    lemma_holder_has_one(s, caller, index);
    lemma_count_update(s.nfts, index, s.after_burn(caller, token_id).nfts[index], caller);
}

/// A transfer is refused as `Unauthorized` whoever asks, whatever the two
/// holders and the token id are, and changes nothing.
pub proof fn lemma_transfer_denied(
    s: StateView,
    caller: Seq<u8>,
    from: Seq<u8>,
    to: Seq<u8>,
    token_id: u64,
)
    ensures
        s.error_of(caller, Call::TransferFrom { from, to, token_id }) == Some(Error::Unauthorized),
        s.after(caller, Call::TransferFrom { from, to, token_id }) == s,
{
}

/// A request that succeeds moves the transaction counter on by exactly one;
/// one that fails leaves the whole registry as it was.
pub proof fn lemma_counter(s: StateView, caller: Seq<u8>, call: Call)
    ensures
        s.error_of(caller, call) is None ==> s.after(caller, call).txid == s.txid + 1,
        s.error_of(caller, call) is Some ==> s.after(caller, call) == s,
        s.after(caller, call).txid >= s.txid,
{
}

/// Suspending the registry and resuming it from what was kept gives the
/// registry back: tokens, custodians, attributes and counter.
pub proof fn lemma_round_trip(s: StateView)
    ensures
        s.after_pre_upgrade().after_post_upgrade(s.snapshot()) == s,
        s.after_pre_upgrade() == StateView::empty(),
{
}

/// Whoever is no custodian is refused as `Unauthorized` when asking to
/// change the name, the symbol, the logo, the base address or the
/// custodians, and the registry stays as it was.
pub proof fn lemma_admin_refused(s: StateView, caller: Seq<u8>, call: Call)
    requires
        !s.custodians.contains(caller),
        call is SetName || call is SetSymbol || call is SetLogo || call is SetBaseUrl
            || call is SetCustodian,
    ensures
        s.error_of(caller, call) == Some(Error::Unauthorized),
        s.after(caller, call) == s,
{
}

/// No request by anyone but a custodian changes the name, the symbol, the
/// logo, the base address or the custodians.
pub proof fn lemma_only_custodians_administer(s: StateView, caller: Seq<u8>, call: Call)
    requires
        !s.custodians.contains(caller),
    ensures
        s.after(caller, call).name == s.name,
        s.after(caller, call).symbol == s.symbol,
        s.after(caller, call).logo == s.logo,
        s.after(caller, call).base_url == s.base_url,
        s.after(caller, call).custodians == s.custodians,
{
}

/// A registry that was set up has a custodian, whatever it was set up
/// with: those that were named, and the caller alone where none was.
/// Tokens and counter are as before.
pub proof fn lemma_init_has_custodian(s: StateView, caller: Seq<u8>, args: InitArgsView)
    ensures
        exists|id: Seq<u8>| s.after_init(caller, args).custodians.contains(id),
        args.custodians is None || args.custodians == Some(Set::<Seq<u8>>::empty())
            ==> s.after_init(caller, args).custodians == set![caller],
        args.custodians is Some && !(args.custodians->0 =~= Set::empty()) ==> s.after_init(
            caller,
            args,
        ).custodians == args.custodians->0,
        s.after_init(caller, args).nfts == s.nfts,
        s.after_init(caller, args).txid == s.txid,
{
    let after = s.after_init(caller, args).custodians;
    if after == set![caller] {
        assert(after.contains(caller));
    } else {
        let given = args.custodians->0;
        assert(!(given =~= Set::empty()));
        let id = choose|id: Seq<u8>| given.contains(id);
        assert(after.contains(id));
    }
}

/// A caller without a live token is shown the sentence that says so.
pub proof fn lemma_no_token_no_artifact(s: StateView, caller: Seq<u8>)
    requires
        !s.is_holder(caller),
    ensures
        s.redirect_artifact(caller) == "No NFT found for user"@,
{
}

/// Every request leaves the registry well formed: ids are positions, and no
/// real identity holds two live tokens.
pub proof fn lemma_wf_preserved(s: StateView, caller: Seq<u8>, call: Call)
    requires
        s.wf(),
        s.nfts.len() < u64::MAX,
    ensures
        s.after(caller, call).wf(),
{
    let after = s.after(caller, call);
    match call {
        Call::Mint { metadata } => {
            if s.mint_error(caller) is None {
                assert forall|i: int| 0 <= i < s.nfts.len() && !is_management(caller) implies (
                #[trigger] s.nfts[i]).owner != caller by {
                    assert(!s.holds(caller, i));
                }
            }
        },
        Call::ChangeNftInfo { metadata } => {
            if s.change_error(caller) is None {
                let index = s.token_of(caller);
                assert(s.holds(caller, index));
            }
        },
        _ => {},
    }
}

/// No request removes a token or gives one another id: the tokens only
/// grow in number.
pub proof fn lemma_tokens_stay(s: StateView, caller: Seq<u8>, call: Call, index: int)
    requires
        s.wf(),
        0 <= index < s.nfts.len(),
    ensures
        s.after(caller, call).nfts.len() >= s.nfts.len(),
        s.after(caller, call).nfts[index].id == s.nfts[index].id,
{
    match call {
        Call::ChangeNftInfo { metadata } => {
            if s.change_error(caller) is None {
                let at = s.token_of(caller);
                assert(s.holds(caller, at));
            }
        },
        _ => {},
    }
}

} // verus!
