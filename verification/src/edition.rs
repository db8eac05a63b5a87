//! Fixture value object for the "create master edition" flow: the key
//! material and derived addresses needed to build the instruction for a mint
//! and to read back the resulting account.
//!
//! Submitting the signed transaction and fetching account bytes are runtime
//! I/O and live with the caller; this type derives the addresses and decodes
//! what the runtime hands back.
use vstd::prelude::*;
use crate::deser::{deserialize_master_edition, spec_decode_master_edition};
use crate::error::MetadataError;
use crate::pda::{get_master_edition_pda, spec_master_edition_pda};
use crate::state::{Account, Address, MasterEditionV2, address_wf};

verus! {

/// Addresses and key material for one master-edition instruction.
pub struct MasterEditionManager {
    pub authority: Address,
    pub edition_pubkey: Address,
    pub metadata_pubkey: Address,
    pub mint_pubkey: Address,
    pub owner: Address,
}

impl MasterEditionManager {
    /// Builds the manager, deriving the edition account's address from the
    /// mint.  Returns nothing exactly when the bump search of the derivation
    /// fails.
    pub fn new(
        authority: Address,
        owner: Address,
        metadata_pubkey: Address,
        mint_pubkey: Address,
    ) -> (r: Option<MasterEditionManager>)
        ensures
            match r {
                Some(m) => {
                    &&& spec_master_edition_pda(mint_pubkey@) matches Some(p)
                        && m.edition_pubkey@ == p.0
                    &&& address_wf(m.edition_pubkey)
                    &&& m.authority@ == authority@
                    &&& m.owner@ == owner@
                    &&& m.metadata_pubkey@ == metadata_pubkey@
                    &&& m.mint_pubkey@ == mint_pubkey@
                },
                None => spec_master_edition_pda(mint_pubkey@) is None,
            },
    {
        match get_master_edition_pda(&mint_pubkey) {
            Some((edition_pubkey, _bump)) => Some(
                MasterEditionManager {
                    authority,
                    edition_pubkey,
                    metadata_pubkey,
                    mint_pubkey,
                    owner,
                },
            ),
            None => None,
        }
    }

    /// Decodes the master-edition account read back for this manager's
    /// edition address, trusting the runtime: no structural check is made.
    pub fn get_data(&self, account: &Account) -> (r: Result<MasterEditionV2, MetadataError>)
        ensures
            match r {
                Ok(e) => spec_decode_master_edition(account.data@) == Some(e@),
                Err(e) => spec_decode_master_edition(account.data@) is None && e
                    == MetadataError::InvalidData,
            },
    {
        deserialize_master_edition(account.data.as_slice())
    }

    /// Decodes a master-edition account fetched for an arbitrary address,
    /// trusting the runtime: no structural check is made.
    pub fn get_data_from_account(account: &Account) -> (r: Result<
        MasterEditionV2,
        MetadataError,
    >)
        ensures
            match r {
                Ok(e) => spec_decode_master_edition(account.data@) == Some(e@),
                Err(e) => spec_decode_master_edition(account.data@) is None && e
                    == MetadataError::InvalidData,
            },
    {
        deserialize_master_edition(account.data.as_slice())
    }
}

} // verus!
