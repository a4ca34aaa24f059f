//! Token-mint instructions: initializing a new mint, and minting tokens to an
//! account.

use vstd::prelude::*;

use crate::codec::{address_from_base58, base58_of, base64_of, encode_base64, parse_address};
use crate::error::ApiError;
use crate::instruction::{
    account_meta_list, spl_initialize_mint_data, spl_initialize_mint_instruction, spl_mint_to_data,
    spl_mint_to_instruction, AccountMetaOut,
};

verus! {

/// A mint-creation request. The decimals field is taken as a signed integer
/// wider than a byte on purpose, so that out-of-range values are rejected with
/// a descriptive error instead of being truncated.
pub struct TokenCreateRequest {
    pub mint_authority: String,
    pub mint: String,
    pub decimals: i16,
}

/// A built token-program instruction: the token program's address, the
/// accounts with both flags, and the payload in base64.
pub struct TokenInstructionData {
    pub program_id: String,
    pub accounts: Vec<AccountMetaOut>,
    pub instruction_data: String,
}

/// Build a mint-initialization instruction. Succeeds exactly when decimals
/// lies in 0..=255 and both addresses decode to 32 bytes; the accounts are the
/// writable mint, then the rent sysvar.
pub fn create_token(req: TokenCreateRequest) -> (r: Result<TokenInstructionData, ApiError>)
    ensures
        r is Ok <==> 0 <= req.decimals <= 255 && address_from_base58(req.mint@) is Some
            && address_from_base58(req.mint_authority@) is Some,
        r is Err ==> r->Err_0 == (if !(0 <= req.decimals <= 255) {
            ApiError::InvalidDecimals
        } else if address_from_base58(req.mint@) is None {
            ApiError::InvalidMintAddress
        } else {
            ApiError::InvalidMintAuthorityAddress
        }),
        r matches Ok(d) ==> {
            let mb = address_from_base58(req.mint@)->Some_0;
            let ab = address_from_base58(req.mint_authority@)->Some_0;
            &&& d.program_id@ == "TokenkegQfeZyiNwAJbNbGKPFXCWuBvf9Ss623VQ5DA"@
            &&& d.accounts@.len() == 2
            &&& d.accounts@[0].pubkey@ == base58_of(mb) && !d.accounts@[0].is_signer
                && d.accounts@[0].is_writable
            &&& d.accounts@[1].pubkey@ == "SysvarRent111111111111111111111111111111111"@
                && !d.accounts@[1].is_signer && !d.accounts@[1].is_writable
            &&& d.instruction_data@ == base64_of(
                spl_initialize_mint_data(req.decimals as u8, ab),
            )
        },
{
    if req.decimals < 0 || req.decimals > 255 {
        return Err(ApiError::InvalidDecimals);
    }
    let decimals = req.decimals as u8;
    let mint = match parse_address(req.mint.as_str()) {
        Some(v) => v,
        None => {
            return Err(ApiError::InvalidMintAddress);
        },
    };
    let authority = match parse_address(req.mint_authority.as_str()) {
        Some(v) => v,
        None => {
            return Err(ApiError::InvalidMintAuthorityAddress);
        },
    };
    let ix = spl_initialize_mint_instruction(mint.as_slice(), authority.as_slice(), decimals);
    let accounts = account_meta_list(&ix.accounts);
    Ok(TokenInstructionData {
        program_id: ix.program_id,
        accounts,
        instruction_data: encode_base64(ix.data.as_slice()),
    })
}

/// A mint-to request: the mint, the destination account, the mint authority,
/// and the amount.
pub struct TokenMintRequest {
    pub mint: String,
    pub destination: String,
    pub authority: String,
    pub amount: u64,
}

/// Build a mint-to instruction. Succeeds exactly when all three addresses
/// decode to 32 bytes, each checked in turn with its own error; the accounts
/// are the writable mint, the writable destination, then the authority as the
/// sole signer.
pub fn mint_token(req: TokenMintRequest) -> (r: Result<TokenInstructionData, ApiError>)
    ensures
        r is Ok <==> address_from_base58(req.mint@) is Some && address_from_base58(
            req.destination@,
        ) is Some && address_from_base58(req.authority@) is Some,
        r is Err ==> r->Err_0 == (if address_from_base58(req.mint@) is None {
            ApiError::InvalidMintAddress
        } else if address_from_base58(req.destination@) is None {
            ApiError::InvalidDestinationAddress
        } else {
            ApiError::InvalidAuthorityAddress
        }),
        r matches Ok(d) ==> {
            let mb = address_from_base58(req.mint@)->Some_0;
            let db = address_from_base58(req.destination@)->Some_0;
            let ab = address_from_base58(req.authority@)->Some_0;
            &&& d.program_id@ == "TokenkegQfeZyiNwAJbNbGKPFXCWuBvf9Ss623VQ5DA"@
            &&& d.accounts@.len() == 3
            &&& d.accounts@[0].pubkey@ == base58_of(mb) && !d.accounts@[0].is_signer
                && d.accounts@[0].is_writable
            &&& d.accounts@[1].pubkey@ == base58_of(db) && !d.accounts@[1].is_signer
                && d.accounts@[1].is_writable
            &&& d.accounts@[2].pubkey@ == base58_of(ab) && d.accounts@[2].is_signer
                && !d.accounts@[2].is_writable
            &&& d.instruction_data@ == base64_of(spl_mint_to_data(req.amount))
        },
{
    let mint = match parse_address(req.mint.as_str()) {
        Some(v) => v,
        None => {
            return Err(ApiError::InvalidMintAddress);
        },
    };
    let destination = match parse_address(req.destination.as_str()) {
        Some(v) => v,
        None => {
            return Err(ApiError::InvalidDestinationAddress);
        },
    };
    let authority = match parse_address(req.authority.as_str()) {
        Some(v) => v,
        None => {
            return Err(ApiError::InvalidAuthorityAddress);
        },
    };
    let ix = spl_mint_to_instruction(
        mint.as_slice(),
        destination.as_slice(),
        authority.as_slice(),
        req.amount,
    );
    let accounts = account_meta_list(&ix.accounts);
    Ok(TokenInstructionData {
        program_id: ix.program_id,
        accounts,
        instruction_data: encode_base64(ix.data.as_slice()),
    })
}

} // verus!
