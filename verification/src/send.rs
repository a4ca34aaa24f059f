//! Transfer instructions: a native transfer between two addresses, and a
//! fungible-token transfer.

use vstd::prelude::*;

use crate::codec::{address_from_base58, base58_of, base64_of, encode_base64, parse_address};
use crate::error::ApiError;
use crate::instruction::{
    account_pubkey_strings, account_signer_list, spl_transfer_data, spl_transfer_instruction,
    sys_transfer_data, system_transfer_instruction, AccountSigner,
};

verus! {

/// A native-transfer request: both addresses in base58, and the amount in the
/// smallest unit.
pub struct SolTransferRequest {
    pub from: String,
    pub to: String,
    pub lamports: u64,
}

/// A built native-transfer instruction: the system program's address, the
/// involved addresses in builder order, and the payload in base64.
pub struct SolTransferData {
    pub program_id: String,
    pub accounts: Vec<String>,
    pub instruction_data: String,
}

/// Build a native transfer. Succeeds exactly when both addresses decode to 32
/// bytes; the program is the system program's fixed address, and the accounts
/// are the funding address then the recipient, in that order.
pub fn send_sol(req: SolTransferRequest) -> (r: Result<SolTransferData, ApiError>)
    ensures
        r is Ok <==> address_from_base58(req.from@) is Some && address_from_base58(req.to@) is Some,
        r is Err ==> r->Err_0 == (if address_from_base58(req.from@) is None {
            ApiError::InvalidFromAddress
        } else {
            ApiError::InvalidToAddress
        }),
        r matches Ok(d) ==> {
            let fb = address_from_base58(req.from@)->Some_0;
            let tb = address_from_base58(req.to@)->Some_0;
            &&& d.program_id@ == "11111111111111111111111111111111"@
            &&& d.accounts@.len() == 2
            &&& d.accounts@[0]@ == base58_of(fb)
            &&& d.accounts@[1]@ == base58_of(tb)
            &&& d.instruction_data@ == base64_of(sys_transfer_data(req.lamports))
        },
{
    let from = match parse_address(req.from.as_str()) {
        Some(v) => v,
        None => {
            return Err(ApiError::InvalidFromAddress);
        },
    };
    let to = match parse_address(req.to.as_str()) {
        Some(v) => v,
        None => {
            return Err(ApiError::InvalidToAddress);
        },
    };
    let ix = system_transfer_instruction(from.as_slice(), to.as_slice(), req.lamports);
    let accounts = account_pubkey_strings(&ix.accounts);
    Ok(SolTransferData {
        program_id: ix.program_id,
        accounts,
        instruction_data: encode_base64(ix.data.as_slice()),
    })
}

/// A token-transfer request. The mint field is carried but, as in the observed
/// behavior of this interface, never validated or used: the owner address
/// stands in as the source account as well as the authority.
pub struct TokenSendRequest {
    pub destination: String,
    pub mint: String,
    pub owner: String,
    pub amount: u64,
}

/// A built token-transfer instruction: the token program's address, the
/// accounts with their signer flags, and the payload in base64.
pub struct TokenTransferData {
    pub program_id: String,
    pub accounts: Vec<AccountSigner>,
    pub instruction_data: String,
}

/// Build a token transfer. Succeeds exactly when the owner and destination
/// addresses decode to 32 bytes (the mint field is deliberately left as the
/// observed interface has it: unchecked and unused); the accounts are the
/// owner as source, the destination, then the owner again as the sole signer.
pub fn send_token(req: TokenSendRequest) -> (r: Result<TokenTransferData, ApiError>)
    ensures
        r is Ok <==> address_from_base58(req.owner@) is Some && address_from_base58(
            req.destination@,
        ) is Some,
        r is Err ==> r->Err_0 == (if address_from_base58(req.owner@) is None {
            ApiError::InvalidOwnerAddress
        } else {
            ApiError::InvalidDestinationAddress
        }),
        r matches Ok(d) ==> {
            let ob = address_from_base58(req.owner@)->Some_0;
            let db = address_from_base58(req.destination@)->Some_0;
            &&& d.program_id@ == "TokenkegQfeZyiNwAJbNbGKPFXCWuBvf9Ss623VQ5DA"@
            &&& d.accounts@.len() == 3
            &&& d.accounts@[0].pubkey@ == base58_of(ob) && !d.accounts@[0].is_signer
            &&& d.accounts@[1].pubkey@ == base58_of(db) && !d.accounts@[1].is_signer
            &&& d.accounts@[2].pubkey@ == base58_of(ob) && d.accounts@[2].is_signer
            &&& d.instruction_data@ == base64_of(spl_transfer_data(req.amount))
        },
{
    let owner = match parse_address(req.owner.as_str()) {
        Some(v) => v,
        None => {
            return Err(ApiError::InvalidOwnerAddress);
        },
    };
    let destination = match parse_address(req.destination.as_str()) {
        Some(v) => v,
        None => {
            return Err(ApiError::InvalidDestinationAddress);
        },
    };
    let ix = spl_transfer_instruction(
        owner.as_slice(),
        destination.as_slice(),
        owner.as_slice(),
        req.amount,
    );
    let accounts = account_signer_list(&ix.accounts);
    Ok(TokenTransferData {
        program_id: ix.program_id,
        accounts,
        instruction_data: encode_base64(ix.data.as_slice()),
    })
}

} // verus!
