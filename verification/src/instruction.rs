//! Instruction descriptors: the program address, the ordered account list with
//! signer and writable flags, and the opaque binary payload that the SDK's
//! builders return, together with the shared serialization of an account list
//! to the response shapes.

use vstd::prelude::*;

use crate::codec::{address_to_base58, base58_of, u64_le_bytes};

verus! {

/// One account reference of an instruction, with the address still in bytes.
pub struct RawAccountMeta {
    pub pubkey: Vec<u8>,
    pub is_signer: bool,
    pub is_writable: bool,
}

/// An instruction as the builders return it: the program address already in
/// its canonical base58 form, the ordered account list, and the payload bytes.
pub struct RawInstruction {
    pub program_id: String,
    pub accounts: Vec<RawAccountMeta>,
    pub data: Vec<u8>,
}

/// The payload of a native transfer: the system program serializes its
/// instruction enum with fixed-width little-endian bincode, and the transfer
/// variant has index 2.
pub open spec fn sys_transfer_data(lamports: u64) -> Seq<u8> {
    seq![2u8, 0u8, 0u8, 0u8] + u64_le_bytes(lamports)
}

/// The payload of a token transfer: tag 3, then the amount little endian.
pub open spec fn spl_transfer_data(amount: u64) -> Seq<u8> {
    seq![3u8] + u64_le_bytes(amount)
}

/// The payload of a mint-to instruction: tag 7, then the amount little endian.
pub open spec fn spl_mint_to_data(amount: u64) -> Seq<u8> {
    seq![7u8] + u64_le_bytes(amount)
}

/// The payload of a mint initialization with no freeze authority: tag 0, the
/// decimals byte, the 32-byte mint authority, then 0 for the absent authority.
pub open spec fn spl_initialize_mint_data(decimals: u8, authority: Seq<u8>) -> Seq<u8> {
    seq![0u8, decimals] + authority + seq![0u8]
}

/// Relies on solana_sdk::system_instruction::transfer: under the system
/// program (address of 32 zero bytes, base58 "111...1") it lists the funding
/// account as a writable signer, then the recipient as writable, with the
/// bincode encoding of the transfer variant as payload.
#[verifier::external_body]
pub fn system_transfer_instruction(from: &[u8], to: &[u8], lamports: u64) -> (r: RawInstruction)
    requires
        from@.len() == 32,
        to@.len() == 32,
    ensures
        r.program_id@ == "11111111111111111111111111111111"@,
        r.accounts@.len() == 2,
        r.accounts@[0].pubkey@ == from@ && r.accounts@[0].is_signer && r.accounts@[0].is_writable,
        r.accounts@[1].pubkey@ == to@ && !r.accounts@[1].is_signer && r.accounts@[1].is_writable,
        r.data@ == sys_transfer_data(lamports),
{
    let ix = solana_sdk::system_instruction::transfer(
        &solana_sdk::pubkey::Pubkey::try_from(from).unwrap(),
        &solana_sdk::pubkey::Pubkey::try_from(to).unwrap(),
        lamports,
    );
    let accounts = ix.accounts.iter().map(|a| RawAccountMeta {
        pubkey: a.pubkey.to_bytes().to_vec(),
        is_signer: a.is_signer,
        is_writable: a.is_writable,
    }).collect();
    RawInstruction { program_id: ix.program_id.to_string(), accounts, data: ix.data }
}

/// Relies on spl_token::instruction::transfer, called with the token program's
/// own id and no multisig signers: it cannot fail, and lists the source and
/// destination as writable, then the owner as the sole (readonly) signer, with
/// tag 3 and the little-endian amount as payload.
#[verifier::external_body]
pub fn spl_transfer_instruction(
    source: &[u8],
    destination: &[u8],
    owner: &[u8],
    amount: u64,
) -> (r: RawInstruction)
    requires
        source@.len() == 32,
        destination@.len() == 32,
        owner@.len() == 32,
    ensures
        r.program_id@ == "TokenkegQfeZyiNwAJbNbGKPFXCWuBvf9Ss623VQ5DA"@,
        r.accounts@.len() == 3,
        r.accounts@[0].pubkey@ == source@ && !r.accounts@[0].is_signer && r.accounts@[0].is_writable,
        r.accounts@[1].pubkey@ == destination@ && !r.accounts@[1].is_signer && r.accounts@[1].is_writable,
        r.accounts@[2].pubkey@ == owner@ && r.accounts@[2].is_signer && !r.accounts@[2].is_writable,
        r.data@ == spl_transfer_data(amount),
{
    let ix = spl_token::instruction::transfer(
        &spl_token::id(),
        &solana_sdk::pubkey::Pubkey::try_from(source).unwrap(),
        &solana_sdk::pubkey::Pubkey::try_from(destination).unwrap(),
        &solana_sdk::pubkey::Pubkey::try_from(owner).unwrap(),
        &[],
        amount,
    ).unwrap();
    let accounts = ix.accounts.iter().map(|a| RawAccountMeta {
        pubkey: a.pubkey.to_bytes().to_vec(),
        is_signer: a.is_signer,
        is_writable: a.is_writable,
    }).collect();
    RawInstruction { program_id: ix.program_id.to_string(), accounts, data: ix.data }
}

/// Relies on spl_token::instruction::initialize_mint, called with the token
/// program's own id and no freeze authority: it cannot fail, and lists the
/// writable mint account, then the rent sysvar (whose address declares itself
/// by its base58 form) readonly, with the packed initialize-mint payload.
#[verifier::external_body]
pub fn spl_initialize_mint_instruction(
    mint: &[u8],
    authority: &[u8],
    decimals: u8,
) -> (r: RawInstruction)
    requires
        mint@.len() == 32,
        authority@.len() == 32,
    ensures
        r.program_id@ == "TokenkegQfeZyiNwAJbNbGKPFXCWuBvf9Ss623VQ5DA"@,
        r.accounts@.len() == 2,
        r.accounts@[0].pubkey@ == mint@ && !r.accounts@[0].is_signer && r.accounts@[0].is_writable,
        base58_of(r.accounts@[1].pubkey@) == "SysvarRent111111111111111111111111111111111"@,
        r.accounts@[1].pubkey@.len() == 32 && !r.accounts@[1].is_signer && !r.accounts@[1].is_writable,
        r.data@ == spl_initialize_mint_data(decimals, authority@),
{
    let ix = spl_token::instruction::initialize_mint(
        &spl_token::id(),
        &solana_sdk::pubkey::Pubkey::try_from(mint).unwrap(),
        &solana_sdk::pubkey::Pubkey::try_from(authority).unwrap(),
        None,
        decimals,
    ).unwrap();
    let accounts = ix.accounts.iter().map(|a| RawAccountMeta {
        pubkey: a.pubkey.to_bytes().to_vec(),
        is_signer: a.is_signer,
        is_writable: a.is_writable,
    }).collect();
    RawInstruction { program_id: ix.program_id.to_string(), accounts, data: ix.data }
}

/// Relies on spl_token::instruction::mint_to, called with the token program's
/// own id and no multisig signers: it cannot fail, and lists the mint and the
/// destination as writable, then the authority as the sole (readonly) signer,
/// with tag 7 and the little-endian amount as payload.
#[verifier::external_body]
pub fn spl_mint_to_instruction(
    mint: &[u8],
    destination: &[u8],
    authority: &[u8],
    amount: u64,
) -> (r: RawInstruction)
    requires
        mint@.len() == 32,
        destination@.len() == 32,
        authority@.len() == 32,
    ensures
        r.program_id@ == "TokenkegQfeZyiNwAJbNbGKPFXCWuBvf9Ss623VQ5DA"@,
        r.accounts@.len() == 3,
        r.accounts@[0].pubkey@ == mint@ && !r.accounts@[0].is_signer && r.accounts@[0].is_writable,
        r.accounts@[1].pubkey@ == destination@ && !r.accounts@[1].is_signer && r.accounts@[1].is_writable,
        r.accounts@[2].pubkey@ == authority@ && r.accounts@[2].is_signer && !r.accounts@[2].is_writable,
        r.data@ == spl_mint_to_data(amount),
{
    let ix = spl_token::instruction::mint_to(
        &spl_token::id(),
        &solana_sdk::pubkey::Pubkey::try_from(mint).unwrap(),
        &solana_sdk::pubkey::Pubkey::try_from(destination).unwrap(),
        &solana_sdk::pubkey::Pubkey::try_from(authority).unwrap(),
        &[],
        amount,
    ).unwrap();
    let accounts = ix.accounts.iter().map(|a| RawAccountMeta {
        pubkey: a.pubkey.to_bytes().to_vec(),
        is_signer: a.is_signer,
        is_writable: a.is_writable,
    }).collect();
    RawInstruction { program_id: ix.program_id.to_string(), accounts, data: ix.data }
}

/// An account reference in the response of a token transfer: the address as
/// base58, and whether the account must sign.
pub struct AccountSigner {
    pub pubkey: String,
    pub is_signer: bool,
}

/// An account reference in the response of the mint endpoints: the address as
/// base58, and both flags.
pub struct AccountMetaOut {
    pub pubkey: String,
    pub is_signer: bool,
    pub is_writable: bool,
}

/// Serialize an account list to bare base58 addresses, in order.
pub fn account_pubkey_strings(accs: &Vec<RawAccountMeta>) -> (r: Vec<String>)
    requires
        forall|j: int| 0 <= j < accs@.len() ==> accs@[j].pubkey@.len() == 32,
    ensures
        r@.len() == accs@.len(),
        forall|j: int| 0 <= j < accs@.len() ==> r@[j]@ == base58_of(accs@[j].pubkey@),
{
    let mut out: Vec<String> = Vec::new();
    let mut i: usize = 0;
    while i < accs.len()
        invariant
            i <= accs@.len(),
            out@.len() == i,
            forall|j: int| 0 <= j < accs@.len() ==> accs@[j].pubkey@.len() == 32,
            forall|j: int| 0 <= j < i ==> out@[j]@ == base58_of(accs@[j].pubkey@),
        decreases accs@.len() - i,
    {
        let a = &accs[i];
        out.push(address_to_base58(a.pubkey.as_slice()));
        i += 1;
    }
    out
}

/// Serialize an account list to base58 addresses with the signer flag, in
/// order.
pub fn account_signer_list(accs: &Vec<RawAccountMeta>) -> (r: Vec<AccountSigner>)
    requires
        forall|j: int| 0 <= j < accs@.len() ==> accs@[j].pubkey@.len() == 32,
    ensures
        r@.len() == accs@.len(),
        forall|j: int| 0 <= j < accs@.len() ==> r@[j].pubkey@ == base58_of(accs@[j].pubkey@)
            && r@[j].is_signer == accs@[j].is_signer,
{
    let mut out: Vec<AccountSigner> = Vec::new();
    let mut i: usize = 0;
    while i < accs.len()
        invariant
            i <= accs@.len(),
            out@.len() == i,
            forall|j: int| 0 <= j < accs@.len() ==> accs@[j].pubkey@.len() == 32,
            forall|j: int| 0 <= j < i ==> out@[j].pubkey@ == base58_of(accs@[j].pubkey@)
                && out@[j].is_signer == accs@[j].is_signer,
        decreases accs@.len() - i,
    {
        let a = &accs[i];
        out.push(AccountSigner {
            pubkey: address_to_base58(a.pubkey.as_slice()),
            is_signer: a.is_signer,
        });
        i += 1;
    }
    out
}

/// Serialize an account list to base58 addresses with both flags, in order.
pub fn account_meta_list(accs: &Vec<RawAccountMeta>) -> (r: Vec<AccountMetaOut>)
    requires
        forall|j: int| 0 <= j < accs@.len() ==> accs@[j].pubkey@.len() == 32,
    ensures
        r@.len() == accs@.len(),
        forall|j: int| 0 <= j < accs@.len() ==> r@[j].pubkey@ == base58_of(accs@[j].pubkey@)
            && r@[j].is_signer == accs@[j].is_signer
            && r@[j].is_writable == accs@[j].is_writable,
{
    let mut out: Vec<AccountMetaOut> = Vec::new();
    let mut i: usize = 0;
    while i < accs.len()
        invariant
            i <= accs@.len(),
            out@.len() == i,
            forall|j: int| 0 <= j < accs@.len() ==> accs@[j].pubkey@.len() == 32,
            forall|j: int| 0 <= j < i ==> out@[j].pubkey@ == base58_of(accs@[j].pubkey@)
                && out@[j].is_signer == accs@[j].is_signer
                && out@[j].is_writable == accs@[j].is_writable,
        decreases accs@.len() - i,
    {
        let a = &accs[i];
        out.push(AccountMetaOut {
            pubkey: address_to_base58(a.pubkey.as_slice()),
            is_signer: a.is_signer,
            is_writable: a.is_writable,
        });
        i += 1;
    }
    out
}

} // verus!
