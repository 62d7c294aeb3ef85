//! Unsigned instruction records for the token program and for native
//! transfers.
//!
//! A record names the program, the accounts it touches in the order the
//! program expects them, and the payload bytes. Order, flags and tag values
//! are the fixed wire contract of the ledger's programs; nothing here is
//! configurable.

use vstd::prelude::*;

use crate::bytes::{lemma_u64_le_round_trip, push_all, push_u64_le, u64_from_le, u64_le};
use crate::pubkey::PublicKey;

verus! {

/// Payload tag of the token program's "initialize mint".
pub const TAG_INITIALIZE_MINT: u8 = 0;

/// Payload tag of the token program's "transfer".
pub const TAG_TOKEN_TRANSFER: u8 = 3;

/// Payload tag of the token program's "mint-to".
pub const TAG_MINT_TO: u8 = 7;

/// Payload tag of the native-transfer program's "transfer".
pub const TAG_SOL_TRANSFER: u8 = 2;

/// The token program's address, `TokenkegQfeZyiNwAJbNbGKPFXCWuBvf9Ss623VQ5DA`.
pub open spec fn token_program_bytes() -> Seq<u8> {
    seq![
        6u8, 221, 246, 225, 215, 101, 161, 147, 217, 203, 225, 70, 206, 235, 121, 172,
        28, 180, 133, 237, 95, 91, 55, 145, 58, 140, 245, 133, 126, 255, 0, 169,
    ]
}

/// The rent sysvar's address, `SysvarRent111111111111111111111111111111111`.
pub open spec fn rent_sysvar_bytes() -> Seq<u8> {
    seq![
        6u8, 167, 213, 23, 25, 44, 92, 81, 33, 140, 201, 76, 61, 74, 241, 127,
        88, 218, 238, 8, 155, 161, 253, 68, 227, 219, 217, 138, 0, 0, 0, 0,
    ]
}

/// The native-transfer program's address: 32 zero bytes,
/// `11111111111111111111111111111111`.
pub open spec fn system_program_bytes() -> Seq<u8> {
    Seq::new(32, |i: int| 0u8)
}

/// One account of an instruction, with what the program may do to it.
#[derive(Clone, Copy, Debug, PartialEq, Eq)]
pub struct AccountMeta {
    pub pubkey: PublicKey,
    pub is_signer: bool,
    pub is_writable: bool,
}

/// An account entry as a plain value.
pub struct AccountMetaView {
    pub pubkey: Seq<u8>,
    pub is_signer: bool,
    pub is_writable: bool,
}

impl View for AccountMeta {
    type V = AccountMetaView;

    open spec fn view(&self) -> AccountMetaView {
        AccountMetaView {
            pubkey: self.pubkey@,
            is_signer: self.is_signer,
            is_writable: self.is_writable,
        }
    }
}

/// The description of one operation for a ledger program. It is never
/// executed or signed here.
#[derive(Clone, Debug, PartialEq, Eq)]
pub struct Instruction {
    pub program_id: PublicKey,
    pub accounts: Vec<AccountMeta>,
    pub data: Vec<u8>,
}

/// An instruction as a plain value.
pub struct InstructionView {
    pub program_id: Seq<u8>,
    pub accounts: Seq<AccountMetaView>,
    pub data: Seq<u8>,
}

impl View for Instruction {
    type V = InstructionView;

    open spec fn view(&self) -> InstructionView {
        InstructionView {
            program_id: self.program_id@,
            accounts: Seq::new(self.accounts@.len(), |i: int| self.accounts@[i]@),
            data: self.data@,
        }
    }
}

/// An account entry that the program may change.
pub open spec fn writable(pubkey: Seq<u8>, is_signer: bool) -> AccountMetaView {
    AccountMetaView { pubkey, is_signer, is_writable: true }
}

/// An account entry that the program may only read.
pub open spec fn readonly(pubkey: Seq<u8>, is_signer: bool) -> AccountMetaView {
    AccountMetaView { pubkey, is_signer, is_writable: false }
}

/// The presence flag and, where present, the 32 bytes of an optional key.
pub open spec fn optional_key_bytes(key: Option<Seq<u8>>) -> Seq<u8> {
    match key {
        Some(bytes) => seq![1u8] + bytes,
        None => seq![0u8],
    }
}

/// A tag byte followed by an amount in eight little-endian bytes.
pub open spec fn tagged_amount(tag: u8, amount: u64) -> Seq<u8> {
    seq![tag] + u64_le(amount)
}

/// The record that `build_mint_initialize` returns.
pub open spec fn mint_initialize_record(
    mint: Seq<u8>,
    authority: Seq<u8>,
    decimals: u8,
    freeze_authority: Option<Seq<u8>>,
) -> InstructionView {
    InstructionView {
        program_id: token_program_bytes(),
        accounts: seq![writable(mint, false), readonly(rent_sysvar_bytes(), false)],
        data: seq![TAG_INITIALIZE_MINT, decimals] + authority + optional_key_bytes(
            freeze_authority,
        ),
    }
}

/// The record that `build_mint_to` returns.
pub open spec fn mint_to_record(
    mint: Seq<u8>,
    destination: Seq<u8>,
    authority: Seq<u8>,
    amount: u64,
) -> InstructionView {
    InstructionView {
        program_id: token_program_bytes(),
        accounts: seq![
            writable(mint, false),
            writable(destination, false),
            readonly(authority, true),
        ],
        data: tagged_amount(TAG_MINT_TO, amount),
    }
}

/// The record that `build_token_transfer` returns.
pub open spec fn token_transfer_record(
    source: Seq<u8>,
    destination: Seq<u8>,
    owner: Seq<u8>,
    amount: u64,
) -> InstructionView {
    InstructionView {
        program_id: token_program_bytes(),
        accounts: seq![
            writable(source, false),
            writable(destination, false),
            readonly(owner, true),
        ],
        data: tagged_amount(TAG_TOKEN_TRANSFER, amount),
    }
}

/// The record that `build_sol_transfer` returns.
pub open spec fn sol_transfer_record(from: Seq<u8>, to: Seq<u8>, amount: u64) -> InstructionView {
    InstructionView {
        program_id: system_program_bytes(),
        accounts: seq![writable(from, true), writable(to, false)],
        data: tagged_amount(TAG_SOL_TRANSFER, amount),
    }
}

/// The view of an optional key.
pub open spec fn optional_key_view(key: Option<PublicKey>) -> Option<Seq<u8>> {
    match key {
        Some(k) => Some(k@),
        None => None,
    }
}

/// The token program's address.
pub fn token_program_id() -> (key: PublicKey)
    ensures
        key@ == token_program_bytes(),
{
    let bytes: [u8; 32] = [
        6, 221, 246, 225, 215, 101, 161, 147, 217, 203, 225, 70, 206, 235, 121, 172,
        28, 180, 133, 237, 95, 91, 55, 145, 58, 140, 245, 133, 126, 255, 0, 169,
    ];
    assert(bytes@ =~= token_program_bytes());
    PublicKey { bytes }
}

/// The rent sysvar's address.
pub fn rent_sysvar_id() -> (key: PublicKey)
    ensures
        key@ == rent_sysvar_bytes(),
{
    let bytes: [u8; 32] = [
        6, 167, 213, 23, 25, 44, 92, 81, 33, 140, 201, 76, 61, 74, 241, 127,
        88, 218, 238, 8, 155, 161, 253, 68, 227, 219, 217, 138, 0, 0, 0, 0,
    ];
    assert(bytes@ =~= rent_sysvar_bytes());
    PublicKey { bytes }
}

/// The native-transfer program's address.
pub fn system_program_id() -> (key: PublicKey)
    ensures
        key@ == system_program_bytes(),
{
    let bytes: [u8; 32] = [0u8; 32];
    assert(bytes@ =~= system_program_bytes());
    PublicKey { bytes }
}

impl AccountMeta {
    /// An entry for an account that the program may change.
    pub fn new(pubkey: PublicKey, is_signer: bool) -> (meta: AccountMeta)
        ensures
            meta@ == writable(pubkey@, is_signer),
    {
        AccountMeta { pubkey, is_signer, is_writable: true }
    }

    /// An entry for an account that the program may only read.
    pub fn new_readonly(pubkey: PublicKey, is_signer: bool) -> (meta: AccountMeta)
        ensures
            meta@ == readonly(pubkey@, is_signer),
    {
        AccountMeta { pubkey, is_signer, is_writable: false }
    }
}

/// The payload of an instruction that carries a tag and an amount.
fn amount_payload(tag: u8, amount: u64) -> (data: Vec<u8>)
    ensures
        data@ == tagged_amount(tag, amount),
{
    let mut data: Vec<u8> = Vec::new();
    data.push(tag);
    push_u64_le(&mut data, amount);
    assert(data@ =~= tagged_amount(tag, amount));
    data
}

/// "Initialize mint" of the token program: makes `mint` a mint with
/// `decimals` decimal places, `authority` as the one who may mint, and
/// `freeze_authority`, where given, as the one who may freeze accounts.
pub fn build_mint_initialize(
    mint: &PublicKey,
    authority: &PublicKey,
    decimals: u8,
    freeze_authority: Option<PublicKey>,
) -> (ix: Instruction)
    ensures
        ix@ == mint_initialize_record(
            mint@,
            authority@,
            decimals,
            optional_key_view(freeze_authority),
        ),
{
    let mut accounts: Vec<AccountMeta> = Vec::new();
    accounts.push(AccountMeta::new(*mint, false));
    accounts.push(AccountMeta::new_readonly(rent_sysvar_id(), false));
    let mut data: Vec<u8> = Vec::new();
    data.push(TAG_INITIALIZE_MINT);
    data.push(decimals);
    push_all(&mut data, authority.bytes.as_slice());
    match freeze_authority {
        Some(key) => {
            data.push(1);
            push_all(&mut data, key.bytes.as_slice());
        },
        None => {
            data.push(0);
        },
    }
    let ix = Instruction { program_id: token_program_id(), accounts, data };
    proof {
        let want = mint_initialize_record(
            mint@,
            authority@,
            decimals,
            optional_key_view(freeze_authority),
        );
        assert(ix@.accounts =~= want.accounts);
        assert(ix@.data =~= want.data);
    }
    ix
}

/// "Mint-to" of the token program: issues `amount` new units of `mint` to
/// the account `destination`, signed for by `authority`.
pub fn build_mint_to(
    mint: &PublicKey,
    destination: &PublicKey,
    authority: &PublicKey,
    amount: u64,
) -> (ix: Instruction)
    ensures
        ix@ == mint_to_record(mint@, destination@, authority@, amount),
{
    let mut accounts: Vec<AccountMeta> = Vec::new();
    accounts.push(AccountMeta::new(*mint, false));
    accounts.push(AccountMeta::new(*destination, false));
    accounts.push(AccountMeta::new_readonly(*authority, true));
    let ix = Instruction {
        program_id: token_program_id(),
        accounts,
        data: amount_payload(TAG_MINT_TO, amount),
    };
    assert(ix@.accounts =~= mint_to_record(mint@, destination@, authority@, amount).accounts);
    ix
}

/// "Transfer" of the token program: moves `amount` units from the account
/// `source` to the account `destination`, signed for by `owner`.
pub fn build_token_transfer(
    source: &PublicKey,
    destination: &PublicKey,
    owner: &PublicKey,
    amount: u64,
) -> (ix: Instruction)
    ensures
        ix@ == token_transfer_record(source@, destination@, owner@, amount),
{
    let mut accounts: Vec<AccountMeta> = Vec::new();
    accounts.push(AccountMeta::new(*source, false));
    accounts.push(AccountMeta::new(*destination, false));
    accounts.push(AccountMeta::new_readonly(*owner, true));
    let ix = Instruction {
        program_id: token_program_id(),
        accounts,
        data: amount_payload(TAG_TOKEN_TRANSFER, amount),
    };
    assert(ix@.accounts =~= token_transfer_record(source@, destination@, owner@, amount).accounts);
    ix
}

/// "Transfer" of the native-transfer program: moves `amount` lamports from
/// `from`, who signs, to `to`.
pub fn build_sol_transfer(from: &PublicKey, to: &PublicKey, amount: u64) -> (ix: Instruction)
    ensures
        ix@ == sol_transfer_record(from@, to@, amount),
{
    let mut accounts: Vec<AccountMeta> = Vec::new();
    accounts.push(AccountMeta::new(*from, true));
    accounts.push(AccountMeta::new(*to, false));
    let ix = Instruction {
        program_id: system_program_id(),
        accounts,
        data: amount_payload(TAG_SOL_TRANSFER, amount),
    };
    assert(ix@.accounts =~= sol_transfer_record(from@, to@, amount).accounts);
    ix
}

/// Payload exactness of the instructions that carry an amount: nine
/// bytes, the tag first, then the amount, which the last eight bytes give
/// back when read as a little-endian number.
pub proof fn lemma_tagged_amount_payload(tag: u8, amount: u64)
    ensures
        tagged_amount(tag, amount).len() == 9,
        tagged_amount(tag, amount)[0] == tag,
        tagged_amount(tag, amount).skip(1) == u64_le(amount),
        u64_from_le(tagged_amount(tag, amount).skip(1)) == amount,
{
    lemma_u64_le_round_trip(amount);
    assert(tagged_amount(tag, amount).skip(1) =~= u64_le(amount));
}

/// Payload exactness of a native transfer, for every sender, receiver and
/// amount, zero and the largest included: nine bytes, the transfer tag
/// first, then the amount in eight little-endian bytes.
pub proof fn lemma_sol_transfer_payload(from: Seq<u8>, to: Seq<u8>, amount: u64)
    ensures
        sol_transfer_record(from, to, amount).data == seq![TAG_SOL_TRANSFER] + u64_le(amount),
        sol_transfer_record(from, to, amount).data.len() == 9,
        sol_transfer_record(from, to, amount).data[0] == TAG_SOL_TRANSFER,
        u64_from_le(sol_transfer_record(from, to, amount).data.skip(1)) == amount,
{
    lemma_tagged_amount_payload(TAG_SOL_TRANSFER, amount);
}

} // verus!
