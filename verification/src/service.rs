//! The operations as a transport offers them: requests of text and numbers
//! in, envelopes of text out.
//!
//! Each operation validates and decodes its request, runs the builder or
//! the signer, and encodes the result. Each comes twice: as a function that
//! returns the result or the kind of the failure, and as one that wraps
//! either into an envelope. None keeps any state.

use vstd::prelude::*;

use crate::encoding::{
    base58_bytes, base58_decode, base58_decoded, base58_encode, base58_text, base64_decode,
    base64_decoded, base64_encodable, base64_encode, base64_text, encodes_base58, encodes_base64,
};
use crate::error::LedgerError;
use crate::instruction::{
    build_mint_initialize, build_mint_to, build_sol_transfer, mint_initialize_record,
    mint_to_record, sol_transfer_record, AccountMeta, AccountMetaView, Instruction,
    InstructionView,
};
use crate::keypair::{is_consistent, public_of, secret_accepted, seed_of, Keypair};
use crate::pubkey::{public_key_decoded, PublicKey};
use crate::signing::{ed25519_signature, sign, signed, signs, verified, verify};

verus! {

/// The request to create a mint.
#[allow(non_snake_case)]
#[derive(Clone, Debug)]
pub struct TokenCreateRequest {
    pub mintAuthority: String,
    pub mint: String,
    pub decimals: u8,
}

/// The request to mint tokens.
#[derive(Clone, Debug)]
pub struct TokenMintRequest {
    pub mint: String,
    pub destination: String,
    pub authority: String,
    pub amount: u64,
}

/// The request to transfer native currency.
#[derive(Clone, Debug)]
pub struct SolTransferRequest {
    pub from: String,
    pub to: String,
    pub lamports: u64,
}

/// The request to sign a message.
#[derive(Clone, Debug)]
pub struct SignMessageRequest {
    pub message: String,
    pub secret: String,
}

/// The request to check a signature.
#[derive(Clone, Debug)]
pub struct VerifyMessageRequest {
    pub message: String,
    pub signature: String,
    pub pubkey: String,
}

/// One account of an instruction, its key in base58.
#[derive(Clone, Debug, PartialEq, Eq)]
pub struct AccountMetaData {
    pub pubkey: String,
    pub is_signer: bool,
    pub is_writable: bool,
}

/// An instruction in transport form: keys in base58, the payload in base64.
#[derive(Clone, Debug, PartialEq, Eq)]
pub struct TokenInstructionData {
    pub program_id: String,
    pub accounts: Vec<AccountMetaData>,
    pub instruction_data: String,
}

/// The envelope of an instruction: `data` on success, `error` else.
#[derive(Clone, Debug, PartialEq, Eq)]
pub struct TokenInstructionResponse {
    pub success: bool,
    pub data: Option<TokenInstructionData>,
    pub error: Option<String>,
}

/// A key pair in transport form: both keys in base58, the secret in its 64
/// bytes.
#[derive(Clone, Debug, PartialEq, Eq)]
pub struct KeypairData {
    pub pubkey: String,
    pub secret: String,
}

/// The envelope of a key pair.
#[derive(Clone, Debug, PartialEq, Eq)]
pub struct KeypairResponse {
    pub success: bool,
    pub data: KeypairData,
}

/// A signature in transport form: the signature in base64, the signer's
/// public key in base58, and the message as it came.
#[derive(Clone, Debug, PartialEq, Eq)]
pub struct SignMessageData {
    pub signature: String,
    pub public_key: String,
    pub message: String,
}

/// The envelope of a signature: `data` on success, `error` else.
#[derive(Clone, Debug, PartialEq, Eq)]
pub struct SignMessageResponse {
    pub success: bool,
    pub data: Option<SignMessageData>,
    pub error: Option<String>,
}

/// The outcome of a check: the verdict, and message and key as they came.
#[derive(Clone, Debug, PartialEq, Eq)]
pub struct VerifyMessageData {
    pub valid: bool,
    pub message: String,
    pub pubkey: String,
}

/// The envelope of a check: `data` on success, `error` else.
#[derive(Clone, Debug, PartialEq, Eq)]
pub struct VerifyMessageResponse {
    pub success: bool,
    pub data: Option<VerifyMessageData>,
    pub error: Option<String>,
}

/// An account entry of an envelope as a plain value.
pub struct AccountMetaDataView {
    pub pubkey: Seq<char>,
    pub is_signer: bool,
    pub is_writable: bool,
}

/// An instruction in transport form as a plain value.
pub struct TokenInstructionDataView {
    pub program_id: Seq<char>,
    pub accounts: Seq<AccountMetaDataView>,
    pub instruction_data: Seq<char>,
}

/// The envelope of an instruction as a plain value.
pub struct TokenInstructionResponseView {
    pub success: bool,
    pub data: Option<TokenInstructionDataView>,
    pub error: Option<Seq<char>>,
}

/// A signature in transport form as a plain value.
pub struct SignMessageDataView {
    pub signature: Seq<char>,
    pub public_key: Seq<char>,
    pub message: Seq<char>,
}

/// The envelope of a signature as a plain value.
pub struct SignMessageResponseView {
    pub success: bool,
    pub data: Option<SignMessageDataView>,
    pub error: Option<Seq<char>>,
}

/// The outcome of a check as a plain value.
pub struct VerifyMessageDataView {
    pub valid: bool,
    pub message: Seq<char>,
    pub pubkey: Seq<char>,
}

/// The envelope of a check as a plain value.
pub struct VerifyMessageResponseView {
    pub success: bool,
    pub data: Option<VerifyMessageDataView>,
    pub error: Option<Seq<char>>,
}

/// The view of an optional text.
pub open spec fn optional_text(text: Option<String>) -> Option<Seq<char>> {
    match text {
        Some(t) => Some(t@),
        None => None,
    }
}

impl View for AccountMetaData {
    type V = AccountMetaDataView;

    open spec fn view(&self) -> AccountMetaDataView {
        AccountMetaDataView {
            pubkey: self.pubkey@,
            is_signer: self.is_signer,
            is_writable: self.is_writable,
        }
    }
}

impl View for TokenInstructionData {
    type V = TokenInstructionDataView;

    open spec fn view(&self) -> TokenInstructionDataView {
        TokenInstructionDataView {
            program_id: self.program_id@,
            accounts: Seq::new(self.accounts@.len(), |i: int| self.accounts@[i]@),
            instruction_data: self.instruction_data@,
        }
    }
}

impl View for TokenInstructionResponse {
    type V = TokenInstructionResponseView;

    open spec fn view(&self) -> TokenInstructionResponseView {
        TokenInstructionResponseView {
            success: self.success,
            data: match self.data {
                Some(d) => Some(d@),
                None => None,
            },
            error: optional_text(self.error),
        }
    }
}

impl View for SignMessageData {
    type V = SignMessageDataView;

    open spec fn view(&self) -> SignMessageDataView {
        SignMessageDataView {
            signature: self.signature@,
            public_key: self.public_key@,
            message: self.message@,
        }
    }
}

impl View for SignMessageResponse {
    type V = SignMessageResponseView;

    open spec fn view(&self) -> SignMessageResponseView {
        SignMessageResponseView {
            success: self.success,
            data: match self.data {
                Some(d) => Some(d@),
                None => None,
            },
            error: optional_text(self.error),
        }
    }
}

impl View for VerifyMessageData {
    type V = VerifyMessageDataView;

    open spec fn view(&self) -> VerifyMessageDataView {
        VerifyMessageDataView { valid: self.valid, message: self.message@, pubkey: self.pubkey@ }
    }
}

impl View for VerifyMessageResponse {
    type V = VerifyMessageResponseView;

    open spec fn view(&self) -> VerifyMessageResponseView {
        VerifyMessageResponseView {
            success: self.success,
            data: match self.data {
                Some(d) => Some(d@),
                None => None,
            },
            error: optional_text(self.error),
        }
    }
}

/// The view of an instruction or of a failure.
pub open spec fn built_view(
    r: Result<Instruction, LedgerError>,
) -> Result<InstructionView, LedgerError> {
    match r {
        Ok(ix) => Ok(ix@),
        Err(e) => Err(e),
    }
}

/// The view of the data of a signature or of a failure.
pub open spec fn signed_view(
    r: Result<SignMessageData, LedgerError>,
) -> Result<SignMessageDataView, LedgerError> {
    match r {
        Ok(d) => Ok(d@),
        Err(e) => Err(e),
    }
}

/// The view of the data of a check or of a failure.
pub open spec fn checked_view(
    r: Result<VerifyMessageData, LedgerError>,
) -> Result<VerifyMessageDataView, LedgerError> {
    match r {
        Ok(d) => Ok(d@),
        Err(e) => Err(e),
    }
}

/// The envelope of a failed instruction operation: no instruction, and the
/// message as the error.
pub open spec fn failed_instruction(message: Seq<char>) -> TokenInstructionResponseView {
    TokenInstructionResponseView { success: false, data: None, error: Some(message) }
}

/// The envelope that reports that signing failed with `message`.
pub open spec fn failed_signing(message: Seq<char>) -> SignMessageResponseView {
    SignMessageResponseView { success: false, data: None, error: Some(message) }
}

/// The envelope that reports that a check could not be made.
pub open spec fn failed_check(message: Seq<char>) -> VerifyMessageResponseView {
    VerifyMessageResponseView { success: false, data: None, error: Some(message) }
}

/// The transport form of an account entry.
pub open spec fn encoded_account(meta: AccountMetaView) -> AccountMetaDataView {
    AccountMetaDataView {
        pubkey: base58_text(meta.pubkey),
        is_signer: meta.is_signer,
        is_writable: meta.is_writable,
    }
}

/// The transport form of the instruction `ix`.
pub open spec fn encoded_data(ix: InstructionView) -> TokenInstructionDataView {
    TokenInstructionDataView {
        program_id: base58_text(ix.program_id),
        accounts: Seq::new(ix.accounts.len(), |i: int| encoded_account(ix.accounts[i])),
        instruction_data: base64_text(ix.data),
    }
}

/// The envelope that carries the instruction `ix`.
pub open spec fn encoded_instruction(ix: InstructionView) -> TokenInstructionResponseView {
    TokenInstructionResponseView { success: true, data: Some(encoded_data(ix)), error: None }
}

/// What `create_request` returns: the instruction, or the kind of failure
/// of the first key that does not parse, the mint's first.
pub open spec fn create_request_outcome(
    mint: Seq<char>,
    mint_authority: Seq<char>,
    decimals: u8,
) -> Result<InstructionView, LedgerError> {
    match public_key_decoded(mint) {
        Err(e) => Err(e),
        Ok(mint_key) => match public_key_decoded(mint_authority) {
            Err(e) => Err(e),
            Ok(authority_key) => Ok(
                mint_initialize_record(mint_key, authority_key, decimals, None),
            ),
        },
    }
}

/// What `mint_request` returns: the instruction, or the kind of failure of
/// the first key that does not parse: the mint's, the destination's, the
/// authority's.
pub open spec fn mint_request_outcome(
    mint: Seq<char>,
    destination: Seq<char>,
    authority: Seq<char>,
    amount: u64,
) -> Result<InstructionView, LedgerError> {
    match public_key_decoded(mint) {
        Err(e) => Err(e),
        Ok(mint_key) => match public_key_decoded(destination) {
            Err(e) => Err(e),
            Ok(destination_key) => match public_key_decoded(authority) {
                Err(e) => Err(e),
                Ok(authority_key) => Ok(
                    mint_to_record(mint_key, destination_key, authority_key, amount),
                ),
            },
        },
    }
}

/// What `transfer_request` returns: the instruction, or the kind of failure
/// of the first key that does not parse, the sender's first.
pub open spec fn transfer_request_outcome(
    from: Seq<char>,
    to: Seq<char>,
    lamports: u64,
) -> Result<InstructionView, LedgerError> {
    match public_key_decoded(from) {
        Err(e) => Err(e),
        Ok(from_key) => match public_key_decoded(to) {
            Err(e) => Err(e),
            Ok(to_key) => Ok(sol_transfer_record(from_key, to_key, lamports)),
        },
    }
}

/// The words in which `create_token` reports a failure: they name the first
/// key that does not parse.
pub open spec fn create_error_text(mint: Seq<char>, mint_authority: Seq<char>) -> Seq<char> {
    if public_key_decoded(mint) is Err {
        "Invalid mint pubkey"@
    } else {
        "Invalid mint authority pubkey"@
    }
}

/// The words in which `mint_token` reports a failure: they name the first
/// key that does not parse.
pub open spec fn mint_error_text(
    mint: Seq<char>,
    destination: Seq<char>,
    authority: Seq<char>,
) -> Seq<char> {
    if public_key_decoded(mint) is Err {
        "Invalid mint pubkey"@
    } else if public_key_decoded(destination) is Err {
        "Invalid destination pubkey"@
    } else {
        "Invalid authority pubkey"@
    }
}

/// The words in which `transfer_sol` reports a failure: they name the first
/// key that does not parse.
pub open spec fn transfer_error_text(from: Seq<char>, to: Seq<char>) -> Seq<char> {
    if public_key_decoded(from) is Err {
        "Invalid sender pubkey"@
    } else {
        "Invalid recipient pubkey"@
    }
}

/// The envelope of an instruction operation: the instruction in transport
/// form, or the failure in the given words.
pub open spec fn instruction_envelope(
    outcome: Result<InstructionView, LedgerError>,
    error_text: Seq<char>,
) -> TokenInstructionResponseView {
    match outcome {
        Ok(ix) => encoded_instruction(ix),
        Err(_) => failed_instruction(error_text),
    }
}

/// Whether `data` holds the signature of `message`, taken as its UTF-8
/// bytes, by the 64 bytes `material`, in transport form: what `sign_request`
/// returns on success.
pub open spec fn carries_signature(
    material: Seq<u8>,
    message: Seq<char>,
    data: SignMessageDataView,
) -> bool {
    let bytes = vstd::utf8::encode_utf8(message);
    let signature = ed25519_signature(seed_of(material), bytes);
    &&& material.len() == 64
    &&& signs(material, bytes, signature)
    &&& encodes_base64(signature, data.signature)
    &&& encodes_base58(public_of(material), data.public_key)
    &&& data.message == message
}

/// What `sign_request` returns. The message is signed as its UTF-8 bytes.
pub open spec fn sign_request_outcome(
    message: Seq<char>,
    secret: Seq<char>,
) -> Result<SignMessageDataView, LedgerError> {
    if message.len() == 0 || secret.len() == 0 {
        Err(LedgerError::MissingField)
    } else {
        match base58_decoded(secret) {
            Err(e) => Err(e),
            Ok(bytes) => match secret_accepted(bytes) {
                Err(e) => Err(e),
                Ok(material) => match signed(material, vstd::utf8::encode_utf8(message)) {
                    Err(e) => Err(e),
                    Ok(signature) => Ok(
                        SignMessageDataView {
                            signature: base64_text(signature),
                            public_key: base58_text(public_of(material)),
                            message,
                        },
                    ),
                },
            },
        }
    }
}

/// What `verify_request` returns. The message is checked as its UTF-8
/// bytes.
pub open spec fn verify_request_outcome(
    message: Seq<char>,
    signature: Seq<char>,
    pubkey: Seq<char>,
) -> Result<VerifyMessageDataView, LedgerError> {
    if message.len() == 0 || signature.len() == 0 || pubkey.len() == 0 {
        Err(LedgerError::MissingField)
    } else {
        match public_key_decoded(pubkey) {
            Err(e) => Err(e),
            Ok(key) => match base64_decoded(signature) {
                Err(e) => Err(e),
                Ok(bytes) => Ok(
                    VerifyMessageDataView {
                        valid: verified(key, vstd::utf8::encode_utf8(message), bytes),
                        message,
                        pubkey,
                    },
                ),
            },
        }
    }
}

/// The words in which `sign_message` reports a failure: an empty field, a
/// secret that is not base58, and a secret of the wrong length each in
/// their own; any other kind in the words of the kind.
pub open spec fn signing_error_text(e: LedgerError) -> Seq<char> {
    match e {
        LedgerError::MissingField => "Missing required fields"@,
        LedgerError::InvalidEncoding => "Invalid secret key format"@,
        LedgerError::InvalidLength => "Invalid secret key length"@,
        _ => e.message_text(),
    }
}

/// What `sign_message` answers.
pub open spec fn sign_message_outcome(
    message: Seq<char>,
    secret: Seq<char>,
) -> SignMessageResponseView {
    match sign_request_outcome(message, secret) {
        Ok(data) => SignMessageResponseView { success: true, data: Some(data), error: None },
        Err(e) => failed_signing(signing_error_text(e)),
    }
}

/// What `verify_message` answers.
pub open spec fn verify_message_outcome(
    message: Seq<char>,
    signature: Seq<char>,
    pubkey: Seq<char>,
) -> VerifyMessageResponseView {
    match verify_request_outcome(message, signature, pubkey) {
        Ok(data) => VerifyMessageResponseView { success: true, data: Some(data), error: None },
        Err(e) => failed_check(e.message_text()),
    }
}

/// Whether `pubkey` and `secret` are the transport form of the key pair
/// with the 64 bytes `material`.
pub open spec fn encodes_keypair(material: Seq<u8>, pubkey: Seq<char>, secret: Seq<char>) -> bool {
    &&& material.len() == 64
    &&& encodes_base58(public_of(material), pubkey)
    &&& encodes_base58(material, secret)
}

/// The envelope of a failure: success false, no data, and `msg` as the
/// error.
pub fn error_response(msg: &str) -> (response: TokenInstructionResponse)
    ensures
        response@ == failed_instruction(msg@),
        !response.success,
        response.data is None,
        optional_text(response.error) == Some(msg@),
{
    TokenInstructionResponse { success: false, data: None, error: Some(msg.to_owned()) }
}

/// The transport form of one account entry.
pub fn account_response(meta: &AccountMeta) -> (entry: AccountMetaData)
    ensures
        entry@ == encoded_account(meta@),
{
    AccountMetaData {
        pubkey: meta.pubkey.encode(),
        is_signer: meta.is_signer,
        is_writable: meta.is_writable,
    }
}

/// The envelope of a built instruction: the program and each account key in
/// base58, the order and flags of the accounts as they are, the payload in
/// base64, and no error. The payload must be short enough for its text to be
/// built in memory.
pub fn instruction_response(ix: &Instruction) -> (response: TokenInstructionResponse)
    requires
        base64_encodable(ix.data@.len()),
    ensures
        response@ == encoded_instruction(ix@),
{
    let mut accounts: Vec<AccountMetaData> = Vec::new();
    let mut i: usize = 0;
    while i < ix.accounts.len()
        invariant
            i <= ix.accounts@.len(),
            accounts@.len() == i,
            forall|j: int| 0 <= j < i ==> accounts@[j]@ == encoded_account(ix.accounts@[j]@),
        decreases ix.accounts@.len() - i,
    {
        accounts.push(account_response(&ix.accounts[i]));
        i += 1;
    }
    let data = TokenInstructionData {
        program_id: ix.program_id.encode(),
        accounts,
        instruction_data: base64_encode(ix.data.as_slice()),
    };
    assert(data@.accounts =~= encoded_data(ix@).accounts);
    TokenInstructionResponse { success: true, data: Some(data), error: None }
}

/// The "initialize mint" instruction for the mint `req.mint` with
/// `req.mintAuthority` as its authority and no freeze authority. Fails with
/// the kind of failure of the first key that does not parse, the mint's
/// first: `InvalidEncoding` or `InvalidLength`.
pub fn create_request(req: &TokenCreateRequest) -> (r: Result<Instruction, LedgerError>)
    ensures
        built_view(r) == create_request_outcome(req.mint@, req.mintAuthority@, req.decimals),
{
    let mint = match PublicKey::decode(req.mint.as_str()) {
        Ok(key) => key,
        Err(e) => {
            return Err(e);
        },
    };
    let authority = match PublicKey::decode(req.mintAuthority.as_str()) {
        Ok(key) => key,
        Err(e) => {
            return Err(e);
        },
    };
    Ok(build_mint_initialize(&mint, &authority, req.decimals, None))
}

/// The "mint-to" instruction of the request. Fails with the kind of failure
/// of the first key that does not parse: the mint's, then the
/// destination's, then the authority's.
pub fn mint_request(req: &TokenMintRequest) -> (r: Result<Instruction, LedgerError>)
    ensures
        built_view(r) == mint_request_outcome(
            req.mint@,
            req.destination@,
            req.authority@,
            req.amount,
        ),
{
    let mint = match PublicKey::decode(req.mint.as_str()) {
        Ok(key) => key,
        Err(e) => {
            return Err(e);
        },
    };
    let destination = match PublicKey::decode(req.destination.as_str()) {
        Ok(key) => key,
        Err(e) => {
            return Err(e);
        },
    };
    let authority = match PublicKey::decode(req.authority.as_str()) {
        Ok(key) => key,
        Err(e) => {
            return Err(e);
        },
    };
    Ok(build_mint_to(&mint, &destination, &authority, req.amount))
}

/// The native "transfer" instruction of `req.lamports` from `req.from` to
/// `req.to`. Fails with the kind of failure of the first key that does not
/// parse, the sender's first.
pub fn transfer_request(req: &SolTransferRequest) -> (r: Result<Instruction, LedgerError>)
    ensures
        built_view(r) == transfer_request_outcome(req.from@, req.to@, req.lamports),
{
    let from = match PublicKey::decode(req.from.as_str()) {
        Ok(key) => key,
        Err(e) => {
            return Err(e);
        },
    };
    let to = match PublicKey::decode(req.to.as_str()) {
        Ok(key) => key,
        Err(e) => {
            return Err(e);
        },
    };
    Ok(build_sol_transfer(&from, &to, req.lamports))
}

/// "Create mint": the envelope of `create_request`. On success the mint's
/// account carries the text of the request; a failure names the first key
/// that does not parse.
pub fn create_token(req: &TokenCreateRequest) -> (response: TokenInstructionResponse)
    ensures
        response@ == instruction_envelope(
            create_request_outcome(req.mint@, req.mintAuthority@, req.decimals),
            create_error_text(req.mint@, req.mintAuthority@),
        ),
        response@.data matches Some(d) ==> d.accounts[0].pubkey == req.mint@,
{
    let mint = match PublicKey::decode(req.mint.as_str()) {
        Ok(key) => key,
        Err(_) => {
            return error_response("Invalid mint pubkey");
        },
    };
    let authority = match PublicKey::decode(req.mintAuthority.as_str()) {
        Ok(key) => key,
        Err(_) => {
            return error_response("Invalid mint authority pubkey");
        },
    };
    let ix = build_mint_initialize(&mint, &authority, req.decimals, None);
    instruction_response(&ix)
}

/// "Mint tokens": the envelope of `mint_request`. On success the accounts
/// carry the texts of the request; a failure names the first key that does
/// not parse.
pub fn mint_token(req: &TokenMintRequest) -> (response: TokenInstructionResponse)
    ensures
        response@ == instruction_envelope(
            mint_request_outcome(req.mint@, req.destination@, req.authority@, req.amount),
            mint_error_text(req.mint@, req.destination@, req.authority@),
        ),
        response@.data matches Some(d) ==> d.accounts[0].pubkey == req.mint@
            && d.accounts[1].pubkey == req.destination@ && d.accounts[2].pubkey
            == req.authority@,
{
    let mint = match PublicKey::decode(req.mint.as_str()) {
        Ok(key) => key,
        Err(_) => {
            return error_response("Invalid mint pubkey");
        },
    };
    let destination = match PublicKey::decode(req.destination.as_str()) {
        Ok(key) => key,
        Err(_) => {
            return error_response("Invalid destination pubkey");
        },
    };
    let authority = match PublicKey::decode(req.authority.as_str()) {
        Ok(key) => key,
        Err(_) => {
            return error_response("Invalid authority pubkey");
        },
    };
    let ix = build_mint_to(&mint, &destination, &authority, req.amount);
    instruction_response(&ix)
}

/// "Transfer native currency": the envelope of `transfer_request`. On
/// success the accounts carry the texts of the request; a failure names the
/// first key that does not parse.
pub fn transfer_sol(req: &SolTransferRequest) -> (response: TokenInstructionResponse)
    ensures
        response@ == instruction_envelope(
            transfer_request_outcome(req.from@, req.to@, req.lamports),
            transfer_error_text(req.from@, req.to@),
        ),
        response@.data matches Some(d) ==> d.accounts[0].pubkey == req.from@
            && d.accounts[1].pubkey == req.to@,
{
    let from = match PublicKey::decode(req.from.as_str()) {
        Ok(key) => key,
        Err(_) => {
            return error_response("Invalid sender pubkey");
        },
    };
    let to = match PublicKey::decode(req.to.as_str()) {
        Ok(key) => key,
        Err(_) => {
            return error_response("Invalid recipient pubkey");
        },
    };
    let ix = build_sol_transfer(&from, &to, req.lamports);
    instruction_response(&ix)
}

/// The envelope of a key pair: its public key and its 64 bytes of secret
/// material, both in base58.
pub fn keypair_response(keypair: &Keypair) -> (response: KeypairResponse)
    ensures
        response.success,
        encodes_base58(public_of(keypair@), response.data.pubkey@),
        encodes_base58(keypair@, response.data.secret@),
{
    let pubkey = keypair.public_key().encode();
    let bytes = keypair.secret_bytes();
    let secret = base58_encode(bytes.as_slice());
    KeypairResponse { success: true, data: KeypairData { pubkey, secret } }
}

/// "Generate keypair": the envelope of a fresh key pair. Every call draws
/// its own seed.
pub fn generate_keypair() -> (response: KeypairResponse)
    ensures
        response.success,
        exists|material: Seq<u8>|
            is_consistent(material) && encodes_keypair(
                material,
                response.data.pubkey@,
                response.data.secret@,
            ),
{
    let keypair = Keypair::generate();
    let response = keypair_response(&keypair);
    assert(is_consistent(keypair@) && encodes_keypair(
        keypair@,
        response.data.pubkey@,
        response.data.secret@,
    ));
    response
}

/// Signs the UTF-8 bytes of `req.message` with the key pair whose 64 bytes
/// `req.secret` gives in base58. Fails with `MissingField` where a field is
/// empty, with `InvalidEncoding` where the secret is not base58, and with
/// `InvalidLength` where it is not 64 bytes long; in this order. The two
/// halves of the secret are not compared: the answer carries the embedded
/// public key as it came.
pub fn sign_request(req: &SignMessageRequest) -> (r: Result<SignMessageData, LedgerError>)
    ensures
        signed_view(r) == sign_request_outcome(req.message@, req.secret@),
        r matches Ok(data) ==> carries_signature(base58_bytes(req.secret@), req.message@, data@),
{
    if req.message.as_str().is_empty() || req.secret.as_str().is_empty() {
        return Err(LedgerError::MissingField);
    }
    let secret_bytes = match base58_decode(req.secret.as_str()) {
        Ok(bytes) => bytes,
        Err(e) => {
            return Err(e);
        },
    };
    let keypair = match Keypair::from_secret(secret_bytes.as_slice()) {
        Ok(keypair) => keypair,
        Err(e) => {
            return Err(e);
        },
    };
    let signature = match sign(&keypair, req.message.as_str().as_bytes()) {
        Ok(signature) => signature,
        Err(e) => {
            return Err(e);
        },
    };
    Ok(
        SignMessageData {
            signature: signature.encode(),
            public_key: keypair.public_key().encode(),
            message: req.message.clone(),
        },
    )
}

/// Checks whether `req.signature`, in base64, is a valid signature of the
/// UTF-8 bytes of `req.message` under the key `req.pubkey`, in base58.
/// Fails with `MissingField` where a field is empty, with `InvalidEncoding`
/// or `InvalidLength` where the key does not parse, and with
/// `InvalidEncoding` where the signature is not base64; in this order. A
/// signature of the wrong length, like any other mismatch, is no failure:
/// `valid` is false.
pub fn verify_request(req: &VerifyMessageRequest) -> (r: Result<VerifyMessageData, LedgerError>)
    ensures
        checked_view(r) == verify_request_outcome(req.message@, req.signature@, req.pubkey@),
{
    if req.message.as_str().is_empty() || req.signature.as_str().is_empty()
        || req.pubkey.as_str().is_empty() {
        return Err(LedgerError::MissingField);
    }
    let key = match PublicKey::decode(req.pubkey.as_str()) {
        Ok(key) => key,
        Err(e) => {
            return Err(e);
        },
    };
    let signature = match base64_decode(req.signature.as_str()) {
        Ok(bytes) => bytes,
        Err(e) => {
            return Err(e);
        },
    };
    let valid = verify(&key, req.message.as_str().as_bytes(), signature.as_slice());
    Ok(VerifyMessageData { valid, message: req.message.clone(), pubkey: req.pubkey.clone() })
}

/// "Sign message": the envelope of `sign_request`.
pub fn sign_message(req: &SignMessageRequest) -> (response: SignMessageResponse)
    ensures
        response@ == sign_message_outcome(req.message@, req.secret@),
        response@.data matches Some(data) ==> carries_signature(
            base58_bytes(req.secret@),
            req.message@,
            data,
        ),
{
    match sign_request(req) {
        Ok(data) => SignMessageResponse { success: true, data: Some(data), error: None },
        Err(e) => {
            let text = match e {
                LedgerError::MissingField => "Missing required fields".to_owned(),
                LedgerError::InvalidEncoding => "Invalid secret key format".to_owned(),
                LedgerError::InvalidLength => "Invalid secret key length".to_owned(),
                _ => e.message(),
            };
            SignMessageResponse { success: false, data: None, error: Some(text) }
        },
    }
}

/// "Verify message": the envelope of `verify_request`, a failure reported
/// in the words of its kind.
pub fn verify_message(req: &VerifyMessageRequest) -> (response: VerifyMessageResponse)
    ensures
        response@ == verify_message_outcome(req.message@, req.signature@, req.pubkey@),
{
    match verify_request(req) {
        Ok(data) => VerifyMessageResponse { success: true, data: Some(data), error: None },
        Err(e) => VerifyMessageResponse { success: false, data: None, error: Some(e.message()) },
    }
}

/// A failed instruction operation answers with success false, the message
/// as the error, and no instruction: no program, no accounts, no payload.
pub proof fn lemma_failure_carries_no_instruction(
    outcome: Result<InstructionView, LedgerError>,
    error_text: Seq<char>,
)
    requires
        outcome is Err,
    ensures
        instruction_envelope(outcome, error_text) == failed_instruction(error_text),
        !instruction_envelope(outcome, error_text).success,
        instruction_envelope(outcome, error_text).data is None,
        instruction_envelope(outcome, error_text).error == Some(error_text),
{
}

/// Round trip of a secret: a non-empty message and the base58 text of any
/// 64 bytes are signed, whether the two halves fit together or not. The
/// text is decoded to the same 64 bytes, and the answer carries their
/// second half in base58, as it came, and the message as it came.
pub proof fn lemma_encoded_secret_signs(message: Seq<char>, material: Seq<u8>, secret: Seq<char>)
    requires
        message.len() > 0,
        material.len() == 64,
        encodes_base58(material, secret),
    ensures
        base58_decoded(secret) == Ok::<Seq<u8>, LedgerError>(material),
        sign_request_outcome(message, secret) == Ok::<SignMessageDataView, LedgerError>(
            SignMessageDataView {
                signature: base64_text(
                    ed25519_signature(seed_of(material), vstd::utf8::encode_utf8(message)),
                ),
                public_key: base58_text(public_of(material)),
                message,
            },
        ),
        sign_message_outcome(message, secret).success,
{
}

/// Signing correctness through the transport: what `sign_request` returns
/// for a message and a secret whose halves fit together is accepted by
/// `verify_request` for the same message, the returned signature and the
/// returned public key.
pub proof fn lemma_signed_message_verifies(
    material: Seq<u8>,
    message: Seq<char>,
    data: SignMessageDataView,
)
    requires
        message.len() > 0,
        is_consistent(material),
        carries_signature(material, message, data),
    ensures
        base64_decoded(data.signature) == Ok::<Seq<u8>, LedgerError>(
            ed25519_signature(seed_of(material), vstd::utf8::encode_utf8(message)),
        ),
        data.signature.len() == 88,
        verify_request_outcome(message, data.signature, data.public_key) == Ok::<
            VerifyMessageDataView,
            LedgerError,
        >(VerifyMessageDataView { valid: true, message, pubkey: data.public_key }),
        verify_message_outcome(message, data.signature, data.public_key).success,
{
    assert(public_of(material).len() == 32);
}

/// A generated pair signs: with the secret text of `generate_keypair`, a
/// non-empty message is signed, and the answer carries the public key text
/// that `generate_keypair` gave.
pub proof fn lemma_generated_pair_signs(
    message: Seq<char>,
    material: Seq<u8>,
    pubkey: Seq<char>,
    secret: Seq<char>,
)
    requires
        message.len() > 0,
        is_consistent(material),
        encodes_keypair(material, pubkey, secret),
    ensures
        sign_request_outcome(message, secret) matches Ok(data) && data.public_key == pubkey
            && data.message == message,
{
    lemma_encoded_secret_signs(message, material, secret);
}

/// Determinism through the transport: the same message and secret give the
/// same answer.
pub proof fn lemma_sign_message_deterministic(
    message_a: Seq<char>,
    secret_a: Seq<char>,
    message_b: Seq<char>,
    secret_b: Seq<char>,
)
    requires
        message_a == message_b,
        secret_a == secret_b,
    ensures
        sign_message_outcome(message_a, secret_a) == sign_message_outcome(message_b, secret_b),
{
}

} // verus!
