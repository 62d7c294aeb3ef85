use ledger_kit::encoding::{base58_decode, base58_encode, base64_decode, base64_encode};
use ledger_kit::instruction::{build_mint_initialize, build_mint_to, build_sol_transfer};
use ledger_kit::keypair::Keypair;
use ledger_kit::pubkey::PublicKey;
use ledger_kit::error::LedgerError;
use ledger_kit::service::{
    account_response, create_request, create_token, error_response, generate_keypair,
    instruction_response, keypair_response, mint_request, mint_token, sign_message,
    sign_request, transfer_request, transfer_sol, verify_message, verify_request,
    AccountMetaData, SignMessageRequest, SolTransferRequest, TokenCreateRequest,
    TokenInstructionData, TokenInstructionResponse, TokenMintRequest, VerifyMessageData,
    VerifyMessageRequest,
};
use ledger_kit::signing::sign;
use solana_sdk::signer::Signer;

const TOKEN_PROGRAM: &str = "TokenkegQfeZyiNwAJbNbGKPFXCWuBvf9Ss623VQ5DA";
const RENT_SYSVAR: &str = "SysvarRent111111111111111111111111111111111";
const SYSTEM_PROGRAM: &str = "11111111111111111111111111111111";

fn address(fill: u8) -> String {
    PublicKey { bytes: [fill; 32] }.encode()
}

fn entry(pubkey: &str, is_signer: bool, is_writable: bool) -> AccountMetaData {
    AccountMetaData { pubkey: pubkey.to_string(), is_signer, is_writable }
}

fn failure(message: &str) -> TokenInstructionResponse {
    TokenInstructionResponse { success: false, data: None, error: Some(message.to_string()) }
}

fn payload(response: TokenInstructionResponse) -> TokenInstructionData {
    assert!(response.success);
    assert_eq!(response.error, None);
    response.data.unwrap()
}

fn signing_request(message: &str, secret: &str) -> SignMessageRequest {
    SignMessageRequest { message: message.to_string(), secret: secret.to_string() }
}

fn check_request(message: &str, signature: &str, pubkey: &str) -> VerifyMessageRequest {
    VerifyMessageRequest {
        message: message.to_string(),
        signature: signature.to_string(),
        pubkey: pubkey.to_string(),
    }
}

#[test]
fn error_response_holds_the_message_as_error_and_no_data() {
    let response = error_response("Invalid mint pubkey");
    assert!(!response.success);
    assert_eq!(response.data, None);
    assert_eq!(response.error.as_deref(), Some("Invalid mint pubkey"));
    assert_eq!(error_response(""), failure(""));
    assert_eq!(error_response("").error, Some(String::new()));
}

#[test]
fn mint_text_of_31_bytes_gives_a_failure_without_instruction() {
    let request = TokenMintRequest {
        mint: "1".repeat(31),
        destination: "1".repeat(32),
        authority: "1".repeat(32),
        amount: 1,
    };
    assert_eq!(mint_request(&request), Err(LedgerError::InvalidLength));
    let response = mint_token(&request);
    assert!(!response.success);
    assert_eq!(response.data, None);
    assert_eq!(response.error.as_deref(), Some("Invalid mint pubkey"));
}

#[test]
fn typed_instruction_requests_give_the_kind_of_the_first_failure() {
    let good = address(9);
    let create = |mint: &str, authority: &str| {
        create_request(&TokenCreateRequest {
            mintAuthority: authority.to_string(),
            mint: mint.to_string(),
            decimals: 2,
        })
    };
    assert_eq!(create("0", &good), Err(LedgerError::InvalidEncoding));
    assert_eq!(create("2g", &good), Err(LedgerError::InvalidLength));
    assert_eq!(create(&good, "0"), Err(LedgerError::InvalidEncoding));
    assert_eq!(create(&good, "2g"), Err(LedgerError::InvalidLength));
    assert_eq!(create("2g", "0"), Err(LedgerError::InvalidLength));
    assert_eq!(
        create(&good, &good),
        Ok(build_mint_initialize(&PublicKey { bytes: [9; 32] }, &PublicKey { bytes: [9; 32] }, 2, None))
    );

    let mint = |mint: &str, destination: &str, authority: &str| {
        mint_request(&TokenMintRequest {
            mint: mint.to_string(),
            destination: destination.to_string(),
            authority: authority.to_string(),
            amount: 5,
        })
    };
    assert_eq!(mint("0", "2g", "2g"), Err(LedgerError::InvalidEncoding));
    assert_eq!(mint(&good, "2g", "0"), Err(LedgerError::InvalidLength));
    assert_eq!(mint(&good, &good, "0"), Err(LedgerError::InvalidEncoding));
    assert_eq!(
        mint(&address(1), &address(2), &address(3)),
        Ok(build_mint_to(
            &PublicKey { bytes: [1; 32] },
            &PublicKey { bytes: [2; 32] },
            &PublicKey { bytes: [3; 32] },
            5
        ))
    );

    let transfer = |from: &str, to: &str| {
        transfer_request(&SolTransferRequest {
            from: from.to_string(),
            to: to.to_string(),
            lamports: 5,
        })
    };
    assert_eq!(transfer("0", "2g"), Err(LedgerError::InvalidEncoding));
    assert_eq!(transfer(&good, "2g"), Err(LedgerError::InvalidLength));
    assert_eq!(
        transfer(&address(7), &address(8)),
        Ok(build_sol_transfer(&PublicKey { bytes: [7; 32] }, &PublicKey { bytes: [8; 32] }, 5))
    );
}

#[test]
fn answers_carry_the_key_texts_of_the_request() {
    let response = payload(mint_token(&TokenMintRequest {
        mint: TOKEN_PROGRAM.to_string(),
        destination: RENT_SYSVAR.to_string(),
        authority: SYSTEM_PROGRAM.to_string(),
        amount: 1,
    }));
    let texts: Vec<&str> = response.accounts.iter().map(|a| a.pubkey.as_str()).collect();
    assert_eq!(texts, vec![TOKEN_PROGRAM, RENT_SYSVAR, SYSTEM_PROGRAM]);
}

#[test]
fn keypair_response_encodes_the_pair() {
    let mut secret = [0u8; 64];
    for (i, b) in secret.iter_mut().enumerate() {
        *b = i as u8 + 1;
    }
    let keypair = Keypair::from_secret(&secret).unwrap();
    let response = keypair_response(&keypair);
    assert!(response.success);
    assert_eq!(base58_decode(&response.data.secret), Ok(secret.to_vec()));
    assert_eq!(base58_decode(&response.data.pubkey), Ok(secret[32..].to_vec()));
    assert!(response.data.secret.len() >= 64);
}

#[test]
fn signature_text_has_88_characters_and_two_padding_signs() {
    let secret = generate_keypair().data.secret;
    let data = sign_request(&signing_request("test", &secret)).unwrap();
    assert_eq!(data.signature.len(), 88);
    assert!(data.signature.ends_with("=="));
    assert!(!data.signature.ends_with("==="));
    let bytes = base64_decode(&data.signature).unwrap();
    assert_eq!(bytes.len(), 64);
    assert_eq!(base64_encode(&bytes), data.signature);
}

#[test]
fn instruction_response_encodes_keys_and_payload() {
    let ix = build_mint_to(
        &PublicKey { bytes: [1; 32] },
        &PublicKey { bytes: [2; 32] },
        &PublicKey { bytes: [3; 32] },
        42,
    );
    let response = payload(instruction_response(&ix));
    assert_eq!(response.program_id, TOKEN_PROGRAM);
    assert_eq!(
        response.accounts,
        vec![
            entry(&address(1), false, true),
            entry(&address(2), false, true),
            entry(&address(3), true, false),
        ]
    );
    assert_eq!(response.instruction_data, base64_encode(&[7, 42, 0, 0, 0, 0, 0, 0, 0]));
    assert_eq!(response.instruction_data, "ByoAAAAAAAAA");
    assert_eq!(account_response(&ix.accounts[2]), entry(&address(3), true, false));
}

#[test]
fn create_token_builds_initialize_mint() {
    let response = payload(create_token(&TokenCreateRequest {
        mintAuthority: address(20),
        mint: address(10),
        decimals: 6,
    }));
    assert_eq!(response.program_id, TOKEN_PROGRAM);
    assert_eq!(
        response.accounts,
        vec![entry(&address(10), false, true), entry(RENT_SYSVAR, false, false)]
    );
    let mut data = vec![0u8, 6];
    data.extend_from_slice(&[20u8; 32]);
    data.push(0);
    assert_eq!(base64_decode(&response.instruction_data), Ok(data));
}

#[test]
fn create_token_reports_the_first_key_that_does_not_parse() {
    let bad_mint = TokenCreateRequest { mintAuthority: address(20), mint: "x".into(), decimals: 6 };
    assert_eq!(create_token(&bad_mint), failure("Invalid mint pubkey"));
    let bad_authority =
        TokenCreateRequest { mintAuthority: "0OIl".into(), mint: address(10), decimals: 6 };
    assert_eq!(create_token(&bad_authority), failure("Invalid mint authority pubkey"));
    let both = TokenCreateRequest { mintAuthority: "".into(), mint: "".into(), decimals: 6 };
    assert_eq!(create_token(&both), failure("Invalid mint pubkey"));
    let short =
        TokenCreateRequest { mintAuthority: address(20), mint: "1".repeat(31), decimals: 6 };
    assert_eq!(create_token(&short), failure("Invalid mint pubkey"));
}

#[test]
fn mint_token_builds_mint_to() {
    let response = payload(mint_token(&TokenMintRequest {
        mint: address(1),
        destination: address(2),
        authority: address(3),
        amount: 1_000_000,
    }));
    assert_eq!(response.program_id, TOKEN_PROGRAM);
    assert_eq!(
        response.accounts,
        vec![
            entry(&address(1), false, true),
            entry(&address(2), false, true),
            entry(&address(3), true, false),
        ]
    );
    assert_eq!(
        base64_decode(&response.instruction_data),
        Ok(vec![7, 0x40, 0x42, 0x0f, 0, 0, 0, 0, 0])
    );
}

#[test]
fn mint_token_reports_the_first_key_that_does_not_parse() {
    let request = |mint: &str, destination: &str, authority: &str| TokenMintRequest {
        mint: mint.to_string(),
        destination: destination.to_string(),
        authority: authority.to_string(),
        amount: 1,
    };
    let good = address(9);
    assert_eq!(mint_token(&request("?", &good, &good)), failure("Invalid mint pubkey"));
    assert_eq!(mint_token(&request(&good, "?", &good)), failure("Invalid destination pubkey"));
    assert_eq!(mint_token(&request(&good, &good, "?")), failure("Invalid authority pubkey"));
    assert_eq!(mint_token(&request("?", "?", "?")), failure("Invalid mint pubkey"));
    assert_eq!(mint_token(&request(&good, "?", "?")), failure("Invalid destination pubkey"));
}

#[test]
fn transfer_sol_builds_a_native_transfer() {
    let response = payload(transfer_sol(&SolTransferRequest {
        from: address(7),
        to: address(8),
        lamports: u64::MAX,
    }));
    assert_eq!(response.program_id, SYSTEM_PROGRAM);
    assert_eq!(
        response.accounts,
        vec![entry(&address(7), true, true), entry(&address(8), false, true)]
    );
    assert_eq!(
        base64_decode(&response.instruction_data),
        Ok(build_sol_transfer(&PublicKey { bytes: [7; 32] }, &PublicKey { bytes: [8; 32] }, u64::MAX)
            .data)
    );
    assert_eq!(response.instruction_data, "Av//////////");
}

#[test]
fn transfer_sol_reports_the_first_key_that_does_not_parse() {
    let request = |from: &str, to: &str| SolTransferRequest {
        from: from.to_string(),
        to: to.to_string(),
        lamports: 1,
    };
    assert_eq!(transfer_sol(&request("?", &address(8))), failure("Invalid sender pubkey"));
    assert_eq!(transfer_sol(&request(&address(7), "?")), failure("Invalid recipient pubkey"));
    assert_eq!(transfer_sol(&request("?", "?")), failure("Invalid sender pubkey"));
}

#[test]
fn generate_keypair_gives_a_pair_in_base58() {
    let response = generate_keypair();
    assert!(response.success);
    let secret = base58_decode(&response.data.secret).unwrap();
    assert_eq!(secret.len(), 64);
    let pubkey = PublicKey::decode(&response.data.pubkey).unwrap();
    assert_eq!(pubkey.to_bytes().to_vec(), secret[32..].to_vec());
    assert!(Keypair::from_secret_verified(&secret).is_ok());
    assert_ne!(generate_keypair().data.secret, response.data.secret);
}

#[test]
fn sign_message_signs_the_bytes_of_the_text() {
    let keypair = Keypair::generate();
    let secret = base58_encode(&keypair.secret_bytes());
    let response = sign_message(&signing_request("Hello, ledger!", &secret));
    assert!(response.success);
    assert_eq!(response.error, None);
    let data = response.data.unwrap();
    assert_eq!(data.message, "Hello, ledger!");
    assert_eq!(data.public_key, keypair.public_key().encode());
    assert_eq!(data.signature, sign(&keypair, b"Hello, ledger!").unwrap().encode());
    assert_eq!(base64_decode(&data.signature).unwrap().len(), 64);
}

#[test]
fn sign_message_reports_each_failure() {
    let secret = base58_encode(&Keypair::generate().secret_bytes());
    let failed = |message: &str, secret: &str| {
        let response = sign_message(&signing_request(message, secret));
        assert!(!response.success);
        assert_eq!(response.data, None);
        response.error.unwrap()
    };
    assert_eq!(failed("", &secret), "Missing required fields");
    assert_eq!(failed("hi", ""), "Missing required fields");
    assert_eq!(failed("", ""), "Missing required fields");
    assert_eq!(failed("hi", "not base58!"), "Invalid secret key format");
    assert_eq!(failed("hi", &base58_encode(&[1u8; 63])), "Invalid secret key length");
    assert_eq!(failed("hi", &base58_encode(&[1u8; 65])), "Invalid secret key length");
    assert_eq!(failed("hi", &base58_encode(&[1u8; 32])), "Invalid secret key length");
}

#[test]
fn sign_message_takes_the_embedded_public_key_as_given() {
    // A seed and a valid public key that is not the seed's.
    let seed_owner = Keypair::generate();
    let other = Keypair::generate();
    let mut material = seed_owner.secret_bytes();
    material[32..].copy_from_slice(&other.public_key().to_bytes());
    let secret = base58_encode(&material);

    let response = sign_message(&signing_request("Hello, ledger!", &secret));
    assert!(response.success);
    assert_eq!(response.error, None);
    let data = response.data.unwrap();
    assert_eq!(data.public_key, other.public_key().encode());
    assert_eq!(data.message, "Hello, ledger!");
    assert_eq!(data.signature, sign(&seed_owner, b"Hello, ledger!").unwrap().encode());

    // 64 bytes that are no key material at all are signed with as well.
    let data = sign_message(&signing_request("hi", &base58_encode(&[1u8; 64]))).data.unwrap();
    assert_eq!(data.public_key, base58_encode(&[1u8; 32]));
    let checked = verify_request(&check_request("hi", &data.signature, &data.public_key));
    assert!(!checked.unwrap().valid);
}

#[test]
fn verify_message_accepts_what_sign_message_made() {
    let keypair = generate_keypair();
    let signed = sign_message(&signing_request("test", &keypair.data.secret)).data.unwrap();
    assert_eq!(signed.public_key, keypair.data.pubkey);

    let response = verify_message(&check_request("test", &signed.signature, &signed.public_key));
    assert!(response.success);
    assert_eq!(response.error, None);
    let data = response.data.unwrap();
    assert!(data.valid);
    assert_eq!(data.message, "test");
    assert_eq!(data.pubkey, keypair.data.pubkey);

    let stranger = generate_keypair();
    let response = verify_message(&check_request("test", &signed.signature, &stranger.data.pubkey));
    assert!(response.success);
    let data = response.data.unwrap();
    assert!(!data.valid);
    assert_eq!(data.pubkey, stranger.data.pubkey);
}

#[test]
fn verify_message_answers_false_on_any_mismatch() {
    let keypair = generate_keypair();
    let signed = sign_message(&signing_request("test", &keypair.data.secret)).data.unwrap();
    let valid = |message: &str, signature: &str| {
        let response = verify_message(&check_request(message, signature, &keypair.data.pubkey));
        assert!(response.success);
        response.data.unwrap().valid
    };
    assert!(valid("test", &signed.signature));
    assert!(!valid("Test", &signed.signature));
    assert!(!valid("test ", &signed.signature));
    // A well-formed text that does not stand for 64 bytes.
    assert!(!valid("test", "Zm9v"));
    assert!(!valid("test", &base64_encode(&[0u8; 64])));
    assert!(!valid("test", &base64_encode(&[0u8; 65])));
}

#[test]
fn verify_message_reports_what_it_cannot_check() {
    let keypair = generate_keypair();
    let signed = sign_message(&signing_request("test", &keypair.data.secret)).data.unwrap();
    let failed = |message: &str, signature: &str, pubkey: &str| {
        let response = verify_message(&check_request(message, signature, pubkey));
        assert!(!response.success);
        assert_eq!(response.data, None);
        response.error.unwrap()
    };
    let pubkey = keypair.data.pubkey.as_str();
    assert_eq!(failed("", &signed.signature, pubkey), "Missing required fields");
    assert_eq!(failed("test", "", pubkey), "Missing required fields");
    assert_eq!(failed("test", &signed.signature, ""), "Missing required fields");
    assert_eq!(failed("test", &signed.signature, "?"), "Invalid encoding");
    assert_eq!(failed("test", &signed.signature, &"1".repeat(31)), "Invalid length");
    assert_eq!(failed("test", "not base64!", pubkey), "Invalid encoding");
    assert_eq!(failed("test", "not base64!", &"1".repeat(33)), "Invalid length");
}

#[test]
fn sign_request_fails_with_the_kind_of_each_failure() {
    let secret = base58_encode(&Keypair::generate().secret_bytes());
    let kind = |message: &str, secret: &str| sign_request(&signing_request(message, secret)).err();
    assert_eq!(kind("", &secret), Some(LedgerError::MissingField));
    assert_eq!(kind("hi", ""), Some(LedgerError::MissingField));
    assert_eq!(kind("", "not base58!"), Some(LedgerError::MissingField));
    assert_eq!(kind("hi", "not base58!"), Some(LedgerError::InvalidEncoding));
    assert_eq!(kind("hi", &base58_encode(&[1u8; 63])), Some(LedgerError::InvalidLength));
    assert_eq!(kind("hi", &base58_encode(&[1u8; 65])), Some(LedgerError::InvalidLength));
    assert_eq!(kind("hi", &base58_encode(&[1u8; 64])), None);
    assert_eq!(kind("hi", &secret), None);
}

#[test]
fn verify_request_fails_with_the_kind_of_each_failure() {
    let keypair = generate_keypair();
    let signed = sign_request(&signing_request("test", &keypair.data.secret)).unwrap();
    let pubkey = keypair.data.pubkey.as_str();
    let kind = |message: &str, signature: &str, pubkey: &str| {
        verify_request(&check_request(message, signature, pubkey)).err()
    };
    assert_eq!(kind("", &signed.signature, pubkey), Some(LedgerError::MissingField));
    assert_eq!(kind("test", "", pubkey), Some(LedgerError::MissingField));
    assert_eq!(kind("test", &signed.signature, ""), Some(LedgerError::MissingField));
    assert_eq!(kind("test", &signed.signature, "0"), Some(LedgerError::InvalidEncoding));
    assert_eq!(kind("test", &signed.signature, "2g"), Some(LedgerError::InvalidLength));
    assert_eq!(kind("test", "Zg=", pubkey), Some(LedgerError::InvalidEncoding));
    assert_eq!(kind("test", "Zg=", "0"), Some(LedgerError::InvalidEncoding));
    assert_eq!(kind("test", "Zg==", pubkey), None);
    assert_eq!(
        verify_request(&check_request("test", &signed.signature, pubkey)),
        Ok(VerifyMessageData { valid: true, message: "test".into(), pubkey: pubkey.into() })
    );
    assert_eq!(
        verify_request(&check_request("test", "Zg==", pubkey)),
        Ok(VerifyMessageData { valid: false, message: "test".into(), pubkey: pubkey.into() })
    );
}

#[test]
fn sign_request_signs_non_ascii_text_as_utf8() {
    let keypair = Keypair::generate();
    let secret = base58_encode(&keypair.secret_bytes());
    let message = "gr\u{fc}\u{df} \u{1F600}";
    let data = sign_request(&signing_request(message, &secret)).unwrap();
    assert_eq!(data.message, message);
    assert_eq!(data.signature, sign(&keypair, message.as_bytes()).unwrap().encode());
    let checked = verify_request(&check_request(message, &data.signature, &data.public_key));
    assert!(checked.unwrap().valid);
}

#[test]
fn end_to_end() {
    let keypair = Keypair::generate();
    let signature = sign(&keypair, b"test").unwrap();
    assert!(ledger_kit::signing::verify(&keypair.public_key(), b"test", &signature.to_bytes()));
    let unrelated = Keypair::generate();
    assert!(!ledger_kit::signing::verify(&unrelated.public_key(), b"test", &signature.to_bytes()));
}

#[test]
#[allow(deprecated)]
fn create_token_agrees_with_the_token_program_crate() {
    let mint = solana_sdk::pubkey::Pubkey::new_from_array([10; 32]);
    let authority = solana_sdk::pubkey::Pubkey::new_from_array([20; 32]);
    let want =
        spl_token::instruction::initialize_mint(&spl_token::id(), &mint, &authority, None, 9)
            .unwrap();
    let response = payload(create_token(&TokenCreateRequest {
        mintAuthority: authority.to_string(),
        mint: mint.to_string(),
        decimals: 9,
    }));
    assert_eq!(response.program_id, want.program_id.to_string());
    assert_eq!(
        response.accounts,
        want.accounts
            .iter()
            .map(|meta| entry(&meta.pubkey.to_string(), meta.is_signer, meta.is_writable))
            .collect::<Vec<_>>()
    );
    assert_eq!(response.instruction_data, base64::encode(&want.data));
}

#[test]
#[allow(deprecated)]
fn mint_token_agrees_with_the_token_program_crate() {
    let mint = solana_sdk::pubkey::Pubkey::new_from_array([1; 32]);
    let destination = solana_sdk::pubkey::Pubkey::new_from_array([2; 32]);
    let authority = solana_sdk::pubkey::Pubkey::new_from_array([3; 32]);
    let want = spl_token::instruction::mint_to(
        &spl_token::id(),
        &mint,
        &destination,
        &authority,
        &[],
        u64::MAX - 1,
    )
    .unwrap();
    let response = payload(mint_token(&TokenMintRequest {
        mint: mint.to_string(),
        destination: destination.to_string(),
        authority: authority.to_string(),
        amount: u64::MAX - 1,
    }));
    assert_eq!(response.program_id, want.program_id.to_string());
    assert_eq!(
        response.accounts,
        want.accounts
            .iter()
            .map(|meta| entry(&meta.pubkey.to_string(), meta.is_signer, meta.is_writable))
            .collect::<Vec<_>>()
    );
    assert_eq!(response.instruction_data, base64::encode(&want.data));
}

#[test]
#[allow(deprecated)]
fn sign_message_agrees_with_the_ledger_sdk() {
    let theirs = solana_sdk::signature::Keypair::new();
    let secret = solana_sdk::bs58::encode(theirs.to_bytes()).into_string();
    let data = sign_message(&signing_request("Hello, ledger!", &secret)).data.unwrap();
    assert_eq!(data.signature, base64::encode(theirs.sign_message(b"Hello, ledger!").as_ref()));
    assert_eq!(data.public_key, theirs.pubkey().to_string());
    assert_eq!(data.message, "Hello, ledger!");
}
