//! Contract engine, session schedule, swap-coin lifecycle and state-machine
//! scenarios, driven end to end against the real cryptographic primitives.

use coinswap::contract;
use coinswap::crypto;
use coinswap::error::SwapError;
use coinswap::maker::{Maker, MakerAction, MakerEvent, MakerState};
use coinswap::maker::{validate_contract_proposal, validate_funding};
use coinswap::parse::parse_address_amount;
use coinswap::session;
use coinswap::swapcoin::{CoinEvent, CoinPhase, CoinSide, SwapCoin};
use coinswap::taker::{SwapResult, Taker, TakerAction, TakerEvent, TakerState};

fn pk(tag: u8) -> Vec<u8> {
    let mut v = vec![0x02u8];
    v.extend(std::iter::repeat(tag).take(32));
    v
}

fn sha256_abc() -> Vec<u8> {
    vec![
        0xba, 0x78, 0x16, 0xbf, 0x8f, 0x01, 0xcf, 0xea, 0x41, 0x41, 0x40, 0xde, 0x5d, 0xae, 0x22,
        0x23, 0xb0, 0x03, 0x61, 0xa3, 0x96, 0x17, 0x7a, 0x9c, 0xb4, 0x10, 0xff, 0x61, 0xf2, 0x00,
        0x15, 0xad,
    ]
}

fn new_coin(side: CoinSide, privkey: Vec<u8>, other_pubkey: Vec<u8>, amount: u64) -> SwapCoin {
    let hash = crypto::sha256(&b"shared secret preimage".to_vec());
    let script = contract::build_redeem_script(&pk(7), &pk(9), &hash, 20).unwrap();
    SwapCoin {
        side,
        my_pubkey: pk(7),
        other_pubkey,
        my_privkey: privkey,
        other_privkey: None,
        contract_redeemscript: script,
        funding_amount: amount,
        hash_value: hash,
        preimage: None,
        locktime: 20,
        funding_height: None,
        phase: CoinPhase::Created,
    }
}

#[test]
fn sha256_matches_known_vector() {
    let digest = crypto::sha256(&b"abc".to_vec());
    assert_eq!(digest, sha256_abc());
}

#[test]
fn check_preimage_accepts_only_the_real_preimage() {
    let hash = sha256_abc();
    assert!(crypto::check_preimage(&b"abc".to_vec(), &hash));
    assert!(!crypto::check_preimage(&b"abd".to_vec(), &hash));
    assert!(!crypto::check_preimage(&b"".to_vec(), &hash));
}

#[test]
fn derive_pubkey_matches_generator_point() {
    let mut sk = vec![0u8; 32];
    sk[31] = 1;
    let derived = crypto::derive_pubkey(&sk).expect("secret key one is valid");
    let expected = vec![
        0x02, 0x79, 0xbe, 0x66, 0x7e, 0xf9, 0xdc, 0xbb, 0xac, 0x55, 0xa0, 0x62, 0x95, 0xce, 0x87,
        0x0b, 0x07, 0x02, 0x9b, 0xfc, 0xdb, 0x2d, 0xce, 0x28, 0xd9, 0x59, 0xf2, 0x81, 0x5b, 0x16,
        0xf8, 0x17, 0x98,
    ];
    assert_eq!(derived, expected);
    assert!(crypto::derive_pubkey(&vec![0u8; 32]).is_none());
}

#[test]
fn redeem_script_layout_is_exact() {
    let hash = sha256_abc();
    let a = pk(0xaa);
    let b = pk(0xbb);
    let script = contract::build_redeem_script(&a, &b, &hash, 300).unwrap();
    let mut expected = vec![0x63u8, 0xa8, 0x20];
    expected.extend(hash.iter());
    expected.extend([0x88, 0x21]);
    expected.extend(a.iter());
    expected.extend([0x67, 0x02, 0x2c, 0x01, 0xb2, 0x75, 0x21]);
    expected.extend(b.iter());
    expected.extend([0x68, 0xac]);
    assert_eq!(script, expected);
}

#[test]
fn redeem_script_rejects_bad_material() {
    let hash = sha256_abc();
    let bad_prefix = {
        let mut v = pk(1);
        v[0] = 0x04;
        v
    };
    assert_eq!(
        contract::build_redeem_script(&bad_prefix, &pk(2), &hash, 10),
        Err(SwapError::ScriptConstruction)
    );
    assert_eq!(
        contract::build_redeem_script(&pk(1), &vec![0x02; 10], &hash, 10),
        Err(SwapError::ScriptConstruction)
    );
    assert_eq!(
        contract::build_redeem_script(&pk(1), &pk(2), &vec![0u8; 31], 10),
        Err(SwapError::ScriptConstruction)
    );
}

#[test]
fn funding_script_is_p2wsh_of_the_redeem_script() {
    let script = contract::build_redeem_script(&pk(1), &pk(2), &sha256_abc(), 11).unwrap();
    let lock = contract::funding_script_hash(&script);
    let mut expected = vec![0x00u8, 0x20];
    expected.extend(crypto::sha256(&script).iter());
    assert_eq!(lock, expected);
    // The digest is a real SHA-256, not the input handed back.
    assert_ne!(&lock[2..], &script[..32]);
}

#[test]
fn contract_transaction_subtracts_fee_exactly() {
    let funding = contract::FundingOutPoint { txid: vec![3u8; 32], vout: 1 };
    let tx = contract::build_contract_transaction(funding, 500_000, 1_000, vec![0x00, 0x20])
        .unwrap();
    assert_eq!(tx.value, 499_000);

    let short = contract::FundingOutPoint { txid: vec![3u8; 31], vout: 1 };
    assert!(matches!(
        contract::build_contract_transaction(short, 500_000, 1_000, vec![]),
        Err(SwapError::ScriptConstruction)
    ));
    let funding = contract::FundingOutPoint { txid: vec![3u8; 32], vout: 1 };
    assert!(matches!(
        contract::build_contract_transaction(funding, 1_000, 1_000, vec![]),
        Err(SwapError::InsufficientFunds)
    ));
}

#[test]
fn transaction_serialization_is_canonical() {
    let tx = contract::ContractTransaction {
        input: contract::FundingOutPoint { txid: vec![9u8; 32], vout: 0x0102_0304 },
        value: 0x0a0b_0c0d_0e0f_1011,
        locking_script: vec![0xde, 0xad],
    };
    let bytes = contract::serialize_contract_tx(&tx);
    let mut expected = vec![9u8; 32];
    expected.extend([0x04, 0x03, 0x02, 0x01]);
    expected.extend([0x11, 0x10, 0x0f, 0x0e, 0x0d, 0x0c, 0x0b, 0x0a]);
    expected.extend([0xde, 0xad]);
    assert_eq!(bytes, expected);
}

#[test]
fn signatures_round_trip_and_reject_tampering() {
    let mut sk = vec![0u8; 32];
    sk[31] = 1;
    let pubkey = crypto::derive_pubkey(&sk).unwrap();
    let tx = contract::ContractTransaction {
        input: contract::FundingOutPoint { txid: vec![5u8; 32], vout: 0 },
        value: 42_000,
        locking_script: vec![0x00, 0x20],
    };
    let sig = contract::sign_contract_tx(&tx, &sk).unwrap();
    assert_eq!(sig.len(), 64);
    assert!(contract::verify_contract_sig(&tx, &pubkey, &sig));
    let mut bad_sig = sig.clone();
    bad_sig[10] ^= 0xff;
    assert!(!contract::verify_contract_sig(&tx, &pubkey, &bad_sig));
    let other_pk = crypto::derive_pubkey(&vec![7u8; 32]).unwrap();
    assert!(!contract::verify_contract_sig(&tx, &other_pk, &sig));
    assert_eq!(
        contract::sign_contract_tx(&tx, &vec![0u8; 32]),
        Err(SwapError::WalletError)
    );
}

#[test]
fn hop_amounts_follow_the_fee_schedule() {
    let amounts = session::hop_amounts(500_000, &vec![1_000, 1_500]).unwrap();
    assert_eq!(amounts, vec![500_000, 499_000]);
    // The settled amount after every fee is what the taker receives.
    assert_eq!(500_000 - 1_000 - 1_500, 497_500u64);
    assert_eq!(
        session::hop_amounts(2_000, &vec![1_500, 1_000]),
        Err(SwapError::InsufficientFunds)
    );
}

#[test]
fn locktimes_must_strictly_increase_toward_hop_zero() {
    assert!(session::validate_locktimes(&vec![30, 20, 10]));
    assert!(!session::validate_locktimes(&vec![10, 20]));
    assert!(!session::validate_locktimes(&vec![20, 20]));
    let hash = sha256_abc();
    let offers = vec![
        session::MakerOffer { maker_pubkey: pk(1), fee: 1_000, locktime: 10 },
        session::MakerOffer { maker_pubkey: pk(2), fee: 1_500, locktime: 20 },
    ];
    assert_eq!(
        session::new_session(500_000, hash, offers),
        Err(SwapError::ProtocolViolation)
    );
}

#[test]
fn session_shares_one_hash_across_every_hop() {
    let hash = sha256_abc();
    let offers = vec![
        session::MakerOffer { maker_pubkey: pk(1), fee: 1_000, locktime: 20 },
        session::MakerOffer { maker_pubkey: pk(2), fee: 1_500, locktime: 10 },
    ];
    let s = session::new_session(500_000, hash.clone(), offers).unwrap();
    assert_eq!(s.hops.len(), 2);
    assert_eq!(s.hops[0].amount, 500_000);
    assert_eq!(s.hops[1].amount, 499_000);
    for i in 0..2 {
        let script = session::hop_redeem_script(&s, i, &pk(9)).unwrap();
        assert_eq!(&script[3..35], &hash[..]);
    }
}

#[test]
fn session_rejects_excessive_fees_before_funding() {
    let offers = vec![
        session::MakerOffer { maker_pubkey: pk(1), fee: 400_000, locktime: 20 },
        session::MakerOffer { maker_pubkey: pk(2), fee: 200_000, locktime: 10 },
    ];
    assert_eq!(
        session::new_session(500_000, sha256_abc(), offers),
        Err(SwapError::InsufficientFunds)
    );
}

#[test]
fn swapcoin_happy_path_reaches_private_key_received() {
    let other_sk = vec![2u8; 32];
    let other_pk = crypto::derive_pubkey(&other_sk).unwrap();
    let mut coin = new_coin(CoinSide::Incoming, vec![3u8; 32], other_pk, 10_000);
    let lock = contract::funding_script_hash(&coin.contract_redeemscript);
    coin.step(CoinEvent::FundingConfirmed { amount: 10_000, locking_script: lock, height: 100 })
        .unwrap();
    assert_eq!(coin.phase, CoinPhase::Funded);
    assert_eq!(coin.funding_height, Some(100));
    coin.step(CoinEvent::ContractConfirmed).unwrap();
    assert_eq!(coin.phase, CoinPhase::ContractBroadcastConfirmed);
    coin.step(CoinEvent::PreimageReceived { preimage: b"shared secret preimage".to_vec() })
        .unwrap();
    assert_eq!(coin.phase, CoinPhase::PreimageRevealed);
    coin.step(CoinEvent::PrivkeyHandover { privkey: other_sk.clone() }).unwrap();
    assert_eq!(coin.phase, CoinPhase::PrivateKeyReceived);
    assert_eq!(coin.other_privkey, Some(other_sk));
}

#[test]
fn swapcoin_rejects_wrong_guards() {
    let other_sk = vec![2u8; 32];
    let other_pk = crypto::derive_pubkey(&other_sk).unwrap();
    let mut coin = new_coin(CoinSide::Outgoing, vec![3u8; 32], other_pk, 10_000);
    // Funding that pays the wrong amount or the wrong script is refused.
    let lock = contract::funding_script_hash(&coin.contract_redeemscript);
    assert_eq!(
        coin.step(CoinEvent::FundingConfirmed {
            amount: 9_999,
            locking_script: lock.clone(),
            height: 100
        }),
        Err(SwapError::ProtocolViolation)
    );
    assert_eq!(
        coin.step(CoinEvent::FundingConfirmed {
            amount: 10_000,
            locking_script: vec![0u8; 34],
            height: 100
        }),
        Err(SwapError::ProtocolViolation)
    );
    assert_eq!(coin.phase, CoinPhase::Created);
    coin.step(CoinEvent::FundingConfirmed { amount: 10_000, locking_script: lock, height: 100 })
        .unwrap();
    coin.step(CoinEvent::ContractConfirmed).unwrap();
    // A preimage hashing to a different value is refused.
    assert_eq!(
        coin.step(CoinEvent::PreimageReceived { preimage: b"wrong".to_vec() }),
        Err(SwapError::ProtocolViolation)
    );
    assert_eq!(coin.phase, CoinPhase::ContractBroadcastConfirmed);
    // A key that does not derive the counterparty's pubkey is refused.
    coin.step(CoinEvent::PreimageReceived { preimage: b"shared secret preimage".to_vec() })
        .unwrap();
    assert_eq!(
        coin.step(CoinEvent::PrivkeyHandover { privkey: vec![9u8; 32] }),
        Err(SwapError::ProtocolViolation)
    );
    assert_eq!(coin.phase, CoinPhase::PreimageRevealed);
}

#[test]
fn swapcoin_timelock_refund_path() {
    let other_pk = crypto::derive_pubkey(&vec![2u8; 32]).unwrap();
    let mut coin = new_coin(CoinSide::Outgoing, vec![3u8; 32], other_pk, 10_000);
    let lock = contract::funding_script_hash(&coin.contract_redeemscript);
    coin.step(CoinEvent::FundingConfirmed { amount: 10_000, locking_script: lock, height: 100 })
        .unwrap();
    coin.step(CoinEvent::ContractConfirmed).unwrap();
    assert!(!coin.is_timelock_matured(119));
    assert!(coin.is_timelock_matured(120));
    assert_eq!(
        coin.step(CoinEvent::HeightReached { height: 119 }),
        Err(SwapError::TimelockNotYetMatured)
    );
    assert_eq!(coin.phase, CoinPhase::ContractBroadcastConfirmed);
    coin.step(CoinEvent::HeightReached { height: 120 }).unwrap();
    assert_eq!(coin.phase, CoinPhase::TimelockMatured);
    coin.step(CoinEvent::RefundConfirmed).unwrap();
    assert_eq!(coin.phase, CoinPhase::Refunded);
    // Terminal: nothing more is accepted.
    assert_eq!(
        coin.step(CoinEvent::ContractConfirmed),
        Err(SwapError::ProtocolViolation)
    );
}

#[test]
fn scenario_two_makers_complete_successfully() {
    // A 500,000 satoshi swap through two well-behaved makers.
    let hash = crypto::sha256(&b"shared secret preimage".to_vec());
    let offers = vec![
        session::MakerOffer { maker_pubkey: pk(1), fee: 1_000, locktime: 20 },
        session::MakerOffer { maker_pubkey: pk(2), fee: 1_500, locktime: 10 },
    ];
    let s = session::new_session(500_000, hash, offers).unwrap();
    assert_eq!(s.hops[0].amount - s.hops[0].fee - s.hops[1].fee, 497_500);

    let mut taker = Taker::new(2).unwrap();
    assert_eq!(taker.step(TakerEvent::MakersSelected), Ok(TakerAction::SendNegotiation { hop: 0 }));
    assert_eq!(
        taker.step(TakerEvent::NegotiationAccepted),
        Ok(TakerAction::BroadcastFunding { hop: 0 })
    );
    assert_eq!(
        taker.step(TakerEvent::FundingBroadcastOk),
        Ok(TakerAction::AwaitConfirmation { hop: 0 })
    );
    assert_eq!(
        taker.step(TakerEvent::FundingConfirmed),
        Ok(TakerAction::SendNegotiation { hop: 1 })
    );
    assert_eq!(
        taker.step(TakerEvent::NegotiationAccepted),
        Ok(TakerAction::BroadcastFunding { hop: 1 })
    );
    assert_eq!(
        taker.step(TakerEvent::FundingBroadcastOk),
        Ok(TakerAction::AwaitConfirmation { hop: 1 })
    );
    assert_eq!(taker.step(TakerEvent::FundingConfirmed), Ok(TakerAction::RevealPreimage));
    assert_eq!(taker.step(TakerEvent::PreimageAccepted), Ok(TakerAction::ExchangePrivateKeys));
    assert_eq!(taker.step(TakerEvent::KeysExchanged), Ok(TakerAction::ReportOutcome));
    assert_eq!(taker.state, TakerState::Completed);
    assert_eq!(taker.outcome(), Some(SwapResult::Success));

    // Both swap coins reach PrivateKeyReceived.
    for sk_byte in [2u8, 4u8] {
        let other_sk = vec![sk_byte; 32];
        let other_pk = crypto::derive_pubkey(&other_sk).unwrap();
        let mut coin = new_coin(CoinSide::Incoming, vec![3u8; 32], other_pk, 499_000);
        let lock = contract::funding_script_hash(&coin.contract_redeemscript);
        coin.step(CoinEvent::FundingConfirmed {
            amount: 499_000,
            locking_script: lock,
            height: 50,
        })
        .unwrap();
        coin.step(CoinEvent::ContractConfirmed).unwrap();
        coin.step(CoinEvent::PreimageReceived { preimage: b"shared secret preimage".to_vec() })
            .unwrap();
        coin.step(CoinEvent::PrivkeyHandover { privkey: other_sk }).unwrap();
        assert_eq!(coin.phase, CoinPhase::PrivateKeyReceived);
    }
}

#[test]
fn scenario_unresponsive_maker_aborts_and_refunds() {
    // Maker at hop 1 goes silent after hop 0 is funded.
    let mut taker = Taker::new(2).unwrap();
    taker.step(TakerEvent::MakersSelected).unwrap();
    taker.step(TakerEvent::NegotiationAccepted).unwrap();
    taker.step(TakerEvent::FundingBroadcastOk).unwrap();
    taker.step(TakerEvent::FundingConfirmed).unwrap();
    assert_eq!(taker.state, TakerState::NegotiatingHop { hop: 1 });
    assert_eq!(taker.step(TakerEvent::PeerUnresponsive), Ok(TakerAction::RecoverFunds));
    assert_eq!(taker.state, TakerState::Aborting { hop: 1 });
    assert_eq!(taker.step(TakerEvent::RecoveryDone), Ok(TakerAction::RecoverFunds));
    assert_eq!(taker.state, TakerState::Recovering);

    // Hop 0's outgoing coin refunds once its lock-time matures.
    let other_pk = crypto::derive_pubkey(&vec![2u8; 32]).unwrap();
    let mut coin = new_coin(CoinSide::Outgoing, vec![3u8; 32], other_pk, 500_000);
    let lock = contract::funding_script_hash(&coin.contract_redeemscript);
    coin.step(CoinEvent::FundingConfirmed { amount: 500_000, locking_script: lock, height: 80 })
        .unwrap();
    coin.step(CoinEvent::ContractConfirmed).unwrap();
    coin.step(CoinEvent::HeightReached { height: 100 }).unwrap();
    coin.step(CoinEvent::RefundConfirmed).unwrap();
    assert_eq!(coin.phase, CoinPhase::Refunded);

    assert_eq!(taker.step(TakerEvent::RecoveryDone), Ok(TakerAction::ReportOutcome));
    assert_eq!(taker.state, TakerState::Aborted);
    assert_eq!(
        taker.outcome(),
        Some(SwapResult::Aborted { reason: SwapError::NetworkError })
    );
}

#[test]
fn broadcast_failure_aborts_with_its_own_reason() {
    let mut taker = Taker::new(1).unwrap();
    taker.step(TakerEvent::MakersSelected).unwrap();
    taker.step(TakerEvent::NegotiationAccepted).unwrap();
    assert_eq!(taker.step(TakerEvent::FundingBroadcastFailed), Ok(TakerAction::RecoverFunds));
    assert_eq!(taker.state, TakerState::Aborting { hop: 0 });
    assert_eq!(taker.outcome(), None);
    taker.step(TakerEvent::RecoveryDone).unwrap();
    taker.step(TakerEvent::RecoveryDone).unwrap();
    assert_eq!(
        taker.outcome(),
        Some(SwapResult::Aborted { reason: SwapError::BroadcastFailure })
    );
}

#[test]
fn scenario_mismatched_pubkey_is_a_protocol_violation() {
    // A maker returns a redeem script built from the wrong public key.
    let hash = sha256_abc();
    let honest = contract::build_redeem_script(&pk(1), &pk(9), &hash, 20).unwrap();
    let forged = contract::build_redeem_script(&pk(2), &pk(9), &hash, 20).unwrap();
    assert_eq!(validate_contract_proposal(&honest, &pk(1), &pk(9), &hash, 20), Ok(()));
    assert_eq!(
        validate_contract_proposal(&forged, &pk(1), &pk(9), &hash, 20),
        Err(SwapError::ProtocolViolation)
    );

    // The session aborts at negotiation: nothing is funded, nothing locked.
    let mut taker = Taker::new(2).unwrap();
    taker.step(TakerEvent::MakersSelected).unwrap();
    assert_eq!(taker.step(TakerEvent::NegotiationInvalid), Ok(TakerAction::RecoverFunds));
    assert_eq!(taker.state, TakerState::Aborting { hop: 0 });
    taker.step(TakerEvent::RecoveryDone).unwrap();
    taker.step(TakerEvent::RecoveryDone).unwrap();
    assert_eq!(
        taker.outcome(),
        Some(SwapResult::Aborted { reason: SwapError::ProtocolViolation })
    );
}

#[test]
fn maker_validates_funding_before_acknowledging() {
    let script = contract::build_redeem_script(&pk(1), &pk(2), &sha256_abc(), 15).unwrap();
    let lock = contract::funding_script_hash(&script);
    let good = contract::ContractTransaction {
        input: contract::FundingOutPoint { txid: vec![1u8; 32], vout: 0 },
        value: 99_000,
        locking_script: lock,
    };
    assert_eq!(validate_funding(&good, &script, 100_000, 1_000), Ok(()));
    // Fee divergence is a hard violation, not silently reconciled.
    assert_eq!(
        validate_funding(&good, &script, 100_000, 2_000),
        Err(SwapError::ProtocolViolation)
    );
    let wrong_script = contract::ContractTransaction {
        input: contract::FundingOutPoint { txid: vec![1u8; 32], vout: 0 },
        value: 99_000,
        locking_script: vec![0u8; 34],
    };
    assert_eq!(
        validate_funding(&wrong_script, &script, 100_000, 1_000),
        Err(SwapError::ProtocolViolation)
    );
}

#[test]
fn maker_machine_mirrors_the_hop() {
    let mut maker = Maker::new();
    assert_eq!(maker.step(MakerEvent::ProposalVerified), Ok(MakerAction::SendAcceptance));
    assert_eq!(maker.step(MakerEvent::FundingVerified), Ok(MakerAction::AcknowledgeFunding));
    assert_eq!(maker.step(MakerEvent::PreimageVerified), Ok(MakerAction::ClaimAndForward));
    assert_eq!(maker.step(MakerEvent::ClaimConfirmed), Ok(MakerAction::HandOverPrivateKey));
    assert_eq!(maker.state, MakerState::Claimed);

    // Without a verified preimage the only way out of Funded is the refund.
    let mut maker = Maker::new();
    maker.step(MakerEvent::ProposalVerified).unwrap();
    maker.step(MakerEvent::FundingVerified).unwrap();
    assert_eq!(
        maker.step(MakerEvent::ClaimConfirmed),
        Err(SwapError::ProtocolViolation)
    );
    assert_eq!(maker.step(MakerEvent::TimelockMatured), Ok(MakerAction::BroadcastRefund));
    assert_eq!(maker.step(MakerEvent::RefundConfirmed), Ok(MakerAction::ReportOutcome));
    assert_eq!(maker.state, MakerState::Refunded);
}

#[test]
fn taker_rejects_events_that_skip_a_hop() {
    let mut taker = Taker::new(2).unwrap();
    assert_eq!(
        taker.step(TakerEvent::FundingConfirmed),
        Err(SwapError::ProtocolViolation)
    );
    assert_eq!(taker.state, TakerState::SelectingMakers);
    assert!(Taker::new(0).is_err());
}

#[test]
fn parse_address_amount_splits_and_reads_satoshis() {
    let parsed = parse_address_amount(&b"bcrt1qexample:0.001 BTC".to_vec());
    let (address, sats) = parsed.expect("well-formed address:amount");
    assert_eq!(address, b"bcrt1qexample".to_vec());
    assert_eq!(sats, 100_000);
    assert!(parse_address_amount(&b"no separator".to_vec()).is_none());
    assert!(parse_address_amount(&b"a:b:c".to_vec()).is_none());
    assert!(parse_address_amount(&b"addr:not an amount".to_vec()).is_none());
}

#[test]
fn swapcoin_signs_and_verifies_with_its_own_keys() {
    let my_sk = vec![3u8; 32];
    let other_sk = vec![2u8; 32];
    let my_pk = crypto::derive_pubkey(&my_sk).unwrap();
    let other_pk = crypto::derive_pubkey(&other_sk).unwrap();
    let coin = new_coin(CoinSide::Outgoing, my_sk.clone(), other_pk.clone(), 10_000);
    assert_eq!(coin.spending_script(), coin.contract_redeemscript);

    let tx = contract::ContractTransaction {
        input: contract::FundingOutPoint { txid: vec![8u8; 32], vout: 2 },
        value: 9_000,
        locking_script: contract::funding_script_hash(&coin.contract_redeemscript),
    };
    let my_sig = coin.sign(&tx).unwrap();
    // Our own signature is checked under our key, not the counterparty's.
    assert!(!coin.verify(&tx, &my_sig));
    let their_sig = contract::sign_contract_tx(&tx, &other_sk).unwrap();
    assert!(coin.verify(&tx, &their_sig));
    assert!(contract::verify_contract_sig(&tx, &my_pk, &my_sig));
}

#[test]
fn new_swap_coin_rejects_malformed_material() {
    let hash = sha256_abc();
    let script = contract::build_redeem_script(&pk(7), &pk(9), &hash, 20).unwrap();
    let coin = coinswap::swapcoin::new_swap_coin(
        CoinSide::Incoming,
        pk(7),
        pk(9),
        vec![3u8; 32],
        script.clone(),
        10_000,
        hash.clone(),
        20,
    )
    .unwrap();
    assert_eq!(coin.phase, CoinPhase::Created);
    assert_eq!(coin.funding_height, None);
    // A truncated counterparty key is refused before anything is funded.
    assert_eq!(
        coinswap::swapcoin::new_swap_coin(
            CoinSide::Incoming,
            pk(7),
            vec![0x02; 20],
            vec![3u8; 32],
            script,
            10_000,
            hash,
            20,
        ),
        Err(SwapError::ProtocolViolation)
    );
}
