use zcash_address::{ToAddress, ZcashAddress};
use zcash_protocol::consensus::NetworkType;
use zwallet::send::{
    format_txid, prepare_transfer, proposal_txid, send_outcome, PaymentRejection, SendError,
    MAX_MONEY,
};

fn transparent_address() -> String {
    ZcashAddress::from_transparent_p2pkh(NetworkType::Main, [7u8; 20]).encode()
}

fn sapling_address() -> String {
    ZcashAddress::from_sapling(NetworkType::Main, [3u8; 43]).encode()
}

#[test]
fn zero_note_count_is_refused_first() {
    let r = prepare_transfer(Some(0), Some(u64::MAX), "junk", u64::MAX, None);
    assert!(matches!(r, Err(SendError::ZeroTargetNoteCount)));
}

#[test]
fn split_value_beyond_money_range_is_refused() {
    let r = prepare_transfer(None, Some(MAX_MONEY + 1), "junk", 1, None);
    assert!(matches!(r, Err(SendError::InvalidSplitOutputValue(_))));
}

#[test]
fn non_address_recipient_is_refused() {
    let r = prepare_transfer(None, None, "not an address", 1, None);
    assert!(matches!(r, Err(SendError::InvalidRecipient)));
}

#[test]
fn amount_beyond_money_range_is_refused() {
    let r = prepare_transfer(None, None, &sapling_address(), MAX_MONEY + 1, None);
    assert!(matches!(r, Err(SendError::InvalidAmount)));
}

#[test]
fn memo_longer_than_512_bytes_is_refused() {
    let long = "é".repeat(257); // 514 bytes in UTF-8
    let r = prepare_transfer(None, None, &sapling_address(), 1000, Some(long));
    assert!(matches!(r, Err(SendError::InvalidMemo)));
    let fits = "a".repeat(512);
    assert!(prepare_transfer(None, None, &sapling_address(), 1000, Some(fits)).is_ok());
}

#[test]
fn memo_to_transparent_recipient_is_rejected() {
    let r = prepare_transfer(None, None, &transparent_address(), 1000, Some("hi".to_owned()));
    assert!(matches!(r, Err(SendError::PaymentRejected(PaymentRejection::TransparentMemo))));
}

#[test]
fn zero_value_to_transparent_recipient_is_rejected() {
    let r = prepare_transfer(None, None, &transparent_address(), 0, None);
    assert!(matches!(
        r,
        Err(SendError::PaymentRejected(PaymentRejection::ZeroValuedTransparentOutput))
    ));
}

#[test]
fn defaults_fill_the_change_split() {
    let t = prepare_transfer(None, None, &transparent_address(), 5000, None).unwrap();
    assert_eq!(t.target_note_count, 4);
    assert_eq!(t.min_split_output_value, 10_000_000);
    assert_eq!(t.recipient, transparent_address());
    assert_eq!(t.value, 5000);
    assert_eq!(t.memo, None);
    assert_eq!(t.request.payments().len(), 1);
    let p = t.request.payments().values().next().unwrap();
    assert_eq!(p.amount().map(|z| z.into_u64()), Some(5000));
    assert_eq!(p.recipient_address().encode(), transparent_address());
    assert!(p.memo().is_none());
}

#[test]
fn explicit_defaults_prepare_the_same_transfer() {
    let a = prepare_transfer(None, None, &sapling_address(), 777, Some("m".to_owned())).unwrap();
    let b = prepare_transfer(Some(4), Some(10_000_000), &sapling_address(), 777, Some("m".to_owned())).unwrap();
    assert_eq!(a.target_note_count, b.target_note_count);
    assert_eq!(a.min_split_output_value, b.min_split_output_value);
    assert_eq!(a.request, b.request);
    let e1 = prepare_transfer(None, None, &transparent_address(), 0, None);
    let e2 = prepare_transfer(Some(4), Some(10_000_000), &transparent_address(), 0, None);
    assert!(matches!(e1, Err(SendError::PaymentRejected(PaymentRejection::ZeroValuedTransparentOutput))));
    assert!(matches!(e2, Err(SendError::PaymentRejected(PaymentRejection::ZeroValuedTransparentOutput))));
}

#[test]
fn payment_carries_amount_recipient_and_memo_field() {
    let t = prepare_transfer(Some(2), Some(1), &sapling_address(), 4242, Some("hi".to_owned())).unwrap();
    assert_eq!(t.recipient, sapling_address());
    assert_eq!(t.value, 4242);
    assert_eq!(t.memo.as_deref(), Some("hi"));
    let p = t.request.payments().values().next().unwrap();
    assert_eq!(p.amount().map(|z| z.into_u64()), Some(4242));
    assert_eq!(p.recipient_address().encode(), sapling_address());
    let bytes = p.memo().unwrap().as_array().to_vec();
    assert_eq!(bytes.len(), 512);
    assert_eq!(&bytes[..2], b"hi");
    assert!(bytes[2..].iter().all(|b| *b == 0));
    let empty = prepare_transfer(None, None, &sapling_address(), 1, Some(String::new())).unwrap();
    let e = empty.request.payments().values().next().unwrap().memo().unwrap().as_array().to_vec();
    assert_eq!(e[0], 0xF6);
    assert!(e[1..].iter().all(|b| *b == 0));
}

#[test]
fn sprout_recipient_is_rejected() {
    let sprout = ZcashAddress::from_sprout(NetworkType::Main, [1u8; 64]).encode();
    let r = prepare_transfer(None, None, &sprout, 1000, None);
    assert!(matches!(r, Err(SendError::PaymentRejected(PaymentRejection::SproutAddress))));
}

#[test]
fn given_split_settings_are_kept() {
    let t = prepare_transfer(Some(9), Some(MAX_MONEY), &sapling_address(), MAX_MONEY, Some("memo".to_owned())).unwrap();
    assert_eq!(t.target_note_count, 9);
    assert_eq!(t.min_split_output_value, MAX_MONEY);
    assert_eq!(t.value, MAX_MONEY);
    let p = t.request.payments().values().next().unwrap();
    assert!(p.memo().is_some());
}

#[test]
fn single_transaction_proposal_is_sent() {
    let a = [1u8; 32];
    assert_eq!(proposal_txid(&vec![a]).unwrap(), a);
}

#[test]
fn multi_transaction_proposal_is_refused() {
    assert!(matches!(proposal_txid(&vec![[1u8; 32], [2u8; 32]]), Err(SendError::MultipleTransactions)));
}

#[test]
fn txid_text_is_reversed_hex_as_txid_display() {
    let mut b = [0u8; 32];
    for (i, x) in b.iter_mut().enumerate() {
        *x = i as u8;
    }
    let text = format_txid(&b);
    assert_eq!(text, zcash_protocol::TxId::from_bytes(b).to_string());
    assert!(text.starts_with("1f1e1d"));
    assert!(text.ends_with("020100"));
}

#[test]
fn accepted_broadcast_gives_the_txid() {
    let b = [0xabu8; 32];
    assert_eq!(send_outcome(&b, 0, "ignored".to_owned()).unwrap(), "ab".repeat(32));
}

#[test]
fn refused_broadcast_gives_code_and_reason() {
    match send_outcome(&[0u8; 32], -26, "bad-txns".to_owned()) {
        Err(SendError::SendFailed { code, reason }) => {
            assert_eq!(code, -26);
            assert_eq!(reason, "bad-txns");
        }
        _ => panic!("expected a refusal"),
    }
}
