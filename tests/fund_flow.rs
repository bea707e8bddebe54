use diem_fund::{
    decimal_string, decode_hash_list, faucet_reply, mint_path, AccountAddress, FundError,
    FundWithFaucet, PollConfig, Step, TxnHash, TxnStatus, Waiter, DEFAULT_FUNDED_COINS,
    FAUCET_OK,
};

fn addr_abc() -> AccountAddress {
    let mut b = [0u8; 16];
    b[14] = 0x0A;
    b[15] = 0xBC;
    AccountAddress::new(b)
}

fn hash_of(fill: u8) -> TxnHash {
    TxnHash { bytes: [fill; 32] }
}

fn quoted(fill: u8) -> String {
    let mut s = String::from("\"");
    for _ in 0..32 {
        s.push_str(&format!("{:02x}", fill));
    }
    s.push('"');
    s
}

fn config() -> PollConfig {
    PollConfig { deadline_ms: 1_000, initial_delay_ms: 10, max_delay_ms: 50 }
}

fn expect_poll(w: &Waiter, now: u64) -> (TxnHash, u64) {
    match w.step(now) {
        Step::Poll { hash, wait_ms } => (hash, wait_ms),
        other => panic!("expected a poll, got {:?}", other),
    }
}

#[test]
fn decimal_of_zero_and_extremes() {
    assert_eq!(decimal_string(0), "0");
    assert_eq!(decimal_string(7), "7");
    assert_eq!(decimal_string(100_000_000), "100000000");
    assert_eq!(decimal_string(u64::MAX), "18446744073709551615");
}

#[test]
fn address_text_is_upper_hex_of_every_byte() {
    assert_eq!(addr_abc().to_text(), "00000000000000000000000000000ABC");
    let a = AccountAddress::new([0xff, 0x01, 0, 0, 0, 0, 0, 0, 0, 0, 0, 0, 0, 0, 0, 0x2d]);
    assert_eq!(a.to_text(), "FF01000000000000000000000000002D");
}

#[test]
fn mint_path_carries_amount_and_account() {
    assert_eq!(
        mint_path(100_000_000, &addr_abc()),
        "mint?amount=100000000&auth_key=00000000000000000000000000000ABC"
    );
    assert_eq!(mint_path(0, &addr_abc()), "mint?amount=0&auth_key=00000000000000000000000000000ABC");
}

#[test]
fn decode_empty_list() {
    let hs = decode_hash_list(b"[]").unwrap();
    assert!(hs.is_empty());
}

#[test]
fn decode_two_hashes_in_order() {
    let body = format!("[{},{}]", quoted(0x11), quoted(0xab));
    let hs = decode_hash_list(body.as_bytes()).unwrap();
    assert_eq!(hs.len(), 2);
    assert_eq!(hs[0].bytes, [0x11; 32]);
    assert_eq!(hs[1].bytes, [0xab; 32]);
    let upper = format!("[{}]", quoted(0xcd).to_uppercase());
    assert_eq!(decode_hash_list(upper.as_bytes()).unwrap()[0].bytes, [0xcd; 32]);
}

#[test]
fn decode_rejects_malformed_replies() {
    assert!(decode_hash_list(b"").is_none());
    assert!(decode_hash_list(b"[").is_none());
    assert!(decode_hash_list(b"[ ]").is_none());
    assert!(decode_hash_list(b"{}").is_none());
    let one = quoted(0x22);
    assert!(decode_hash_list(format!("[{} ]", one).as_bytes()).is_none());
    assert!(decode_hash_list(format!("[{};{}]", one, one).as_bytes()).is_none());
    assert!(decode_hash_list(format!("[{}]", one.replace('"', "'")).as_bytes()).is_none());
    let bad_digit = format!("[{}]", one.replacen('2', "g", 1));
    assert!(decode_hash_list(bad_digit.as_bytes()).is_none());
    let short = format!("[\"{}\"]", "ab".repeat(31));
    assert!(decode_hash_list(short.as_bytes()).is_none());
}

#[test]
fn faucet_http_error_is_rejection() {
    match faucet_reply(429, b"[]") {
        Err(FundError::FaucetRejected(s)) => assert_eq!(s, 429),
        other => panic!("unexpected {:?}", other),
    }
    match faucet_reply(500, b"") {
        Err(FundError::FaucetRejected(s)) => assert_eq!(s, 500),
        other => panic!("unexpected {:?}", other),
    }
}

#[test]
fn faucet_malformed_body() {
    assert!(matches!(faucet_reply(FAUCET_OK, b"not json"), Err(FundError::MalformedResponse)));
}

#[test]
fn faucet_success_lists_hashes() {
    let body = format!("[{}]", quoted(0x5a));
    let hs = faucet_reply(FAUCET_OK, body.as_bytes()).unwrap();
    assert_eq!(hs.len(), 1);
    assert_eq!(hs[0].bytes, [0x5a; 32]);
}

#[test]
fn no_hashes_confirms_without_polling() {
    let w = Waiter::new(Vec::new(), config());
    assert!(matches!(w.step(0), Step::Done(Ok(()))));
    assert!(matches!(w.step(u64::MAX), Step::Done(Ok(()))));
}

#[test]
fn two_hashes_committed_reports_funding() {
    let cmd = FundWithFaucet::new(addr_abc(), 100_000_000);
    let body = format!("[{},{}]", quoted(0x01), quoted(0x02));
    let hashes = faucet_reply(FAUCET_OK, body.as_bytes()).unwrap();
    let mut w = Waiter::new(hashes, config());
    let mut polls = 0;
    let (h, _) = expect_poll(&w, 0);
    assert_eq!(h.bytes, [0x01; 32]);
    w.observe(TxnStatus::Committed);
    polls += 1;
    for _ in 0..2 {
        let (h, _) = expect_poll(&w, 10);
        assert_eq!(h.bytes, [0x02; 32]);
        w.observe(TxnStatus::Pending);
        polls += 1;
    }
    let (h, _) = expect_poll(&w, 20);
    assert_eq!(h.bytes, [0x02; 32]);
    w.observe(TxnStatus::Committed);
    polls += 1;
    assert_eq!(polls, 4);
    let done = match w.step(30) {
        Step::Done(r) => r,
        other => panic!("expected the end, got {:?}", other),
    };
    let msg = cmd.finish(done).unwrap();
    assert_eq!(msg, "Added 100000000 Octas to account 00000000000000000000000000000ABC");
    assert!(msg.contains("100000000"));
    assert!(msg.contains("ABC"));
}

#[test]
fn failed_hash_is_named_whatever_follows() {
    let mut w = Waiter::new(vec![hash_of(0x01), hash_of(0x02)], config());
    let (h, _) = expect_poll(&w, 0);
    assert_eq!(h.bytes, [0x01; 32]);
    w.observe(TxnStatus::Failed);
    match w.step(5) {
        Step::Done(Err(FundError::TransactionRejected(h))) => assert_eq!(h.bytes, [0x01; 32]),
        other => panic!("unexpected {:?}", other),
    }
    w.observe(TxnStatus::Committed);
    match w.step(u64::MAX) {
        Step::Done(Err(FundError::TransactionRejected(h))) => assert_eq!(h.bytes, [0x01; 32]),
        other => panic!("unexpected {:?}", other),
    }
}

#[test]
fn failure_after_commits_is_still_rejection() {
    let mut w = Waiter::new(vec![hash_of(0x01), hash_of(0x02)], config());
    w.observe(TxnStatus::Committed);
    w.observe(TxnStatus::Failed);
    match w.step(0) {
        Step::Done(Err(FundError::TransactionRejected(h))) => assert_eq!(h.bytes, [0x02; 32]),
        other => panic!("unexpected {:?}", other),
    }
}

#[test]
fn deadline_with_pending_hashes_times_out() {
    let mut w = Waiter::new(vec![hash_of(0x01), hash_of(0x02), hash_of(0x03)], config());
    w.observe(TxnStatus::Committed);
    w.observe(TxnStatus::Pending);
    match w.step(1_000) {
        Step::Done(Err(FundError::ConfirmationTimeout(p))) => {
            assert_eq!(p.len(), 2);
            assert_eq!(p[0].bytes, [0x02; 32]);
            assert_eq!(p[1].bytes, [0x03; 32]);
        }
        other => panic!("unexpected {:?}", other),
    }
    assert!(matches!(w.step(999), Step::Poll { .. }));
}

#[test]
fn pending_reports_back_off_up_to_the_bound() {
    let mut w = Waiter::new(vec![hash_of(0x01), hash_of(0x02)], config());
    let mut seen = Vec::new();
    for _ in 0..4 {
        seen.push(expect_poll(&w, 0).1);
        w.observe(TxnStatus::Pending);
    }
    seen.push(expect_poll(&w, 0).1);
    assert_eq!(seen, vec![10, 20, 40, 50, 50]);
    w.observe(TxnStatus::Committed);
    assert_eq!(expect_poll(&w, 0).1, 10);
}

#[test]
fn initial_delay_above_bound_is_clamped() {
    let c = PollConfig { deadline_ms: 100, initial_delay_ms: 80, max_delay_ms: 30 };
    let w = Waiter::new(vec![hash_of(0x09)], c);
    assert_eq!(expect_poll(&w, 0).1, 30);
}

#[test]
fn finish_passes_errors_through() {
    let cmd = FundWithFaucet::with_default_amount(addr_abc());
    assert_eq!(cmd.amount, DEFAULT_FUNDED_COINS);
    assert!(matches!(cmd.finish(Err(FundError::MalformedResponse)), Err(FundError::MalformedResponse)));
    match cmd.finish(Err(FundError::NetworkError("refused".to_string()))) {
        Err(FundError::NetworkError(m)) => assert_eq!(m, "refused"),
        other => panic!("unexpected {:?}", other),
    }
}

#[test]
fn command_name_and_zero_amount_message() {
    let cmd = FundWithFaucet::new(addr_abc(), 0);
    assert_eq!(cmd.command_name(), "FundWithFaucet");
    assert_eq!(cmd.success_message(), "Added 0 Octas to account 00000000000000000000000000000ABC");
}
