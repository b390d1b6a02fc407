use runes_mint::codec::{encode, TokenId};
use runes_mint::eligibility::{MintTerms, Pile, TokenEntry};
use runes_mint::mint::{
    MintAction, MintError, MintEvent, MintSession, MintState, RunesMint, SignedTx, WalletParams,
};

fn change_script() -> Vec<u8> {
    let mut s = vec![0x00, 0x14];
    s.extend_from_slice(&[0x33; 20]);
    s
}

fn token() -> (TokenId, TokenEntry) {
    let terms = MintTerms {
        amount: Some(1000),
        cap: Some(100),
        height_start: Some(840000),
        height_end: Some(850000),
        offset_start: None,
        offset_end: None,
    };
    (
        TokenId { block: 839000, tx: 7 },
        TokenEntry { block: 839000, divisibility: 1, symbol: Some('R'), terms: Some(terms), mints: 3 },
    )
}

fn request(destination: Option<Vec<u8>>, postage: Option<u64>) -> RunesMint {
    RunesMint { fee_rate: 5, rune: "ABCD".to_string(), postage, destination }
}

fn step(session: MintSession, event: MintEvent) -> (MintSession, MintAction) {
    assert!(session.awaits_event(&event));
    session.advance(event)
}

fn to_lookup(req: RunesMint) -> MintSession {
    let (session, action) = req.run();
    assert!(matches!(action, MintAction::CheckIndex));
    let (session, action) = step(session, MintEvent::IndexStatus(true));
    match action {
        MintAction::LookUp { rune } => assert_eq!(rune, "ABCD"),
        other => panic!("unexpected {other:?}"),
    }
    session
}

#[test]
fn end_to_end_mint() {
    let (id, entry) = token();
    let session = to_lookup(request(None, None));
    let (session, action) = step(session, MintEvent::LookedUp { found: Some((id, entry)), height: 845000 });
    assert!(matches!(action, MintAction::ChangeScript));
    let (session, action) = step(session, MintEvent::ChangeScript(change_script()));
    assert!(matches!(action, MintAction::LockOutputs));
    let (session, action) = step(session, MintEvent::Locked(Ok(())));
    let skeleton = match action {
        MintAction::Fund { skeleton, fee_rate } => {
            assert_eq!(fee_rate, 5);
            skeleton
        }
        other => panic!("unexpected {other:?}"),
    };
    assert_eq!(skeleton.outputs.len(), 2);
    assert_eq!(skeleton.outputs[0].script, encode(id));
    assert_eq!(skeleton.outputs[0].value, 0);
    assert_eq!(skeleton.outputs[1].script, change_script());
    assert_eq!(skeleton.outputs[1].value, 10000);
    let (session, action) = step(session, MintEvent::Funded(Ok(vec![1, 2, 3])));
    match action {
        MintAction::Sign { tx } => assert_eq!(tx, vec![1, 2, 3]),
        other => panic!("unexpected {other:?}"),
    }
    let signed = SignedTx { tx: vec![4, 5, 6], output_scripts: vec![encode(id), change_script(), change_script()] };
    let (session, action) = step(session, MintEvent::Signed(Ok(signed)));
    match action {
        MintAction::Broadcast { tx } => assert_eq!(tx, vec![4, 5, 6]),
        other => panic!("unexpected {other:?}"),
    }
    let (session, action) = step(session, MintEvent::Broadcast(Ok("ab12".to_string())));
    assert!(matches!(action, MintAction::Stop));
    match session.state {
        MintState::Reported(output) => {
            assert_eq!(output.rune, "ABCD");
            assert_eq!(output.pile, Pile { amount: 1000, divisibility: 1, symbol: Some('R') });
            assert_eq!(output.mint, "ab12");
        }
        other => panic!("unexpected {other:?}"),
    }
}

#[test]
fn ended_window_stops_before_funding() {
    let (id, entry) = token();
    let session = to_lookup(request(None, None));
    let (session, action) = step(session, MintEvent::LookedUp { found: Some((id, entry)), height: 850000 });
    assert!(matches!(action, MintAction::Stop));
    assert!(matches!(session.state, MintState::Failed(MintError::Ended { end: 850000 })));
    assert!(!session.awaits_event(&MintEvent::Locked(Ok(()))));
    assert!(!session.awaits_event(&MintEvent::Funded(Ok(vec![]))));
}

#[test]
fn not_started_window() {
    let (id, entry) = token();
    let session = to_lookup(request(None, None));
    let (session, _) = step(session, MintEvent::LookedUp { found: Some((id, entry)), height: 839999 });
    assert!(matches!(session.state, MintState::Failed(MintError::NotStarted { start: 840000 })));
}

#[test]
fn cap_reached_fails() {
    let (id, mut entry) = token();
    entry.mints = 100;
    let session = to_lookup(request(None, None));
    let (session, _) = step(session, MintEvent::LookedUp { found: Some((id, entry)), height: 845000 });
    assert!(matches!(session.state, MintState::Failed(MintError::CapReached { cap: 100 })));
}

fn to_signing(req: RunesMint) -> (TokenId, MintSession) {
    let (id, entry) = token();
    let session = to_lookup(req);
    let (session, action) = step(session, MintEvent::LookedUp { found: Some((id, entry)), height: 845000 });
    assert!(matches!(action, MintAction::LockOutputs));
    let (session, _) = step(session, MintEvent::Locked(Ok(())));
    let (session, _) = step(session, MintEvent::Funded(Ok(vec![9])));
    (id, session)
}

#[test]
fn forged_instruction_is_a_mismatch() {
    let (id, session) = to_signing(request(Some(change_script()), None));
    let forged = TokenId { block: id.block, tx: id.tx + 1 };
    let signed = SignedTx { tx: vec![7], output_scripts: vec![encode(forged), change_script()] };
    let (session, action) = step(session, MintEvent::Signed(Ok(signed)));
    assert!(matches!(action, MintAction::Stop));
    assert!(matches!(session.state, MintState::Failed(MintError::EncodingMismatch)));
}

#[test]
fn missing_instruction_is_a_mismatch() {
    let (_, session) = to_signing(request(Some(change_script()), None));
    let signed = SignedTx { tx: vec![7], output_scripts: vec![change_script()] };
    let (session, _) = step(session, MintEvent::Signed(Ok(signed)));
    assert!(matches!(session.state, MintState::Failed(MintError::EncodingMismatch)));
}

#[test]
fn given_destination_and_postage() {
    let (id, entry) = token();
    let session = to_lookup(request(Some(vec![0x51, 0x20, 0x01]), Some(600)));
    let (session, action) = step(session, MintEvent::LookedUp { found: Some((id, entry)), height: 840000 });
    assert!(matches!(action, MintAction::LockOutputs));
    match session.state {
        MintState::SkeletonBuilt { skeleton, .. } => {
            assert_eq!(skeleton.outputs[1].script, vec![0x51, 0x20, 0x01]);
            assert_eq!(skeleton.outputs[1].value, 600);
        }
        other => panic!("unexpected {other:?}"),
    }
}

#[test]
fn postage_at_dust_fails() {
    let (id, entry) = token();
    let session = to_lookup(request(None, Some(294)));
    let (session, _) = step(session, MintEvent::LookedUp { found: Some((id, entry)), height: 845000 });
    let (session, action) = step(session, MintEvent::ChangeScript(change_script()));
    assert!(matches!(action, MintAction::Stop));
    assert!(matches!(session.state, MintState::Failed(MintError::BelowDustLimit { dust: 294 })));
}

#[test]
fn index_not_enabled() {
    let (session, _) = request(None, None).run();
    let (session, action) = step(session, MintEvent::IndexStatus(false));
    assert!(matches!(action, MintAction::Stop));
    assert!(matches!(session.state, MintState::Failed(MintError::IndexNotEnabled)));
}

#[test]
fn token_not_found() {
    let session = to_lookup(request(None, None));
    let (session, _) = step(session, MintEvent::LookedUp { found: None, height: 845000 });
    assert!(matches!(session.state, MintState::Failed(MintError::TokenNotFound)));
}

#[test]
fn collaborator_failures() {
    let session = to_lookup(request(Some(change_script()), None));
    let (id, entry) = token();
    let (session, _) = step(session, MintEvent::LookedUp { found: Some((id, entry)), height: 845000 });
    let (session, _) = step(session, MintEvent::Locked(Err("locked".to_string())));
    assert!(matches!(session.state, MintState::Failed(MintError::FundingFailed(ref m)) if m == "locked"));

    let (_, session) = to_signing(request(Some(change_script()), None));
    let (session, _) = step(session, MintEvent::Signed(Err("no key".to_string())));
    assert!(matches!(session.state, MintState::Failed(MintError::SigningFailed(ref m)) if m == "no key"));

    let (id, session) = to_signing(request(Some(change_script()), None));
    let signed = SignedTx { tx: vec![7], output_scripts: vec![encode(id), change_script()] };
    let (session, _) = step(session, MintEvent::Signed(Ok(signed)));
    let (session, action) = step(session, MintEvent::Broadcast(Err("rejected".to_string())));
    assert!(matches!(action, MintAction::Stop));
    assert!(matches!(session.state, MintState::Failed(MintError::BroadcastFailed(ref m)) if m == "rejected"));
}

#[test]
fn funding_failure() {
    let session = to_lookup(request(Some(change_script()), None));
    let (id, entry) = token();
    let (session, _) = step(session, MintEvent::LookedUp { found: Some((id, entry)), height: 845000 });
    let (session, _) = step(session, MintEvent::Locked(Ok(())));
    let (session, action) = step(session, MintEvent::Funded(Err("insufficient funds".to_string())));
    assert!(matches!(action, MintAction::Stop));
    assert!(matches!(session.state, MintState::Failed(MintError::FundingFailed(ref m)) if m == "insufficient funds"));
}

#[test]
fn out_of_order_event_is_refused() {
    let (session, _) = request(None, None).run();
    assert!(!session.awaits_event(&MintEvent::Locked(Ok(()))));
    assert!(session.awaits_event(&MintEvent::IndexStatus(true)));
}

#[test]
fn wallet_url_resolution() {
    let params = |url: Option<&str>| WalletParams { name: "test".to_string(), no_sync: false, server_url: url.map(|u| u.to_string()) };
    let ctx = params(Some("http://a:1")).constructor(Some("http://b:2".to_string()));
    assert_eq!(ctx.server_url, "http://a:1");
    assert_eq!(ctx.name, "test");
    assert!(!ctx.no_sync);
    let ctx = params(None).constructor(Some("http://b:2".to_string()));
    assert_eq!(ctx.server_url, "http://b:2");
    let ctx = params(None).constructor(None);
    assert_eq!(ctx.server_url, "http://127.0.0.1:80");
}

#[test]
fn run_in_place_starts_pipeline() {
    let params = WalletParams { name: "w".to_string(), no_sync: true, server_url: None };
    let (ctx, session, action) = request(None, None).run_in_place(params, None);
    assert_eq!(ctx.server_url, "http://127.0.0.1:80");
    assert!(ctx.no_sync);
    assert!(matches!(session.state, MintState::Requested));
    assert!(matches!(action, MintAction::CheckIndex));
}
