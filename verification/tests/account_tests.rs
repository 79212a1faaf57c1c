use merge_actor::actor::{connection_command_allowed, handle_command, registration_gate};
use merge_actor::auth::{credentials_match, hex_encode, password_hash};
use merge_actor::notification::build_notification;
use merge_actor::op_resolver::{Collab, CommandCtx, Op, OpResponse};
use merge_actor::session::SessionState;
use merge_actor::store::Store;
use merge_actor::types::{NotifMeta, NotificationType, OpError, Read, UserData};

fn base_state() -> UserData {
    UserData::default_with(
        "player-1".to_string(),
        "CODE1234".to_string(),
        "welcome-1".to_string(),
        1_000,
    )
}

#[test]
fn password_hash_is_sha256_hex() {
    // the well-known SHA-256 of "abc"
    let h = password_hash("abc");
    assert_eq!(
        h,
        "ba7816bf8f01cfea414140de5dae2223b00361a396177a9cb410ff61f20015ad"
    );
}

#[test]
fn hex_encode_two_digits_per_byte() {
    assert_eq!(hex_encode(&vec![]), "");
    assert_eq!(hex_encode(&vec![0x00, 0xff, 0x1a]), "00ff1a");
}

#[test]
fn credentials_match_by_name_or_id() {
    let stored = password_hash("pw");
    assert!(credentials_match(
        &"id-1".to_string(),
        &Some("display".to_string()),
        &stored,
        &"display".to_string(),
        "pw",
    ));
    assert!(credentials_match(
        &"id-1".to_string(),
        &Some("display".to_string()),
        &stored,
        &"id-1".to_string(),
        "pw",
    ));
    assert!(!credentials_match(
        &"id-1".to_string(),
        &None,
        &stored,
        &"id-1".to_string(),
        "wrong",
    ));
    assert!(!credentials_match(
        &"id-1".to_string(),
        &None,
        &stored,
        &"somebody".to_string(),
        "pw",
    ));
}

#[test]
fn register_stores_hash_and_reports_storage() {
    let mut u = base_state();
    let r = u.register("secret", true);
    assert!(matches!(r.unwrap(), OpResponse::Registered));
    assert_eq!(u.profile.password.as_deref(), Some(password_hash("secret").as_str()));
    let r2 = u.register("secret", false);
    assert_eq!(r2.unwrap_err(), OpError::StorageFailed);
}

#[test]
fn update_profile_fields() {
    let mut u = base_state();
    u.update_email("a@b.c".to_string()).unwrap();
    assert_eq!(u.profile.email.as_deref(), Some("a@b.c"));
    u.update_user_name(Some("Zed".to_string())).unwrap();
    assert_eq!(u.profile.user_name.as_deref(), Some("Zed"));
    u.update_pfp(7).unwrap();
    assert_eq!(u.profile.pfp, 7);
    u.update_password("next").unwrap();
    assert_eq!(u.profile.password.as_deref(), Some(password_hash("next").as_str()));
}

#[test]
fn gate_rejects_commands_before_registration() {
    assert_eq!(
        registration_gate(false, &Op::GetData).unwrap_err(),
        OpError::NotRegistered
    );
    assert!(registration_gate(false, &Op::Register("pw".to_string())).is_ok());
    assert!(registration_gate(true, &Op::GetData).is_ok());
}

#[test]
fn registering_twice_rejected_on_second_attempt() {
    let mut store = Store::new();
    let id = "player-1".to_string();
    assert!(!store.is_registered(&id));
    // first registration is allowed and writes the rows
    let op = Op::Register("pw".to_string());
    assert!(registration_gate(store.is_registered(&id), &op).is_ok());
    let mut u = base_state();
    u.register("pw", true).unwrap();
    store.insert_new_user(&u);
    assert!(store.is_registered(&id));
    // the second attempt is rejected
    assert_eq!(
        registration_gate(store.is_registered(&id), &op).unwrap_err(),
        OpError::AlreadyRegistered
    );
}

#[test]
fn handle_command_creates_state_and_gates() {
    let id = "fresh-player".to_string();
    let (state, result, outbox) = handle_command(
        None,
        &id,
        &Op::GetData,
        false,
        CommandCtx::at(5_000),
    );
    assert_eq!(result.unwrap_err(), OpError::NotRegistered);
    assert!(outbox.is_none());
    assert_eq!(state.profile.user_id, id);
    assert_eq!(state.social.referal_code.len(), 8);
}

#[test]
fn fresh_move_with_zero_inventory_rejected_without_change() {
    // a fresh player whose inventory has been drained: the move is rejected
    // and nothing changes
    let mut u = base_state();
    u.game_state.inventory_aliens = 0;
    let grid = u.game_state.active_aliens.clone();
    let (state, result, _) = handle_command(
        Some(u),
        &"player-1".to_string(),
        &Op::MoveAlienFromInventoryToActive,
        true,
        CommandCtx::at(2_000_000),
    );
    assert_eq!(result.unwrap_err(), OpError::NoAliensInInventory);
    assert_eq!(state.game_state.active_aliens, grid);
    assert_eq!(state.game_state.inventory_aliens, 0);
}

#[test]
fn referral_code_never_usable_by_owner() {
    let mut u = base_state();
    let before = u.social.players_referred;
    let (r, outbox) = u.use_referral_code(Some("player-1".to_string()), 100);
    assert_eq!(r.unwrap_err(), OpError::OwnReferralCode);
    assert!(outbox.is_none());
    assert_eq!(u.social.players_referred, before);
}

#[test]
fn referral_with_unknown_code_rejected_without_change() {
    let mut u = base_state();
    let before = u.social.players_referred;
    let (r, outbox) = u.use_referral_code(None, 100);
    assert_eq!(r.unwrap_err(), OpError::InvalidReferralCode);
    assert!(outbox.is_none());
    assert_eq!(u.social.players_referred, before);
}

#[test]
fn referral_success_queues_notification_for_owner() {
    let mut u = base_state();
    let (r, outbox) = u.use_referral_code(Some("owner-2".to_string()), 100);
    match r.unwrap() {
        OpResponse::ReferralRecorded { referrer } => assert_eq!(referrer, "owner-2"),
        _ => panic!("unexpected response"),
    }
    assert_eq!(u.social.players_referred, 1);
    let out = outbox.unwrap();
    assert_eq!(out.target_user_id, "owner-2");
    assert_eq!(out.notification.user_id, "owner-2");
    assert_eq!(out.notification.notification_type, NotificationType::Referral);
    assert_eq!(out.notification.read, Read::No);
    assert_eq!(
        out.notification.metadata.as_ref().unwrap().used_by.as_deref(),
        Some("player-1")
    );
}

#[test]
fn referral_lookup_against_empty_store_finds_nobody() {
    let store = Store::new();
    assert!(store.find_user_id_by_referral_code(&"NOCODE".to_string()).is_none());
}

#[test]
fn referral_lookup_finds_owner_after_reconcile() {
    let mut store = Store::new();
    let u = base_state();
    store.update_user_data(&u);
    let found = store.find_user_id_by_referral_code(&"CODE1234".to_string());
    assert_eq!(found.as_deref(), Some("player-1"));
}

#[test]
fn add_notification_marks_reward_kinds_claimable() {
    let mut u = base_state();
    let n = build_notification(
        &"player-1".to_string(),
        NotificationType::Referral,
        "used!".to_string(),
        None,
        50,
    );
    u.add_notification_internal(&n).unwrap();
    assert_eq!(u.notifications.last().unwrap().read, Read::Claim);
    let n2 = build_notification(
        &"player-1".to_string(),
        NotificationType::System,
        "hello".to_string(),
        None,
        51,
    );
    u.add_notification_internal(&n2).unwrap();
    assert_eq!(u.notifications.last().unwrap().read, Read::No);
}

#[test]
fn mark_notification_read_removes_entry() {
    let mut u = base_state();
    let id = u.notifications[0].notification_id.clone();
    let r = u.mark_notification_read(&id);
    assert!(matches!(r.unwrap(), OpResponse::NotificationRemoved));
    assert!(u.notifications.is_empty());
    let r2 = u.mark_notification_read(&id);
    assert_eq!(r2.unwrap_err(), OpError::NotificationNotFound);
}

#[test]
fn process_referral_notification_grants_fixed_bonus() {
    let mut u = base_state();
    let n = build_notification(
        &"player-1".to_string(),
        NotificationType::Referral,
        "used!".to_string(),
        None,
        50,
    );
    u.add_notification_internal(&n).unwrap();
    let id = u.notifications.last().unwrap().notification_id.clone();
    let social = u.progress.social_score;
    let akai = u.progress.akai_balance;
    u.process_notification_metadata(&id).unwrap();
    assert_eq!(u.progress.social_score, social + 10);
    assert_eq!(u.progress.akai_balance, akai + 50);
    // product re-derived
    let expected = u
        .progress
        .iq
        .saturating_add(u.progress.social_score.saturating_mul(u.game_state.king_lvl));
    assert_eq!(u.progress.product, expected);
    // entry flipped back to unread
    let pos = u
        .notifications
        .iter()
        .position(|x| x.notification_id == id)
        .unwrap();
    assert_eq!(u.notifications[pos].read, Read::No);
}

#[test]
fn process_performance_notification_applies_clamped_deltas() {
    let mut u = base_state();
    u.progress.iq = 5;
    merge_actor::utils::calculate_product(&mut u);
    let n = build_notification(
        &"player-1".to_string(),
        NotificationType::Performance,
        "bad".to_string(),
        Some(NotifMeta { used_by: None, akai_delta: -10_000, iq_delta: -10 }),
        50,
    );
    u.add_notification_internal(&n).unwrap();
    let id = u.notifications.last().unwrap().notification_id.clone();
    u.process_notification_metadata(&id).unwrap();
    // both clamp at zero rather than going negative
    assert_eq!(u.progress.iq, 0);
    assert_eq!(u.progress.akai_balance, 0);
}

#[test]
fn process_unknown_notification_rejected() {
    let mut u = base_state();
    let r = u.process_notification_metadata(&"no-such-id".to_string());
    assert_eq!(r.unwrap_err(), OpError::NotificationNotFound);
}

#[test]
fn store_round_trip_matches_every_sub_table() {
    let mut store = Store::new();
    let mut u = base_state();
    u.progress.akai_balance = 777;
    u.progress.badges.push(merge_actor::types::BadgesKind::TenTaskBadge);
    merge_actor::utils::calculate_product(&mut u);
    store.update_user_data(&u);
    let id = "player-1".to_string();
    let p = store.profiles.get(&id).unwrap();
    assert_eq!(p.pfp, u.profile.pfp);
    assert_eq!(p.last_login, u.profile.last_login);
    assert_eq!(p.password, u.profile.password);
    let g = store.game_states.get(&id).unwrap();
    assert_eq!(g.active_aliens, u.game_state.active_aliens);
    assert_eq!(g.inventory_aliens, u.game_state.inventory_aliens);
    assert_eq!(g.king_lvl, u.game_state.king_lvl);
    assert_eq!(g.power_ups, u.game_state.power_ups);
    let pr = store.progresses.get(&id).unwrap();
    assert_eq!(pr.iq, u.progress.iq);
    assert_eq!(pr.product, u.progress.product);
    assert_eq!(pr.akai_balance, 777);
    assert_eq!(pr.badges, u.progress.badges);
    let s = store.socials.get(&id).unwrap();
    assert_eq!(s.referal_code, u.social.referal_code);
    assert_eq!(s.players_referred, u.social.players_referred);
    let l = store.leagues.get(&id).unwrap();
    assert_eq!(l.league, u.league);
}

#[test]
fn store_reconcile_overwrites_stale_copy() {
    let mut store = Store::new();
    let mut u = base_state();
    store.update_user_data(&u);
    u.progress.akai_balance = 12_345;
    merge_actor::utils::calculate_product(&mut u);
    store.update_user_data(&u);
    let id = "player-1".to_string();
    assert_eq!(store.progresses.get(&id).unwrap().akai_balance, 12_345);
    // still exactly one row set per player
    assert_eq!(store.profiles.rows.len(), 1);
    assert_eq!(store.enumerate_all_player_ids(), vec!["player-1".to_string()]);
}

#[test]
fn sweep_enumerates_every_player() {
    let mut store = Store::new();
    for name in ["a", "b", "c"] {
        let u = UserData::default_with(
            name.to_string(),
            format!("CODE-{name}"),
            format!("welcome-{name}"),
            1,
        );
        store.update_user_data(&u);
    }
    let ids = store.enumerate_all_player_ids();
    assert_eq!(ids, vec!["a".to_string(), "b".to_string(), "c".to_string()]);
}

#[test]
fn session_binds_and_survives_restart() {
    let mut s = SessionState::new();
    s.bind("player-1".to_string());
    assert_eq!(s.memory.as_deref(), Some("player-1"));
    assert_eq!(s.durable.as_deref(), Some("player-1"));
    // actor restart: memory cleared, durable mirror survives
    let mut s2 = SessionState::after_restart(s.durable.clone());
    assert!(s2.memory.is_none());
    let identity = s2.message_identity();
    assert_eq!(identity.as_deref(), Some("player-1"));
    assert_eq!(s2.memory.as_deref(), Some("player-1"));
}

#[test]
fn session_disconnect_flushes_and_unbinds() {
    let mut s = SessionState::new();
    s.bind("player-1".to_string());
    let sync_for = s.disconnect();
    assert_eq!(sync_for.as_deref(), Some("player-1"));
    assert!(s.memory.is_none());
    assert!(s.durable.is_none());
    // a second disconnect has nobody to flush for
    assert!(s.disconnect().is_none());
}

#[test]
fn register_not_allowed_over_connection() {
    assert!(!connection_command_allowed(&Op::Register("pw".to_string())));
    assert!(connection_command_allowed(&Op::GetData));
    assert!(connection_command_allowed(&Op::PingPong));
}

#[test]
fn partial_reconcile_skips_failed_tables_and_self_heals() {
    let mut store = Store::new();
    let mut u = base_state();
    store.update_user_data(&u);
    u.progress.akai_balance = 999;
    u.social.players_referred = 3;
    merge_actor::utils::calculate_product(&mut u);
    // the social write fails: progress lands, social stays stale
    store.update_user_data_partial(&u, true, true, true, false, true);
    let id = "player-1".to_string();
    assert_eq!(store.progresses.get(&id).unwrap().akai_balance, 999);
    assert_eq!(store.socials.get(&id).unwrap().players_referred, 0);
    // a later full reconciliation self-heals the stale copy
    store.update_user_data(&u);
    assert_eq!(store.socials.get(&id).unwrap().players_referred, 3);
}

#[test]
fn resolve_op_referral_path_through_dispatcher() {
    let mut u = base_state();
    let (r, outbox) = u.resolve_op(
        &Op::UseReferralCode("SOMECODE".to_string()),
        CommandCtx { now_ms: 9_000, collab: Collab::ReferralOwner(Some("owner-9".to_string())) },
    );
    assert!(r.is_ok());
    assert_eq!(outbox.unwrap().target_user_id, "owner-9");
    assert_eq!(u.social.players_referred, 1);
}
