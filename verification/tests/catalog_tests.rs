use merge_actor::crypto::{all_cryptos, check_crypto_eligibility, find_crypto};
use merge_actor::daily_task::LinkPool;
use merge_actor::hints::{get_all_hints, get_hint_by_id, get_random_hint, Hint, HintCategory};
use merge_actor::notification::{get_reward_config, task_result_effect, TaskKind};
use merge_actor::op_resolver::{Collab, CommandCtx, Op, OpResponse};
use merge_actor::types::{BadgesKind, LeagueType, Links, OpError, PowerUpKind, SocialPlatform, UserData};
use merge_actor::utils::{convert_badges_to_json, convert_power_ups_to_json, league_to_string};

fn base_state() -> UserData {
    UserData::default_with(
        "player-1".to_string(),
        "CODE1234".to_string(),
        "welcome-1".to_string(),
        1_000,
    )
}

#[test]
fn all_cryptos_catalogue_is_fixed() {
    let cs = all_cryptos();
    assert_eq!(cs.len(), 10);
    assert_eq!(cs[0].symbol, "SHIB");
    assert_eq!(cs[0].min_iq, 200);
    assert_eq!(cs[0].decimals, 18);
    assert!(cs[0].contract_address.is_some());
    assert_eq!(cs[4].symbol, "FLOKI");
    assert_eq!(cs[4].decimals, 9);
    assert_eq!(cs[5].symbol, "ETH");
    assert!(cs[5].contract_address.is_none());
    assert_eq!(cs[9].symbol, "WAVAX");
    assert_eq!(cs[9].min_iq, 500);
}

#[test]
fn find_crypto_by_symbol() {
    let eth = find_crypto(&"ETH".to_string()).unwrap();
    assert_eq!(eth.min_iq, 400);
    assert!(find_crypto(&"DOGE".to_string()).is_none());
}

#[test]
fn eligibility_checks_symbol_then_iq() {
    assert_eq!(
        check_crypto_eligibility(&"DOGE".to_string(), 10_000).unwrap_err(),
        OpError::CryptoNotAvailable
    );
    assert_eq!(
        check_crypto_eligibility(&"ETH".to_string(), 399).unwrap_err(),
        OpError::IqTooLow
    );
    assert!(check_crypto_eligibility(&"ETH".to_string(), 400).is_ok());
}

#[test]
fn exchange_insufficient_balance_rejected_first() {
    let mut u = base_state();
    u.progress.akai_balance = 5;
    merge_actor::utils::calculate_product(&mut u);
    let r = u.exchange_akai_for_crypto(
        10,
        &"ETH".to_string(),
        &"0xabc".to_string(),
        Ok("tx".to_string()),
    );
    assert_eq!(r.unwrap_err(), OpError::InsufficientBalance);
    assert_eq!(u.progress.akai_balance, 5);
}

#[test]
fn exchange_bad_address_rejected() {
    let mut u = base_state();
    u.progress.iq = 1_000;
    merge_actor::utils::calculate_product(&mut u);
    let r = u.exchange_akai_for_crypto(
        10,
        &"ETH".to_string(),
        &"abc".to_string(),
        Ok("tx".to_string()),
    );
    assert_eq!(r.unwrap_err(), OpError::CryptoNotAvailable);
}

#[test]
fn exchange_debits_only_after_ledger_success() {
    let mut u = base_state();
    u.progress.iq = 1_000;
    u.progress.akai_balance = 90;
    merge_actor::utils::calculate_product(&mut u);
    let r = u.exchange_akai_for_crypto(
        40,
        &"ETH".to_string(),
        &"0xreceiver".to_string(),
        Err("rpc down".to_string()),
    );
    assert_eq!(r.unwrap_err(), OpError::CollaboratorFailed);
    assert_eq!(u.progress.akai_balance, 90);
    let r2 = u.exchange_akai_for_crypto(
        40,
        &"ETH".to_string(),
        &"0xreceiver".to_string(),
        Ok("0xtxhash".to_string()),
    );
    match r2.unwrap() {
        OpResponse::Exchanged { tx_hash, new_balance } => {
            assert_eq!(tx_hash, "0xtxhash");
            assert_eq!(new_balance, 50);
        }
        _ => panic!("unexpected response"),
    }
    assert_eq!(u.progress.akai_balance, 50);
}

#[test]
fn quote_validates_eligibility_only() {
    let mut u = base_state();
    u.progress.iq = 500;
    merge_actor::utils::calculate_product(&mut u);
    let balance = u.progress.akai_balance;
    let (r, _) = u.resolve_op(
        &Op::GetCryptoExchangeAmount(10, "ETH".to_string()),
        CommandCtx::at(0),
    );
    assert!(matches!(r.unwrap(), OpResponse::QuoteChecked));
    assert_eq!(u.progress.akai_balance, balance);
    let (r2, _) = u.resolve_op(
        &Op::GetCryptoExchangeAmount(10, "DOGE".to_string()),
        CommandCtx::at(0),
    );
    assert_eq!(r2.unwrap_err(), OpError::CryptoNotAvailable);
}

#[test]
fn available_cryptos_through_dispatcher() {
    let mut u = base_state();
    let (r, _) = u.resolve_op(&Op::GetAvailableCryptos, CommandCtx::at(0));
    match r.unwrap() {
        OpResponse::AvailableCryptos { cryptos } => assert_eq!(cryptos.len(), 10),
        _ => panic!("unexpected response"),
    }
}

#[test]
fn hints_catalogue_is_fixed() {
    let hints = get_all_hints();
    assert_eq!(hints.len(), 10);
    for (i, h) in hints.iter().enumerate() {
        assert_eq!(h.id, i + 1);
    }
    assert_eq!(
        hints[0].content,
        "Combine lower-level aliens first to create space for new ones!"
    );
    assert!(matches!(hints[1].category, HintCategory::SpaceFact));
}

#[test]
fn hint_by_id_and_out_of_range() {
    let h = get_hint_by_id(3).unwrap();
    assert_eq!(h.id, 3);
    assert!(get_hint_by_id(0).is_none());
    assert!(get_hint_by_id(11).is_none());
}

#[test]
fn random_hint_comes_from_catalogue() {
    for _ in 0..20 {
        let h = get_random_hint();
        assert!(1 <= h.id && h.id <= 10);
        let fixed = get_hint_by_id(h.id).unwrap();
        assert_eq!(h.content, fixed.content);
    }
}

#[test]
fn hint_new_builds_fields() {
    let h = Hint::new(42, HintCategory::AlienTip, "tip".to_string());
    assert_eq!(h.id, 42);
    assert_eq!(h.content, "tip");
}

#[test]
fn link_pool_defaults_and_insert_delete() {
    let mut pool = LinkPool::default_pool();
    assert_eq!(pool.links.len(), 4);
    assert_eq!(pool.links[0].url, "https://youtube.com/campaign1");
    pool.insert_link(Links {
        url: "https://example.com/x".to_string(),
        platform: SocialPlatform::Telegram,
        visited: false,
    });
    assert_eq!(pool.list_all_links().len(), 5);
    assert!(pool.delete_link_by_url(&"https://example.com/x".to_string()));
    assert_eq!(pool.list_all_links().len(), 4);
    assert!(!pool.delete_link_by_url(&"https://example.com/x".to_string()));
}

#[test]
fn random_links_are_distinct_and_unvisited() {
    let pool = LinkPool::default_pool();
    let picked = pool.get_random_links(2);
    assert_eq!(picked.len(), 2);
    assert!(picked.iter().all(|l| !l.visited));
    assert_ne!(picked[0].url, picked[1].url);
    // asking for more than the pool holds caps at the pool size
    assert_eq!(pool.get_random_links(10).len(), 4);
}

#[test]
fn check_daily_task_marks_first_match_once() {
    let mut u = base_state();
    let pool = LinkPool::default_pool();
    u.daily.links = pool.list_all_links();
    let social = u.progress.social_score;
    let url = Some("https://twitter.com/promo123".to_string());
    let r = u.check_daily_task(&url);
    assert!(matches!(r.unwrap(), OpResponse::DailyChecked { matched: true }));
    assert!(u.daily.links[1].visited);
    assert_eq!(u.progress.social_score, social + 2);
    assert_eq!(u.daily.total_completed, 1);
    // already visited: no further credit
    let r2 = u.check_daily_task(&url);
    assert!(matches!(r2.unwrap(), OpResponse::DailyChecked { matched: false }));
    assert_eq!(u.daily.total_completed, 1);
}

#[test]
fn reward_config_table() {
    let mcq = get_reward_config(TaskKind::Mcq).unwrap();
    assert_eq!(mcq.akai_on_correct, 10);
    assert_eq!(mcq.iq_on_correct, 5);
    assert_eq!(mcq.iq_on_incorrect, -10);
    let audio = get_reward_config(TaskKind::Audio).unwrap();
    assert_eq!(audio.akai_on_correct, 20);
    assert_eq!(audio.iq_on_incorrect, -3);
}

#[test]
fn task_result_effect_for_both_outcomes() {
    let (akai, iq, msg) = task_result_effect(TaskKind::Text, false);
    assert_eq!(akai, 15);
    assert_eq!(iq, 7);
    assert_eq!(msg, "Task 'text' correct. Keep it up!");
    let (akai2, iq2, msg2) = task_result_effect(TaskKind::Text, true);
    assert_eq!(akai2, 0);
    assert_eq!(iq2, -10);
    assert_eq!(msg2, "Task 'text' incorrect. This will result in loss of IQ.");
}

#[test]
fn mcq_submission_validations() {
    let mut u = base_state();
    let answers: Vec<String> = (0..5).map(|i| format!("a{i}")).collect();
    let r = u.submit_mcq_answers(&"nope".to_string(), &answers, true);
    assert_eq!(r.unwrap_err(), OpError::TaskNotFound);
    let three: Vec<String> = (0..3).map(|i| format!("a{i}")).collect();
    let r2 = u.submit_mcq_answers(&"nope".to_string(), &three, true);
    assert_eq!(r2.unwrap_err(), OpError::WrongAnswerCount);
}

#[test]
fn text_submission_flow_grants_rewards() {
    let mut u = base_state();
    u.daily.text_video_tasks = vec![merge_actor::types::TextVideoTask {
        datapoint_id: "dp-1".to_string(),
        question_index: 2,
        question: "what?".to_string(),
        media_url: "m".to_string(),
        visited: false,
    }];
    let iq = u.progress.iq;
    let akai = u.progress.akai_balance;
    let total = u.progress.total_task_completed;
    // grading collaborator refuses: no mutation
    let r0 = u.submit_text_answer(&"dp-1".to_string(), 2, false);
    assert_eq!(r0.unwrap_err(), OpError::CollaboratorFailed);
    assert!(!u.daily.text_video_tasks[0].visited);
    // grading collaborator accepts
    let r = u.submit_text_answer(&"dp-1".to_string(), 2, true);
    assert!(r.is_ok());
    assert!(u.daily.text_video_tasks[0].visited);
    assert_eq!(u.progress.iq, iq + 3);
    assert_eq!(u.progress.akai_balance, akai + 4);
    assert_eq!(u.progress.total_task_completed, total + 1);
    // a second submission of the same task is rejected
    let r2 = u.submit_text_answer(&"dp-1".to_string(), 2, true);
    assert_eq!(r2.unwrap_err(), OpError::TaskAlreadyCompleted);
}

#[test]
fn badges_granted_at_milestones() {
    let mut u = base_state();
    u.progress.total_task_completed = 9;
    let mut reward = merge_actor::types::Reward::none();
    u.handle_task_submission_rewards(&mut reward, 1, 1);
    assert_eq!(u.progress.total_task_completed, 10);
    assert_eq!(u.progress.badges, vec![BadgesKind::TenTaskBadge]);
    assert!(reward.is_reward);
}

#[test]
fn json_encodings_for_relational_columns() {
    assert_eq!(convert_power_ups_to_json(&vec![]), "[]");
    assert_eq!(
        convert_power_ups_to_json(&vec![PowerUpKind::RowPowerUp, PowerUpKind::ColumnPowerUp]),
        "[\"RowPowerUp\",\"ColumnPowerUp\"]"
    );
    assert_eq!(convert_badges_to_json(&vec![]), "[]");
    assert_eq!(
        convert_badges_to_json(&vec![BadgesKind::TenTaskBadge, BadgesKind::ThirtyTaskBadge]),
        "[\"TenTaskBadge\",\"ThirtyTaskBadge\"]"
    );
    assert_eq!(league_to_string(&merge_actor::types::LeagueType::GrandMaster), "GrandMaster");
}

#[test]
fn league_from_product_tiers() {
    assert_eq!(LeagueType::from_product(0), LeagueType::Bronze);
    assert_eq!(LeagueType::from_product(49), LeagueType::Bronze);
    assert_eq!(LeagueType::from_product(50), LeagueType::Silver);
    assert_eq!(LeagueType::from_product(349), LeagueType::GrandMaster);
    assert_eq!(LeagueType::from_product(10_000), LeagueType::Challenger);
}

#[test]
fn random_targets_respect_their_ranges_repeatedly() {
    for round in 0..20u64 {
        let mut u = base_state();
        let content = merge_actor::op_resolver::DailyContent {
            links: vec![],
            mcq: vec![],
            text: vec![],
        };
        let now_ms = 50_000_000 + round;
        u.generate_daily_tasks(now_ms, content).unwrap();
        assert!((5..=15).contains(&u.daily.daily_merge.target));
        assert!((3..=5).contains(&u.daily.daily_annotate.target));
        assert!((1..=4).contains(&u.daily.daily_powerups.target));
    }
}

#[test]
fn fresh_state_has_random_identifiers() {
    let u = UserData::fresh("p9".to_string(), 500);
    assert_eq!(u.profile.user_id, "p9");
    assert_eq!(u.social.referal_code.len(), 8);
    assert!(u.social.referal_code.chars().all(|ch| ch.is_ascii_alphanumeric()));
    assert_eq!(u.notifications[0].notification_id.len(), 36);
    assert_eq!(u.notifications.len(), 1);
    assert_eq!(u.notifications[0].message, "Welcome to the game!");
    // a second fresh state gets a different code, with overwhelming likelihood
    let v = UserData::fresh("p9".to_string(), 500);
    assert_ne!(u.notifications[0].notification_id, v.notifications[0].notification_id);
}

#[test]
fn generate_daily_through_dispatcher() {
    let mut u = base_state();
    let pool = LinkPool::default_pool();
    let content = merge_actor::op_resolver::DailyContent {
        links: pool.get_random_links(2),
        mcq: vec![],
        text: vec![],
    };
    let (r, _) = u.resolve_op(
        &Op::GenerateDailyTasks,
        CommandCtx { now_ms: 50_000_000, collab: Collab::DailyContent(content) },
    );
    assert!(matches!(r.unwrap(), OpResponse::DailyGenerated));
    assert_eq!(u.daily.links.len(), 2);
}
