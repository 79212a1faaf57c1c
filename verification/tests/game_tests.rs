use merge_actor::op_resolver::{Collab, CommandCtx, Op, OpResponse};
use merge_actor::types::{DailyCounter, OpError, PowerUpKind, UserData};
use merge_actor::utils::calculate_product;

fn base_state() -> UserData {
    UserData::default_with(
        "player-1".to_string(),
        "CODE1234".to_string(),
        "welcome-1".to_string(),
        1_000,
    )
}

/// A state with a chosen grid and king level, derived fields re-derived so
/// the state invariant holds.
fn state_with_grid(grid: Vec<usize>, king: usize) -> UserData {
    let mut u = base_state();
    u.game_state.active_aliens = grid;
    u.game_state.king_lvl = king;
    calculate_product(&mut u);
    u
}

fn grid_sum(u: &UserData) -> usize {
    u.game_state.active_aliens.iter().sum()
}

#[test]
fn merge_same_slot_rejected() {
    let mut u = base_state();
    let before = u.game_state.active_aliens.clone();
    let r = u.combine_alien(2, 2);
    assert_eq!(r.unwrap_err(), OpError::SameSlot);
    assert_eq!(u.game_state.active_aliens, before);
}

#[test]
fn merge_out_of_range_rejected() {
    let mut u = base_state();
    let r = u.combine_alien(0, 16);
    assert_eq!(r.unwrap_err(), OpError::IndexOutOfRange);
}

#[test]
fn merge_king_level_never_decreases() {
    let mut u = base_state();
    let before = u.game_state.king_lvl;
    let r = u.combine_alien(0, 1);
    assert!(r.is_ok());
    assert!(u.game_state.king_lvl >= before);
}

#[test]
fn merge_consumes_inventory_to_refill_source() {
    let mut u = base_state();
    let inv_before = u.game_state.inventory_aliens;
    assert!(inv_before > 0);
    let r = u.combine_alien(0, 1);
    assert!(r.is_ok());
    assert_eq!(u.game_state.inventory_aliens, inv_before - 1);
    // the source slot was refilled at a level of at least 1
    assert!(u.game_state.active_aliens[1] >= 1);
}

#[test]
fn merge_with_empty_inventory_empties_source() {
    let mut u = base_state();
    u.game_state.inventory_aliens = 0;
    let r = u.combine_alien(0, 1);
    assert!(r.is_ok());
    assert_eq!(u.game_state.active_aliens[1], 0);
}

#[test]
fn merge_at_sum_500_rederives_level_11_and_rewards_once() {
    // grid sum 500, stored level 10: the merge pushes the sum to 501,
    // 501 / 50 + 1 = 11, and the reward step fires exactly once.
    let mut grid = vec![0usize; 16];
    grid[0] = 500;
    let mut u = state_with_grid(grid, 10);
    u.game_state.inventory_aliens = 0;
    let akai_before = u.progress.akai_balance;
    let pus_before = u.game_state.power_ups.len();
    let r = u.combine_alien(0, 1);
    let reward = match r.unwrap() {
        OpResponse::Combined { reward } => reward,
        _ => panic!("unexpected response"),
    };
    assert_eq!(u.game_state.king_lvl, 11);
    assert!(reward.is_reward);
    // +50 currency, exactly once
    assert_eq!(u.progress.akai_balance, akai_before + 50);
    // exactly one power-up granted
    assert_eq!(u.game_state.power_ups.len(), pus_before + 1);
    // five creatures of level 11 * 10 - 3 = 107 landed
    let placed = u
        .game_state
        .active_aliens
        .iter()
        .filter(|&&v| v == 107)
        .count();
    assert_eq!(placed, 5);
}

#[test]
fn product_matches_formula_after_merge() {
    let mut u = base_state();
    u.combine_alien(0, 1).unwrap();
    let expected = u
        .progress
        .iq
        .saturating_add(u.progress.social_score.saturating_mul(u.game_state.king_lvl));
    assert_eq!(u.progress.product, expected);
}

#[test]
fn move_from_empty_inventory_rejected_without_change() {
    let mut u = base_state();
    u.game_state.inventory_aliens = 0;
    let grid_before = u.game_state.active_aliens.clone();
    let r = u.move_alien_from_inventory_to_active();
    assert_eq!(r.unwrap_err(), OpError::NoAliensInInventory);
    assert_eq!(u.game_state.active_aliens, grid_before);
    assert_eq!(u.game_state.inventory_aliens, 0);
}

#[test]
fn move_into_full_grid_rejected() {
    let mut u = state_with_grid(vec![1usize; 16], 1);
    let r = u.move_alien_from_inventory_to_active();
    assert_eq!(r.unwrap_err(), OpError::GridFull);
}

#[test]
fn move_places_into_first_empty_slot() {
    let mut u = base_state();
    // default grid: slots 0..10 hold 1, slots 10..16 are empty
    let inv = u.game_state.inventory_aliens;
    let r = u.move_alien_from_inventory_to_active();
    match r.unwrap() {
        OpResponse::Moved { slot, level } => {
            assert_eq!(slot, 10);
            assert!(level >= 1);
            assert_eq!(u.game_state.active_aliens[10], level);
        }
        _ => panic!("unexpected response"),
    }
    assert_eq!(u.game_state.inventory_aliens, inv - 1);
}

#[test]
fn delete_highest_always_rejected() {
    let mut grid = vec![1usize; 16];
    grid[3] = 9;
    let mut u = state_with_grid(grid, 1);
    let r = u.delete_alien_from_active(3);
    assert_eq!(r.unwrap_err(), OpError::CannotDeleteHighest);
    assert_eq!(u.game_state.active_aliens[3], 9);
}

#[test]
fn delete_other_occupied_slot_succeeds_and_zeroes_it() {
    let mut grid = vec![1usize; 16];
    grid[3] = 9;
    let mut u = state_with_grid(grid, 1);
    let r = u.delete_alien_from_active(5);
    assert!(r.is_ok());
    assert_eq!(u.game_state.active_aliens[5], 0);
    assert_eq!(u.game_state.active_aliens[3], 9);
}

#[test]
fn delete_out_of_range_rejected() {
    let mut u = base_state();
    assert_eq!(u.delete_alien_from_active(16).unwrap_err(), OpError::IndexOutOfRange);
}

#[test]
fn swap_trades_two_slots() {
    let mut grid = vec![0usize; 16];
    grid[0] = 7;
    grid[9] = 2;
    let mut u = state_with_grid(grid, 1);
    u.move_alien_in_grid(0, 9).unwrap();
    assert_eq!(u.game_state.active_aliens[0], 2);
    assert_eq!(u.game_state.active_aliens[9], 7);
}

#[test]
fn swap_out_of_range_rejected() {
    let mut u = base_state();
    assert_eq!(u.move_alien_in_grid(0, 99).unwrap_err(), OpError::IndexOutOfRange);
}

#[test]
fn spawn_powerup_appends() {
    let mut u = base_state();
    let before = u.game_state.power_ups.len();
    u.spawn_powerup(PowerUpKind::RowPowerUp).unwrap();
    assert_eq!(u.game_state.power_ups.len(), before + 1);
    assert_eq!(*u.game_state.power_ups.last().unwrap(), PowerUpKind::RowPowerUp);
}

#[test]
fn spawn_alien_increments_inventory() {
    let mut u = base_state();
    let before = u.game_state.inventory_aliens;
    u.spawn_alien_to_inventory().unwrap();
    assert_eq!(u.game_state.inventory_aliens, before + 1);
}

#[test]
fn column_powerup_boosts_only_occupied_column_slots() {
    let mut grid = vec![0usize; 16];
    grid[0] = 3; // column 0, row 0
    grid[4] = 0; // column 0, row 1: empty, must stay empty
    grid[8] = 1; // column 0, row 2
    grid[1] = 5; // other column, untouched
    let mut u = state_with_grid(grid, 1);
    u.game_state.power_ups = vec![PowerUpKind::ColumnPowerUp];
    let r = u.use_powerup(0, 0);
    assert!(r.is_ok());
    assert_eq!(u.game_state.active_aliens[0], 4);
    assert_eq!(u.game_state.active_aliens[4], 0);
    assert_eq!(u.game_state.active_aliens[8], 2);
    assert_eq!(u.game_state.active_aliens[1], 5);
    // the power-up was consumed
    assert_eq!(u.game_state.power_ups.len(), 0);
}

#[test]
fn row_powerup_boosts_only_occupied_row_slots() {
    let mut grid = vec![0usize; 16];
    grid[4] = 2;
    grid[5] = 0;
    grid[6] = 7;
    grid[7] = 1;
    grid[0] = 9; // other row
    let mut u = state_with_grid(grid, 1);
    u.game_state.power_ups = vec![PowerUpKind::RowPowerUp];
    u.use_powerup(0, 5).unwrap(); // target in row 1
    assert_eq!(u.game_state.active_aliens[4], 3);
    assert_eq!(u.game_state.active_aliens[5], 0);
    assert_eq!(u.game_state.active_aliens[6], 8);
    assert_eq!(u.game_state.active_aliens[7], 2);
    assert_eq!(u.game_state.active_aliens[0], 9);
}

#[test]
fn square_powerup_boosts_2x2_block() {
    let mut grid = vec![1usize; 16];
    let mut u = state_with_grid(grid.drain(..).collect(), 1);
    u.game_state.power_ups = vec![PowerUpKind::NearestSquarePowerUp];
    u.use_powerup(0, 0).unwrap(); // anchored at (0, 0): slots 0, 1, 4, 5
    assert_eq!(u.game_state.active_aliens[0], 2);
    assert_eq!(u.game_state.active_aliens[1], 2);
    assert_eq!(u.game_state.active_aliens[4], 2);
    assert_eq!(u.game_state.active_aliens[5], 2);
    assert_eq!(u.game_state.active_aliens[2], 1);
}

#[test]
fn second_use_of_consumed_powerup_is_invalid_index() {
    let mut u = base_state();
    u.game_state.power_ups = vec![PowerUpKind::RowPowerUp];
    assert!(u.use_powerup(0, 0).is_ok());
    let r = u.use_powerup(0, 0);
    assert_eq!(r.unwrap_err(), OpError::IndexOutOfRange);
}

#[test]
fn powerup_advances_daily_counter_and_credits_on_target() {
    let mut u = base_state();
    u.game_state.power_ups = vec![PowerUpKind::RowPowerUp];
    u.daily.daily_powerups = DailyCounter { current: 0, target: 1, completed: false };
    let total_before = u.daily.total_completed;
    let social_before = u.progress.social_score;
    u.use_powerup(0, 0).unwrap();
    assert_eq!(u.daily.daily_powerups.current, 1);
    assert!(u.daily.daily_powerups.completed);
    assert_eq!(u.daily.total_completed, total_before + 1);
    assert_eq!(u.progress.social_score, social_before + 2);
}

#[test]
fn claim_daily_reward_tier3_grants_creature_once() {
    let mut u = base_state();
    u.daily.total_completed = 3;
    let r = u.claim_daily_reward(3);
    assert!(r.is_ok());
    let earned = u.daily.alien_earned;
    assert!(earned.is_some());
    // second claim of the same tier is a no-op
    let snapshot_grid = u.game_state.active_aliens.clone();
    let snapshot_akai = u.progress.akai_balance;
    let snapshot_pus = u.game_state.power_ups.len();
    u.claim_daily_reward(3).unwrap();
    assert_eq!(u.daily.alien_earned, earned);
    assert_eq!(u.game_state.active_aliens, snapshot_grid);
    assert_eq!(u.progress.akai_balance, snapshot_akai);
    assert_eq!(u.game_state.power_ups.len(), snapshot_pus);
}

#[test]
fn claim_daily_reward_tier5_grants_powerup_once() {
    let mut u = base_state();
    u.daily.total_completed = 5;
    u.claim_daily_reward(5).unwrap();
    assert!(u.daily.pu_earned.is_some());
    let pus = u.game_state.power_ups.len();
    u.claim_daily_reward(5).unwrap();
    assert_eq!(u.game_state.power_ups.len(), pus);
}

#[test]
fn claim_below_threshold_is_noop() {
    let mut u = base_state();
    u.daily.total_completed = 2;
    let grid_before = u.game_state.active_aliens.clone();
    u.claim_daily_reward(3).unwrap();
    assert!(u.daily.alien_earned.is_none());
    assert_eq!(u.game_state.active_aliens, grid_before);
}

#[test]
fn generate_daily_tasks_gated_by_interval() {
    let mut u = base_state();
    u.daily.last_task_generation = 1_000_000;
    let content = merge_actor::op_resolver::DailyContent {
        links: vec![],
        mcq: vec![],
        text: vec![],
    };
    // 1 ms later: far too soon
    let r = u.generate_daily_tasks(1_000_001, content);
    assert_eq!(r.unwrap_err(), OpError::TasksNotAvailableYet);
}

#[test]
fn generate_daily_tasks_installs_fresh_bundle() {
    let mut u = base_state();
    u.daily.total_completed = 4;
    let pool = merge_actor::daily_task::LinkPool::default_pool();
    let links = pool.get_random_links(2);
    let content = merge_actor::op_resolver::DailyContent {
        links,
        mcq: vec![],
        text: vec![],
    };
    let now_ms = 13 * 60 * 60 * 1000; // 13 hours after epoch 0
    let r = u.generate_daily_tasks(now_ms, content);
    assert!(r.is_ok());
    assert_eq!(u.daily.links.len(), 2);
    assert!(u.daily.links.iter().all(|l| !l.visited));
    assert!(u.daily.daily_merge.target >= 5 && u.daily.daily_merge.target <= 15);
    assert!(u.daily.daily_annotate.target >= 3 && u.daily.daily_annotate.target <= 5);
    assert!(u.daily.daily_powerups.target >= 1 && u.daily.daily_powerups.target <= 4);
    assert_eq!(u.daily.total_completed, 0);
    assert_eq!(u.daily.last_task_generation, now_ms);
    assert!(u.daily.alien_earned.is_none());
}

#[test]
fn daily_task_quota_scales_with_skill() {
    let mut u = base_state();
    u.progress.iq = 40;
    assert_eq!(u.daily_task_quota(), (3, 4));
    u.progress.iq = 120;
    assert_eq!(u.daily_task_quota(), (9, 12));
}

#[test]
fn login_streak_extends_between_one_and_two_days() {
    let mut u = base_state();
    u.profile.last_login = 0;
    u.progress.streak = 4;
    let akai = u.progress.akai_balance;
    let pus = u.game_state.power_ups.len();
    let rw = u.calculate_last_login(130_000); // ~1.5 days
    assert!(rw.unwrap().is_reward);
    assert_eq!(u.progress.streak, 5);
    assert_eq!(u.profile.last_login, 130_000);
    assert_eq!(u.progress.akai_balance, akai + 20);
    assert_eq!(u.game_state.power_ups.len(), pus + 2);
}

#[test]
fn login_streak_resets_after_two_days() {
    let mut u = base_state();
    u.profile.last_login = 0;
    u.progress.streak = 4;
    let rw = u.calculate_last_login(200_000);
    assert!(rw.is_some());
    assert_eq!(u.progress.streak, 0);
}

#[test]
fn login_within_a_day_changes_nothing() {
    let mut u = base_state();
    u.profile.last_login = 1_000;
    let akai = u.progress.akai_balance;
    let rw = u.calculate_last_login(2_000);
    assert!(rw.is_none());
    assert_eq!(u.progress.akai_balance, akai);
    assert_eq!(u.profile.last_login, 1_000);
}

#[test]
fn hourly_grant_is_idempotent_within_window() {
    let mut u = base_state();
    u.profile.real_login = 0;
    let inv = u.game_state.inventory_aliens;
    u.apply_hourly_grant(3_600);
    assert_eq!(u.game_state.inventory_aliens, inv + 1);
    assert_eq!(u.profile.real_login, 3_600);
    // a second read inside the window grants nothing more
    u.apply_hourly_grant(3_700);
    assert_eq!(u.game_state.inventory_aliens, inv + 1);
}

#[test]
fn resolve_op_ping_answers_with_timestamp() {
    let mut u = base_state();
    let (r, outbox) = u.resolve_op(&Op::PingPong, CommandCtx::at(42_000));
    match r.unwrap() {
        OpResponse::Pong { timestamp_ms } => assert_eq!(timestamp_ms, 42_000),
        _ => panic!("unexpected response"),
    }
    assert!(outbox.is_none());
}

#[test]
fn resolve_op_missing_collaborator_rejected() {
    let mut u = base_state();
    let (r, _) = u.resolve_op(
        &Op::Register("secret".to_string()),
        CommandCtx { now_ms: 0, collab: Collab::NoCall },
    );
    assert_eq!(r.unwrap_err(), OpError::MissingCollaborator);
}

#[test]
fn resolve_op_sync_reports_storage_failure() {
    let mut u = base_state();
    let (r, _) = u.resolve_op(
        &Op::SyncData,
        CommandCtx { now_ms: 0, collab: Collab::StoreWrite(false) },
    );
    assert_eq!(r.unwrap_err(), OpError::StorageFailed);
    let (r2, _) = u.resolve_op(
        &Op::SyncData,
        CommandCtx { now_ms: 0, collab: Collab::StoreWrite(true) },
    );
    assert!(matches!(r2.unwrap(), OpResponse::Synced));
}

#[test]
fn grid_sum_drives_king_level() {
    let u = state_with_grid(vec![10usize; 16], 1);
    assert_eq!(grid_sum(&u), 160);
    // 160 / 50 + 1 = 4
    let mut v = u;
    let mut reward = merge_actor::types::Reward::none();
    merge_actor::utils::calculate_king_alien_lvl(&mut v, &mut reward);
    assert_eq!(v.game_state.king_lvl, 4);
    assert!(reward.is_reward);
}
