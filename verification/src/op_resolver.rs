use vstd::prelude::*;
use vstd::string::StringSliceAdditionalSpecFns;

use crate::crypto::CryptoInfo;
use crate::types::{
    clamp_usize, DailyCounter, DailyProgress, GameState, Links, McqVideoTask, NotifMeta,
    Notification, NotificationType, OpError, PowerUpKind, Progress, Reward, TextVideoTask,
    UserData, GRID_SIZE,
};
use crate::utils::{
    calculate_king_alien_lvl, calculate_product, first_zero_at_or_after, king_reward_fires,
    product_fixed, recalc_king_rel, sat_add, wf_grid,
};

verus! {

/// A game command addressed to one player's actor.
#[derive(Clone, Debug)]
pub enum Op {
    CombineAlien(usize, usize),
    MoveAlienFromInventoryToActive,
    SpawnAlienToInventory,
    DeleteAlienFromActive(usize),
    MoveAlienInGrid(usize, usize),
    SpawnPowerup(PowerUpKind),
    UsePowerup(usize, usize),
    GetData,
    Register(String),
    UpdateEmail(String),
    UpdatePfp(usize),
    UpdateUserName(Option<String>),
    UpdatePassword(String),
    AddNotificationInternal(Notification),
    MarkNotificationRead(String),
    ProcessNotificationMetadata(String),
    UseReferralCode(String),
    GenerateDailyTasks,
    CheckDailyTask(Option<String>),
    ClaimDailyReward(usize),
    SyncData,
    SubmitMcqAnswers(String, Vec<String>),
    SubmitTextAnswer(String, usize, String),
    PingPong,
    GetAvailableCryptos,
    ExchangeAkaiForCrypto(usize, String, String),
    GetCryptoExchangeAmount(usize, String),
}

/// Fresh external content for one daily-task bundle, fetched by the caller
/// from the task-content collaborator before the command is applied.
#[derive(Clone, Debug)]
pub struct DailyContent {
    pub links: Vec<Links>,
    pub mcq: Vec<McqVideoTask>,
    pub text: Vec<TextVideoTask>,
}

/// The pre-resolved result of the one outside call a command needs, handed in
/// with the command. Commands that need none take `NoCall`; a command that
/// needs one and finds the wrong variant is rejected without a state change.
#[derive(Debug)]
pub enum Collab {
    NoCall,
    /// Owner of a referral code in the relational store, if any.
    ReferralOwner(Option<String>),
    /// Whether the grading collaborator accepted a task submission.
    TaskSubmitted(bool),
    /// Fresh content for a daily bundle.
    DailyContent(DailyContent),
    /// Ledger transfer: transaction reference, or the ledger's error text.
    Transfer(Result<String, String>),
    /// Whether the relational store accepted a row write.
    StoreWrite(bool),
}

/// Per-command context the caller supplies: the wall clock and the
/// pre-resolved outside call, if the command needs one.
#[derive(Debug)]
pub struct CommandCtx {
    /// Wall clock, milliseconds.
    pub now_ms: u64,
    pub collab: Collab,
}

impl CommandCtx {
    /// Context for a command that needs no outside call.
    pub fn at(now_ms: u64) -> (c: CommandCtx)
        ensures
            c.now_ms == now_ms,
            c.collab is NoCall,
    {
        CommandCtx { now_ms, collab: Collab::NoCall }
    }

    /// Wall clock in whole seconds.
    pub fn now_s(&self) -> (s: u64)
        ensures
            s == self.now_ms / 1000,
    {
        self.now_ms / 1000
    }
}

/// What a successfully applied command hands back to the caller, which shapes
/// the wire response from it and from the new state.
#[derive(Clone, Debug)]
pub enum OpResponse {
    Combined { reward: Reward },
    Moved { slot: usize, level: usize },
    InventorySpawned,
    Deleted,
    Swapped,
    PowerupSpawned,
    PowerupUsed { reward: Reward },
    Data { login_reward: Option<Reward> },
    Registered,
    ProfileUpdated,
    NotificationAdded,
    NotificationRemoved,
    ReferralRecorded { referrer: String },
    DailyGenerated,
    DailyChecked { matched: bool },
    DailyRewardClaimed,
    McqSubmitted { reward: Reward },
    TextSubmitted { reward: Reward },
    Synced,
    NotificationProcessed,
    Pong { timestamp_ms: u64 },
    AvailableCryptos { cryptos: Vec<CryptoInfo> },
    Exchanged { tx_hash: String, new_balance: usize },
    QuoteChecked,
}

/// A cross-actor message queued by a command: the caller dispatches it to the
/// target actor after the command has been applied.
#[derive(Clone, Debug)]
pub struct OutboundNotification {
    pub target_user_id: String,
    pub notification: Notification,
}

/// Largest value of a grid, 0 for an all-empty one.
pub open spec fn max_slot(g: Seq<usize>) -> int
    decreases g.len(),
{
    if g.len() == 0 {
        0
    } else {
        let m = max_slot(g.drop_last());
        if g.last() > m {
            g.last() as int
        } else {
            m
        }
    }
}

/// How the grid maximum grows slot by slot.
pub proof fn lemma_max_take_step(g: Seq<usize>, i: int)
    requires
        0 <= i < g.len(),
    ensures
        max_slot(g.take(i + 1)) == if g[i] > max_slot(g.take(i)) {
            g[i] as int
        } else {
            max_slot(g.take(i))
        },
{
    assert(g.take(i + 1).drop_last() =~= g.take(i));
    assert(g.take(i + 1).last() == g[i]);
}

/// The grid maximum never goes below zero.
pub proof fn lemma_max_nonneg(g: Seq<usize>)
    ensures
        max_slot(g) >= 0,
    decreases g.len(),
{
    if g.len() > 0 {
        lemma_max_nonneg(g.drop_last());
    }
}

/// Largest creature level on the grid.
pub fn grid_max(g: &Vec<usize>) -> (m: usize)
    ensures
        m as int == max_slot(g@),
{
    let mut m: usize = 0;
    let mut i: usize = 0;
    proof {
        lemma_max_nonneg(g@);
    }
    while i < g.len()
        invariant
            0 <= i <= g@.len(),
            m as int == max_slot(g@.take(i as int)),
        decreases g@.len() - i,
    {
        proof {
            lemma_max_take_step(g@, i as int);
            lemma_max_nonneg(g@.take(i as int));
        }
        if g[i] > m {
            m = g[i];
        }
        i = i + 1;
    }
    proof {
        assert(g@.take(g@.len() as int) =~= g@);
    }
    m
}

/// Level of the creature that refills an emptied or newly occupied slot:
/// derived from the grid maximum, discounted by the king level, never below 1.
pub open spec fn spawn_level(g: Seq<usize>, king: int) -> int {
    let hs = max_slot(g);
    let d = 6 + king / 3;
    let sub = if hs >= d {
        hs - d
    } else {
        0
    };
    if sub >= 1 {
        sub
    } else {
        1
    }
}

/// One daily counter after one more unit of its activity.
pub open spec fn counter_after(c: DailyCounter) -> DailyCounter {
    DailyCounter {
        current: clamp_usize(c.current + 1) as usize,
        target: c.target,
        completed: if clamp_usize(c.current + 1) == c.target {
            true
        } else {
            c.completed
        },
    }
}

/// Whether one more unit of activity lands the counter exactly on its target,
/// which credits the daily goal.
pub open spec fn counter_credits(c: DailyCounter) -> bool {
    clamp_usize(c.current + 1) == c.target
}

/// Advances one daily counter on `self`, crediting the daily goal when the
/// counter lands exactly on its target: +1 completed goal and +2 social
/// score. Which of the three counters is advanced is chosen by the caller
/// through the getter and setter it hands in; this helper works on the value.
pub fn advance_counter(c: DailyCounter) -> (r: (DailyCounter, bool))
    ensures
        r.0 == counter_after(c),
        r.1 == counter_credits(c),
{
    let current = sat_add(c.current, 1);
    let credited = current == c.target;
    (
        DailyCounter {
            current,
            target: c.target,
            completed: if credited {
                true
            } else {
                c.completed
            },
        },
        credited,
    )
}

/// The state between the grid work of a merge and the king re-derivation:
/// the target slot has been incremented; the source slot has been refilled
/// from inventory (at the level the king level dictates) or emptied when the
/// inventory was; the merge counters have advanced, crediting the daily goal
/// when its target is hit.
pub open spec fn combine_mid(pre: UserData, m: UserData, a: int, b: int) -> bool {
    let g0 = pre.game_state.active_aliens@;
    let g1 = g0.update(a, clamp_usize(g0[a] + 1) as usize);
    let refill = pre.game_state.inventory_aliens > 0;
    let lvl = spawn_level(g1, pre.game_state.king_lvl as int) as usize;
    let g2 = if refill {
        g1.update(b, lvl)
    } else {
        g1.update(b, 0usize)
    };
    let credited = counter_credits(pre.daily.daily_merge);
    &&& m.game_state.active_aliens@ == g2
    &&& m.game_state.inventory_aliens == if refill {
        (pre.game_state.inventory_aliens - 1) as usize
    } else {
        0usize
    }
    &&& m.game_state.total_merged_aliens as int == clamp_usize(
        pre.game_state.total_merged_aliens + 1,
    )
    &&& m.game_state == (GameState {
        active_aliens: m.game_state.active_aliens,
        inventory_aliens: m.game_state.inventory_aliens,
        total_merged_aliens: m.game_state.total_merged_aliens,
        ..pre.game_state
    })
    &&& m.daily == (DailyProgress {
        daily_merge: counter_after(pre.daily.daily_merge),
        total_completed: m.daily.total_completed,
        ..pre.daily
    })
    &&& m.daily.total_completed as int == if credited {
        clamp_usize(pre.daily.total_completed + 1)
    } else {
        pre.daily.total_completed as int
    }
    &&& m.progress == (Progress { social_score: m.progress.social_score, ..pre.progress })
    &&& m.progress.social_score as int == if credited {
        clamp_usize(pre.progress.social_score + 2)
    } else {
        pre.progress.social_score as int
    }
    &&& m == (UserData {
        game_state: m.game_state,
        daily: m.daily,
        progress: m.progress,
        ..pre
    })
}

/// How a merge command changes the state: rejected without a change when the
/// two indices coincide or either is out of range; otherwise the grid and
/// counter work of `combine_mid`, then the king re-derivation (with its
/// possible reward step), then the product re-derivation.
pub open spec fn combine_rel(
    pre: UserData,
    post: UserData,
    a: int,
    b: int,
    result: Result<OpResponse, OpError>,
) -> bool {
    if a == b {
        result == Err::<OpResponse, OpError>(OpError::SameSlot) && post == pre
    } else if a >= GRID_SIZE || b >= GRID_SIZE {
        result == Err::<OpResponse, OpError>(OpError::IndexOutOfRange) && post == pre
    } else {
        &&& result is Ok
        &&& (exists|m: UserData, m2: UserData|
            combine_mid(pre, m, a, b) && #[trigger] recalc_king_rel(m, m2) && post
                == product_fixed(m2) && (match result {
                Ok(OpResponse::Combined { reward }) => reward.is_reward == king_reward_fires(m),
                _ => false,
            }))
    }
}

impl UserData {
    /// Merges the creature in slot `b` into slot `a`: the target slot gains a
    /// level, the source slot is refilled from inventory (or emptied when the
    /// inventory is), the merge counters advance, and the king level and
    /// product are re-derived. The king level never decreases.
    pub fn combine_alien(&mut self, a: usize, b: usize) -> (r: Result<OpResponse, OpError>)
        requires
            wf_grid(*old(self)),
        ensures
            wf_grid(*final(self)),
            combine_rel(*old(self), *final(self), a as int, b as int, r),
            final(self).game_state.king_lvl >= old(self).game_state.king_lvl,
            r matches Ok(resp) ==> resp is Combined,
    {
        if a == b {
            return Err(OpError::SameSlot);
        }
        if a >= GRID_SIZE || b >= GRID_SIZE {
            return Err(OpError::IndexOutOfRange);
        }
        let bumped = sat_add(self.game_state.active_aliens[a], 1);
        self.game_state.active_aliens.set(a, bumped);
        if self.game_state.inventory_aliens > 0 {
            self.game_state.inventory_aliens = self.game_state.inventory_aliens - 1;
            let highest = grid_max(&self.game_state.active_aliens);
            let discount = 6 + self.game_state.king_lvl / 3;
            let sub = highest.saturating_sub(discount);
            let lvl = if sub >= 1 {
                sub
            } else {
                1
            };
            self.game_state.active_aliens.set(b, lvl);
        } else {
            self.game_state.active_aliens.set(b, 0);
        }
        self.game_state.total_merged_aliens = sat_add(self.game_state.total_merged_aliens, 1);
        let (dm, credited) = advance_counter(self.daily.daily_merge);
        self.daily.daily_merge = dm;
        if credited {
            self.daily.total_completed = sat_add(self.daily.total_completed, 1);
            self.progress.social_score = sat_add(self.progress.social_score, 2);
        }
        let ghost m = *self;
        let mut reward = Reward::none();
        calculate_king_alien_lvl(self, &mut reward);
        let ghost m2 = *self;
        calculate_product(self);
        proof {
            assert(combine_mid(*old(self), m, a as int, b as int));
            assert(recalc_king_rel(m, m2));
            assert(*self == product_fixed(m2));
        }
        Ok(OpResponse::Combined { reward })
    }

    /// Moves one creature from the inventory into the first empty grid slot,
    /// at a level derived from the king level: rejected when the inventory is
    /// empty or the grid is full, with no state change.
    pub fn move_alien_from_inventory_to_active(&mut self) -> (r: Result<OpResponse, OpError>)
        requires
            wf_grid(*old(self)),
        ensures
            wf_grid(*final(self)),
            move_from_inventory_rel(*old(self), *final(self), r),
    {
        if self.game_state.inventory_aliens == 0 {
            return Err(OpError::NoAliensInInventory);
        }
        let mut j: usize = 0;
        while j < GRID_SIZE && self.game_state.active_aliens[j] != 0
            invariant
                0 <= j <= GRID_SIZE,
                *self == *old(self),
                wf_grid(*self),
                first_zero_at_or_after(self.game_state.active_aliens@, 0)
                    == first_zero_at_or_after(self.game_state.active_aliens@, j as int),
            decreases GRID_SIZE - j,
        {
            j = j + 1;
        }
        if j >= GRID_SIZE {
            return Err(OpError::GridFull);
        }
        self.game_state.inventory_aliens = self.game_state.inventory_aliens - 1;
        let highest = grid_max(&self.game_state.active_aliens);
        let discount = 6 + self.game_state.king_lvl / 3;
        let sub = highest.saturating_sub(discount);
        let lvl = if sub >= 1 {
            sub
        } else {
            1
        };
        self.game_state.active_aliens.set(j, lvl);
        Ok(OpResponse::Moved { slot: j, level: lvl })
    }

    /// Adds one creature to the inventory counter; no grid mutation.
    pub fn spawn_alien_to_inventory(&mut self) -> (r: Result<OpResponse, OpError>)
        ensures
            final(self).game_state.inventory_aliens as int == clamp_usize(
                old(self).game_state.inventory_aliens + 1,
            ),
            *final(self) == (UserData {
                game_state: GameState {
                    inventory_aliens: final(self).game_state.inventory_aliens,
                    ..old(self).game_state
                },
                ..*old(self)
            }),
            r == Ok::<OpResponse, OpError>(OpResponse::InventorySpawned),
    {
        self.game_state.inventory_aliens = sat_add(self.game_state.inventory_aliens, 1);
        Ok(OpResponse::InventorySpawned)
    }

    /// Deletes the creature in one grid slot: the slot holding the current
    /// maximum value is protected and the command is rejected; any other slot
    /// is set to 0. No other field changes.
    pub fn delete_alien_from_active(&mut self, idx: usize) -> (r: Result<OpResponse, OpError>)
        requires
            wf_grid(*old(self)),
        ensures
            wf_grid(*final(self)),
            delete_rel(*old(self), *final(self), idx as int, r),
    {
        if idx >= GRID_SIZE {
            return Err(OpError::IndexOutOfRange);
        }
        let highest = grid_max(&self.game_state.active_aliens);
        if self.game_state.active_aliens[idx] == highest {
            return Err(OpError::CannotDeleteHighest);
        }
        self.game_state.active_aliens.set(idx, 0);
        Ok(OpResponse::Deleted)
    }

    /// Swaps the contents of two grid slots; no other side effect.
    pub fn move_alien_in_grid(&mut self, from: usize, to: usize) -> (r: Result<
        OpResponse,
        OpError,
    >)
        requires
            wf_grid(*old(self)),
        ensures
            wf_grid(*final(self)),
            swap_rel(*old(self), *final(self), from as int, to as int, r),
    {
        if from >= GRID_SIZE || to >= GRID_SIZE {
            return Err(OpError::IndexOutOfRange);
        }
        let v_from = self.game_state.active_aliens[from];
        let v_to = self.game_state.active_aliens[to];
        self.game_state.active_aliens.set(from, v_to);
        self.game_state.active_aliens.set(to, v_from);
        Ok(OpResponse::Swapped)
    }

    /// Adds one power-up of the given kind to the player's stock.
    pub fn spawn_powerup(&mut self, kind: PowerUpKind) -> (r: Result<OpResponse, OpError>)
        ensures
            final(self).game_state.power_ups@ == old(self).game_state.power_ups@.push(kind),
            *final(self) == (UserData {
                game_state: GameState {
                    power_ups: final(self).game_state.power_ups,
                    ..old(self).game_state
                },
                ..*old(self)
            }),
            r == Ok::<OpResponse, OpError>(OpResponse::PowerupSpawned),
    {
        self.game_state.power_ups.push(kind);
        Ok(OpResponse::PowerupSpawned)
    }

    /// Consumes the power-up at `idx` and applies its area of effect around
    /// `target_pos`: a full column, a full row, or a 2-by-2 block, each
    /// raising only non-empty slots; then re-derives the king level (with its
    /// possible reward step), advances the daily power-up counter, and
    /// re-derives the product. The king level never decreases.
    #[verifier::rlimit(60)]
    pub fn use_powerup(&mut self, idx: usize, target_pos: usize) -> (r: Result<
        OpResponse,
        OpError,
    >)
        requires
            wf_grid(*old(self)),
        ensures
            wf_grid(*final(self)),
            use_powerup_rel(*old(self), *final(self), idx as int, target_pos as int, r),
            final(self).game_state.king_lvl >= old(self).game_state.king_lvl,
    {
        if idx >= self.game_state.power_ups.len() || target_pos >= GRID_SIZE {
            return Err(OpError::IndexOutOfRange);
        }
        let power_up = self.game_state.power_ups.swap_remove(idx);
        let ghost s1 = *self;
        let ghost g0 = self.game_state.active_aliens@;
        match power_up {
            PowerUpKind::ColumnPowerUp => {
                let col = target_pos % 4;
                let mut row: usize = 0;
                while row < 4
                    invariant
                        0 <= row <= 4,
                        col < 4,
                        self.game_state.active_aliens@.len() == GRID_SIZE,
                        forall|t: int|
                            0 <= t < GRID_SIZE ==> self.game_state.active_aliens@[t] == (
                            if t % 4 == col && t / 4 < row {
                                boost_slot(g0[t])
                            } else {
                                g0[t]
                            }),
                        *self == (UserData {
                            game_state: GameState {
                                active_aliens: self.game_state.active_aliens,
                                ..s1.game_state
                            },
                            ..s1
                        }),
                    decreases 4 - row,
                {
                    let index = row * 4 + col;
                    if self.game_state.active_aliens[index] > 0 {
                        let b = sat_add(self.game_state.active_aliens[index], 1);
                        self.game_state.active_aliens.set(index, b);
                    }
                    row = row + 1;
                }
                proof {
                    assert(self.game_state.active_aliens@ =~= boost_column(g0, col as int));
                }
            },
            PowerUpKind::RowPowerUp => {
                let rw = target_pos / 4;
                let mut col: usize = 0;
                while col < 4
                    invariant
                        0 <= col <= 4,
                        rw < 4,
                        self.game_state.active_aliens@.len() == GRID_SIZE,
                        forall|t: int|
                            0 <= t < GRID_SIZE ==> self.game_state.active_aliens@[t] == (
                            if t / 4 == rw && t % 4 < col {
                                boost_slot(g0[t])
                            } else {
                                g0[t]
                            }),
                        *self == (UserData {
                            game_state: GameState {
                                active_aliens: self.game_state.active_aliens,
                                ..s1.game_state
                            },
                            ..s1
                        }),
                    decreases 4 - col,
                {
                    let index = rw * 4 + col;
                    if self.game_state.active_aliens[index] > 0 {
                        let b = sat_add(self.game_state.active_aliens[index], 1);
                        self.game_state.active_aliens.set(index, b);
                    }
                    col = col + 1;
                }
                proof {
                    assert(self.game_state.active_aliens@ =~= boost_row(g0, rw as int));
                }
            },
            PowerUpKind::NearestSquarePowerUp => {
                let x = target_pos % 4;
                let y = target_pos / 4;
                let i0 = y * 4 + x;
                if self.game_state.active_aliens[i0] > 0 {
                    let b = sat_add(self.game_state.active_aliens[i0], 1);
                    self.game_state.active_aliens.set(i0, b);
                }
                if x + 1 < 4 {
                    let i1 = y * 4 + x + 1;
                    if self.game_state.active_aliens[i1] > 0 {
                        let b = sat_add(self.game_state.active_aliens[i1], 1);
                        self.game_state.active_aliens.set(i1, b);
                    }
                }
                if y + 1 < 4 {
                    let i2 = (y + 1) * 4 + x;
                    if self.game_state.active_aliens[i2] > 0 {
                        let b = sat_add(self.game_state.active_aliens[i2], 1);
                        self.game_state.active_aliens.set(i2, b);
                    }
                }
                if x + 1 < 4 && y + 1 < 4 {
                    let i3 = (y + 1) * 4 + x + 1;
                    if self.game_state.active_aliens[i3] > 0 {
                        let b = sat_add(self.game_state.active_aliens[i3], 1);
                        self.game_state.active_aliens.set(i3, b);
                    }
                }
                proof {
                    assert forall|t: int| 0 <= t < GRID_SIZE implies self.game_state.active_aliens@[t]
                        == (if in_square(t, x as int, y as int) {
                        boost_slot(g0[t])
                    } else {
                        g0[t]
                    }) by {
                        assert(t == 4 * (t / 4) + t % 4);
                    }
                    assert(self.game_state.active_aliens@ =~= boost_square(
                        g0,
                        x as int,
                        y as int,
                    ));
                }
            },
        }
        let ghost m = *self;
        let mut reward = Reward::none();
        calculate_king_alien_lvl(self, &mut reward);
        let ghost m2 = *self;
        let (dp, credited) = advance_counter(self.daily.daily_powerups);
        self.daily.daily_powerups = dp;
        if credited {
            self.daily.total_completed = sat_add(self.daily.total_completed, 1);
            self.progress.social_score = sat_add(self.progress.social_score, 2);
        }
        calculate_product(self);
        proof {
            assert(powerup_mid(*old(self), m, idx as int, target_pos as int));
            assert(recalc_king_rel(m, m2));
            assert(*self == product_fixed(powerup_counter_stage(m2)));
        }
        Ok(OpResponse::PowerupUsed { reward })
    }
}

/// A non-empty slot gains one level (saturating); an empty one stays empty.
pub open spec fn boost_slot(v: usize) -> usize {
    if v > 0 {
        clamp_usize(v + 1) as usize
    } else {
        v
    }
}

/// The grid after a column power-up lands on column `col`: every non-empty
/// slot of that column gains one level.
pub open spec fn boost_column(g: Seq<usize>, col: int) -> Seq<usize> {
    Seq::new(
        g.len(),
        |t: int|
            if t % 4 == col {
                boost_slot(g[t])
            } else {
                g[t]
            },
    )
}

/// The grid after a row power-up lands on row `row`: every non-empty slot of
/// that row gains one level.
pub open spec fn boost_row(g: Seq<usize>, row: int) -> Seq<usize> {
    Seq::new(
        g.len(),
        |t: int|
            if t / 4 == row {
                boost_slot(g[t])
            } else {
                g[t]
            },
    )
}

/// Whether slot `t` lies in the 2-by-2 block anchored at column `x`, row `y`.
pub open spec fn in_square(t: int, x: int, y: int) -> bool {
    (t % 4 == x || t % 4 == x + 1) && (t / 4 == y || t / 4 == y + 1)
}

/// The grid after a 2-by-2 power-up lands anchored at column `x`, row `y`:
/// every non-empty slot of the block (clipped at the grid edge) gains one
/// level.
pub open spec fn boost_square(g: Seq<usize>, x: int, y: int) -> Seq<usize> {
    Seq::new(
        g.len(),
        |t: int|
            if in_square(t, x, y) {
                boost_slot(g[t])
            } else {
                g[t]
            },
    )
}

/// The grid after one power-up of the given kind lands on `target`.
pub open spec fn boost_by(g: Seq<usize>, pu: PowerUpKind, target: int) -> Seq<usize> {
    match pu {
        PowerUpKind::ColumnPowerUp => boost_column(g, target % 4),
        PowerUpKind::RowPowerUp => boost_row(g, target / 4),
        PowerUpKind::NearestSquarePowerUp => boost_square(g, target % 4, target / 4),
    }
}

/// The state between the grid work of a power-up use and the king
/// re-derivation: the power-up at `idx` has been consumed (swap-removed) and
/// its area of effect applied to the grid.
pub open spec fn powerup_mid(pre: UserData, m: UserData, idx: int, target: int) -> bool {
    let pus = pre.game_state.power_ups@;
    let pu = pus[idx];
    &&& m.game_state.power_ups@ == pus.update(idx, pus.last()).drop_last()
    &&& m.game_state.active_aliens@ == boost_by(pre.game_state.active_aliens@, pu, target)
    &&& m == (UserData {
        game_state: GameState {
            active_aliens: m.game_state.active_aliens,
            power_ups: m.game_state.power_ups,
            ..pre.game_state
        },
        ..pre
    })
}

/// The state after the daily power-up counter advances, crediting the daily
/// goal when the counter lands exactly on its target.
pub open spec fn powerup_counter_stage(u: UserData) -> UserData {
    let credited = counter_credits(u.daily.daily_powerups);
    UserData {
        daily: DailyProgress {
            daily_powerups: counter_after(u.daily.daily_powerups),
            total_completed: if credited {
                clamp_usize(u.daily.total_completed + 1) as usize
            } else {
                u.daily.total_completed
            },
            ..u.daily
        },
        progress: Progress {
            social_score: if credited {
                clamp_usize(u.progress.social_score + 2) as usize
            } else {
                u.progress.social_score
            },
            ..u.progress
        },
        ..u
    }
}

/// How a power-up use changes the state: rejected without a change when the
/// power-up index or the target slot is out of range; otherwise the power-up
/// is consumed and its area of effect applied, the king level is re-derived
/// (with its possible reward step), the daily power-up counter advances, and
/// the product is re-derived.
pub open spec fn use_powerup_rel(
    pre: UserData,
    post: UserData,
    idx: int,
    target: int,
    result: Result<OpResponse, OpError>,
) -> bool {
    if idx >= pre.game_state.power_ups@.len() || target >= GRID_SIZE {
        result == Err::<OpResponse, OpError>(OpError::IndexOutOfRange) && post == pre
    } else {
        &&& result is Ok
        &&& (exists|m: UserData, m2: UserData|
            powerup_mid(pre, m, idx, target) && #[trigger] recalc_king_rel(m, m2) && post
                == product_fixed(powerup_counter_stage(m2)) && (match result {
                Ok(OpResponse::PowerupUsed { reward }) => reward.is_reward == king_reward_fires(
                    m,
                ),
                _ => false,
            }))
    }
}

/// How a move from the inventory changes the state: rejected when the
/// inventory is empty, then when the grid has no empty slot; otherwise one
/// inventory unit is consumed and a creature at the level the king level
/// dictates lands in the first empty slot.
pub open spec fn move_from_inventory_rel(
    pre: UserData,
    post: UserData,
    result: Result<OpResponse, OpError>,
) -> bool {
    let g = pre.game_state.active_aliens@;
    let slot = first_zero_at_or_after(g, 0);
    let lvl = spawn_level(g, pre.game_state.king_lvl as int) as usize;
    if pre.game_state.inventory_aliens == 0 {
        result == Err::<OpResponse, OpError>(OpError::NoAliensInInventory) && post == pre
    } else if slot >= GRID_SIZE {
        result == Err::<OpResponse, OpError>(OpError::GridFull) && post == pre
    } else {
        &&& post.game_state.active_aliens@ == g.update(slot, lvl)
        &&& post == (UserData {
            game_state: GameState {
                active_aliens: post.game_state.active_aliens,
                inventory_aliens: (pre.game_state.inventory_aliens - 1) as usize,
                ..pre.game_state
            },
            ..pre
        })
        &&& result == Ok::<OpResponse, OpError>(
            OpResponse::Moved { slot: slot as usize, level: lvl },
        )
    }
}

/// How a delete changes the state: an index out of range is rejected; the
/// slot holding the current maximum value is protected and the command is
/// rejected; any other slot is emptied, and nothing else changes.
pub open spec fn delete_rel(
    pre: UserData,
    post: UserData,
    idx: int,
    result: Result<OpResponse, OpError>,
) -> bool {
    let g = pre.game_state.active_aliens@;
    if idx >= GRID_SIZE {
        result == Err::<OpResponse, OpError>(OpError::IndexOutOfRange) && post == pre
    } else if g[idx] == max_slot(g) {
        result == Err::<OpResponse, OpError>(OpError::CannotDeleteHighest) && post == pre
    } else {
        &&& post.game_state.active_aliens@ == g.update(idx, 0usize)
        &&& post == (UserData {
            game_state: GameState {
                active_aliens: post.game_state.active_aliens,
                ..pre.game_state
            },
            ..pre
        })
        &&& result == Ok::<OpResponse, OpError>(OpResponse::Deleted)
    }
}

/// A value adjusted by a signed delta, clamped to the usize range.
pub open spec fn signed_adjust(x: int, d: int) -> int {
    if x + d < 0 {
        0
    } else if x + d > usize::MAX as int {
        usize::MAX as int
    } else {
        x + d
    }
}

/// Applies a signed delta to a counter, clamping at zero and at usize::MAX.
pub fn apply_signed(x: usize, d: i64) -> (r: usize)
    ensures
        r as int == signed_adjust(x as int, d as int),
{
    if d >= 0 {
        let du = d as u64;
        if du > usize::MAX as u64 {
            usize::MAX
        } else {
            sat_add(x, du as usize)
        }
    } else {
        let mag64 = (-(d + 1)) as u64 + 1;
        let mag = if mag64 > usize::MAX as u64 {
            usize::MAX
        } else {
            mag64 as usize
        };
        x.saturating_sub(mag)
    }
}

/// Index of the first notification carrying the given id at or after `i`, or
/// the list length when there is none.
pub open spec fn notif_index_from(ns: Seq<Notification>, id: Seq<char>, i: int) -> int
    decreases ns.len() - i,
    when 0 <= i <= ns.len()
{
    if i >= ns.len() {
        ns.len() as int
    } else if ns[i].notification_id@ == id {
        i
    } else {
        notif_index_from(ns, id, i + 1)
    }
}

/// The read state an incoming notification is stored with: claimable for the
/// two reward-bearing kinds, untouched otherwise.
pub open spec fn stored_read_state(n: Notification) -> crate::types::Read {
    if n.notification_type == NotificationType::Referral || n.notification_type
        == NotificationType::Performance {
        crate::types::Read::Claim
    } else {
        n.read
    }
}

/// How applying an incoming notification changes the state: it is appended
/// to the list, marked claimable when it is of a reward-bearing kind.
pub open spec fn add_notification_rel(
    pre: UserData,
    post: UserData,
    n: Notification,
    result: Result<OpResponse, OpError>,
) -> bool {
    &&& post.notifications@ == pre.notifications@.push(
        Notification { read: stored_read_state(n), ..n },
    )
    &&& post == (UserData { notifications: post.notifications, ..pre })
    &&& result == Ok::<OpResponse, OpError>(OpResponse::NotificationAdded)
}

/// How marking a notification read changes the state: an unknown id is
/// rejected; a known one has its entry removed from the list.
pub open spec fn mark_read_rel(
    pre: UserData,
    post: UserData,
    id: Seq<char>,
    result: Result<OpResponse, OpError>,
) -> bool {
    let ns = pre.notifications@;
    let idx = notif_index_from(ns, id, 0);
    if idx >= ns.len() {
        result == Err::<OpResponse, OpError>(OpError::NotificationNotFound) && post == pre
    } else {
        &&& post.notifications@ == ns.remove(idx)
        &&& post == (UserData { notifications: post.notifications, ..pre })
        &&& result == Ok::<OpResponse, OpError>(OpResponse::NotificationRemoved)
    }
}

/// How processing a notification's reward changes the state: an unknown id
/// is rejected; a Referral grants a fixed +10 social score and +50 currency;
/// a Performance applies the signed currency and skill deltas carried in its
/// metadata, the skill score never dropping below zero; a System notification
/// grants nothing. The processed entry is set back to unread, and the
/// product is re-derived.
pub open spec fn process_notification_rel(
    pre: UserData,
    post: UserData,
    id: Seq<char>,
    result: Result<OpResponse, OpError>,
) -> bool {
    let ns = pre.notifications@;
    let idx = notif_index_from(ns, id, 0);
    if idx >= ns.len() {
        result == Err::<OpResponse, OpError>(OpError::NotificationNotFound) && post == pre
    } else {
        let n = ns[idx];
        let akai_delta: int = match n.metadata {
            Some(m) => m.akai_delta as int,
            None => 0,
        };
        let iq_delta: int = match n.metadata {
            Some(m) => m.iq_delta as int,
            None => 0,
        };
        let mid = match n.notification_type {
            NotificationType::Referral => UserData {
                progress: Progress {
                    social_score: clamp_usize(pre.progress.social_score + 10) as usize,
                    akai_balance: clamp_usize(pre.progress.akai_balance + 50) as usize,
                    ..pre.progress
                },
                notifications: post.notifications,
                ..pre
            },
            NotificationType::Performance => UserData {
                progress: Progress {
                    akai_balance: signed_adjust(pre.progress.akai_balance as int, akai_delta)
                        as usize,
                    iq: signed_adjust(pre.progress.iq as int, iq_delta) as usize,
                    ..pre.progress
                },
                notifications: post.notifications,
                ..pre
            },
            NotificationType::System => UserData { notifications: post.notifications, ..pre },
        };
        &&& post.notifications@ == (match n.notification_type {
            NotificationType::System => ns,
            _ => ns.update(idx, Notification { read: crate::types::Read::No, ..n }),
        })
        &&& post == product_fixed(mid)
        &&& result == Ok::<OpResponse, OpError>(OpResponse::NotificationProcessed)
    }
}

/// How using a referral code changes the state, given the owner the store
/// resolved the code to: no owner rejects the code; the caller owning it is
/// rejected; otherwise the caller's referral counter rises by one and a
/// Referral notification addressed to the owner is queued for dispatch.
pub open spec fn use_referral_rel(
    pre: UserData,
    post: UserData,
    owner: Option<String>,
    result: Result<OpResponse, OpError>,
    outbox: Option<OutboundNotification>,
) -> bool {
    match owner {
        None => result == Err::<OpResponse, OpError>(OpError::InvalidReferralCode) && post == pre
            && outbox is None,
        Some(referrer) => {
            if referrer@ == pre.profile.user_id@ {
                result == Err::<OpResponse, OpError>(OpError::OwnReferralCode) && post == pre
                    && outbox is None
            } else {
                &&& post == (UserData {
                    social: crate::types::SocialData {
                        players_referred: clamp_usize(pre.social.players_referred + 1) as usize,
                        ..pre.social
                    },
                    ..pre
                })
                &&& (match outbox {
                    Some(out) => {
                        &&& out.target_user_id@ == referrer@
                        &&& out.notification.user_id@ == referrer@
                        &&& out.notification.notification_type == NotificationType::Referral
                        &&& out.notification.message@ == "Your referral code was used!"@
                        &&& out.notification.read == crate::types::Read::No
                        &&& (match out.notification.metadata {
                            Some(m) => m.used_by == Some(pre.profile.user_id),
                            None => false,
                        })
                    },
                    None => false,
                })
                &&& (result matches Ok(resp) ==> resp is ReferralRecorded)
                &&& result is Ok
            }
        },
    }
}

/// How a swap changes the state: both indices must be in range; the two slot
/// contents trade places, and nothing else changes.
pub open spec fn swap_rel(
    pre: UserData,
    post: UserData,
    from: int,
    to: int,
    result: Result<OpResponse, OpError>,
) -> bool {
    let g = pre.game_state.active_aliens@;
    if from >= GRID_SIZE || to >= GRID_SIZE {
        result == Err::<OpResponse, OpError>(OpError::IndexOutOfRange) && post == pre
    } else {
        &&& post.game_state.active_aliens@ == g.update(from, g[to]).update(to, g[from])
        &&& post == (UserData {
            game_state: GameState {
                active_aliens: post.game_state.active_aliens,
                ..pre.game_state
            },
            ..pre
        })
        &&& result == Ok::<OpResponse, OpError>(OpResponse::Swapped)
    }
}

/// Seconds in one day, for the login streak.
pub const ONE_DAY_S: u64 = 60 * 60 * 24;

/// Seconds after which the passive hourly inventory grant is due again.
pub const HOURLY_GRANT_S: u64 = 60 * 60;

/// Milliseconds that must elapse before a fresh daily-task bundle may be
/// generated.
pub const DAILY_TASK_INTERVAL_MS: u64 = 12 * 60 * 60 * 1000;

/// Skill points granted for one accepted multiple-choice submission.
pub const MCQ_IQ_GAIN: usize = 2;

/// Currency granted for one accepted multiple-choice submission.
pub const MCQ_AKAI_GAIN: usize = 3;

/// Skill points granted for one accepted free-text submission.
pub const TEXT_IQ_GAIN: usize = 3;

/// Currency granted for one accepted free-text submission.
pub const TEXT_AKAI_GAIN: usize = 4;

/// Elapsed time with a clock that may have moved backwards: never negative.
pub open spec fn elapsed_s(now: int, then: int) -> int {
    if now >= then {
        now - then
    } else {
        0
    }
}

/// The state after the daily login grant lands on it: +20 currency and two
/// random power-ups. The streak and timestamp changes live in
/// `login_streak_rel`; this only describes the grant.
pub open spec fn login_grant_rel(pre: UserData, post: UserData) -> bool {
    &&& post.progress.akai_balance as int == clamp_usize(pre.progress.akai_balance + 20)
    &&& (exists|p1: PowerUpKind, p2: PowerUpKind|
        post.game_state.power_ups@ == pre.game_state.power_ups@.push(p1).push(p2))
    &&& post.progress == (Progress { akai_balance: post.progress.akai_balance, ..pre.progress })
    &&& post.game_state == (GameState {
        power_ups: post.game_state.power_ups,
        ..pre.game_state
    })
    &&& post == (UserData { progress: post.progress, game_state: post.game_state, ..pre })
}

/// How the daily login check changes the state: between one and two days
/// since the last login extends the streak and grants the daily reward; two
/// days or more reset the streak and still grant it; anything less changes
/// nothing. The reward is granted at most once per day because the
/// timestamp moves to `now`.
pub open spec fn login_streak_rel(
    pre: UserData,
    post: UserData,
    now_s: int,
    r: Option<Reward>,
) -> bool {
    let e = elapsed_s(now_s, pre.profile.last_login as int);
    if e > ONE_DAY_S && e < 2 * ONE_DAY_S {
        &&& (exists|m: UserData|
            m == (UserData {
                profile: crate::types::UserProfile {
                    last_login: now_s as u64,
                    ..pre.profile
                },
                progress: Progress {
                    streak: clamp_usize(pre.progress.streak + 1) as usize,
                    ..pre.progress
                },
                ..pre
            }) && #[trigger] login_grant_rel(m, post))
        &&& (r matches Some(rw) && rw.is_reward)
    } else if e >= 2 * ONE_DAY_S {
        &&& (exists|m: UserData|
            m == (UserData {
                profile: crate::types::UserProfile {
                    last_login: now_s as u64,
                    ..pre.profile
                },
                progress: Progress { streak: 0, ..pre.progress },
                ..pre
            }) && #[trigger] login_grant_rel(m, post))
        &&& (r matches Some(rw) && rw.is_reward)
    } else {
        post == pre && r is None
    }
}

/// How the passive hourly grant changes the state: one inventory unit per
/// read, at most once per hour, idempotent within the gating window.
pub open spec fn hourly_grant_rel(pre: UserData, post: UserData, now_s: int) -> bool {
    if elapsed_s(now_s, pre.profile.real_login as int) >= HOURLY_GRANT_S {
        post == (UserData {
            profile: crate::types::UserProfile { real_login: now_s as u64, ..pre.profile },
            game_state: GameState {
                inventory_aliens: clamp_usize(pre.game_state.inventory_aliens + 1) as usize,
                ..pre.game_state
            },
            ..pre
        })
    } else {
        post == pre
    }
}

/// Index of the first unvisited link with the given url at or after `i`, or
/// the list length when there is none.
pub open spec fn link_index_from(ls: Seq<Links>, url: Seq<char>, i: int) -> int
    decreases ls.len() - i,
    when 0 <= i <= ls.len()
{
    if i >= ls.len() {
        ls.len() as int
    } else if ls[i].url@ == url && !ls[i].visited {
        i
    } else {
        link_index_from(ls, url, i + 1)
    }
}

/// How checking a daily link-visit task changes the state: with no url, or
/// with one that matches no unvisited link, nothing changes; otherwise the
/// first matching link is marked visited, +2 social score, one more daily
/// goal completed, and the product is re-derived.
pub open spec fn check_daily_rel(
    pre: UserData,
    post: UserData,
    maybe_url: Option<String>,
    result: Result<OpResponse, OpError>,
) -> bool {
    match maybe_url {
        None => post == pre && result == Ok::<OpResponse, OpError>(
            OpResponse::DailyChecked { matched: false },
        ),
        Some(u) => {
            let ls = pre.daily.links@;
            let idx = link_index_from(ls, u@, 0);
            if idx >= ls.len() {
                post == pre && result == Ok::<OpResponse, OpError>(
                    OpResponse::DailyChecked { matched: false },
                )
            } else {
                &&& post.daily.links@ == ls.update(idx, Links { visited: true, ..ls[idx] })
                &&& post == product_fixed(
                    UserData {
                        daily: DailyProgress {
                            links: post.daily.links,
                            total_completed: clamp_usize(pre.daily.total_completed + 1) as usize,
                            ..pre.daily
                        },
                        progress: Progress {
                            social_score: clamp_usize(pre.progress.social_score + 2) as usize,
                            ..pre.progress
                        },
                        ..pre
                    },
                )
                &&& result == Ok::<OpResponse, OpError>(OpResponse::DailyChecked { matched: true })
            }
        },
    }
}

/// How generating a fresh daily bundle changes the state: rejected while the
/// minimum interval since the last generation has not elapsed; otherwise the
/// fetched links (handed out unvisited) and tasks replace the bundle, the
/// three counters restart at zero with fresh random targets sized as the
/// collaborator rules say, the one-time grants reset, and the generation
/// timestamp moves to now.
pub open spec fn generate_daily_rel(
    pre: UserData,
    post: UserData,
    now_ms: int,
    content: DailyContent,
    result: Result<OpResponse, OpError>,
) -> bool {
    if elapsed_s(now_ms, pre.daily.last_task_generation as int) < DAILY_TASK_INTERVAL_MS {
        result == Err::<OpResponse, OpError>(OpError::TasksNotAvailableYet) && post == pre
    } else {
        &&& post.daily.links@.len() == content.links@.len()
        &&& (forall|i: int|
            0 <= i < content.links@.len() ==> #[trigger] post.daily.links@[i] == (Links {
                visited: false,
                ..content.links@[i]
            }))
        &&& post.daily.mcq_video_tasks@ == content.mcq@
        &&& post.daily.text_video_tasks@ == content.text@
        &&& post.daily.daily_merge.current == 0 && !post.daily.daily_merge.completed && 5
            <= post.daily.daily_merge.target <= 15
        &&& post.daily.daily_annotate.current == 0 && !post.daily.daily_annotate.completed && 3
            <= post.daily.daily_annotate.target <= 5
        &&& post.daily.daily_powerups.current == 0 && !post.daily.daily_powerups.completed && 1
            <= post.daily.daily_powerups.target <= 4
        &&& post.daily.total_completed == 0
        &&& post.daily.alien_earned is None
        &&& post.daily.pu_earned is None
        &&& post.daily.last_task_generation == now_ms as u64
        &&& post == (UserData { daily: post.daily, ..pre })
        &&& result == Ok::<OpResponse, OpError>(OpResponse::DailyGenerated)
    }
}

/// How many tasks of each kind a fresh bundle asks the collaborator for:
/// three multiple-choice and four free-text per skill tier.
pub open spec fn spec_daily_task_quota(iq: int) -> (int, int) {
    let level = iq / 50 + 1;
    (3 * level, 4 * level)
}

/// Index of the first multiple-choice task with the given id at or after
/// `i`, or the list length when there is none.
pub open spec fn mcq_index_from(ts: Seq<McqVideoTask>, id: Seq<char>, i: int) -> int
    decreases ts.len() - i,
    when 0 <= i <= ts.len()
{
    if i >= ts.len() {
        ts.len() as int
    } else if ts[i].id@ == id {
        i
    } else {
        mcq_index_from(ts, id, i + 1)
    }
}

/// Index of the first free-text task with the given id and question index at
/// or after `i`, or the list length when there is none.
pub open spec fn text_index_from(ts: Seq<TextVideoTask>, id: Seq<char>, q: int, i: int) -> int
    decreases ts.len() - i,
    when 0 <= i <= ts.len()
{
    if i >= ts.len() {
        ts.len() as int
    } else if ts[i].datapoint_id@ == id && ts[i].question_index == q {
        i
    } else {
        text_index_from(ts, id, q, i + 1)
    }
}

/// What validating a multiple-choice submission decides: exactly five
/// answers, a known task id, not yet completed, and a well-formed stored
/// question list; on success, the task's position.
pub open spec fn validate_mcq_spec(u: UserData, id: Seq<char>, n_answers: int) -> Result<
    int,
    OpError,
> {
    let ts = u.daily.mcq_video_tasks@;
    let idx = mcq_index_from(ts, id, 0);
    if n_answers != 5 {
        Err(OpError::WrongAnswerCount)
    } else if idx >= ts.len() {
        Err(OpError::TaskNotFound)
    } else if ts[idx].visited {
        Err(OpError::TaskAlreadyCompleted)
    } else if ts[idx].pre_label.questions@.len() != 5 {
        Err(OpError::InvalidTaskData)
    } else {
        Ok(idx)
    }
}

/// What validating a free-text submission decides: a known (task id,
/// question index) pair, not yet completed; on success, the task's position.
pub open spec fn validate_text_spec(u: UserData, id: Seq<char>, q: int) -> Result<int, OpError> {
    let ts = u.daily.text_video_tasks@;
    let idx = text_index_from(ts, id, q, 0);
    if idx >= ts.len() {
        Err(OpError::TaskNotFound)
    } else if ts[idx].visited {
        Err(OpError::TaskAlreadyCompleted)
    } else {
        Ok(idx)
    }
}

/// The state after an accepted multiple-choice submission's bookkeeping: the
/// task marked visited, the annotation counter advanced, the daily goal
/// credited when the counter lands on its target.
pub open spec fn mcq_visit_rel(pre: UserData, m: UserData, idx: int) -> bool {
    let ts = pre.daily.mcq_video_tasks@;
    let credited = counter_credits(pre.daily.daily_annotate);
    &&& m.daily.mcq_video_tasks@ == ts.update(idx, McqVideoTask { visited: true, ..ts[idx] })
    &&& m.daily == (DailyProgress {
        mcq_video_tasks: m.daily.mcq_video_tasks,
        daily_annotate: counter_after(pre.daily.daily_annotate),
        total_completed: m.daily.total_completed,
        ..pre.daily
    })
    &&& m.daily.total_completed as int == if credited {
        clamp_usize(pre.daily.total_completed + 1)
    } else {
        pre.daily.total_completed as int
    }
    &&& m.progress == (Progress { social_score: m.progress.social_score, ..pre.progress })
    &&& m.progress.social_score as int == if credited {
        clamp_usize(pre.progress.social_score + 2)
    } else {
        pre.progress.social_score as int
    }
    &&& m == (UserData { daily: m.daily, progress: m.progress, ..pre })
}

/// The state after an accepted free-text submission's bookkeeping; same
/// shape as the multiple-choice case, on the free-text list.
pub open spec fn text_visit_rel(pre: UserData, m: UserData, idx: int) -> bool {
    let ts = pre.daily.text_video_tasks@;
    let credited = counter_credits(pre.daily.daily_annotate);
    &&& m.daily.text_video_tasks@ == ts.update(idx, TextVideoTask { visited: true, ..ts[idx] })
    &&& m.daily == (DailyProgress {
        text_video_tasks: m.daily.text_video_tasks,
        daily_annotate: counter_after(pre.daily.daily_annotate),
        total_completed: m.daily.total_completed,
        ..pre.daily
    })
    &&& m.daily.total_completed as int == if credited {
        clamp_usize(pre.daily.total_completed + 1)
    } else {
        pre.daily.total_completed as int
    }
    &&& m.progress == (Progress { social_score: m.progress.social_score, ..pre.progress })
    &&& m.progress.social_score as int == if credited {
        clamp_usize(pre.progress.social_score + 2)
    } else {
        pre.progress.social_score as int
    }
    &&& m == (UserData { daily: m.daily, progress: m.progress, ..pre })
}

/// Badges earned when the completed-task total reaches a milestone.
pub open spec fn badges_gained(total: int) -> Seq<crate::types::BadgesKind> {
    if total == 10 {
        seq![crate::types::BadgesKind::TenTaskBadge]
    } else if total == 20 {
        seq![crate::types::BadgesKind::TwentyTaskBadge]
    } else if total == 30 {
        seq![crate::types::BadgesKind::ThirtyTaskBadge]
    } else {
        Seq::empty()
    }
}

/// The state after the shared task-submission reward: the configured skill
/// and currency gains, one more completed task, and a badge at each of the
/// 10, 20 and 30 task milestones.
pub open spec fn submission_reward_rel(
    pre: UserData,
    post: UserData,
    iq_gain: int,
    akai_gain: int,
) -> bool {
    let total = clamp_usize(pre.progress.total_task_completed + 1);
    &&& post.progress.iq as int == clamp_usize(pre.progress.iq + iq_gain)
    &&& post.progress.akai_balance as int == clamp_usize(pre.progress.akai_balance + akai_gain)
    &&& post.progress.total_task_completed as int == total
    &&& post.progress.badges@ == pre.progress.badges@ + badges_gained(total)
    &&& post.progress == (Progress {
        iq: post.progress.iq,
        akai_balance: post.progress.akai_balance,
        total_task_completed: post.progress.total_task_completed,
        badges: post.progress.badges,
        ..pre.progress
    })
    &&& post == (UserData { progress: post.progress, ..pre })
}

/// How a multiple-choice submission changes the state: a validation failure
/// or a grading-collaborator failure rejects it without a change; otherwise
/// the task bookkeeping, the shared submission reward, and the product
/// re-derivation are applied in that order.
pub open spec fn mcq_submit_rel(
    pre: UserData,
    post: UserData,
    id: Seq<char>,
    n_answers: int,
    submit_ok: bool,
    result: Result<OpResponse, OpError>,
) -> bool {
    match validate_mcq_spec(pre, id, n_answers) {
        Err(e) => result == Err::<OpResponse, OpError>(e) && post == pre,
        Ok(idx) => {
            if !submit_ok {
                result == Err::<OpResponse, OpError>(OpError::CollaboratorFailed) && post == pre
            } else {
                &&& (exists|m1: UserData, m2: UserData|
                    mcq_visit_rel(pre, m1, idx) && #[trigger] submission_reward_rel(
                        m1,
                        m2,
                        MCQ_IQ_GAIN as int,
                        MCQ_AKAI_GAIN as int,
                    ) && post == product_fixed(m2))
                &&& result is Ok
                &&& (result matches Ok(resp) ==> resp is McqSubmitted)
            }
        },
    }
}

/// How a free-text submission changes the state; same shape as the
/// multiple-choice case with the free-text gains.
pub open spec fn text_submit_rel(
    pre: UserData,
    post: UserData,
    id: Seq<char>,
    q: int,
    submit_ok: bool,
    result: Result<OpResponse, OpError>,
) -> bool {
    match validate_text_spec(pre, id, q) {
        Err(e) => result == Err::<OpResponse, OpError>(e) && post == pre,
        Ok(idx) => {
            if !submit_ok {
                result == Err::<OpResponse, OpError>(OpError::CollaboratorFailed) && post == pre
            } else {
                &&& (exists|m1: UserData, m2: UserData|
                    text_visit_rel(pre, m1, idx) && #[trigger] submission_reward_rel(
                        m1,
                        m2,
                        TEXT_IQ_GAIN as int,
                        TEXT_AKAI_GAIN as int,
                    ) && post == product_fixed(m2))
                &&& result is Ok
                &&& (result matches Ok(resp) ==> resp is TextSubmitted)
            }
        },
    }
}

/// How a crypto exchange changes the state, given the ledger's answer: an
/// insufficient balance, an unsupported symbol or malformed address, or a
/// too-low skill score each reject it without a change; a ledger failure
/// rejects it without a change; only a ledger success debits exactly the
/// requested amount.
pub open spec fn exchange_rel(
    pre: UserData,
    post: UserData,
    amount: int,
    sym: Seq<char>,
    addr: Seq<char>,
    transfer: Result<String, String>,
    result: Result<OpResponse, OpError>,
) -> bool {
    let idx = crate::crypto::crypto_index_of(sym);
    if pre.progress.akai_balance < amount {
        result == Err::<OpResponse, OpError>(OpError::InsufficientBalance) && post == pre
    } else if idx < 0 || !crate::crypto::addr_wellformed(addr) {
        result == Err::<OpResponse, OpError>(OpError::CryptoNotAvailable) && post == pre
    } else if (pre.progress.iq as int) < crate::crypto::crypto_min_iq_at(idx) {
        result == Err::<OpResponse, OpError>(OpError::IqTooLow) && post == pre
    } else {
        match transfer {
            Err(_) => result == Err::<OpResponse, OpError>(OpError::CollaboratorFailed) && post
                == pre,
            Ok(tx) => {
                &&& post == (UserData {
                    progress: Progress {
                        akai_balance: (pre.progress.akai_balance - amount) as usize,
                        ..pre.progress
                    },
                    ..pre
                })
                &&& result == Ok::<OpResponse, OpError>(
                    OpResponse::Exchanged {
                        tx_hash: tx,
                        new_balance: (pre.progress.akai_balance - amount) as usize,
                    },
                )
            },
        }
    }
}

/// A field-for-field copy of one notification.
pub fn clone_notification(n: &Notification) -> (r: Notification)
    ensures
        r == *n,
{
    Notification {
        notification_id: n.notification_id.clone(),
        user_id: n.user_id.clone(),
        notification_type: n.notification_type,
        message: n.message.clone(),
        timestamp: n.timestamp,
        read: n.read,
        metadata: match &n.metadata {
            Some(m) => Some(
                NotifMeta {
                    used_by: match &m.used_by {
                        Some(u) => Some(u.clone()),
                        None => None,
                    },
                    akai_delta: m.akai_delta,
                    iq_delta: m.iq_delta,
                },
            ),
            None => None,
        },
    }
}

impl UserData {
    /// Overwrites the email field.
    pub fn update_email(&mut self, email: String) -> (r: Result<OpResponse, OpError>)
        ensures
            *final(self) == (UserData {
                profile: crate::types::UserProfile { email: Some(email), ..old(self).profile },
                ..*old(self)
            }),
            r == Ok::<OpResponse, OpError>(OpResponse::ProfileUpdated),
    {
        self.profile.email = Some(email);
        Ok(OpResponse::ProfileUpdated)
    }

    /// Overwrites the display-name field.
    pub fn update_user_name(&mut self, user_name: Option<String>) -> (r: Result<
        OpResponse,
        OpError,
    >)
        ensures
            *final(self) == (UserData {
                profile: crate::types::UserProfile { user_name, ..old(self).profile },
                ..*old(self)
            }),
            r == Ok::<OpResponse, OpError>(OpResponse::ProfileUpdated),
    {
        self.profile.user_name = user_name;
        Ok(OpResponse::ProfileUpdated)
    }

    /// Overwrites the avatar reference.
    pub fn update_pfp(&mut self, pfp: usize) -> (r: Result<OpResponse, OpError>)
        ensures
            *final(self) == (UserData {
                profile: crate::types::UserProfile { pfp, ..old(self).profile },
                ..*old(self)
            }),
            r == Ok::<OpResponse, OpError>(OpResponse::ProfileUpdated),
    {
        self.profile.pfp = pfp;
        Ok(OpResponse::ProfileUpdated)
    }

    /// Hashes the given plain password and stores the hash.
    pub fn update_password(&mut self, password: &str) -> (r: Result<OpResponse, OpError>)
        ensures
            *final(self) == (UserData {
                profile: crate::types::UserProfile {
                    password: final(self).profile.password,
                    ..old(self).profile
                },
                ..*old(self)
            }),
            (match final(self).profile.password {
                Some(h) => h@ == crate::auth::password_hash_of(password.spec_bytes()),
                None => false,
            }),
            r == Ok::<OpResponse, OpError>(OpResponse::ProfileUpdated),
    {
        let hash = crate::auth::password_hash(password);
        self.profile.password = Some(hash);
        Ok(OpResponse::ProfileUpdated)
    }

    /// Hashes and stores the registration password; reports whether the
    /// relational store accepted the new player's rows. The hash is stored
    /// either way: the actor's own store remains the source of truth, and a
    /// failed row write is surfaced as a storage error.
    pub fn register(&mut self, password: &str, insert_ok: bool) -> (r: Result<
        OpResponse,
        OpError,
    >)
        ensures
            *final(self) == (UserData {
                profile: crate::types::UserProfile {
                    password: final(self).profile.password,
                    ..old(self).profile
                },
                ..*old(self)
            }),
            (match final(self).profile.password {
                Some(h) => h@ == crate::auth::password_hash_of(password.spec_bytes()),
                None => false,
            }),
            r == if insert_ok {
                Ok::<OpResponse, OpError>(OpResponse::Registered)
            } else {
                Err::<OpResponse, OpError>(OpError::StorageFailed)
            },
    {
        let hash = crate::auth::password_hash(password);
        self.profile.password = Some(hash);
        if insert_ok {
            Ok(OpResponse::Registered)
        } else {
            Err(OpError::StorageFailed)
        }
    }

    /// Appends an incoming notification delivered by the messenger, marking
    /// it claimable when it carries a reward.
    pub fn add_notification_internal(&mut self, n: &Notification) -> (r: Result<
        OpResponse,
        OpError,
    >)
        ensures
            add_notification_rel(*old(self), *final(self), *n, r),
    {
        let mut stored = clone_notification(n);
        match n.notification_type {
            NotificationType::Referral => {
                stored.read = crate::types::Read::Claim;
            },
            NotificationType::Performance => {
                stored.read = crate::types::Read::Claim;
            },
            NotificationType::System => {},
        }
        self.notifications.push(stored);
        Ok(OpResponse::NotificationAdded)
    }

    /// Finds the first notification with the given id.
    fn find_notification(&self, id: &String) -> (idx: usize)
        ensures
            idx as int == notif_index_from(self.notifications@, id@, 0),
    {
        let mut i: usize = 0;
        while i < self.notifications.len() && !string_eq(
            &self.notifications[i].notification_id,
            id,
        )
            invariant
                0 <= i <= self.notifications@.len(),
                notif_index_from(self.notifications@, id@, 0) == notif_index_from(
                    self.notifications@,
                    id@,
                    i as int,
                ),
            decreases self.notifications@.len() - i,
        {
            i = i + 1;
        }
        i
    }

    /// Removes the notification with the given id; an unknown id is rejected.
    pub fn mark_notification_read(&mut self, id: &String) -> (r: Result<OpResponse, OpError>)
        ensures
            mark_read_rel(*old(self), *final(self), id@, r),
    {
        let idx = self.find_notification(id);
        if idx >= self.notifications.len() {
            return Err(OpError::NotificationNotFound);
        }
        self.notifications.remove(idx);
        Ok(OpResponse::NotificationRemoved)
    }

    /// Applies the reward a claimable notification carries: fixed social and
    /// currency bonuses for a Referral; the metadata's signed currency and
    /// skill deltas, clamped at zero, for a Performance; nothing for a plain
    /// System entry. Re-derives the product.
    pub fn process_notification_metadata(&mut self, id: &String) -> (r: Result<
        OpResponse,
        OpError,
    >)
        ensures
            process_notification_rel(*old(self), *final(self), id@, r),
    {
        let idx = self.find_notification(id);
        if idx >= self.notifications.len() {
            return Err(OpError::NotificationNotFound);
        }
        let mut stored = clone_notification(&self.notifications[idx]);
        match stored.notification_type {
            NotificationType::Referral => {
                self.progress.social_score = sat_add(self.progress.social_score, 10);
                self.progress.akai_balance = sat_add(self.progress.akai_balance, 50);
                stored.read = crate::types::Read::No;
                self.notifications.set(idx, stored);
            },
            NotificationType::Performance => {
                let (akai_delta, iq_delta): (i64, i64) = match &stored.metadata {
                    Some(m) => (m.akai_delta, m.iq_delta),
                    None => (0, 0),
                };
                self.progress.akai_balance = apply_signed(self.progress.akai_balance, akai_delta);
                self.progress.iq = apply_signed(self.progress.iq, iq_delta);
                stored.read = crate::types::Read::No;
                self.notifications.set(idx, stored);
            },
            NotificationType::System => {},
        }
        calculate_product(self);
        Ok(OpResponse::NotificationProcessed)
    }

    /// Records a referral: the code's owner (resolved by the caller against
    /// the relational store) must exist and must not be the caller; the
    /// referral counter rises and a Referral notification for the owner is
    /// queued. A referral code can never be used by the player who owns it.
    pub fn use_referral_code(&mut self, owner: Option<String>, now_s: u64) -> (r: (
        Result<OpResponse, OpError>,
        Option<OutboundNotification>,
    ))
        ensures
            use_referral_rel(*old(self), *final(self), owner, r.0, r.1),
    {
        let referrer = match owner {
            None => {
                return (Err(OpError::InvalidReferralCode), None);
            },
            Some(referrer) => referrer,
        };
        if string_eq(&referrer, &self.profile.user_id) {
            return (Err(OpError::OwnReferralCode), None);
        }
        self.social.players_referred = sat_add(self.social.players_referred, 1);
        let meta = NotifMeta {
            used_by: Some(self.profile.user_id.clone()),
            akai_delta: 5,
            iq_delta: 0,
        };
        let notification = crate::notification::build_notification(
            &referrer,
            NotificationType::Referral,
            "Your referral code was used!".to_owned(),
            Some(meta),
            now_s,
        );
        let target_user_id = referrer.clone();
        let out = OutboundNotification { target_user_id, notification };
        (Ok(OpResponse::ReferralRecorded { referrer }), Some(out))
    }
}

/// String equality by contents.
pub fn string_eq(a: &String, b: &String) -> (r: bool)
    ensures
        r == (a@ == b@),
{
    *a == *b
}

impl UserData {
    /// Grants the daily login reward: +20 currency and two random power-ups,
    /// all recorded in the returned reward.
    pub fn get_daily_login_rewards(&mut self) -> (rw: Reward)
        ensures
            login_grant_rel(*old(self), *final(self)),
            rw.is_reward,
    {
        self.progress.akai_balance = sat_add(self.progress.akai_balance, 20);
        let p1 = crate::utils::random_power_up();
        let p2 = crate::utils::random_power_up();
        self.game_state.power_ups.push(p1);
        self.game_state.power_ups.push(p2);
        proof {
            assert(self.game_state.power_ups@ == old(
                self,
            ).game_state.power_ups@.push(p1).push(p2));
        }
        let mut rewards: Vec<crate::types::RewardEntry> = Vec::new();
        rewards.push(crate::types::RewardEntry::Akai(20));
        rewards.push(crate::types::RewardEntry::PowerUp(p1));
        rewards.push(crate::types::RewardEntry::PowerUp(p2));
        if self.progress.streak > 0 {
            rewards.push(crate::types::RewardEntry::Streak(self.progress.streak));
        }
        Reward { is_reward: true, rewards }
    }

    /// Applies the daily login streak rule for the given wall clock: between
    /// one and two days since the last login extends the streak and grants
    /// the daily reward; two days or more reset the streak and still grant
    /// it; anything less changes nothing.
    pub fn calculate_last_login(&mut self, now_s: u64) -> (r: Option<Reward>)
        ensures
            login_streak_rel(*old(self), *final(self), now_s as int, r),
    {
        let elapsed = now_s.saturating_sub(self.profile.last_login);
        if elapsed > ONE_DAY_S && elapsed < 2 * ONE_DAY_S {
            self.progress.streak = sat_add(self.progress.streak, 1);
            self.profile.last_login = now_s;
            let ghost m = *self;
            let rw = self.get_daily_login_rewards();
            proof {
                assert(login_grant_rel(m, *self));
            }
            Some(rw)
        } else if elapsed >= 2 * ONE_DAY_S {
            self.progress.streak = 0;
            self.profile.last_login = now_s;
            let ghost m = *self;
            let rw = self.get_daily_login_rewards();
            proof {
                assert(login_grant_rel(m, *self));
            }
            Some(rw)
        } else {
            None
        }
    }

    /// Applies the passive hourly grant for the given wall clock: one
    /// inventory unit when at least an hour has passed since the last grant;
    /// idempotent within the gating window.
    pub fn apply_hourly_grant(&mut self, now_s: u64)
        ensures
            hourly_grant_rel(*old(self), *final(self), now_s as int),
    {
        let elapsed = now_s.saturating_sub(self.profile.real_login);
        if elapsed >= HOURLY_GRANT_S {
            self.game_state.inventory_aliens = sat_add(self.game_state.inventory_aliens, 1);
            self.profile.real_login = now_s;
        }
    }

    /// The side-effect-free read of the full state, except for the
    /// time-gated grants it may apply: the daily login reward and the
    /// passive hourly inventory bonus.
    pub fn get_data(&mut self, now_s: u64) -> (r: Result<OpResponse, OpError>)
        ensures
            (match r {
                Ok(OpResponse::Data { login_reward }) => exists|m: UserData|
                    #[trigger] login_streak_rel(*old(self), m, now_s as int, login_reward)
                        && hourly_grant_rel(m, *final(self), now_s as int),
                _ => false,
            }),
    {
        let login_reward = self.calculate_last_login(now_s);
        self.apply_hourly_grant(now_s);
        Ok(OpResponse::Data { login_reward })
    }

    /// How many tasks of each kind a fresh daily bundle asks for, sized by
    /// the player's skill score.
    pub fn daily_task_quota(&self) -> (q: (usize, usize))
        ensures
            (q.0 as int, q.1 as int) == spec_daily_task_quota(self.progress.iq as int),
    {
        let level = self.progress.iq / 50 + 1;
        (3 * level, 4 * level)
    }

    /// Whether the minimum interval since the last bundle generation has
    /// elapsed, so a fresh fetch is worth making.
    pub fn can_generate_daily(&self, now_ms: u64) -> (r: bool)
        ensures
            r == (elapsed_s(now_ms as int, self.daily.last_task_generation as int)
                >= DAILY_TASK_INTERVAL_MS),
    {
        now_ms.saturating_sub(self.daily.last_task_generation) >= DAILY_TASK_INTERVAL_MS
    }

    /// Replaces the daily bundle with the fetched content: links handed out
    /// unvisited, fresh random counter targets, one-time grants reset.
    /// Rejected while the minimum interval since the last generation has not
    /// elapsed.
    pub fn generate_daily_tasks(&mut self, now_ms: u64, content: DailyContent) -> (r: Result<
        OpResponse,
        OpError,
    >)
        ensures
            generate_daily_rel(*old(self), *final(self), now_ms as int, content, r),
    {
        if !self.can_generate_daily(now_ms) {
            return Err(OpError::TasksNotAvailableYet);
        }
        let mut links: Vec<Links> = Vec::new();
        let mut i: usize = 0;
        while i < content.links.len()
            invariant
                0 <= i <= content.links@.len(),
                links@.len() == i,
                forall|t: int|
                    0 <= t < i ==> #[trigger] links@[t] == (Links {
                        visited: false,
                        ..content.links@[t]
                    }),
                *self == *old(self),
            decreases content.links@.len() - i,
        {
            let l = &content.links[i];
            links.push(Links { url: l.url.clone(), platform: l.platform, visited: false });
            i = i + 1;
        }
        self.daily.links = links;
        self.daily.mcq_video_tasks = content.mcq;
        self.daily.text_video_tasks = content.text;
        self.daily.daily_merge = DailyCounter {
            current: 0,
            target: crate::external::random_in_range(5, 15),
            completed: false,
        };
        self.daily.daily_annotate = DailyCounter {
            current: 0,
            target: crate::external::random_in_range(3, 5),
            completed: false,
        };
        self.daily.daily_powerups = DailyCounter {
            current: 0,
            target: crate::external::random_in_range(1, 4),
            completed: false,
        };
        self.daily.total_completed = 0;
        self.daily.alien_earned = None;
        self.daily.pu_earned = None;
        self.daily.last_task_generation = now_ms;
        Ok(OpResponse::DailyGenerated)
    }

    /// Marks the first unvisited link matching the given url as visited,
    /// crediting +2 social score and one completed daily goal; reports
    /// whether anything matched.
    pub fn check_daily_task(&mut self, maybe_url: &Option<String>) -> (r: Result<
        OpResponse,
        OpError,
    >)
        ensures
            check_daily_rel(*old(self), *final(self), *maybe_url, r),
    {
        let url = match maybe_url {
            None => {
                return Ok(OpResponse::DailyChecked { matched: false });
            },
            Some(u) => u,
        };
        let mut i: usize = 0;
        while i < self.daily.links.len() && !(string_eq(&self.daily.links[i].url, url)
            && !self.daily.links[i].visited)
            invariant
                0 <= i <= self.daily.links@.len(),
                *self == *old(self),
                link_index_from(self.daily.links@, url@, 0) == link_index_from(
                    self.daily.links@,
                    url@,
                    i as int,
                ),
            decreases self.daily.links@.len() - i,
        {
            i = i + 1;
        }
        if i >= self.daily.links.len() {
            return Ok(OpResponse::DailyChecked { matched: false });
        }
        let l = &self.daily.links[i];
        let updated = Links { url: l.url.clone(), platform: l.platform, visited: true };
        proof {
            assert(updated == (Links { visited: true, ..old(self).daily.links@[i as int] }));
        }
        self.daily.links.set(i, updated);
        self.progress.social_score = sat_add(self.progress.social_score, 2);
        self.daily.total_completed = sat_add(self.daily.total_completed, 1);
        calculate_product(self);
        Ok(OpResponse::DailyChecked { matched: true })
    }

    /// Claims the one-time daily reward tier `index` points at; a tier
    /// already claimed is a no-op. The product is re-derived afterwards.
    pub fn claim_daily_reward(&mut self, index: usize) -> (r: Result<OpResponse, OpError>)
        requires
            wf_grid(*old(self)),
        ensures
            wf_grid(*final(self)),
            exists|m: UserData|
                #[trigger] crate::utils::claim_reward_rel(*old(self), m, index as int)
                    && *final(self) == product_fixed(m),
            r == Ok::<OpResponse, OpError>(OpResponse::DailyRewardClaimed),
    {
        crate::utils::give_daily_reward(self, index);
        calculate_product(self);
        Ok(OpResponse::DailyRewardClaimed)
    }

    /// Grants the shared task-submission reward: the given skill and
    /// currency gains, one more completed task, and a badge at each of the
    /// 10, 20 and 30 task milestones; all recorded in `reward`.
    pub fn handle_task_submission_rewards(
        &mut self,
        reward: &mut Reward,
        iq_gain: usize,
        akai_gain: usize,
    )
        ensures
            submission_reward_rel(*old(self), *final(self), iq_gain as int, akai_gain as int),
            final(reward).is_reward,
    {
        self.progress.iq = sat_add(self.progress.iq, iq_gain);
        self.progress.akai_balance = sat_add(self.progress.akai_balance, akai_gain);
        self.progress.total_task_completed = sat_add(self.progress.total_task_completed, 1);
        let total = self.progress.total_task_completed;
        if total == 10 {
            self.progress.badges.push(crate::types::BadgesKind::TenTaskBadge);
        } else if total == 20 {
            self.progress.badges.push(crate::types::BadgesKind::TwentyTaskBadge);
        } else if total == 30 {
            self.progress.badges.push(crate::types::BadgesKind::ThirtyTaskBadge);
        }
        proof {
            assert(self.progress.badges@ =~= old(self).progress.badges@ + badges_gained(
                self.progress.total_task_completed as int,
            ));
        }
        reward.is_reward = true;
        reward.rewards.push(crate::types::RewardEntry::Iq(iq_gain));
        reward.rewards.push(crate::types::RewardEntry::Akai(akai_gain));
    }

    /// Validates a multiple-choice submission without changing anything:
    /// exactly five answers, a known task id, not yet completed, and a
    /// well-formed stored question list; on success, the task's position.
    pub fn validate_mcq_submission(&self, datapoint_id: &String, answers: &Vec<String>) -> (r:
        Result<usize, OpError>)
        ensures
            (match r {
                Ok(idx) => validate_mcq_spec(*self, datapoint_id@, answers@.len() as int)
                    == Ok::<int, OpError>(idx as int),
                Err(e) => validate_mcq_spec(*self, datapoint_id@, answers@.len() as int)
                    == Err::<int, OpError>(e),
            }),
    {
        let idx = self.find_mcq_task(datapoint_id);
        if answers.len() != 5 {
            return Err(OpError::WrongAnswerCount);
        }
        if idx >= self.daily.mcq_video_tasks.len() {
            return Err(OpError::TaskNotFound);
        }
        if self.daily.mcq_video_tasks[idx].visited {
            return Err(OpError::TaskAlreadyCompleted);
        }
        if self.daily.mcq_video_tasks[idx].pre_label.questions.len() != 5 {
            return Err(OpError::InvalidTaskData);
        }
        Ok(idx)
    }

    /// Finds the first multiple-choice task with the given id.
    fn find_mcq_task(&self, id: &String) -> (idx: usize)
        ensures
            idx as int == mcq_index_from(self.daily.mcq_video_tasks@, id@, 0),
    {
        let mut i: usize = 0;
        while i < self.daily.mcq_video_tasks.len() && !string_eq(
            &self.daily.mcq_video_tasks[i].id,
            id,
        )
            invariant
                0 <= i <= self.daily.mcq_video_tasks@.len(),
                mcq_index_from(self.daily.mcq_video_tasks@, id@, 0) == mcq_index_from(
                    self.daily.mcq_video_tasks@,
                    id@,
                    i as int,
                ),
            decreases self.daily.mcq_video_tasks@.len() - i,
        {
            i = i + 1;
        }
        i
    }

    /// Finds the first free-text task with the given id and question index.
    fn find_text_task(&self, id: &String, q: usize) -> (idx: usize)
        ensures
            idx as int == text_index_from(self.daily.text_video_tasks@, id@, q as int, 0),
    {
        let mut i: usize = 0;
        while i < self.daily.text_video_tasks.len() && !(string_eq(
            &self.daily.text_video_tasks[i].datapoint_id,
            id,
        ) && self.daily.text_video_tasks[i].question_index == q)
            invariant
                0 <= i <= self.daily.text_video_tasks@.len(),
                text_index_from(self.daily.text_video_tasks@, id@, q as int, 0)
                    == text_index_from(self.daily.text_video_tasks@, id@, q as int, i as int),
            decreases self.daily.text_video_tasks@.len() - i,
        {
            i = i + 1;
        }
        i
    }

    /// Applies a multiple-choice submission, given whether the grading
    /// collaborator accepted it: a validation or collaborator failure
    /// rejects it without a change; otherwise the task is marked visited,
    /// the annotation counter advances, the submission reward lands, and the
    /// product is re-derived.
    pub fn submit_mcq_answers(
        &mut self,
        datapoint_id: &String,
        answers: &Vec<String>,
        submit_ok: bool,
    ) -> (r: Result<OpResponse, OpError>)
        ensures
            mcq_submit_rel(
                *old(self),
                *final(self),
                datapoint_id@,
                answers@.len() as int,
                submit_ok,
                r,
            ),
    {
        let idx = match self.validate_mcq_submission(datapoint_id, answers) {
            Err(e) => {
                return Err(e);
            },
            Ok(idx) => idx,
        };
        if !submit_ok {
            return Err(OpError::CollaboratorFailed);
        }
        let mut t = self.daily.mcq_video_tasks.remove(idx);
        t.visited = true;
        self.daily.mcq_video_tasks.insert(idx, t);
        proof {
            assert(self.daily.mcq_video_tasks@ =~= old(self).daily.mcq_video_tasks@.update(
                idx as int,
                McqVideoTask { visited: true, ..old(self).daily.mcq_video_tasks@[idx as int] },
            ));
        }
        let (da, credited) = advance_counter(self.daily.daily_annotate);
        self.daily.daily_annotate = da;
        if credited {
            self.daily.total_completed = sat_add(self.daily.total_completed, 1);
            self.progress.social_score = sat_add(self.progress.social_score, 2);
        }
        let ghost m1 = *self;
        let mut reward = Reward::none();
        self.handle_task_submission_rewards(&mut reward, MCQ_IQ_GAIN, MCQ_AKAI_GAIN);
        let ghost m2 = *self;
        calculate_product(self);
        proof {
            assert(mcq_visit_rel(*old(self), m1, idx as int));
            assert(submission_reward_rel(m1, m2, MCQ_IQ_GAIN as int, MCQ_AKAI_GAIN as int));
        }
        Ok(OpResponse::McqSubmitted { reward })
    }

    /// Applies a free-text submission, given whether the grading
    /// collaborator accepted it; same shape as the multiple-choice case.
    pub fn submit_text_answer(
        &mut self,
        datapoint_id: &String,
        question_index: usize,
        submit_ok: bool,
    ) -> (r: Result<OpResponse, OpError>)
        ensures
            text_submit_rel(
                *old(self),
                *final(self),
                datapoint_id@,
                question_index as int,
                submit_ok,
                r,
            ),
    {
        let idx = self.find_text_task(datapoint_id, question_index);
        if idx >= self.daily.text_video_tasks.len() {
            return Err(OpError::TaskNotFound);
        }
        if self.daily.text_video_tasks[idx].visited {
            return Err(OpError::TaskAlreadyCompleted);
        }
        if !submit_ok {
            return Err(OpError::CollaboratorFailed);
        }
        let t = &self.daily.text_video_tasks[idx];
        let updated = TextVideoTask {
            datapoint_id: t.datapoint_id.clone(),
            question_index: t.question_index,
            question: t.question.clone(),
            media_url: t.media_url.clone(),
            visited: true,
        };
        proof {
            assert(updated == (TextVideoTask {
                visited: true,
                ..old(self).daily.text_video_tasks@[idx as int]
            }));
        }
        self.daily.text_video_tasks.set(idx, updated);
        let (da, credited) = advance_counter(self.daily.daily_annotate);
        self.daily.daily_annotate = da;
        if credited {
            self.daily.total_completed = sat_add(self.daily.total_completed, 1);
            self.progress.social_score = sat_add(self.progress.social_score, 2);
        }
        let ghost m1 = *self;
        let mut reward = Reward::none();
        self.handle_task_submission_rewards(&mut reward, TEXT_IQ_GAIN, TEXT_AKAI_GAIN);
        let ghost m2 = *self;
        calculate_product(self);
        proof {
            assert(text_visit_rel(*old(self), m1, idx as int));
            assert(submission_reward_rel(m1, m2, TEXT_IQ_GAIN as int, TEXT_AKAI_GAIN as int));
        }
        Ok(OpResponse::TextSubmitted { reward })
    }

    /// Performs the local side of a crypto exchange, given the ledger's
    /// answer: every validation failure and a ledger failure leave the
    /// balance untouched; only a ledger success debits exactly the requested
    /// amount.
    pub fn exchange_akai_for_crypto(
        &mut self,
        amount: usize,
        symbol: &String,
        receiver: &String,
        transfer: Result<String, String>,
    ) -> (r: Result<OpResponse, OpError>)
        ensures
            exchange_rel(
                *old(self),
                *final(self),
                amount as int,
                symbol@,
                receiver@,
                transfer,
                r,
            ),
    {
        if self.progress.akai_balance < amount {
            return Err(OpError::InsufficientBalance);
        }
        let found = crate::crypto::find_crypto(symbol);
        let ok_addr = crate::crypto::address_wellformed(receiver);
        let c = match found {
            None => {
                return Err(OpError::CryptoNotAvailable);
            },
            Some(c) => c,
        };
        if !ok_addr {
            return Err(OpError::CryptoNotAvailable);
        }
        if self.progress.iq < c.min_iq {
            return Err(OpError::IqTooLow);
        }
        match transfer {
            Err(_) => Err(OpError::CollaboratorFailed),
            Ok(tx) => {
                self.progress.akai_balance = self.progress.akai_balance - amount;
                Ok(OpResponse::Exchanged { tx_hash: tx, new_balance: self.progress.akai_balance })
            },
        }
    }
}

/// For every valid merge command with distinct in-range indices, the king
/// level after the command is at least the king level before: the grid work
/// never touches the stored level, and the re-derivation only ever raises it.
pub proof fn lemma_merge_king_monotone(
    pre: UserData,
    post: UserData,
    a: int,
    b: int,
    result: Result<OpResponse, OpError>,
)
    requires
        combine_rel(pre, post, a, b, result),
        a != b,
        0 <= a < GRID_SIZE,
        0 <= b < GRID_SIZE,
    ensures
        post.game_state.king_lvl >= pre.game_state.king_lvl,
{
    let (m, m2) = choose|m: UserData, m2: UserData|
        combine_mid(pre, m, a, b) && #[trigger] recalc_king_rel(m, m2) && post == product_fixed(
            m2,
        );
}

/// Re-deriving the product makes the derived fields consistent: `product`
/// equals the deterministic function of `iq`, `social_score` and `king_lvl`,
/// and `league` the deterministic function of `product`. Every command that
/// touches one of those three fields ends in this re-derivation, so the
/// consistency holds immediately after it.
pub proof fn lemma_product_fixed_consistent(u: UserData)
    ensures
        crate::types::product_consistent(product_fixed(u)),
{
}

/// Re-deriving the product twice is the same as once.
pub proof fn lemma_product_fixed_idempotent(u: UserData)
    ensures
        product_fixed(product_fixed(u)) == product_fixed(u),
{
}

/// Claiming a daily reward tier twice through the full command path is a
/// no-op the second time: the state after the second claim is exactly the
/// state after the first.
pub proof fn lemma_claim_command_idempotent(
    s0: UserData,
    m1: UserData,
    s1: UserData,
    m2: UserData,
    s2: UserData,
    index: int,
)
    requires
        crate::utils::claim_reward_rel(s0, m1, index),
        s1 == product_fixed(m1),
        crate::utils::claim_reward_rel(s1, m2, index),
        s2 == product_fixed(m2),
    ensures
        s2 == s1,
{
    if crate::utils::tier3_fires(s0, index) {
        assert(m1.daily.alien_earned is Some);
        assert(s1.daily == m1.daily);
        assert(!crate::utils::tier3_fires(s1, index));
        assert(m2 == s1);
        lemma_product_fixed_idempotent(m1);
    } else if crate::utils::tier5_fires(s0, index) {
        assert(m1.daily.pu_earned is Some);
        assert(s1.daily == m1.daily);
        assert(!crate::utils::tier5_fires(s1, index));
        assert(m2 == s1);
        lemma_product_fixed_idempotent(m1);
    } else {
        assert(m1 == s0);
        assert(s1.daily == s0.daily);
        assert(m2 == s1);
        lemma_product_fixed_idempotent(s0);
    }
}

/// What the full-state read does: the login streak rule, then the hourly
/// grant, and the state handed back with any login reward.
pub open spec fn get_data_rel(
    pre: UserData,
    post: UserData,
    now_s: int,
    result: Result<OpResponse, OpError>,
) -> bool {
    match result {
        Ok(OpResponse::Data { login_reward }) => exists|m: UserData|
            #[trigger] login_streak_rel(pre, m, now_s, login_reward) && hourly_grant_rel(
                m,
                post,
                now_s,
            ),
        _ => false,
    }
}

/// How one command, with the pre-resolved result of its one outside call,
/// changes the aggregate state, what it answers, and what cross-actor
/// message it queues. A command that needs an outside result and finds the
/// wrong `Collab` variant is rejected without a state change.
pub open spec fn resolve_rel(
    pre: UserData,
    post: UserData,
    op: Op,
    ctx: CommandCtx,
    result: Result<OpResponse, OpError>,
    outbox: Option<OutboundNotification>,
) -> bool {
    match op {
        Op::CombineAlien(a, b) => combine_rel(pre, post, a as int, b as int, result) && outbox
            is None,
        Op::MoveAlienFromInventoryToActive => move_from_inventory_rel(pre, post, result) && outbox
            is None,
        Op::SpawnAlienToInventory => {
            &&& post == (UserData {
                game_state: GameState {
                    inventory_aliens: (clamp_usize(pre.game_state.inventory_aliens + 1)) as usize,
                    ..pre.game_state
                },
                ..pre
            })
            &&& result == Ok::<OpResponse, OpError>(OpResponse::InventorySpawned)
            &&& outbox is None
        },
        Op::DeleteAlienFromActive(idx) => delete_rel(pre, post, idx as int, result) && outbox
            is None,
        Op::MoveAlienInGrid(from, to) => swap_rel(pre, post, from as int, to as int, result)
            && outbox is None,
        Op::SpawnPowerup(kind) => {
            &&& post.game_state.power_ups@ == pre.game_state.power_ups@.push(kind)
            &&& post == (UserData {
                game_state: GameState {
                    power_ups: post.game_state.power_ups,
                    ..pre.game_state
                },
                ..pre
            })
            &&& result == Ok::<OpResponse, OpError>(OpResponse::PowerupSpawned)
            &&& outbox is None
        },
        Op::UsePowerup(idx, target) => use_powerup_rel(pre, post, idx as int, target as int, result)
            && outbox is None,
        Op::GetData => get_data_rel(pre, post, ctx.now_ms as int / 1000, result) && outbox is None,
        Op::Register(_) => match ctx.collab {
            Collab::StoreWrite(ok) => {
                &&& post == (UserData {
                    profile: crate::types::UserProfile {
                        password: post.profile.password,
                        ..pre.profile
                    },
                    ..pre
                })
                &&& post.profile.password is Some
                &&& result == if ok {
                    Ok::<OpResponse, OpError>(OpResponse::Registered)
                } else {
                    Err::<OpResponse, OpError>(OpError::StorageFailed)
                }
                &&& outbox is None
            },
            _ => result == Err::<OpResponse, OpError>(OpError::MissingCollaborator) && post == pre
                && outbox is None,
        },
        Op::UpdateEmail(email) => {
            &&& post == (UserData {
                profile: crate::types::UserProfile { email: Some(email), ..pre.profile },
                ..pre
            })
            &&& result == Ok::<OpResponse, OpError>(OpResponse::ProfileUpdated)
            &&& outbox is None
        },
        Op::UpdatePfp(pfp) => {
            &&& post == (UserData {
                profile: crate::types::UserProfile { pfp, ..pre.profile },
                ..pre
            })
            &&& result == Ok::<OpResponse, OpError>(OpResponse::ProfileUpdated)
            &&& outbox is None
        },
        Op::UpdateUserName(user_name) => {
            &&& post == (UserData {
                profile: crate::types::UserProfile { user_name, ..pre.profile },
                ..pre
            })
            &&& result == Ok::<OpResponse, OpError>(OpResponse::ProfileUpdated)
            &&& outbox is None
        },
        Op::UpdatePassword(_) => {
            &&& post == (UserData {
                profile: crate::types::UserProfile {
                    password: post.profile.password,
                    ..pre.profile
                },
                ..pre
            })
            &&& post.profile.password is Some
            &&& result == Ok::<OpResponse, OpError>(OpResponse::ProfileUpdated)
            &&& outbox is None
        },
        Op::AddNotificationInternal(n) => add_notification_rel(pre, post, n, result) && outbox
            is None,
        Op::MarkNotificationRead(id) => mark_read_rel(pre, post, id@, result) && outbox is None,
        Op::ProcessNotificationMetadata(id) => process_notification_rel(pre, post, id@, result)
            && outbox is None,
        Op::UseReferralCode(_) => match ctx.collab {
            Collab::ReferralOwner(owner) => use_referral_rel(pre, post, owner, result, outbox),
            _ => result == Err::<OpResponse, OpError>(OpError::MissingCollaborator) && post == pre
                && outbox is None,
        },
        Op::GenerateDailyTasks => match ctx.collab {
            Collab::DailyContent(content) => generate_daily_rel(
                pre,
                post,
                ctx.now_ms as int,
                content,
                result,
            ) && outbox is None,
            _ => result == Err::<OpResponse, OpError>(OpError::MissingCollaborator) && post == pre
                && outbox is None,
        },
        Op::CheckDailyTask(maybe_url) => check_daily_rel(pre, post, maybe_url, result) && outbox
            is None,
        Op::ClaimDailyReward(index) => {
            &&& (exists|m: UserData|
                #[trigger] crate::utils::claim_reward_rel(pre, m, index as int) && post
                    == product_fixed(m))
            &&& result == Ok::<OpResponse, OpError>(OpResponse::DailyRewardClaimed)
            &&& outbox is None
        },
        Op::SyncData => match ctx.collab {
            Collab::StoreWrite(ok) => {
                &&& post == pre
                &&& result == if ok {
                    Ok::<OpResponse, OpError>(OpResponse::Synced)
                } else {
                    Err::<OpResponse, OpError>(OpError::StorageFailed)
                }
                &&& outbox is None
            },
            _ => result == Err::<OpResponse, OpError>(OpError::MissingCollaborator) && post == pre
                && outbox is None,
        },
        Op::SubmitMcqAnswers(id, answers) => match ctx.collab {
            Collab::TaskSubmitted(ok) => mcq_submit_rel(
                pre,
                post,
                id@,
                answers@.len() as int,
                ok,
                result,
            ) && outbox is None,
            _ => result == Err::<OpResponse, OpError>(OpError::MissingCollaborator) && post == pre
                && outbox is None,
        },
        Op::SubmitTextAnswer(id, qidx, _) => match ctx.collab {
            Collab::TaskSubmitted(ok) => text_submit_rel(pre, post, id@, qidx as int, ok, result)
                && outbox is None,
            _ => result == Err::<OpResponse, OpError>(OpError::MissingCollaborator) && post == pre
                && outbox is None,
        },
        Op::PingPong => post == pre && result == Ok::<OpResponse, OpError>(
            OpResponse::Pong { timestamp_ms: ctx.now_ms },
        ) && outbox is None,
        Op::GetAvailableCryptos => {
            &&& post == pre
            &&& (match result {
                Ok(OpResponse::AvailableCryptos { cryptos }) => cryptos@.len()
                    == crate::crypto::CRYPTO_COUNT && (forall|i: int|
                    0 <= i < crate::crypto::CRYPTO_COUNT ==> crate::crypto::crypto_entry_ok(
                        #[trigger] cryptos@[i],
                        i,
                    )),
                _ => false,
            })
            &&& outbox is None
        },
        Op::ExchangeAkaiForCrypto(amount, symbol, receiver) => match ctx.collab {
            Collab::Transfer(t) => exchange_rel(
                pre,
                post,
                amount as int,
                symbol@,
                receiver@,
                t,
                result,
            ) && outbox is None,
            _ => result == Err::<OpResponse, OpError>(OpError::MissingCollaborator) && post == pre
                && outbox is None,
        },
        Op::GetCryptoExchangeAmount(_, symbol) => {
            &&& post == pre
            &&& result == (match crate::crypto::exchange_eligibility(
                symbol@,
                pre.progress.iq as int,
            ) {
                Ok(_) => Ok::<OpResponse, OpError>(OpResponse::QuoteChecked),
                Err(e) => Err::<OpResponse, OpError>(e),
            })
            &&& outbox is None
        },
    }
}

impl UserData {
    /// Applies one command to the aggregate state: validation and
    /// precondition failures reject it with no state change; the one outside
    /// result a command needs arrives pre-resolved in `ctx`; a Referral
    /// command queues the cross-actor message it owes instead of sending it.
    /// The state invariant is preserved, and `product` and `league` agree
    /// with the fields they are derived from whenever they did before.
    pub fn resolve_op(&mut self, op: &Op, ctx: CommandCtx) -> (r: (
        Result<OpResponse, OpError>,
        Option<OutboundNotification>,
    ))
        requires
            crate::types::wf(*old(self)),
        ensures
            crate::types::wf(*final(self)),
            resolve_rel(*old(self), *final(self), *op, ctx, r.0, r.1),
    {
        let CommandCtx { now_ms, collab } = ctx;
        match op {
            Op::CombineAlien(a, b) => (self.combine_alien(*a, *b), None),
            Op::MoveAlienFromInventoryToActive => (
                self.move_alien_from_inventory_to_active(),
                None,
            ),
            Op::SpawnAlienToInventory => (self.spawn_alien_to_inventory(), None),
            Op::DeleteAlienFromActive(idx) => (self.delete_alien_from_active(*idx), None),
            Op::MoveAlienInGrid(from, to) => (self.move_alien_in_grid(*from, *to), None),
            Op::SpawnPowerup(kind) => (self.spawn_powerup(*kind), None),
            Op::UsePowerup(idx, target) => (self.use_powerup(*idx, *target), None),
            Op::GetData => (self.get_data(now_ms / 1000), None),
            Op::Register(password) => match collab {
                Collab::StoreWrite(ok) => (self.register(password.as_str(), ok), None),
                _ => (Err(OpError::MissingCollaborator), None),
            },
            Op::UpdateEmail(email) => (self.update_email(email.clone()), None),
            Op::UpdatePfp(pfp) => (self.update_pfp(*pfp), None),
            Op::UpdateUserName(user_name) => {
                let copied = match user_name {
                    Some(n) => Some(n.clone()),
                    None => None,
                };
                (self.update_user_name(copied), None)
            },
            Op::UpdatePassword(password) => (self.update_password(password.as_str()), None),
            Op::AddNotificationInternal(n) => (self.add_notification_internal(n), None),
            Op::MarkNotificationRead(id) => (self.mark_notification_read(id), None),
            Op::ProcessNotificationMetadata(id) => (self.process_notification_metadata(id), None),
            Op::UseReferralCode(_) => match collab {
                Collab::ReferralOwner(owner) => self.use_referral_code(owner, now_ms / 1000),
                _ => (Err(OpError::MissingCollaborator), None),
            },
            Op::GenerateDailyTasks => match collab {
                Collab::DailyContent(content) => (self.generate_daily_tasks(now_ms, content), None),
                _ => (Err(OpError::MissingCollaborator), None),
            },
            Op::CheckDailyTask(maybe_url) => (self.check_daily_task(maybe_url), None),
            Op::ClaimDailyReward(index) => (self.claim_daily_reward(*index), None),
            Op::SyncData => match collab {
                Collab::StoreWrite(ok) => {
                    if ok {
                        (Ok(OpResponse::Synced), None)
                    } else {
                        (Err(OpError::StorageFailed), None)
                    }
                },
                _ => (Err(OpError::MissingCollaborator), None),
            },
            Op::SubmitMcqAnswers(id, answers) => match collab {
                Collab::TaskSubmitted(ok) => (self.submit_mcq_answers(id, answers, ok), None),
                _ => (Err(OpError::MissingCollaborator), None),
            },
            Op::SubmitTextAnswer(id, qidx, _) => match collab {
                Collab::TaskSubmitted(ok) => (self.submit_text_answer(id, *qidx, ok), None),
                _ => (Err(OpError::MissingCollaborator), None),
            },
            Op::PingPong => (Ok(OpResponse::Pong { timestamp_ms: now_ms }), None),
            Op::GetAvailableCryptos => (
                Ok(OpResponse::AvailableCryptos { cryptos: crate::crypto::all_cryptos() }),
                None,
            ),
            Op::ExchangeAkaiForCrypto(amount, symbol, receiver) => match collab {
                Collab::Transfer(t) => (
                    self.exchange_akai_for_crypto(*amount, symbol, receiver, t),
                    None,
                ),
                _ => (Err(OpError::MissingCollaborator), None),
            },
            Op::GetCryptoExchangeAmount(_, symbol) => {
                match crate::crypto::check_crypto_eligibility(symbol, self.progress.iq) {
                    Ok(_) => (Ok(OpResponse::QuoteChecked), None),
                    Err(e) => (Err(e), None),
                }
            },
        }
    }
}

} // verus!
