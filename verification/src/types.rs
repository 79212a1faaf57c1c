use vstd::prelude::*;

verus! {

/// Number of slots in the creature grid.
pub const GRID_SIZE: usize = 16;

/// One king level is earned for every 50 points of grid value.
pub const KING_LVL_DIVISOR: usize = 50;

/// Largest king level that the derivation rule can ever produce.
pub const KING_LVL_MAX: usize = usize::MAX / 50 + 1;

/// One league tier for every 50 points of product.
pub const LEAGUE_DIVISOR: usize = 50;

#[derive(Clone, Copy, Debug, PartialEq, Eq, Structural)]
pub enum PowerUpKind {
    RowPowerUp,
    ColumnPowerUp,
    NearestSquarePowerUp,
}

#[derive(Clone, Copy, Debug, PartialEq, Eq, Structural)]
pub enum BadgesKind {
    TenTaskBadge,
    TwentyTaskBadge,
    ThirtyTaskBadge,
}

#[derive(Clone, Copy, Debug, PartialEq, Eq, Structural)]
pub enum LeagueType {
    Bronze,
    Silver,
    Gold,
    Platinum,
    Diamond,
    Master,
    GrandMaster,
    Challenger,
}

/// League tier determined by the product score alone.
pub open spec fn league_of(product: int) -> LeagueType {
    let tier = product / (LEAGUE_DIVISOR as int);
    if tier == 0 {
        LeagueType::Bronze
    } else if tier == 1 {
        LeagueType::Silver
    } else if tier == 2 {
        LeagueType::Gold
    } else if tier == 3 {
        LeagueType::Platinum
    } else if tier == 4 {
        LeagueType::Diamond
    } else if tier == 5 {
        LeagueType::Master
    } else if tier == 6 {
        LeagueType::GrandMaster
    } else {
        LeagueType::Challenger
    }
}

impl LeagueType {
    pub fn from_product(product: usize) -> (league: Self)
        ensures
            league == league_of(product as int),
    {
        match product / LEAGUE_DIVISOR {
            0 => LeagueType::Bronze,
            1 => LeagueType::Silver,
            2 => LeagueType::Gold,
            3 => LeagueType::Platinum,
            4 => LeagueType::Diamond,
            5 => LeagueType::Master,
            6 => LeagueType::GrandMaster,
            _ => LeagueType::Challenger,
        }
    }
}

#[derive(Clone, Debug)]
pub struct LeaderboardData {
    pub league: usize,
    pub global: usize,
}

#[derive(Clone, Debug)]
pub struct UserProfile {
    pub user_id: String,
    pub email: Option<String>,
    pub pfp: usize,
    pub user_name: Option<String>,
    pub password: Option<String>,
    /// Seconds; drives the daily login streak.
    pub last_login: u64,
    /// Seconds; drives the hourly passive inventory grant.
    pub real_login: u64,
}

#[derive(Clone, Debug)]
pub struct GameState {
    /// Creature level per slot; 0 means the slot is empty. Always GRID_SIZE slots.
    pub active_aliens: Vec<usize>,
    pub inventory_aliens: usize,
    pub power_ups: Vec<PowerUpKind>,
    pub king_lvl: usize,
    pub total_merged_aliens: usize,
}

#[derive(Clone, Debug)]
pub struct Progress {
    pub iq: usize,
    pub social_score: usize,
    pub product: usize,
    pub all_task_done: bool,
    pub akai_balance: usize,
    pub total_task_completed: usize,
    pub streak: usize,
    pub badges: Vec<BadgesKind>,
}

#[derive(Clone, Debug)]
pub struct SocialData {
    pub players_referred: usize,
    pub referal_code: String,
}

#[derive(Clone, Copy, Debug, PartialEq, Eq, Structural)]
pub enum NotificationType {
    Referral,
    Performance,
    System,
}

#[derive(Clone, Copy, Debug, PartialEq, Eq, Structural)]
pub enum Read {
    Yes,
    No,
    Claim,
}

/// Typed side-band data carried by a notification; the wire format keeps it as
/// a string map, which the surrounding program converts to and from this shape.
#[derive(Clone, Debug)]
pub struct NotifMeta {
    pub used_by: Option<String>,
    /// Signed currency delta applied when a Performance notification is processed.
    pub akai_delta: i64,
    /// Signed skill-score delta applied when a Performance notification is processed.
    pub iq_delta: i64,
}

#[derive(Clone, Debug)]
pub struct Notification {
    pub notification_id: String,
    pub user_id: String,
    pub notification_type: NotificationType,
    pub message: String,
    /// Seconds.
    pub timestamp: u64,
    pub read: Read,
    pub metadata: Option<NotifMeta>,
}

#[derive(Clone, Debug)]
pub struct Question {
    pub q: String,
    pub a: String,
    pub text_answers: Vec<String>,
    pub mcq_answers: Vec<String>,
}

#[derive(Clone, Debug)]
pub struct McqPreLabel {
    pub map_placement: String,
    pub questions: Vec<Question>,
    pub summary: String,
    pub keywords: Vec<String>,
}

#[derive(Clone, Debug)]
pub struct McqVideoTask {
    pub id: String,
    pub task_id: String,
    pub media_url: String,
    pub pre_label: McqPreLabel,
    pub visited: bool,
}

#[derive(Clone, Debug)]
pub struct TextVideoTask {
    pub datapoint_id: String,
    pub question_index: usize,
    pub question: String,
    pub media_url: String,
    pub visited: bool,
}

#[derive(Clone, Copy, Debug, PartialEq, Eq, Structural)]
pub enum SocialPlatform {
    YouTube,
    Twitter,
    LinkedIn,
    Instagram,
    Telegram,
    Discord,
    Facebook,
}

#[derive(Clone, Debug)]
pub struct Links {
    pub url: String,
    pub platform: SocialPlatform,
    pub visited: bool,
}

/// Progress toward one daily goal: how much was done, how much is asked for,
/// and whether the goal has been credited.
#[derive(Clone, Copy, Debug, PartialEq, Eq, Structural)]
pub struct DailyCounter {
    pub current: usize,
    pub target: usize,
    pub completed: bool,
}

#[derive(Clone, Debug)]
pub struct DailyProgress {
    pub links: Vec<Links>,
    pub daily_merge: DailyCounter,
    pub daily_annotate: DailyCounter,
    pub daily_powerups: DailyCounter,
    pub total_completed: usize,
    pub alien_earned: Option<usize>,
    pub pu_earned: Option<PowerUpKind>,
    pub mcq_video_tasks: Vec<McqVideoTask>,
    pub text_video_tasks: Vec<TextVideoTask>,
    /// Milliseconds; gates how often a new daily bundle may be generated.
    pub last_task_generation: u64,
}

#[derive(Clone, Debug)]
pub struct UserData {
    pub profile: UserProfile,
    pub game_state: GameState,
    pub progress: Progress,
    pub social: SocialData,
    pub league: LeagueType,
    pub notifications: Vec<Notification>,
    pub daily: DailyProgress,
}

/// One row of the cross-player leaderboard query, as the ranking
/// collaborator answers it. The ranking itself runs in the relational
/// store, outside this core; only the row shape is part of its contract.
#[derive(Clone, Debug)]
pub struct LeaderboardEntry {
    pub user_id: String,
    pub user_name: Option<String>,
    pub pfp: usize,
    pub product: usize,
    pub social_score: usize,
    pub iq: usize,
    pub king_lvl: usize,
    pub league: String,
}

/// The ledger's answer to a completed exchange: the transaction reference.
#[derive(Clone, Debug)]
pub struct ExchangeAkaiForCrypto {
    pub tx_hash: String,
}

/// One concrete thing granted to the player by a reward step.
#[derive(Clone, Debug)]
pub enum RewardEntry {
    Akai(usize),
    PowerUp(PowerUpKind),
    Alien(usize),
    Streak(usize),
    Iq(usize),
}

/// Rewards granted as a side effect of one command; `is_reward` is false when
/// nothing was granted.
#[derive(Clone, Debug)]
pub struct Reward {
    pub is_reward: bool,
    pub rewards: Vec<RewardEntry>,
}

impl Reward {
    pub fn none() -> (r: Reward)
        ensures
            !r.is_reward,
            r.rewards@.len() == 0,
    {
        Reward { is_reward: false, rewards: Vec::new() }
    }
}

/// Why a command was rejected. Validation and precondition failures reject
/// the command before any state change; collaborator and storage failures are
/// surfaced for the triggering command.
#[derive(Clone, Copy, Debug, PartialEq, Eq, Structural)]
pub enum OpError {
    /// Merge with both indices the same slot.
    SameSlot,
    /// A grid or power-up index outside its range.
    IndexOutOfRange,
    /// Move from an empty inventory.
    NoAliensInInventory,
    /// Move into a grid with no empty slot.
    GridFull,
    /// Delete of the slot holding the current maximum value.
    CannotDeleteHighest,
    /// A notification id that resolves to nothing.
    NotificationNotFound,
    /// A task id (or id and question index) that resolves to nothing.
    TaskNotFound,
    /// A task that was already graded.
    TaskAlreadyCompleted,
    /// A multiple-choice submission without exactly five answers.
    WrongAnswerCount,
    /// A stored task whose question list is malformed.
    InvalidTaskData,
    /// A referral code that resolves to no player.
    InvalidReferralCode,
    /// A referral code used by the player who owns it.
    OwnReferralCode,
    /// Daily tasks requested before the minimum interval elapsed.
    TasksNotAvailableYet,
    /// A currency amount above the available balance.
    InsufficientBalance,
    /// A skill score below what the requested crypto asks for.
    IqTooLow,
    /// A crypto symbol outside the catalogue, or a malformed wallet address.
    CryptoNotAvailable,
    /// Any command but Register from a player that never registered.
    NotRegistered,
    /// Register from a player that already registered.
    AlreadyRegistered,
    /// An external collaborator reported failure.
    CollaboratorFailed,
    /// The store reported failure.
    StorageFailed,
    /// The command needed an external result that was not supplied with it.
    MissingCollaborator,
}

/// Clamp an unbounded integer to the usize range (from below it is never needed:
/// all summands here are non-negative).
pub open spec fn clamp_usize(x: int) -> int {
    if x > usize::MAX as int {
        usize::MAX as int
    } else {
        x
    }
}

/// Mathematical sum of all slot values of a grid.
pub open spec fn sum_grid(g: Seq<usize>) -> int
    decreases g.len(),
{
    if g.len() == 0 {
        0
    } else {
        sum_grid(g.drop_last()) + g.last()
    }
}

/// King level derived from a grid: (sum of all slots / 50) + 1, the sum
/// saturating at usize::MAX.
pub open spec fn king_of(g: Seq<usize>) -> int {
    clamp_usize(sum_grid(g)) / (KING_LVL_DIVISOR as int) + 1
}

/// Product score derived from skill score, social score and king level,
/// saturating at usize::MAX.
pub open spec fn product_of(iq: int, social_score: int, king_lvl: int) -> int {
    clamp_usize(iq + social_score * king_lvl)
}

/// The derived fields agree with what they are derived from: `product` is the
/// deterministic function of `iq`, `social_score` and `king_lvl`, and `league`
/// is the deterministic function of `product`.
pub open spec fn product_consistent(u: UserData) -> bool {
    &&& u.progress.product as int == product_of(
        u.progress.iq as int,
        u.progress.social_score as int,
        u.game_state.king_lvl as int,
    )
    &&& u.league == league_of(u.progress.product as int)
}

/// Structural well-formedness of an aggregate state: the grid has exactly
/// GRID_SIZE slots, the king level is in the range the derivation rule can
/// produce, and the derived fields are consistent.
pub open spec fn wf(u: UserData) -> bool {
    &&& u.game_state.active_aliens@.len() == GRID_SIZE
    &&& 1 <= u.game_state.king_lvl <= KING_LVL_MAX
    &&& product_consistent(u)
}

impl UserData {
    /// The aggregate state a player starts with, deterministic given the
    /// identifiers and the clock: ten level-1 creatures on the grid, a
    /// starter inventory and power-up stock, the starter scores with the
    /// derived fields consistent, a fresh referral code, and one System
    /// welcome notification.
    pub fn default_with(
        user_id: String,
        referal_code: String,
        welcome_id: String,
        now_s: u64,
    ) -> (u: UserData)
        ensures
            wf(u),
            u.profile.user_id == user_id,
            u.profile.email is None,
            u.profile.pfp == 1,
            u.profile.user_name is None,
            (match u.profile.password {
                Some(p) => p@ == "123456"@,
                None => false,
            }),
            u.profile.last_login == now_s,
            u.profile.real_login == now_s,
            forall|i: int| 0 <= i < 10 ==> u.game_state.active_aliens@[i] == 1,
            forall|i: int| 10 <= i < GRID_SIZE ==> u.game_state.active_aliens@[i] == 0,
            u.game_state.inventory_aliens == 30,
            u.game_state.power_ups@ == seq![
                PowerUpKind::ColumnPowerUp,
                PowerUpKind::RowPowerUp,
                PowerUpKind::NearestSquarePowerUp,
            ],
            u.game_state.king_lvl == 1,
            u.game_state.total_merged_aliens == 0,
            u.progress.iq == 40,
            u.progress.social_score == 20,
            u.progress.product == 60,
            u.progress.akai_balance == 95,
            u.progress.total_task_completed == 0,
            u.progress.streak == 0,
            !u.progress.all_task_done,
            u.progress.badges@.len() == 0,
            u.social.players_referred == 0,
            u.social.referal_code == referal_code,
            u.notifications@.len() == 1,
            u.notifications@[0].notification_id == welcome_id,
            u.notifications@[0].user_id == user_id,
            u.notifications@[0].notification_type == NotificationType::System,
            u.notifications@[0].message@ == "Welcome to the game!"@,
            u.notifications@[0].timestamp == now_s,
            u.notifications@[0].read == Read::No,
            u.notifications@[0].metadata is None,
            u.daily.links@.len() == 0,
            u.daily.daily_merge == (DailyCounter { current: 0, target: 0, completed: false }),
            u.daily.daily_annotate == (DailyCounter { current: 0, target: 0, completed: false }),
            u.daily.daily_powerups == (DailyCounter { current: 0, target: 0, completed: false }),
            u.daily.total_completed == 0,
            u.daily.alien_earned is None,
            u.daily.pu_earned is None,
            u.daily.mcq_video_tasks@.len() == 0,
            u.daily.text_video_tasks@.len() == 0,
            u.daily.last_task_generation == 0,
    {
        let mut grid: Vec<usize> = Vec::new();
        let mut i: usize = 0;
        while i < 10
            invariant
                0 <= i <= 10,
                grid@.len() == i,
                forall|t: int| 0 <= t < i ==> grid@[t] == 1,
            decreases 10 - i,
        {
            grid.push(1);
            i = i + 1;
        }
        while i < GRID_SIZE
            invariant
                10 <= i <= GRID_SIZE,
                grid@.len() == i,
                forall|t: int| 0 <= t < 10 ==> grid@[t] == 1,
                forall|t: int| 10 <= t < i ==> grid@[t] == 0,
            decreases GRID_SIZE - i,
        {
            grid.push(0);
            i = i + 1;
        }
        let mut power_ups: Vec<PowerUpKind> = Vec::new();
        power_ups.push(PowerUpKind::ColumnPowerUp);
        power_ups.push(PowerUpKind::RowPowerUp);
        power_ups.push(PowerUpKind::NearestSquarePowerUp);
        proof {
            assert(power_ups@ =~= seq![
                PowerUpKind::ColumnPowerUp,
                PowerUpKind::RowPowerUp,
                PowerUpKind::NearestSquarePowerUp,
            ]);
        }
        let welcome = Notification {
            notification_id: welcome_id,
            user_id: user_id.clone(),
            notification_type: NotificationType::System,
            message: "Welcome to the game!".to_owned(),
            timestamp: now_s,
            read: Read::No,
            metadata: None,
        };
        let mut notifications: Vec<Notification> = Vec::new();
        notifications.push(welcome);
        UserData {
            profile: UserProfile {
                user_id,
                email: None,
                pfp: 1,
                user_name: None,
                password: Some("123456".to_owned()),
                last_login: now_s,
                real_login: now_s,
            },
            game_state: GameState {
                active_aliens: grid,
                inventory_aliens: 30,
                power_ups,
                king_lvl: 1,
                total_merged_aliens: 0,
            },
            progress: Progress {
                iq: 40,
                social_score: 20,
                product: 60,
                all_task_done: false,
                akai_balance: 95,
                total_task_completed: 0,
                streak: 0,
                badges: Vec::new(),
            },
            social: SocialData { players_referred: 0, referal_code },
            league: LeagueType::Silver,
            notifications,
            daily: DailyProgress {
                links: Vec::new(),
                daily_merge: DailyCounter { current: 0, target: 0, completed: false },
                daily_annotate: DailyCounter { current: 0, target: 0, completed: false },
                daily_powerups: DailyCounter { current: 0, target: 0, completed: false },
                total_completed: 0,
                alien_earned: None,
                pu_earned: None,
                mcq_video_tasks: Vec::new(),
                text_video_tasks: Vec::new(),
                last_task_generation: 0,
            },
        }
    }

    /// A fresh aggregate state for a newly addressed player: the defaults of
    /// `default_with`, a random 8-character referral code, and a fresh
    /// random id on the welcome notification.
    pub fn fresh(user_id: String, now_s: u64) -> (u: UserData)
        ensures
            wf(u),
            u.profile.user_id == user_id,
            u.social.referal_code@.len() == 8,
            u.game_state.king_lvl == 1,
            u.progress.product == 60,
            u.notifications@.len() == 1,
    {
        let code = crate::external::random_alphanumeric(8);
        let welcome_id = crate::external::new_uuid_string();
        UserData::default_with(user_id, code, welcome_id, now_s)
    }
}

} // verus!
