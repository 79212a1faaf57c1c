use vstd::prelude::*;

use crate::external::random_index;
use crate::types::{
    clamp_usize, king_of, league_of, product_of, sum_grid, BadgesKind, DailyProgress, GameState,
    LeagueType, PowerUpKind, Progress, Reward, RewardEntry, UserData, GRID_SIZE, KING_LVL_DIVISOR,
    KING_LVL_MAX,
};

verus! {

/// Structural part of the state invariant: everything of `wf` except the
/// consistency of the derived fields, which intermediate steps of a command
/// are allowed to break until the final re-derivation.
pub open spec fn wf_grid(u: UserData) -> bool {
    &&& u.game_state.active_aliens@.len() == GRID_SIZE
    &&& 1 <= u.game_state.king_lvl <= KING_LVL_MAX
}

/// Addition saturating at usize::MAX.
pub fn sat_add(a: usize, b: usize) -> (r: usize)
    ensures
        r as int == clamp_usize(a + b),
{
    match a.checked_add(b) {
        Some(s) => s,
        None => usize::MAX,
    }
}

/// How moving one creature grid prefix sum grows slot by slot.
pub proof fn lemma_sum_take_step(g: Seq<usize>, i: int)
    requires
        0 <= i < g.len(),
    ensures
        sum_grid(g.take(i + 1)) == sum_grid(g.take(i)) + g[i],
{
    assert(g.take(i + 1).drop_last() =~= g.take(i));
    assert(g.take(i + 1).last() == g[i]);
}

/// Every slot is non-negative, so the grid sum is too.
pub proof fn lemma_sum_nonneg(g: Seq<usize>)
    ensures
        sum_grid(g) >= 0,
    decreases g.len(),
{
    if g.len() > 0 {
        lemma_sum_nonneg(g.drop_last());
    }
}

/// Sum of all slot values, saturating at usize::MAX.
pub fn grid_sum(g: &Vec<usize>) -> (s: usize)
    ensures
        s as int == clamp_usize(sum_grid(g@)),
{
    let mut acc: usize = 0;
    let mut i: usize = 0;
    while i < g.len()
        invariant
            0 <= i <= g@.len(),
            acc as int == clamp_usize(sum_grid(g@.take(i as int))),
        decreases g@.len() - i,
    {
        proof {
            lemma_sum_take_step(g@, i as int);
            lemma_sum_nonneg(g@.take(i as int));
        }
        acc = sat_add(acc, g[i]);
        i = i + 1;
    }
    proof {
        assert(g@.take(g@.len() as int) =~= g@);
    }
    acc
}

/// King level derived from the current grid.
pub fn derive_king_lvl(g: &Vec<usize>) -> (lvl: usize)
    ensures
        lvl as int == king_of(g@),
        1 <= lvl <= KING_LVL_MAX,
{
    let s = grid_sum(g);
    s / KING_LVL_DIVISOR + 1
}

/// The state with `product` and `league` re-derived and nothing else changed.
pub open spec fn product_fixed(u: UserData) -> UserData {
    let p = product_of(
        u.progress.iq as int,
        u.progress.social_score as int,
        u.game_state.king_lvl as int,
    );
    UserData { progress: Progress { product: p as usize, ..u.progress }, league: league_of(p), ..u }
}

/// Re-derives `product` from `iq`, `social_score` and `king_lvl`, and
/// `league` from `product`; touches nothing else.
pub fn calculate_product(user_data: &mut UserData)
    ensures
        *final(user_data) == product_fixed(*old(user_data)),
        final(user_data).progress.product as int == product_of(
            old(user_data).progress.iq as int,
            old(user_data).progress.social_score as int,
            old(user_data).game_state.king_lvl as int,
        ),
        final(user_data).league == league_of(final(user_data).progress.product as int),
{
    let p = match user_data.progress.social_score.checked_mul(user_data.game_state.king_lvl) {
        Some(m) => sat_add(user_data.progress.iq, m),
        None => usize::MAX,
    };
    user_data.progress.product = p;
    user_data.league = LeagueType::from_product(p);
}

/// Index of the first empty slot at or after `i`, or `g.len()` if there is none.
pub open spec fn first_zero_at_or_after(g: Seq<usize>, i: int) -> int
    decreases g.len() - i,
    when 0 <= i <= g.len()
{
    if i >= g.len() {
        g.len() as int
    } else if g[i] == 0 {
        i
    } else {
        first_zero_at_or_after(g, i + 1)
    }
}

/// Index of the first slot holding the smallest value, scanning from `i` with
/// `best` the best index seen so far.
pub open spec fn min_index_at_or_after(g: Seq<usize>, i: int, best: int) -> int
    decreases g.len() - i,
    when 0 <= i <= g.len() && 0 <= best < g.len()
{
    if i >= g.len() {
        best
    } else if g[i] < g[best] {
        min_index_at_or_after(g, i + 1, i)
    } else {
        min_index_at_or_after(g, i + 1, best)
    }
}

/// Slot a newly granted creature lands in: the first empty slot if any,
/// otherwise the first slot holding the smallest value.
pub open spec fn place_target(g: Seq<usize>) -> int {
    let fz = first_zero_at_or_after(g, 0);
    if fz < g.len() {
        fz
    } else {
        min_index_at_or_after(g, 1, 0)
    }
}

/// The grid after one granted creature of level `v` lands.
pub open spec fn place_one(g: Seq<usize>, v: usize) -> Seq<usize> {
    g.update(place_target(g), v)
}

/// The grid after `n` granted creatures of level `v` land one after another.
pub open spec fn place_n(g: Seq<usize>, v: usize, n: nat) -> Seq<usize>
    decreases n,
{
    if n == 0 {
        g
    } else {
        place_one(place_n(g, v, (n - 1) as nat), v)
    }
}

pub proof fn lemma_first_zero_bounds(g: Seq<usize>, i: int)
    requires
        0 <= i <= g.len(),
    ensures
        i <= first_zero_at_or_after(g, i) <= g.len(),
        first_zero_at_or_after(g, i) < g.len() ==> g[first_zero_at_or_after(g, i)] == 0,
    decreases g.len() - i,
{
    if i < g.len() && g[i] != 0 {
        lemma_first_zero_bounds(g, i + 1);
    }
}

pub proof fn lemma_min_index_bounds(g: Seq<usize>, i: int, best: int)
    requires
        0 <= i <= g.len(),
        0 <= best < g.len(),
    ensures
        0 <= min_index_at_or_after(g, i, best) < g.len(),
    decreases g.len() - i,
{
    if i < g.len() {
        if g[i] < g[best] {
            lemma_min_index_bounds(g, i + 1, i);
        } else {
            lemma_min_index_bounds(g, i + 1, best);
        }
    }
}

pub proof fn lemma_place_target_in_range(g: Seq<usize>)
    requires
        g.len() > 0,
    ensures
        0 <= place_target(g) < g.len(),
{
    lemma_first_zero_bounds(g, 0);
    if first_zero_at_or_after(g, 0) >= g.len() {
        lemma_min_index_bounds(g, 1, 0);
    }
}

pub proof fn lemma_place_one_len(g: Seq<usize>, v: usize)
    requires
        g.len() > 0,
    ensures
        place_one(g, v).len() == g.len(),
{
    lemma_place_target_in_range(g);
}

pub proof fn lemma_place_n_len(g: Seq<usize>, v: usize, n: nat)
    requires
        g.len() > 0,
    ensures
        place_n(g, v, n).len() == g.len(),
    decreases n,
{
    if n > 0 {
        lemma_place_n_len(g, v, (n - 1) as nat);
        lemma_place_one_len(place_n(g, v, (n - 1) as nat), v);
    }
}

/// Lands one granted creature of level `v`: into the first empty slot,
/// otherwise over the first slot holding the smallest value.
pub fn place_creature(g: &mut Vec<usize>, v: usize)
    requires
        old(g)@.len() == GRID_SIZE,
    ensures
        final(g)@ == place_one(old(g)@, v),
{
    let mut j: usize = 0;
    while j < GRID_SIZE && g[j] != 0
        invariant
            0 <= j <= GRID_SIZE,
            g@.len() == GRID_SIZE,
            g@ == old(g)@,
            first_zero_at_or_after(g@, 0) == first_zero_at_or_after(g@, j as int),
        decreases GRID_SIZE - j,
    {
        j = j + 1;
    }
    if j < GRID_SIZE {
        g.set(j, v);
    } else {
        let mut best: usize = 0;
        let mut k: usize = 1;
        while k < GRID_SIZE
            invariant
                1 <= k <= GRID_SIZE,
                best < GRID_SIZE,
                g@.len() == GRID_SIZE,
                g@ == old(g)@,
                min_index_at_or_after(g@, 1, 0) == min_index_at_or_after(
                    g@,
                    k as int,
                    best as int,
                ),
            decreases GRID_SIZE - k,
        {
            if g[k] < g[best] {
                best = k;
            }
            k = k + 1;
        }
        g.set(best, v);
    }
}

/// Whether re-deriving the king level from the current grid raises it, which
/// triggers the one-per-command reward step.
pub open spec fn king_reward_fires(pre: UserData) -> bool {
    king_of(pre.game_state.active_aliens@) > pre.game_state.king_lvl
}

/// Level of the creatures granted by the king reward step at new level `lvl`.
pub open spec fn king_reward_creature(lvl: int) -> int {
    lvl * 10 - 3
}

/// How one king-level re-derivation changes the aggregate state: if the level
/// derived from the grid exceeds the stored level, the level rises to it, 50
/// currency is granted, five creatures land, and one power-up (of some kind;
/// the kind is drawn at random) is granted; otherwise nothing changes. The
/// level never decreases.
pub open spec fn recalc_king_rel(pre: UserData, post: UserData) -> bool {
    if king_reward_fires(pre) {
        let new_lvl = king_of(pre.game_state.active_aliens@);
        let earned = king_reward_creature(new_lvl) as usize;
        &&& post.game_state.king_lvl as int == new_lvl
        &&& post.game_state.active_aliens@ == place_n(pre.game_state.active_aliens@, earned, 5)
        &&& post.progress.akai_balance as int == clamp_usize(pre.progress.akai_balance + 50)
        &&& (exists|pu: PowerUpKind|
            post.game_state.power_ups@ == pre.game_state.power_ups@.push(pu))
        &&& post == (UserData {
            game_state: GameState {
                king_lvl: post.game_state.king_lvl,
                active_aliens: post.game_state.active_aliens,
                power_ups: post.game_state.power_ups,
                ..pre.game_state
            },
            progress: Progress { akai_balance: post.progress.akai_balance, ..pre.progress },
            ..pre
        })
    } else {
        post == pre
    }
}

/// Draws one of the three power-up kinds at random.
pub fn random_power_up() -> PowerUpKind {
    let i = random_index(3);
    match i {
        0 => PowerUpKind::RowPowerUp,
        1 => PowerUpKind::ColumnPowerUp,
        _ => PowerUpKind::NearestSquarePowerUp,
    }
}

/// Re-derives the king level from the grid and, if it rose, applies the
/// reward step: +50 currency, five creatures of a level derived from the new
/// level (each preferring an empty slot, otherwise the lowest-value slot),
/// and one random power-up; all of it recorded in `reward`. Fires at most
/// once per call, and the king level never decreases.
#[verifier::loop_isolation(false)]
pub fn calculate_king_alien_lvl(user_data: &mut UserData, reward: &mut Reward)
    requires
        wf_grid(*old(user_data)),
    ensures
        wf_grid(*final(user_data)),
        recalc_king_rel(*old(user_data), *final(user_data)),
        final(user_data).game_state.king_lvl >= old(user_data).game_state.king_lvl,
        king_reward_fires(*old(user_data)) ==> final(reward).is_reward,
        !king_reward_fires(*old(user_data)) ==> *final(reward) == *old(reward),
{
    let new_lvl = derive_king_lvl(&user_data.game_state.active_aliens);
    if new_lvl > user_data.game_state.king_lvl {
        user_data.game_state.king_lvl = new_lvl;
        user_data.progress.akai_balance = sat_add(user_data.progress.akai_balance, 50);
        let earned_alien = new_lvl * 10 - 3;
        let mut placed: usize = 0;
        while placed < 5
            invariant
                placed <= 5,
                user_data.game_state.active_aliens@.len() == GRID_SIZE,
                user_data.game_state.active_aliens@ == place_n(
                    old(user_data).game_state.active_aliens@,
                    earned_alien,
                    placed as nat,
                ),
                *user_data == (UserData {
                    game_state: GameState {
                        king_lvl: new_lvl,
                        active_aliens: user_data.game_state.active_aliens,
                        ..old(user_data).game_state
                    },
                    progress: Progress {
                        akai_balance: user_data.progress.akai_balance,
                        ..old(user_data).progress
                    },
                    ..*old(user_data)
                }),
                user_data.progress.akai_balance as int == clamp_usize(
                    old(user_data).progress.akai_balance + 50,
                ),
            decreases 5 - placed,
        {
            place_creature(&mut user_data.game_state.active_aliens, earned_alien);
            placed = placed + 1;
            proof {
                assert(place_n(
                    old(user_data).game_state.active_aliens@,
                    earned_alien,
                    placed as nat,
                ) == place_one(
                    place_n(
                        old(user_data).game_state.active_aliens@,
                        earned_alien,
                        (placed - 1) as nat,
                    ),
                    earned_alien,
                ));
                lemma_place_n_len(old(user_data).game_state.active_aliens@, earned_alien, placed as nat);
            }
        }
        let pu = random_power_up();
        user_data.game_state.power_ups.push(pu);
        reward.is_reward = true;
        reward.rewards.push(RewardEntry::Akai(50));
        reward.rewards.push(RewardEntry::Alien(earned_alien));
        reward.rewards.push(RewardEntry::PowerUp(pu));
    }
}

/// Name of a power-up kind as the relational store's JSON column spells it.
pub open spec fn power_up_name(p: PowerUpKind) -> Seq<char> {
    match p {
        PowerUpKind::RowPowerUp => "RowPowerUp"@,
        PowerUpKind::ColumnPowerUp => "ColumnPowerUp"@,
        PowerUpKind::NearestSquarePowerUp => "NearestSquarePowerUp"@,
    }
}

/// Name of a badge as the relational store's JSON column spells it.
pub open spec fn badge_name(b: BadgesKind) -> Seq<char> {
    match b {
        BadgesKind::TenTaskBadge => "TenTaskBadge"@,
        BadgesKind::TwentyTaskBadge => "TwentyTaskBadge"@,
        BadgesKind::ThirtyTaskBadge => "ThirtyTaskBadge"@,
    }
}

/// Name of a league tier as the relational store's column spells it.
pub open spec fn league_name(l: LeagueType) -> Seq<char> {
    match l {
        LeagueType::Bronze => "Bronze"@,
        LeagueType::Silver => "Silver"@,
        LeagueType::Gold => "Gold"@,
        LeagueType::Platinum => "Platinum"@,
        LeagueType::Diamond => "Diamond"@,
        LeagueType::Master => "Master"@,
        LeagueType::GrandMaster => "GrandMaster"@,
        LeagueType::Challenger => "Challenger"@,
    }
}

/// A name wrapped in double quotes.
pub open spec fn quoted(s: Seq<char>) -> Seq<char> {
    "\""@ + s + "\""@
}

/// The comma-separated, quoted power-up names, in order.
pub open spec fn joined_power_up_names(s: Seq<PowerUpKind>) -> Seq<char>
    decreases s.len(),
{
    if s.len() == 0 {
        Seq::empty()
    } else if s.len() == 1 {
        quoted(power_up_name(s[0]))
    } else {
        joined_power_up_names(s.drop_last()) + ","@ + quoted(power_up_name(s.last()))
    }
}

/// The JSON array of quoted power-up names, as the relational store's
/// column holds it.
pub open spec fn power_ups_json(s: Seq<PowerUpKind>) -> Seq<char> {
    "["@ + joined_power_up_names(s) + "]"@
}

/// The comma-separated, quoted badge names, in order.
pub open spec fn joined_badge_names(s: Seq<BadgesKind>) -> Seq<char>
    decreases s.len(),
{
    if s.len() == 0 {
        Seq::empty()
    } else if s.len() == 1 {
        quoted(badge_name(s[0]))
    } else {
        joined_badge_names(s.drop_last()) + ","@ + quoted(badge_name(s.last()))
    }
}

/// The JSON array of quoted badge names, as the relational store's column
/// holds it.
pub open spec fn badges_json(s: Seq<BadgesKind>) -> Seq<char> {
    "["@ + joined_badge_names(s) + "]"@
}

fn power_up_name_str(p: PowerUpKind) -> (d: &'static str)
    ensures
        d@ == power_up_name(p),
{
    match p {
        PowerUpKind::RowPowerUp => "RowPowerUp",
        PowerUpKind::ColumnPowerUp => "ColumnPowerUp",
        PowerUpKind::NearestSquarePowerUp => "NearestSquarePowerUp",
    }
}

fn badge_name_str(b: BadgesKind) -> (d: &'static str)
    ensures
        d@ == badge_name(b),
{
    match b {
        BadgesKind::TenTaskBadge => "TenTaskBadge",
        BadgesKind::TwentyTaskBadge => "TwentyTaskBadge",
        BadgesKind::ThirtyTaskBadge => "ThirtyTaskBadge",
    }
}

/// Renders the power-up stock as the JSON text the relational store's
/// column holds.
pub fn convert_power_ups_to_json(power_ups: &Vec<PowerUpKind>) -> (r: String)
    ensures
        r@ == power_ups_json(power_ups@),
{
    let mut s = String::new();
    s.append("[");
    let mut i: usize = 0;
    while i < power_ups.len()
        invariant
            0 <= i <= power_ups@.len(),
            s@ == "["@ + joined_power_up_names(power_ups@.take(i as int)),
        decreases power_ups@.len() - i,
    {
        if i > 0 {
            s.append(",");
        }
        s.append("\"");
        s.append(power_up_name_str(power_ups[i]));
        s.append("\"");
        i = i + 1;
        proof {
            assert(power_ups@.take(i as int).drop_last() =~= power_ups@.take(i - 1));
            assert(power_ups@.take(i as int).last() == power_ups@[i - 1]);
            assert(s@ =~= "["@ + joined_power_up_names(power_ups@.take(i as int)));
        }
    }
    s.append("]");
    proof {
        assert(power_ups@.take(power_ups@.len() as int) =~= power_ups@);
        assert(s@ =~= power_ups_json(power_ups@));
    }
    s
}

/// Renders the badge list as the JSON text the relational store's column
/// holds.
pub fn convert_badges_to_json(badges: &Vec<BadgesKind>) -> (r: String)
    ensures
        r@ == badges_json(badges@),
{
    let mut s = String::new();
    s.append("[");
    let mut i: usize = 0;
    while i < badges.len()
        invariant
            0 <= i <= badges@.len(),
            s@ == "["@ + joined_badge_names(badges@.take(i as int)),
        decreases badges@.len() - i,
    {
        if i > 0 {
            s.append(",");
        }
        s.append("\"");
        s.append(badge_name_str(badges[i]));
        s.append("\"");
        i = i + 1;
        proof {
            assert(badges@.take(i as int).drop_last() =~= badges@.take(i - 1));
            assert(badges@.take(i as int).last() == badges@[i - 1]);
            assert(s@ =~= "["@ + joined_badge_names(badges@.take(i as int)));
        }
    }
    s.append("]");
    proof {
        assert(badges@.take(badges@.len() as int) =~= badges@);
        assert(s@ =~= badges_json(badges@));
    }
    s
}

/// Renders a league tier as the text the relational store's column holds.
pub fn league_to_string(league: &LeagueType) -> (r: String)
    ensures
        r@ == league_name(*league),
{
    match league {
        LeagueType::Bronze => "Bronze".to_owned(),
        LeagueType::Silver => "Silver".to_owned(),
        LeagueType::Gold => "Gold".to_owned(),
        LeagueType::Platinum => "Platinum".to_owned(),
        LeagueType::Diamond => "Diamond".to_owned(),
        LeagueType::Master => "Master".to_owned(),
        LeagueType::GrandMaster => "GrandMaster".to_owned(),
        LeagueType::Challenger => "Challenger".to_owned(),
    }
}

/// The creature reward tier: claimable once three daily goals are done.
pub open spec fn tier3_fires(pre: UserData, index: int) -> bool {
    &&& pre.daily.total_completed >= 3
    &&& pre.daily.alien_earned is None
    &&& index == 3
}

/// The power-up reward tier: claimable once five daily goals are done.
pub open spec fn tier5_fires(pre: UserData, index: int) -> bool {
    &&& pre.daily.total_completed >= 5
    &&& pre.daily.pu_earned is None
    &&& index == 5
}

/// The state after the creature tier is claimed: one creature of a level
/// derived from the king level lands, the grant is remembered in
/// `alien_earned`, and the king level is re-derived (possibly firing its own
/// reward step).
pub open spec fn claim_tier3_shape(pre: UserData, post: UserData) -> bool {
    let earned = (pre.game_state.king_lvl * 10 - 3) as usize;
    let g1 = place_one(pre.game_state.active_aliens@, earned);
    &&& post.daily == (DailyProgress { alien_earned: Some(earned), ..pre.daily })
    &&& post == (UserData {
        game_state: GameState {
            king_lvl: post.game_state.king_lvl,
            active_aliens: post.game_state.active_aliens,
            power_ups: post.game_state.power_ups,
            ..pre.game_state
        },
        progress: Progress { akai_balance: post.progress.akai_balance, ..pre.progress },
        daily: post.daily,
        ..pre
    })
    &&& if king_of(g1) > pre.game_state.king_lvl {
        let k1 = king_of(g1);
        let earned2 = (k1 * 10 - 3) as usize;
        &&& post.game_state.king_lvl as int == k1
        &&& post.game_state.active_aliens@ == place_n(g1, earned2, 5)
        &&& post.progress.akai_balance as int == clamp_usize(pre.progress.akai_balance + 50)
        &&& (exists|pu: PowerUpKind|
            post.game_state.power_ups@ == pre.game_state.power_ups@.push(pu))
    } else {
        &&& post.game_state.king_lvl == pre.game_state.king_lvl
        &&& post.game_state.active_aliens@ == g1
        &&& post.game_state.power_ups == pre.game_state.power_ups
        &&& post.progress.akai_balance == pre.progress.akai_balance
    }
}

/// How one claim of a one-time daily reward tier changes the state: the
/// creature tier and the power-up tier each fire at most once (their `Some`
/// marker makes a second claim a no-op), and any other index changes nothing.
pub open spec fn claim_reward_rel(pre: UserData, post: UserData, index: int) -> bool {
    if tier3_fires(pre, index) {
        claim_tier3_shape(pre, post)
    } else if tier5_fires(pre, index) {
        exists|pu: PowerUpKind|
            post.daily == (DailyProgress { pu_earned: Some(pu), ..pre.daily })
                && post.game_state.power_ups@ == pre.game_state.power_ups@.push(pu) && post
                == (UserData {
                game_state: GameState { power_ups: post.game_state.power_ups, ..pre.game_state },
                daily: post.daily,
                ..pre
            })
    } else {
        post == pre
    }
}

/// Grants the one-time daily reward tier `index` points at, if its threshold
/// is crossed and it was not granted before; otherwise changes nothing.
pub fn give_daily_reward(user_data: &mut UserData, index: usize)
    requires
        wf_grid(*old(user_data)),
    ensures
        wf_grid(*final(user_data)),
        claim_reward_rel(*old(user_data), *final(user_data), index as int),
{
    if user_data.daily.total_completed >= 3 && user_data.daily.alien_earned.is_none() && index
        == 3 {
        let earned_alien = user_data.game_state.king_lvl * 10 - 3;
        user_data.daily.alien_earned = Some(earned_alien);
        place_creature(&mut user_data.game_state.active_aliens, earned_alien);
        proof {
            lemma_place_one_len(old(user_data).game_state.active_aliens@, earned_alien);
        }
        let mut reward = Reward::none();
        calculate_king_alien_lvl(user_data, &mut reward);
    }
    if user_data.daily.total_completed >= 5 && user_data.daily.pu_earned.is_none() && index == 5 {
        let pu = random_power_up();
        user_data.daily.pu_earned = Some(pu);
        user_data.game_state.power_ups.push(pu);
        proof {
            assert(user_data.game_state.power_ups@ == old(
                user_data,
            ).game_state.power_ups@.push(pu));
        }
    }
}

/// Claiming a daily reward tier twice is a no-op the second time: whatever a
/// first claim of tier `index` did, a second claim of the same tier leaves
/// the state exactly as the first left it.
pub proof fn lemma_claim_daily_reward_idempotent(
    s0: UserData,
    s1: UserData,
    s2: UserData,
    index: int,
)
    requires
        claim_reward_rel(s0, s1, index),
        claim_reward_rel(s1, s2, index),
    ensures
        s2 == s1,
{
    if tier3_fires(s0, index) {
        assert(s1.daily.alien_earned is Some);
        assert(!tier3_fires(s1, index));
    } else if tier5_fires(s0, index) {
        assert(s1.daily.pu_earned is Some);
        assert(!tier5_fires(s1, index));
    }
}

} // verus!
