use vstd::prelude::*;

use crate::types::{BadgesKind, LeagueType, PowerUpKind, UserData};

verus! {

/// One keyed row of a relational sub-table.
#[derive(Clone, Debug)]
pub struct Keyed<R> {
    pub user_id: String,
    pub row: R,
}

/// Index of the first row with the given key at or after `i`, or the table
/// length when there is none.
pub open spec fn key_index_from<R>(rows: Seq<Keyed<R>>, id: Seq<char>, i: int) -> int
    decreases rows.len() - i,
    when 0 <= i <= rows.len()
{
    if i >= rows.len() {
        rows.len() as int
    } else if rows[i].user_id@ == id {
        i
    } else {
        key_index_from(rows, id, i + 1)
    }
}

/// No two rows share a key.
pub open spec fn keys_unique<R>(rows: Seq<Keyed<R>>) -> bool {
    forall|i: int, j: int|
        0 <= i < j < rows.len() ==> (#[trigger] rows[i].user_id@) != (#[trigger] rows[j].user_id@)
}

/// The key-index result is in range, points at a matching row exactly when
/// one exists, and no earlier row matches.
pub proof fn lemma_key_index_bounds<R>(rows: Seq<Keyed<R>>, id: Seq<char>, i: int)
    requires
        0 <= i <= rows.len(),
    ensures
        i <= key_index_from(rows, id, i) <= rows.len(),
        key_index_from(rows, id, i) < rows.len() ==> rows[key_index_from(rows, id, i)].user_id@
            == id,
        forall|t: int| i <= t < key_index_from(rows, id, i) ==> (#[trigger] rows[t].user_id@) != id,
    decreases rows.len() - i,
{
    if i < rows.len() && rows[i].user_id@ != id {
        lemma_key_index_bounds(rows, id, i + 1);
    }
}

/// Two tables that agree, position by position, on which rows carry a key
/// find that key at the same place.
pub proof fn lemma_key_index_congruent<R>(
    a: Seq<Keyed<R>>,
    b: Seq<Keyed<R>>,
    id: Seq<char>,
    i: int,
)
    requires
        0 <= i <= a.len(),
        b.len() >= a.len(),
        forall|t: int|
            i <= t < a.len() ==> (((#[trigger] b[t]).user_id@ == id) <==> ((
            #[trigger] a[t]).user_id@ == id)),
    ensures
        key_index_from(a, id, i) < a.len() ==> key_index_from(b, id, i) == key_index_from(
            a,
            id,
            i,
        ),
        key_index_from(a, id, i) >= a.len() ==> key_index_from(b, id, i) >= a.len(),
    decreases a.len() - i,
{
    lemma_key_index_bounds(a, id, i);
    lemma_key_index_bounds(b, id, i);
    if i < a.len() && a[i].user_id@ != id {
        lemma_key_index_congruent(a, b, id, i + 1);
    }
}

/// One relational sub-table, keyed by player id.
#[derive(Clone, Debug)]
pub struct Table<R> {
    pub rows: Vec<Keyed<R>>,
}

impl<R> Table<R> {
    /// An empty table.
    pub fn new() -> (t: Table<R>)
        ensures
            t.rows@.len() == 0,
            keys_unique(t.rows@),
    {
        Table { rows: Vec::new() }
    }

    /// Index of the row holding the given key, or the table length.
    pub fn find(&self, id: &String) -> (idx: usize)
        ensures
            idx as int == key_index_from(self.rows@, id@, 0),
    {
        let mut i: usize = 0;
        while i < self.rows.len() && !crate::op_resolver::string_eq(&self.rows[i].user_id, id)
            invariant
                0 <= i <= self.rows@.len(),
                key_index_from(self.rows@, id@, 0) == key_index_from(self.rows@, id@, i as int),
            decreases self.rows@.len() - i,
        {
            i = i + 1;
        }
        i
    }

    /// Writes the row for one key: overwrites the row already holding it, or
    /// appends a new one. Other rows are untouched and keys stay unique.
    pub fn upsert(&mut self, entry: Keyed<R>)
        requires
            keys_unique(old(self).rows@),
        ensures
            keys_unique(final(self).rows@),
            table_upserted(old(self).rows@, final(self).rows@, entry),
    {
        let idx = self.find(&entry.user_id);
        proof {
            lemma_key_index_bounds(self.rows@, entry.user_id@, 0);
        }
        if idx < self.rows.len() {
            self.rows.set(idx, entry);
        } else {
            self.rows.push(entry);
        }
    }

    /// The row holding the given key, if any.
    pub fn get<'a>(&'a self, id: &String) -> (r: Option<&'a R>)
        ensures
            ({
                let idx = key_index_from(self.rows@, id@, 0);
                match r {
                    Some(row) => idx < self.rows@.len() && *row == self.rows@[idx].row,
                    None => idx >= self.rows@.len(),
                }
            }),
    {
        let idx = self.find(id);
        proof {
            lemma_key_index_bounds(self.rows@, id@, 0);
        }
        if idx < self.rows.len() {
            Some(&self.rows[idx].row)
        } else {
            None
        }
    }

    /// Whether some row holds the given key.
    pub fn contains(&self, id: &String) -> (r: bool)
        ensures
            r == (key_index_from(self.rows@, id@, 0) < self.rows@.len()),
    {
        let idx = self.find(id);
        idx < self.rows.len()
    }
}

/// What one upsert does to a table: the first row holding the entry's key is
/// replaced, or the entry is appended when no row holds it.
pub open spec fn table_upserted<R>(
    pre: Seq<Keyed<R>>,
    post: Seq<Keyed<R>>,
    entry: Keyed<R>,
) -> bool {
    let idx = key_index_from(pre, entry.user_id@, 0);
    if idx < pre.len() {
        post == pre.update(idx, entry)
    } else {
        post == pre.push(entry)
    }
}

/// After an upsert, the entry's key finds exactly the new row, and every
/// other key finds exactly what it found before.
pub proof fn lemma_table_upserted_lookup<R>(
    pre: Seq<Keyed<R>>,
    post: Seq<Keyed<R>>,
    entry: Keyed<R>,
    id2: Seq<char>,
)
    requires
        keys_unique(pre),
        table_upserted(pre, post, entry),
    ensures
        key_index_from(post, entry.user_id@, 0) < post.len(),
        post[key_index_from(post, entry.user_id@, 0)] == entry,
        id2 != entry.user_id@ ==> ({
            let j = key_index_from(pre, id2, 0);
            let j2 = key_index_from(post, id2, 0);
            if j < pre.len() {
                j2 == j && post[j2] == pre[j]
            } else {
                j2 >= post.len()
            }
        }),
{
    let key = entry.user_id@;
    let idx = key_index_from(pre, key, 0);
    lemma_key_index_bounds(pre, key, 0);
    lemma_key_index_bounds(post, key, 0);
    lemma_key_index_bounds(pre, id2, 0);
    lemma_key_index_bounds(post, id2, 0);
    lemma_key_index_congruent(pre, post, key, 0);
    lemma_key_index_congruent(pre, post, id2, 0);
    if idx < pre.len() {
        assert(key_index_from(post, key, 0) == idx);
    } else {
        assert(post[pre.len() as int] == entry);
        assert(key_index_from(post, key, 0) >= pre.len());
        if key_index_from(post, key, 0) > pre.len() {
            assert(post[pre.len() as int].user_id@ != key);
            assert(false);
        }
    }
}

/// The five relational sub-table row shapes, one row set per player.
#[derive(Clone, Debug)]
pub struct ProfileRow {
    pub email: Option<String>,
    pub pfp: usize,
    pub user_name: Option<String>,
    pub password: Option<String>,
    pub last_login: u64,
}

#[derive(Clone, Debug)]
pub struct GameStateRow {
    pub active_aliens: Vec<usize>,
    pub inventory_aliens: usize,
    pub power_ups: Vec<PowerUpKind>,
    pub king_lvl: usize,
    pub total_merged_aliens: usize,
}

#[derive(Clone, Debug)]
pub struct ProgressRow {
    pub iq: usize,
    pub social_score: usize,
    pub product: usize,
    pub all_task_done: bool,
    pub akai_balance: usize,
    pub total_task_completed: usize,
    pub streak: usize,
    pub badges: Vec<BadgesKind>,
}

#[derive(Clone, Debug)]
pub struct SocialRow {
    pub players_referred: usize,
    pub referal_code: String,
}

#[derive(Clone, Debug)]
pub struct LeagueRow {
    pub league: LeagueType,
}

/// The profile sub-table row carries exactly the aggregate's profile fields.
pub open spec fn profile_row_matches(r: ProfileRow, u: UserData) -> bool {
    &&& r.email == u.profile.email
    &&& r.pfp == u.profile.pfp
    &&& r.user_name == u.profile.user_name
    &&& r.password == u.profile.password
    &&& r.last_login == u.profile.last_login
}

/// The game-state sub-table row carries exactly the aggregate's game state.
pub open spec fn game_row_matches(r: GameStateRow, u: UserData) -> bool {
    &&& r.active_aliens@ == u.game_state.active_aliens@
    &&& r.inventory_aliens == u.game_state.inventory_aliens
    &&& r.power_ups@ == u.game_state.power_ups@
    &&& r.king_lvl == u.game_state.king_lvl
    &&& r.total_merged_aliens == u.game_state.total_merged_aliens
}

/// The progress sub-table row carries exactly the aggregate's progress.
pub open spec fn progress_row_matches(r: ProgressRow, u: UserData) -> bool {
    &&& r.iq == u.progress.iq
    &&& r.social_score == u.progress.social_score
    &&& r.product == u.progress.product
    &&& r.all_task_done == u.progress.all_task_done
    &&& r.akai_balance == u.progress.akai_balance
    &&& r.total_task_completed == u.progress.total_task_completed
    &&& r.streak == u.progress.streak
    &&& r.badges@ == u.progress.badges@
}

/// The social sub-table row carries exactly the aggregate's social data.
pub open spec fn social_row_matches(r: SocialRow, u: UserData) -> bool {
    &&& r.players_referred == u.social.players_referred
    &&& r.referal_code == u.social.referal_code
}

/// The league sub-table row carries exactly the aggregate's league.
pub open spec fn league_row_matches(r: LeagueRow, u: UserData) -> bool {
    r.league == u.league
}

/// The relational store: one sub-table per concern, each keyed by player id.
/// Cross-player queries (registration, referral lookup, the sweep's id list)
/// read these tables; per-player truth stays with each actor, so a stale or
/// partial copy here heals on the next reconciliation.
#[derive(Clone, Debug)]
pub struct Store {
    pub profiles: Table<ProfileRow>,
    pub game_states: Table<GameStateRow>,
    pub progresses: Table<ProgressRow>,
    pub socials: Table<SocialRow>,
    pub leagues: Table<LeagueRow>,
}

/// Every sub-table keeps its keys unique.
pub open spec fn store_wf(s: Store) -> bool {
    &&& keys_unique(s.profiles.rows@)
    &&& keys_unique(s.game_states.rows@)
    &&& keys_unique(s.progresses.rows@)
    &&& keys_unique(s.socials.rows@)
    &&& keys_unique(s.leagues.rows@)
}

/// What one reconciliation writes: each of the five sub-tables gets the row
/// set projected from the aggregate state, upserted under the player's id.
pub open spec fn reconcile_rel(pre: Store, post: Store, u: UserData) -> bool {
    &&& (exists|r: ProfileRow|
        #[trigger] profile_row_matches(r, u) && table_upserted(
            pre.profiles.rows@,
            post.profiles.rows@,
            Keyed { user_id: u.profile.user_id, row: r },
        ))
    &&& (exists|r: GameStateRow|
        #[trigger] game_row_matches(r, u) && table_upserted(
            pre.game_states.rows@,
            post.game_states.rows@,
            Keyed { user_id: u.profile.user_id, row: r },
        ))
    &&& (exists|r: ProgressRow|
        #[trigger] progress_row_matches(r, u) && table_upserted(
            pre.progresses.rows@,
            post.progresses.rows@,
            Keyed { user_id: u.profile.user_id, row: r },
        ))
    &&& (exists|r: SocialRow|
        #[trigger] social_row_matches(r, u) && table_upserted(
            pre.socials.rows@,
            post.socials.rows@,
            Keyed { user_id: u.profile.user_id, row: r },
        ))
    &&& (exists|r: LeagueRow|
        #[trigger] league_row_matches(r, u) && table_upserted(
            pre.leagues.rows@,
            post.leagues.rows@,
            Keyed { user_id: u.profile.user_id, row: r },
        ))
}

/// A copy of a list of plain values.
fn copy_vec<T: Copy>(v: &Vec<T>) -> (r: Vec<T>)
    ensures
        r@ == v@,
{
    let mut out: Vec<T> = Vec::new();
    let mut i: usize = 0;
    while i < v.len()
        invariant
            0 <= i <= v@.len(),
            out@ == v@.take(i as int),
        decreases v@.len() - i,
    {
        out.push(v[i]);
        i = i + 1;
        proof {
            assert(out@ =~= v@.take(i as int));
        }
    }
    proof {
        assert(v@.take(v@.len() as int) =~= v@);
    }
    out
}

fn clone_opt_string(v: &Option<String>) -> (r: Option<String>)
    ensures
        r == *v,
{
    match v {
        Some(s) => Some(s.clone()),
        None => None,
    }
}

impl Store {
    /// An empty relational store.
    pub fn new() -> (s: Store)
        ensures
            store_wf(s),
            s.profiles.rows@.len() == 0,
            s.game_states.rows@.len() == 0,
            s.progresses.rows@.len() == 0,
            s.socials.rows@.len() == 0,
            s.leagues.rows@.len() == 0,
    {
        Store {
            profiles: Table::new(),
            game_states: Table::new(),
            progresses: Table::new(),
            socials: Table::new(),
            leagues: Table::new(),
        }
    }

    /// Whether the player has a profile row: the registration check.
    pub fn is_registered(&self, user_id: &String) -> (r: bool)
        ensures
            r == (key_index_from(self.profiles.rows@, user_id@, 0) < self.profiles.rows@.len()),
    {
        self.profiles.contains(user_id)
    }

    /// Copies one aggregate state into the relational store: an upsert per
    /// sub-table, keyed by the player id. Used both for the first insert at
    /// registration and for every later reconciliation; a later sync
    /// self-heals whatever an earlier partial copy missed.
    pub fn update_user_data(&mut self, u: &UserData)
        requires
            store_wf(*old(self)),
        ensures
            store_wf(*final(self)),
            reconcile_rel(*old(self), *final(self), *u),
    {
        let id = &u.profile.user_id;
        let profile_row = ProfileRow {
            email: clone_opt_string(&u.profile.email),
            pfp: u.profile.pfp,
            user_name: clone_opt_string(&u.profile.user_name),
            password: clone_opt_string(&u.profile.password),
            last_login: u.profile.last_login,
        };
        let ghost pr = profile_row;
        self.profiles.upsert(Keyed { user_id: id.clone(), row: profile_row });
        let game_row = GameStateRow {
            active_aliens: copy_vec(&u.game_state.active_aliens),
            inventory_aliens: u.game_state.inventory_aliens,
            power_ups: copy_vec(&u.game_state.power_ups),
            king_lvl: u.game_state.king_lvl,
            total_merged_aliens: u.game_state.total_merged_aliens,
        };
        let ghost gr = game_row;
        self.game_states.upsert(Keyed { user_id: id.clone(), row: game_row });
        let progress_row = ProgressRow {
            iq: u.progress.iq,
            social_score: u.progress.social_score,
            product: u.progress.product,
            all_task_done: u.progress.all_task_done,
            akai_balance: u.progress.akai_balance,
            total_task_completed: u.progress.total_task_completed,
            streak: u.progress.streak,
            badges: copy_vec(&u.progress.badges),
        };
        let ghost sr = progress_row;
        self.progresses.upsert(Keyed { user_id: id.clone(), row: progress_row });
        let social_row = SocialRow {
            players_referred: u.social.players_referred,
            referal_code: u.social.referal_code.clone(),
        };
        let ghost so = social_row;
        self.socials.upsert(Keyed { user_id: id.clone(), row: social_row });
        let league_row = LeagueRow { league: u.league };
        let ghost lr = league_row;
        self.leagues.upsert(Keyed { user_id: id.clone(), row: league_row });
        proof {
            assert(profile_row_matches(pr, *u));
            assert(game_row_matches(gr, *u));
            assert(progress_row_matches(sr, *u));
            assert(social_row_matches(so, *u));
            assert(league_row_matches(lr, *u));
        }
    }

    /// One reconciliation in which some sub-table writes failed: each table
    /// is written independently, a failed write leaves that table as it
    /// was, and nothing is rolled back — the actor's own store stays the
    /// source of truth and a later full reconciliation self-heals the copy.
    pub fn update_user_data_partial(
        &mut self,
        u: &UserData,
        profile_ok: bool,
        game_ok: bool,
        progress_ok: bool,
        social_ok: bool,
        league_ok: bool,
    )
        requires
            store_wf(*old(self)),
        ensures
            store_wf(*final(self)),
            !profile_ok ==> final(self).profiles == old(self).profiles,
            !game_ok ==> final(self).game_states == old(self).game_states,
            !progress_ok ==> final(self).progresses == old(self).progresses,
            !social_ok ==> final(self).socials == old(self).socials,
            !league_ok ==> final(self).leagues == old(self).leagues,
            profile_ok ==> (exists|r: ProfileRow|
                #[trigger] profile_row_matches(r, *u) && table_upserted(
                    old(self).profiles.rows@,
                    final(self).profiles.rows@,
                    Keyed { user_id: u.profile.user_id, row: r },
                )),
            progress_ok ==> (exists|r: ProgressRow|
                #[trigger] progress_row_matches(r, *u) && table_upserted(
                    old(self).progresses.rows@,
                    final(self).progresses.rows@,
                    Keyed { user_id: u.profile.user_id, row: r },
                )),
    {
        let id = &u.profile.user_id;
        if profile_ok {
            let row = ProfileRow {
                email: clone_opt_string(&u.profile.email),
                pfp: u.profile.pfp,
                user_name: clone_opt_string(&u.profile.user_name),
                password: clone_opt_string(&u.profile.password),
                last_login: u.profile.last_login,
            };
            let ghost pr = row;
            self.profiles.upsert(Keyed { user_id: id.clone(), row });
            proof {
                assert(profile_row_matches(pr, *u));
            }
        }
        if game_ok {
            let row = GameStateRow {
                active_aliens: copy_vec(&u.game_state.active_aliens),
                inventory_aliens: u.game_state.inventory_aliens,
                power_ups: copy_vec(&u.game_state.power_ups),
                king_lvl: u.game_state.king_lvl,
                total_merged_aliens: u.game_state.total_merged_aliens,
            };
            self.game_states.upsert(Keyed { user_id: id.clone(), row });
        }
        if progress_ok {
            let row = ProgressRow {
                iq: u.progress.iq,
                social_score: u.progress.social_score,
                product: u.progress.product,
                all_task_done: u.progress.all_task_done,
                akai_balance: u.progress.akai_balance,
                total_task_completed: u.progress.total_task_completed,
                streak: u.progress.streak,
                badges: copy_vec(&u.progress.badges),
            };
            let ghost sr = row;
            self.progresses.upsert(Keyed { user_id: id.clone(), row });
            proof {
                assert(progress_row_matches(sr, *u));
            }
        }
        if social_ok {
            let row = SocialRow {
                players_referred: u.social.players_referred,
                referal_code: u.social.referal_code.clone(),
            };
            self.socials.upsert(Keyed { user_id: id.clone(), row });
        }
        if league_ok {
            self.leagues.upsert(Keyed { user_id: id.clone(), row: LeagueRow { league: u.league } });
        }
    }

    /// Inserts the row set for a newly registered player; the same write as
    /// a reconciliation, so re-running it is harmless.
    pub fn insert_new_user(&mut self, u: &UserData)
        requires
            store_wf(*old(self)),
        ensures
            store_wf(*final(self)),
            reconcile_rel(*old(self), *final(self), *u),
    {
        self.update_user_data(u);
    }

    /// The player id owning the given referral code, if any.
    pub fn find_user_id_by_referral_code(&self, code: &String) -> (r: Option<String>)
        ensures
            ({
                let idx = referral_index_from(self.socials.rows@, code@, 0);
                match r {
                    Some(id) => idx < self.socials.rows@.len() && id
                        == self.socials.rows@[idx].user_id,
                    None => idx >= self.socials.rows@.len(),
                }
            }),
    {
        let mut i: usize = 0;
        while i < self.socials.rows.len() && !crate::op_resolver::string_eq(
            &self.socials.rows[i].row.referal_code,
            code,
        )
            invariant
                0 <= i <= self.socials.rows@.len(),
                referral_index_from(self.socials.rows@, code@, 0) == referral_index_from(
                    self.socials.rows@,
                    code@,
                    i as int,
                ),
            decreases self.socials.rows@.len() - i,
        {
            i = i + 1;
        }
        if i < self.socials.rows.len() {
            Some(self.socials.rows[i].user_id.clone())
        } else {
            None
        }
    }

    /// Every known player id, in profile-table order: what the scheduled
    /// sweep enumerates.
    pub fn enumerate_all_player_ids(&self) -> (ids: Vec<String>)
        ensures
            ids@.len() == self.profiles.rows@.len(),
            forall|i: int|
                0 <= i < ids@.len() ==> #[trigger] ids@[i] == self.profiles.rows@[i].user_id,
    {
        let mut ids: Vec<String> = Vec::new();
        let mut i: usize = 0;
        while i < self.profiles.rows.len()
            invariant
                0 <= i <= self.profiles.rows@.len(),
                ids@.len() == i,
                forall|t: int|
                    0 <= t < i ==> #[trigger] ids@[t] == self.profiles.rows@[t].user_id,
            decreases self.profiles.rows@.len() - i,
        {
            ids.push(self.profiles.rows[i].user_id.clone());
            i = i + 1;
        }
        ids
    }
}

/// Index of the first social row holding the given referral code at or after
/// `i`, or the table length when there is none.
pub open spec fn referral_index_from(
    rows: Seq<Keyed<SocialRow>>,
    code: Seq<char>,
    i: int,
) -> int
    decreases rows.len() - i,
    when 0 <= i <= rows.len()
{
    if i >= rows.len() {
        rows.len() as int
    } else if rows[i].row.referal_code@ == code {
        i
    } else {
        referral_index_from(rows, code, i + 1)
    }
}

/// Round trip through the relational store: after one reconciliation of an
/// aggregate state, reading that player's row back from each sub-table (the
/// path the scheduled sweep and the cross-player queries use) yields fields
/// that match the aggregate, sub-table by sub-table; and no other player's
/// rows moved.
pub proof fn lemma_reconcile_round_trip(pre: Store, post: Store, u: UserData, id2: Seq<char>)
    requires
        store_wf(pre),
        reconcile_rel(pre, post, u),
    ensures
        ({
            let idx = key_index_from(post.profiles.rows@, u.profile.user_id@, 0);
            idx < post.profiles.rows@.len() && profile_row_matches(
                post.profiles.rows@[idx].row,
                u,
            )
        }),
        ({
            let idx = key_index_from(post.game_states.rows@, u.profile.user_id@, 0);
            idx < post.game_states.rows@.len() && game_row_matches(
                post.game_states.rows@[idx].row,
                u,
            )
        }),
        ({
            let idx = key_index_from(post.progresses.rows@, u.profile.user_id@, 0);
            idx < post.progresses.rows@.len() && progress_row_matches(
                post.progresses.rows@[idx].row,
                u,
            )
        }),
        ({
            let idx = key_index_from(post.socials.rows@, u.profile.user_id@, 0);
            idx < post.socials.rows@.len() && social_row_matches(
                post.socials.rows@[idx].row,
                u,
            )
        }),
        ({
            let idx = key_index_from(post.leagues.rows@, u.profile.user_id@, 0);
            idx < post.leagues.rows@.len() && league_row_matches(
                post.leagues.rows@[idx].row,
                u,
            )
        }),
        id2 != u.profile.user_id@ ==> ({
            let j = key_index_from(pre.profiles.rows@, id2, 0);
            let j2 = key_index_from(post.profiles.rows@, id2, 0);
            if j < pre.profiles.rows@.len() {
                j2 == j && post.profiles.rows@[j2] == pre.profiles.rows@[j]
            } else {
                j2 >= post.profiles.rows@.len()
            }
        }),
{
    let key = u.profile.user_id@;
    let pr = choose|r: ProfileRow|
        #[trigger] profile_row_matches(r, u) && table_upserted(
            pre.profiles.rows@,
            post.profiles.rows@,
            Keyed { user_id: u.profile.user_id, row: r },
        );
    lemma_table_upserted_lookup(
        pre.profiles.rows@,
        post.profiles.rows@,
        Keyed { user_id: u.profile.user_id, row: pr },
        id2,
    );
    let gr = choose|r: GameStateRow|
        #[trigger] game_row_matches(r, u) && table_upserted(
            pre.game_states.rows@,
            post.game_states.rows@,
            Keyed { user_id: u.profile.user_id, row: r },
        );
    lemma_table_upserted_lookup(
        pre.game_states.rows@,
        post.game_states.rows@,
        Keyed { user_id: u.profile.user_id, row: gr },
        id2,
    );
    let sr = choose|r: ProgressRow|
        #[trigger] progress_row_matches(r, u) && table_upserted(
            pre.progresses.rows@,
            post.progresses.rows@,
            Keyed { user_id: u.profile.user_id, row: r },
        );
    lemma_table_upserted_lookup(
        pre.progresses.rows@,
        post.progresses.rows@,
        Keyed { user_id: u.profile.user_id, row: sr },
        id2,
    );
    let so = choose|r: SocialRow|
        #[trigger] social_row_matches(r, u) && table_upserted(
            pre.socials.rows@,
            post.socials.rows@,
            Keyed { user_id: u.profile.user_id, row: r },
        );
    lemma_table_upserted_lookup(
        pre.socials.rows@,
        post.socials.rows@,
        Keyed { user_id: u.profile.user_id, row: so },
        id2,
    );
    let lr = choose|r: LeagueRow|
        #[trigger] league_row_matches(r, u) && table_upserted(
            pre.leagues.rows@,
            post.leagues.rows@,
            Keyed { user_id: u.profile.user_id, row: r },
        );
    lemma_table_upserted_lookup(
        pre.leagues.rows@,
        post.leagues.rows@,
        Keyed { user_id: u.profile.user_id, row: lr },
        id2,
    );
}

} // verus!
