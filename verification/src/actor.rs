use vstd::prelude::*;

use crate::op_resolver::{
    login_streak_rel, resolve_rel, CommandCtx, Op, OpResponse, OutboundNotification,
};
use crate::store::{key_index_from, reconcile_rel, store_wf, Store};
use crate::types::{OpError, Reward, UserData};

verus! {

/// What the registration gate decides before any command runs: a player that
/// never registered may only register, and a registered player may not
/// register again.
pub open spec fn gate_spec(registered: bool, op: Op) -> Result<(), OpError> {
    if !registered && !(op is Register) {
        Err(OpError::NotRegistered)
    } else if registered && (op is Register) {
        Err(OpError::AlreadyRegistered)
    } else {
        Ok(())
    }
}

/// Applies the registration gate to one command.
pub fn registration_gate(registered: bool, op: &Op) -> (r: Result<(), OpError>)
    ensures
        r == gate_spec(registered, *op),
{
    let is_register = match op {
        Op::Register(_) => true,
        _ => false,
    };
    if !registered && !is_register {
        Err(OpError::NotRegistered)
    } else if registered && is_register {
        Err(OpError::AlreadyRegistered)
    } else {
        Ok(())
    }
}

/// Whether a command may arrive over a live connection: registration is
/// allowed only on the one-shot request path, which prevents
/// double-registration races between the two paths.
pub fn connection_command_allowed(op: &Op) -> (r: bool)
    ensures
        r == !(*op is Register),
{
    match op {
        Op::Register(_) => false,
        _ => true,
    }
}

/// The shape every freshly created aggregate state has: well-formed, owned
/// by the addressed player, at the starting values.
pub open spec fn fresh_state_shape(u: UserData, user_id: Seq<char>) -> bool {
    &&& crate::types::wf(u)
    &&& u.profile.user_id@ == user_id
    &&& u.game_state.king_lvl == 1
    &&& u.progress.product == 60
    &&& u.social.referal_code@.len() == 8
    &&& u.notifications@.len() == 1
}

/// One full actor turn, as the per-player serial loop runs it: the aggregate
/// state is created with defaults the first time the actor is addressed; the
/// registration check rejects commands out of order; then the daily login
/// rule runs and the command is resolved. The caller persists the returned
/// state and dispatches the returned cross-actor message.
pub fn handle_command(
    state: Option<UserData>,
    user_id: &String,
    op: &Op,
    registered: bool,
    ctx: CommandCtx,
) -> (r: (UserData, Result<OpResponse, OpError>, Option<OutboundNotification>))
    requires
        (state matches Some(u) ==> crate::types::wf(u)),
    ensures
        crate::types::wf(r.0),
        (match gate_spec(registered, *op) {
            Err(e) => {
                &&& r.1 == Err::<OpResponse, OpError>(e)
                &&& r.2 is None
                &&& (match state {
                    Some(u) => r.0 == u,
                    None => fresh_state_shape(r.0, user_id@),
                })
            },
            Ok(_) => (match state {
                Some(u) => exists|mid: UserData, rw: Option<Reward>|
                    #[trigger] login_streak_rel(u, mid, ctx.now_ms as int / 1000, rw)
                        && resolve_rel(mid, r.0, *op, ctx, r.1, r.2),
                None => exists|u0: UserData, mid: UserData, rw: Option<Reward>|
                    fresh_state_shape(u0, user_id@) && #[trigger] login_streak_rel(
                        u0,
                        mid,
                        ctx.now_ms as int / 1000,
                        rw,
                    ) && resolve_rel(mid, r.0, *op, ctx, r.1, r.2),
            }),
        }),
{
    let mut user_data = match state {
        Some(u) => u,
        None => UserData::fresh(user_id.clone(), ctx.now_ms / 1000),
    };
    let ghost u0 = user_data;
    match registration_gate(registered, op) {
        Err(e) => (user_data, Err(e), None),
        Ok(_) => {
            let now_s = ctx.now_ms / 1000;
            let rw = user_data.calculate_last_login(now_s);
            let ghost mid = user_data;
            proof {
                lemma_login_preserves_wf(u0, mid, now_s as int, rw);
            }
            let (result, outbox) = user_data.resolve_op(op, ctx);
            (user_data, result, outbox)
        },
    }
}

/// The daily login rule keeps the state invariant: it touches the streak,
/// the timestamp, the balance and the power-up stock, none of which the
/// derived fields depend on.
pub proof fn lemma_login_preserves_wf(pre: UserData, post: UserData, now_s: int, r: Option<Reward>)
    requires
        crate::types::wf(pre),
        login_streak_rel(pre, post, now_s, r),
    ensures
        crate::types::wf(post),
{
}

/// Registering twice is rejected on the second attempt: once a registration
/// has written the player's rows into the relational store, the registration
/// check finds them, and any further Register command is turned away.
pub proof fn lemma_register_twice(pre_store: Store, post_store: Store, u: UserData, op2: Op)
    requires
        store_wf(pre_store),
        reconcile_rel(pre_store, post_store, u),
        op2 is Register,
    ensures
        key_index_from(post_store.profiles.rows@, u.profile.user_id@, 0)
            < post_store.profiles.rows@.len(),
        gate_spec(true, op2) == Err::<(), OpError>(OpError::AlreadyRegistered),
{
    crate::store::lemma_reconcile_round_trip(pre_store, post_store, u, u.profile.user_id@);
}

} // verus!
