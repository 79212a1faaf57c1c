use vstd::prelude::*;

use crate::external::new_uuid_string;
use crate::types::{NotifMeta, Notification, NotificationType, Read};

verus! {

impl NotificationType {
    pub fn as_str(&self) -> (r: &'static str)
        ensures
            r@ == match *self {
                NotificationType::Referral => "Referral"@,
                NotificationType::Performance => "Performance"@,
                NotificationType::System => "System"@,
            },
    {
        match self {
            NotificationType::Referral => "Referral",
            NotificationType::Performance => "Performance",
            NotificationType::System => "System",
        }
    }
}

impl Read {
    pub fn as_str(&self) -> (r: &'static str)
        ensures
            r@ == match *self {
                Read::Yes => "Yes"@,
                Read::No => "No"@,
                Read::Claim => "Claim"@,
            },
    {
        match self {
            Read::Yes => "Yes",
            Read::No => "No",
            Read::Claim => "Claim",
        }
    }
}

/// Kind of externally graded task a result notification can be about.
#[derive(Clone, Copy, Debug, PartialEq, Eq, Structural)]
pub enum TaskKind {
    Mcq,
    Text,
    Audio,
}

/// What one graded task is worth: currency granted on a correct or incorrect
/// answer, and the signed skill-score delta for each outcome.
#[derive(Clone, Copy, Debug, PartialEq, Eq, Structural)]
pub struct RewardConfig {
    pub akai_on_correct: usize,
    pub akai_on_incorrect: usize,
    pub iq_on_correct: usize,
    pub iq_on_incorrect: i64,
}

/// The fixed reward table per task kind.
pub open spec fn reward_config_of(kind: TaskKind) -> RewardConfig {
    match kind {
        TaskKind::Mcq => RewardConfig {
            akai_on_correct: 10,
            akai_on_incorrect: 0,
            iq_on_correct: 5,
            iq_on_incorrect: -10i64,
        },
        TaskKind::Text => RewardConfig {
            akai_on_correct: 15,
            akai_on_incorrect: 0,
            iq_on_correct: 7,
            iq_on_incorrect: -10i64,
        },
        TaskKind::Audio => RewardConfig {
            akai_on_correct: 20,
            akai_on_incorrect: 0,
            iq_on_correct: 10,
            iq_on_incorrect: -3i64,
        },
    }
}

/// The reward table entry for one task kind.
pub fn get_reward_config(task_type: TaskKind) -> (r: Option<RewardConfig>)
    ensures
        r == Some(reward_config_of(task_type)),
{
    match task_type {
        TaskKind::Mcq => Some(
            RewardConfig {
                akai_on_correct: 10,
                akai_on_incorrect: 0,
                iq_on_correct: 5,
                iq_on_incorrect: -10,
            },
        ),
        TaskKind::Text => Some(
            RewardConfig {
                akai_on_correct: 15,
                akai_on_incorrect: 0,
                iq_on_correct: 7,
                iq_on_incorrect: -10,
            },
        ),
        TaskKind::Audio => Some(
            RewardConfig {
                akai_on_correct: 20,
                akai_on_incorrect: 0,
                iq_on_correct: 10,
                iq_on_incorrect: -3,
            },
        ),
    }
}

/// Name of a task kind as it appears in result messages.
pub open spec fn task_kind_name(kind: TaskKind) -> Seq<char> {
    match kind {
        TaskKind::Mcq => "mcq"@,
        TaskKind::Text => "text"@,
        TaskKind::Audio => "audio"@,
    }
}

/// Message sent with a graded task result.
pub open spec fn task_result_message(kind: TaskKind, correct: bool) -> Seq<char> {
    if correct {
        "Task '"@ + task_kind_name(kind) + "' correct. Keep it up!"@
    } else {
        "Task '"@ + task_kind_name(kind) + "' incorrect. This will result in loss of IQ."@
    }
}

/// The currency and skill deltas one graded task result carries: a correct
/// answer grants the configured currency and skill bonus; an incorrect one
/// grants the configured (usually zero) currency and the configured negative
/// skill delta.
pub open spec fn task_result_deltas(kind: TaskKind, flagged: bool) -> (i64, i64) {
    let c = reward_config_of(kind);
    if !flagged {
        (c.akai_on_correct as i64, c.iq_on_correct as i64)
    } else {
        (c.akai_on_incorrect as i64, c.iq_on_incorrect)
    }
}

/// Computes the performance-notification payload for one graded task result:
/// the currency delta, the signed skill delta, and the message shown to the
/// player. `flagged` means the answer was judged wrong.
pub fn task_result_effect(task_type: TaskKind, flagged: bool) -> (r: (i64, i64, String))
    ensures
        (r.0, r.1) == task_result_deltas(task_type, flagged),
        r.2@ == task_result_message(task_type, !flagged),
{
    let config = match get_reward_config(task_type) {
        Some(c) => c,
        None => RewardConfig {
            akai_on_correct: 0,
            akai_on_incorrect: 0,
            iq_on_correct: 0,
            iq_on_incorrect: 0,
        },
    };
    let kind_name: &'static str = match task_type {
        TaskKind::Mcq => "mcq",
        TaskKind::Text => "text",
        TaskKind::Audio => "audio",
    };
    let mut message = String::new();
    message.append("Task '");
    message.append(kind_name);
    if !flagged {
        message.append("' correct. Keep it up!");
        proof {
            assert(message@ =~= task_result_message(task_type, true));
        }
        (config.akai_on_correct as i64, config.iq_on_correct as i64, message)
    } else {
        message.append("' incorrect. This will result in loss of IQ.");
        proof {
            assert(message@ =~= task_result_message(task_type, false));
        }
        (config.akai_on_incorrect as i64, config.iq_on_incorrect, message)
    }
}

/// Builds one outbound notification, fixing its fresh random id, its
/// timestamp and its unread state before dispatch.
pub fn build_notification(
    user_id: &String,
    notification_type: NotificationType,
    message: String,
    metadata: Option<NotifMeta>,
    now_s: u64,
) -> (n: Notification)
    ensures
        n.notification_id@.len() == 36,
        n.user_id@ == user_id@,
        n.notification_type == notification_type,
        n.message == message,
        n.timestamp == now_s,
        n.read == Read::No,
        n.metadata == metadata,
{
    Notification {
        notification_id: new_uuid_string(),
        user_id: user_id.clone(),
        notification_type,
        message,
        timestamp: now_s,
        read: Read::No,
        metadata,
    }
}

} // verus!
