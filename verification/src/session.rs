use vstd::prelude::*;

verus! {

/// The binding between one live connection and one actor: the bound player
/// id is held in memory and mirrored in the actor's durable store, so the
/// binding survives a restart that clears memory. Unbound when both sides
/// are empty.
#[derive(Clone, Debug)]
pub struct SessionState {
    /// The id as the running actor remembers it; lost on a restart.
    pub memory: Option<String>,
    /// The id as the durable store keeps it; survives a restart.
    pub durable: Option<String>,
}

/// The session invariant: whatever memory holds, the durable mirror holds
/// too, so rehydration can never invent a different identity.
pub open spec fn session_wf(s: SessionState) -> bool {
    match s.memory {
        Some(id) => s.durable == Some(id),
        None => true,
    }
}

impl SessionState {
    /// A fresh, unbound session.
    pub fn new() -> (s: SessionState)
        ensures
            session_wf(s),
            s.memory is None,
            s.durable is None,
    {
        SessionState { memory: None, durable: None }
    }

    /// A session as found after an actor restart: memory gone, the durable
    /// mirror as it was persisted.
    pub fn after_restart(durable: Option<String>) -> (s: SessionState)
        ensures
            session_wf(s),
            s.memory is None,
            s.durable == durable,
    {
        SessionState { memory: None, durable }
    }

    /// Binds a live connection to the actor on a successful upgrade: the
    /// player id is recorded in memory and in the durable mirror.
    pub fn bind(&mut self, user_id: String)
        ensures
            session_wf(*final(self)),
            final(self).memory == Some(user_id),
            final(self).durable == Some(user_id),
    {
        self.durable = Some(user_id.clone());
        self.memory = Some(user_id);
    }

    /// Reloads the identity from the durable mirror when memory was cleared
    /// by a restart; a live identity in memory is left alone.
    pub fn rehydrate(&mut self)
        requires
            session_wf(*old(self)),
        ensures
            session_wf(*final(self)),
            *final(self) == (match old(self).memory {
                Some(_) => *old(self),
                None => SessionState { memory: old(self).durable, durable: old(self).durable },
            }),
    {
        if self.memory.is_none() {
            self.memory = match &self.durable {
                Some(id) => Some(id.clone()),
                None => None,
            };
        }
    }

    /// The identity every connection message is checked against: the bound
    /// id, rehydrated from the durable mirror first if memory was cleared.
    pub fn message_identity(&mut self) -> (r: Option<String>)
        requires
            session_wf(*old(self)),
        ensures
            session_wf(*final(self)),
            *final(self) == (match old(self).memory {
                Some(_) => *old(self),
                None => SessionState { memory: old(self).durable, durable: old(self).durable },
            }),
            r == final(self).memory,
    {
        self.rehydrate();
        match &self.memory {
            Some(id) => Some(id.clone()),
            None => None,
        }
    }

    /// Tears the binding down on a clean close or a transport error: the
    /// caller runs a reconciliation flush for the returned id, and the
    /// session ends unbound in memory and in the durable mirror.
    pub fn disconnect(&mut self) -> (sync_for: Option<String>)
        requires
            session_wf(*old(self)),
        ensures
            session_wf(*final(self)),
            final(self).memory is None,
            final(self).durable is None,
            sync_for == (match old(self).memory {
                Some(id) => Some(id),
                None => old(self).durable,
            }),
    {
        let id = self.message_identity();
        self.memory = None;
        self.durable = None;
        id
    }
}

} // verus!
