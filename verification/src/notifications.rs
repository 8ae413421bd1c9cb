//! Notifications: a FIFO queue filtered by the user's context.
use vstd::prelude::*;

verus! {

/// How urgent a notification is.
#[derive(Debug, Clone, Copy, PartialEq, Eq, Structural)]
pub enum Priority {
    Low,
    Normal,
    High,
    Critical,
}

/// The user's availability.
#[derive(Debug, Clone, Copy, PartialEq, Eq, Structural)]
pub enum ContextState {
    Active,
    DoNotDisturb,
    Sleep,
}

/// A queued notification.
#[derive(Debug)]
pub struct Notification {
    pub id: usize,
    pub message: String,
    pub priority: Priority,
    pub timestamp: u64,
}

/// Whether a notification of `priority` gets through in `state`: all when
/// active, High and Critical under do-not-disturb, Critical only in sleep.
pub open spec fn admitted(state: ContextState, priority: Priority) -> bool {
    match state {
        ContextState::Active => true,
        ContextState::DoNotDisturb => priority == Priority::High || priority == Priority::Critical,
        ContextState::Sleep => priority == Priority::Critical,
    }
}

/// The queue, the id counter and the context.
pub struct NotificationCenter {
    pub queue: Vec<Notification>,
    pub counter: usize,
    pub state: ContextState,
}

impl NotificationCenter {
    /// An empty queue, ids from 0, context active.
    pub fn new() -> (c: Self)
        ensures
            c.queue@.len() == 0,
            c.counter == 0,
            c.state == ContextState::Active,
    {
        NotificationCenter { queue: Vec::new(), counter: 0, state: ContextState::Active }
    }

    /// Sets the context.
    pub fn set_state(&mut self, state: ContextState)
        ensures
            final(self).state == state,
            final(self).queue@ == old(self).queue@,
            final(self).counter == old(self).counter,
    {
        self.state = state;
    }

    /// Offers a notification: it takes the next id whether or not it is
    /// admitted, and joins the back of the queue when it is.
    pub fn push(&mut self, message: &str, priority: Priority)
        ensures
            final(self).counter == old(self).counter.wrapping_add(1),
            final(self).state == old(self).state,
            admitted(old(self).state, priority) ==> final(self).queue@.len() == old(self).queue@.len() + 1
                && final(self).queue@.drop_last() == old(self).queue@
                && final(self).queue@.last().id == old(self).counter
                && final(self).queue@.last().message@ == message@
                && final(self).queue@.last().priority == priority
                && final(self).queue@.last().timestamp == 0,
            !admitted(old(self).state, priority) ==> final(self).queue@ == old(self).queue@,
    {
        let id = self.counter;
        self.counter = self.counter.wrapping_add(1);
        let should_push = match self.state {
            ContextState::Active => true,
            ContextState::DoNotDisturb => priority == Priority::High || priority == Priority::Critical,
            ContextState::Sleep => priority == Priority::Critical,
        };
        if should_push {
            self.queue.push(Notification { id, message: message.to_owned(), priority, timestamp: 0 });
            assert(self.queue@.drop_last() =~= old(self).queue@);
        }
    }

    /// Takes the oldest notification, if any.
    pub fn pop(&mut self) -> (n: Option<Notification>)
        ensures
            old(self).queue@.len() == 0 ==> n is None && final(self).queue@ == old(self).queue@,
            old(self).queue@.len() > 0 ==> n == Some(old(self).queue@[0]) && final(self).queue@ == old(self).queue@.drop_first(),
            final(self).counter == old(self).counter,
            final(self).state == old(self).state,
    {
        if self.queue.len() == 0 {
            None
        } else {
            let n = self.queue.remove(0);
            assert(self.queue@ =~= old(self).queue@.drop_first());
            Some(n)
        }
    }
}

/// The notification self-test: under do-not-disturb a Low notification is
/// held back and a High one queued, and popping gives the High one.
pub fn test_notifications() -> (passed: bool)
    ensures
        passed,
{
    let mut center = NotificationCenter::new();
    center.set_state(ContextState::DoNotDisturb);
    center.push("Low priority", Priority::Low);
    center.push("High priority", Priority::High);
    let one = center.queue.len() == 1;
    let n = center.pop();
    let ok = match n {
        Some(n) => crate::strings::str_eq(n.message.as_str(), "High priority"),
        None => false,
    };
    proof {
        reveal_strlit("High priority");
    }
    one && ok
}

/// Filtering only tightens from active to do-not-disturb to sleep: what
/// sleep admits do-not-disturb admits, what do-not-disturb admits active
/// admits, and a Critical notification is admitted in every context.
pub proof fn lemma_admission_monotone(state: ContextState, p1: Priority)
    ensures
        admitted(ContextState::Sleep, p1) ==> admitted(ContextState::DoNotDisturb, p1),
        admitted(ContextState::DoNotDisturb, p1) ==> admitted(ContextState::Active, p1),
        admitted(state, Priority::Critical),
{
}

} // verus!
