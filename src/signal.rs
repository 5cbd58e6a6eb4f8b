use futures::channel::oneshot::{Canceled, Receiver, Sender};
use vstd::prelude::*;

verus! {

#[verifier::external_type_specification]
#[verifier::external_body]
#[verifier::reject_recursive_types(T)]
pub struct ExSender<T>(Sender<T>);

#[verifier::external_type_specification]
#[verifier::external_body]
#[verifier::reject_recursive_types(T)]
pub struct ExReceiver<T>(Receiver<T>);

#[verifier::external_type_specification]
#[verifier::external_body]
pub struct ExCanceled(Canceled);

/// What a load callback reports: success, or failure with the host's cause
/// as text.
pub type LoadMessage = Result<(), String>;

/// Whether `sender` and `receiver` are the two ends of one channel.
pub uninterp spec fn connected(sender: Sender<LoadMessage>, receiver: Receiver<LoadMessage>) -> bool;

/// Relies on futures::channel::oneshot::channel: a fresh sender and
/// receiver made by the same call, hence connected.
#[verifier::external_body]
fn oneshot_channel() -> (r: (Sender<LoadMessage>, Receiver<LoadMessage>))
    ensures
        connected(r.0, r.1),
{
    futures::channel::oneshot::channel()
}

/// Relies on futures::channel::oneshot::Sender::is_connected_to: whether
/// both ends come from the same call of `channel`.
#[verifier::external_body]
fn oneshot_connected(sender: &Sender<LoadMessage>, receiver: &Receiver<LoadMessage>) -> (r: bool)
    ensures
        r == connected(*sender, *receiver),
{
    sender.is_connected_to(receiver)
}

/// Relies on futures::channel::oneshot::Sender::send: the value is handed
/// to the receiver, or given back when the receiver is gone.
#[verifier::external_body]
fn oneshot_send(sender: Sender<LoadMessage>, value: LoadMessage) -> (r: Result<(), LoadMessage>)
    ensures
        r matches Err(v) ==> v == value,
{
    sender.send(value)
}

/// The producer side of a one-shot load completion.
///
/// It holds the sender of a channel until the first completion; every
/// later completion finds the slot empty and has no effect. The contracts
/// state which message resolves the slot and which receiver its sender is
/// paired with; that the first completion sends its message on that sender
/// is the body of `complete`, which no contract here can observe.
pub struct CompletionSlot {
    sender: Option<Sender<LoadMessage>>,
    delivered: Ghost<Option<LoadMessage>>,
}

impl CompletionSlot {
    /// The message this slot resolved with, if it has resolved.
    pub closed spec fn resolution(&self) -> Option<LoadMessage> {
        self.delivered@
    }

    pub closed spec fn wf(&self) -> bool {
        self.sender is Some <==> self.delivered@ is None
    }

    /// Whether the slot, still pending, holds the sender of the channel
    /// that `receiver` listens on.
    pub closed spec fn feeds(&self, receiver: Receiver<LoadMessage>) -> bool {
        self.sender matches Some(s) && connected(s, receiver)
    }

    /// Whether the slot still waits for its first completion.
    pub fn is_pending(&self) -> (r: bool)
        requires
            self.wf(),
        ensures
            r == (self.resolution() is None),
    {
        self.sender.is_some()
    }

    /// Whether the slot is pending and its completion goes to `receiver`.
    pub fn is_paired_with(&self, receiver: &Receiver<LoadMessage>) -> (r: bool)
        ensures
            r == self.feeds(*receiver),
    {
        match &self.sender {
            Some(s) => oneshot_connected(s, receiver),
            None => false,
        }
    }

    /// Completes the slot with `value` unless it has completed before, by
    /// sending `value` on the slot's channel. Returns whether this call was
    /// the one that resolved it.
    pub fn complete(&mut self, value: LoadMessage) -> (resolved_now: bool)
        requires
            old(self).wf(),
        ensures
            final(self).wf(),
            resolved_now == (old(self).resolution() is None),
            final(self).resolution() == resolve_step(old(self).resolution(), value),
            old(self).resolution() is Some ==> *final(self) == *old(self),
    {
        match self.sender.take() {
            Some(sender) => {
                self.delivered = Ghost(Some(value));
                let _ = oneshot_send(sender, value);
                true
            },
            None => false,
        }
    }

    /// The success callback: resolves the slot with `Ok(())` if pending.
    pub fn succeed(&mut self) -> (resolved_now: bool)
        requires
            old(self).wf(),
        ensures
            final(self).wf(),
            resolved_now == (old(self).resolution() is None),
            final(self).resolution() == resolve_step(old(self).resolution(), Ok(())),
            old(self).resolution() is Some ==> *final(self) == *old(self),
    {
        self.complete(Ok(()))
    }

    /// The failure callback: resolves the slot with `Err(cause)` if pending.
    pub fn fail(&mut self, cause: String) -> (resolved_now: bool)
        requires
            old(self).wf(),
        ensures
            final(self).wf(),
            resolved_now == (old(self).resolution() is None),
            final(self).resolution() == resolve_step(old(self).resolution(), Err(cause)),
            old(self).resolution() is Some ==> *final(self) == *old(self),
    {
        self.complete(Err(cause))
    }
}

/// A fresh pending slot together with the receiver of its channel.
pub fn completion_pair() -> (r: (CompletionSlot, Receiver<LoadMessage>))
    ensures
        r.0.wf(),
        r.0.resolution() is None,
        r.0.feeds(r.1),
{
    let (sender, receiver) = oneshot_channel();
    (CompletionSlot { sender: Some(sender), delivered: Ghost(None) }, receiver)
}

/// The state of a slot after one completion attempt: the first value
/// sticks, later ones are ignored.
pub open spec fn resolve_step<T>(current: Option<T>, value: T) -> Option<T> {
    if current is None {
        Some(value)
    } else {
        current
    }
}

/// The state of a slot after a sequence of completion attempts.
pub open spec fn resolve_all<T>(current: Option<T>, values: Seq<T>) -> Option<T>
    decreases values.len(),
{
    if values.len() == 0 {
        current
    } else {
        resolve_all(resolve_step(current, values[0]), values.drop_first())
    }
}

/// Once resolved, a slot keeps its value whatever completions follow.
pub proof fn lemma_resolution_is_final<T>(value: T, later: Seq<T>)
    ensures
        resolve_all(Some(value), later) == Some(value),
    decreases later.len(),
{
    if later.len() > 0 {
        lemma_resolution_is_final(value, later.drop_first());
    }
}

/// A pending slot that receives any nonempty sequence of completions, in
/// any order and with repeats, resolves exactly with the first of them.
pub proof fn lemma_single_resolution<T>(values: Seq<T>)
    requires
        values.len() > 0,
    ensures
        resolve_all(None, values) == Some(values[0]),
{
    lemma_resolution_is_final(values[0], values.drop_first());
}

/// Whatever number of completions has happened by the time the slot is
/// looked at, its resolution is already the first of them and stays so
/// through every later completion.
pub proof fn lemma_late_waiter_sees_first<T>(values: Seq<T>, seen_after: int)
    requires
        1 <= seen_after <= values.len(),
    ensures
        resolve_all(None, values.take(seen_after)) == Some(values[0]),
        resolve_all(None, values) == resolve_all(None, values.take(seen_after)),
{
    lemma_single_resolution(values.take(seen_after));
    lemma_single_resolution(values);
}

/// Why an awaited load did not succeed.
#[derive(Debug)]
pub enum LoadError {
    /// The host reported a failure, with its cause.
    Failed(String),
    /// Every producer was dropped before any completion.
    Abandoned,
}

/// Turns what the receiver yielded into the outcome of a load.
pub fn load_result(received: Result<LoadMessage, Canceled>) -> (r: Result<(), LoadError>)
    ensures
        received matches Ok(Ok(())) <==> r is Ok,
        received matches Ok(Err(e)) ==> r == Err::<(), LoadError>(LoadError::Failed(e)),
        received is Err ==> r == Err::<(), LoadError>(LoadError::Abandoned),
{
    match received {
        Ok(Ok(())) => Ok(()),
        Ok(Err(e)) => Err(LoadError::Failed(e)),
        Err(_) => Err(LoadError::Abandoned),
    }
}

} // verus!
