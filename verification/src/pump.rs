//! The update pump: preference bundles travel over a hand-off queue from a
//! background task to the poll step, which replaces the snapshot.

use crate::conversion::snapshot_of;
use crate::preferences::UiPreferences;
use crossbeam_channel::{Receiver, SendError, Sender, TryRecvError};
use mundy::Preferences;
use vstd::prelude::*;

verus! {

/// The receiving half of a `crossbeam_channel` channel. What it holds changes
/// under the hands of the sending thread, so it has no model.
#[verifier::external_type_specification]
#[verifier::external_body]
#[verifier::reject_recursive_types(T)]
pub struct ExReceiver<T>(crossbeam_channel::Receiver<T>);

/// The sending half of a `crossbeam_channel` channel.
#[verifier::external_type_specification]
#[verifier::external_body]
#[verifier::reject_recursive_types(T)]
pub struct ExSender<T>(crossbeam_channel::Sender<T>);

/// `crossbeam_channel::TryRecvError`, with its two variants.
#[verifier::external_type_specification]
pub struct ExTryRecvError(crossbeam_channel::TryRecvError);

/// `crossbeam_channel::SendError`, which holds the message that was not sent.
#[verifier::external_type_specification]
#[verifier::reject_recursive_types(T)]
pub struct ExSendError<T>(crossbeam_channel::SendError<T>);

/// `crossbeam_channel::Receiver::try_recv` never blocks. Which of its three
/// outcomes comes back (a message, "empty" or "disconnected") depends on what
/// the sending thread has done, so nothing is claimed of it.
pub assume_specification<T>[ crossbeam_channel::Receiver::<T>::try_recv ](
    receiver: &crossbeam_channel::Receiver<T>,
) -> (res: Result<T, crossbeam_channel::TryRecvError>)
;

/// `crossbeam_channel::Sender::send` fails only on a disconnected channel, and
/// then hands the message back inside the error. On a bounded channel that is
/// full it waits for room.
pub assume_specification<T>[ crossbeam_channel::Sender::<T>::send ](
    sender: &crossbeam_channel::Sender<T>,
    msg: T,
) -> (res: Result<(), crossbeam_channel::SendError<T>>)
    ensures
        res matches Err(error) ==> error.0 == msg,
;

/// What a poll step did when it did not fail.
#[derive(Debug, Clone, Copy, PartialEq, Eq, Structural)]
pub enum Polled {
    /// A bundle was waiting: it has replaced the snapshot.
    Replaced,
    /// Nothing was waiting: the snapshot is as it was.
    Empty,
}

/// Why a poll step failed.
#[derive(Debug, Clone, Copy, PartialEq, Eq, Structural)]
pub enum PollError {
    /// The queue is empty and its sending half is gone: no value will ever
    /// arrive again.
    Disconnected,
}

/// What the forwarding task does after it has handled one item of the stream.
#[derive(Debug, Clone, Copy, PartialEq, Eq, Structural)]
pub enum Forwarding {
    /// The bundle is queued; wait for the next one.
    Continue,
    /// The stream is exhausted; the task ends.
    Finished,
}

/// Why the forwarding task failed.
#[derive(Debug, Clone, Copy, PartialEq)]
pub enum ForwardError {
    /// The receiving half of the queue is gone. The bundle that could not be
    /// queued comes back.
    Disconnected(Preferences),
}

/// The snapshot that a poll step leaves behind when its receive produced
/// `polled`: the snapshot of a received bundle replaces the old one as a
/// whole, anything else leaves it as it was.
pub open spec fn snapshot_after(
    snapshot: UiPreferences,
    polled: Result<Preferences, TryRecvError>,
) -> UiPreferences {
    match polled {
        Ok(bundle) => snapshot_of(bundle),
        Err(_) => snapshot,
    }
}

/// What a poll step reports when its receive produced `polled`: an empty
/// queue is the steady state and no failure.
pub open spec fn poll_report(polled: Result<Preferences, TryRecvError>) -> Result<
    Polled,
    PollError,
> {
    match polled {
        Ok(_) => Ok(Polled::Replaced),
        Err(TryRecvError::Empty) => Ok(Polled::Empty),
        Err(TryRecvError::Disconnected) => Err(PollError::Disconnected),
    }
}

/// The poll step after its receive: takes what the receive produced, replaces
/// the snapshot with the snapshot of a received bundle, and reports a failure
/// if the queue is disconnected.
pub fn apply_polled(
    preferences: &mut UiPreferences,
    polled: Result<Preferences, TryRecvError>,
) -> (res: Result<Polled, PollError>)
    ensures
        *final(preferences) == snapshot_after(*old(preferences), polled),
        res == poll_report(polled),
        polled matches Ok(bundle) ==> *final(preferences) == snapshot_of(bundle),
        polled is Err ==> *final(preferences) == *old(preferences),
{
    let bundle = match polled {
        Ok(bundle) => bundle,
        Err(TryRecvError::Empty) => return Ok(Polled::Empty),
        Err(TryRecvError::Disconnected) => return Err(PollError::Disconnected),
    };
    *preferences = UiPreferences::from(bundle);
    Ok(Polled::Replaced)
}

/// One poll step: receives at most one queued bundle without blocking and
/// hands what came to [`apply_polled`].
///
/// What arrives is up to the sending thread. Whatever it is, the snapshot
/// changes only when a bundle has replaced it.
pub fn poll_system_preferences(
    receiver: &Receiver<Preferences>,
    preferences: &mut UiPreferences,
) -> (res: Result<Polled, PollError>)
    ensures
        res is Err ==> *final(preferences) == *old(preferences),
        res == Ok::<Polled, PollError>(Polled::Empty) ==> *final(preferences) == *old(preferences),
        exists|polled: Result<Preferences, TryRecvError>|
            #![trigger poll_report(polled)]
            *final(preferences) == snapshot_after(*old(preferences), polled)
                && res == poll_report(polled),
{
    let polled = receiver.try_recv();
    let res = apply_polled(preferences, polled);
    assert(*preferences == snapshot_after(*old(preferences), polled) && res == poll_report(polled));
    res
}

/// How the forwarding task goes on after a send that produced `sent`.
pub open spec fn forward_report(sent: Result<(), SendError<Preferences>>) -> Result<
    Forwarding,
    ForwardError,
> {
    match sent {
        Ok(_) => Ok(Forwarding::Continue),
        Err(error) => Err(ForwardError::Disconnected(error.0)),
    }
}

/// Decides how the forwarding task goes on after a send.
pub fn after_send(sent: Result<(), SendError<Preferences>>) -> (res: Result<
    Forwarding,
    ForwardError,
>)
    ensures
        res == forward_report(sent),
{
    match sent {
        Ok(_) => Ok(Forwarding::Continue),
        Err(error) => Err(ForwardError::Disconnected(error.0)),
    }
}

/// One step of the forwarding task, on one item of the preference stream:
/// a bundle is pushed onto the queue, and the end of the stream ends the task.
pub fn forward_stream_item(sender: &Sender<Preferences>, item: Option<Preferences>) -> (res:
    Result<Forwarding, ForwardError>)
    ensures
        item is None ==> res == Ok::<Forwarding, ForwardError>(Forwarding::Finished),
        item matches Some(bundle) ==> res == Ok::<Forwarding, ForwardError>(Forwarding::Continue)
            || res == Err::<Forwarding, ForwardError>(ForwardError::Disconnected(bundle)),
{
    match item {
        None => Ok(Forwarding::Finished),
        Some(bundle) => after_send(sender.send(bundle)),
    }
}

/// What a non-blocking receive produces on a connected queue that holds
/// `pending`, the oldest bundle first.
pub open spec fn next_polled(pending: Seq<Preferences>) -> Result<Preferences, TryRecvError> {
    if pending.len() > 0 {
        Ok(pending.first())
    } else {
        Err(TryRecvError::Empty)
    }
}

/// The bundles that stay queued after one receive on `pending`.
pub open spec fn pending_after(pending: Seq<Preferences>) -> Seq<Preferences> {
    if pending.len() > 0 {
        pending.drop_first()
    } else {
        pending
    }
}

/// The snapshot after `polls` poll steps on a connected queue that held
/// `pending` before the first of them and received nothing new since.
pub open spec fn snapshot_after_polls(
    snapshot: UiPreferences,
    pending: Seq<Preferences>,
    polls: nat,
) -> UiPreferences
    decreases polls,
{
    if polls == 0 {
        snapshot
    } else {
        snapshot_after_polls(
            snapshot_after(snapshot, next_polled(pending)),
            pending_after(pending),
            (polls - 1) as nat,
        )
    }
}

/// The bundles still queued after `polls` poll steps on a queue that held
/// `pending`.
pub open spec fn pending_after_polls(pending: Seq<Preferences>, polls: nat) -> Seq<Preferences>
    decreases polls,
{
    if polls == 0 {
        pending
    } else {
        pending_after_polls(pending_after(pending), (polls - 1) as nat)
    }
}

/// A poll step on an empty queue leaves the snapshot as it was and reports no
/// failure.
pub proof fn lemma_empty_poll_is_noop(snapshot: UiPreferences)
    ensures
        snapshot_after(snapshot, next_polled(Seq::empty())) == snapshot,
        poll_report(next_polled(Seq::empty())) == Ok::<Polled, PollError>(Polled::Empty),
        snapshot_after(snapshot, Err(TryRecvError::Empty)) == snapshot,
        poll_report(Err(TryRecvError::Empty)) == Ok::<Polled, PollError>(Polled::Empty),
{
}

/// After one bundle is queued and one poll step has run, the snapshot equals
/// the snapshot of that bundle, whatever it was before.
pub proof fn lemma_single_update(snapshot: UiPreferences, bundle: Preferences)
    ensures
        snapshot_after_polls(snapshot, seq![bundle], 1) == snapshot_of(bundle),
        poll_report(next_polled(seq![bundle])) == Ok::<Polled, PollError>(Polled::Replaced),
{
    reveal_with_fuel(snapshot_after_polls, 2);
}

/// Bundles are applied in arrival order, one per poll step: after the
/// `polls`-th step on a queue that held at least that many bundles, the
/// snapshot is that of the `polls`-th of them, and after as many steps as there
/// were bundles it is that of the last.
pub proof fn lemma_draining_order(snapshot: UiPreferences, pending: Seq<Preferences>, polls: nat)
    requires
        1 <= polls <= pending.len(),
    ensures
        snapshot_after_polls(snapshot, pending, polls) == snapshot_of(
            pending[polls - 1],
        ),
        polls == pending.len() ==> snapshot_after_polls(snapshot, pending, polls)
            == snapshot_of(pending.last()),
    decreases polls,
{
    if polls == 1 {
        reveal_with_fuel(snapshot_after_polls, 2);
    } else {
        lemma_draining_order(
            snapshot_of(pending.first()),
            pending.drop_first(),
            (polls - 1) as nat,
        );
    }
}

/// A poll step consumes at most one bundle: what it does not consume stays
/// queued in its order, and once the queue is drained further steps change
/// nothing.
pub proof fn lemma_unconsumed_values_stay_queued(pending: Seq<Preferences>, polls: nat)
    ensures
        polls <= pending.len() ==> pending_after_polls(pending, polls) == pending.skip(polls as int),
        polls >= pending.len() ==> pending_after_polls(pending, polls).len() == 0,
    decreases polls,
{
    if polls == 0 {
        assert(pending.skip(0) =~= pending);
    } else {
        lemma_unconsumed_values_stay_queued(pending_after(pending), (polls - 1) as nat);
        if 0 < polls <= pending.len() {
            assert(pending.drop_first().skip(polls - 1) =~= pending.skip(polls as int));
        }
    }
}

/// Once every queued bundle has been applied, the snapshot stays at that of
/// the last of them however many more poll steps run.
pub proof fn lemma_snapshot_settles(snapshot: UiPreferences, pending: Seq<Preferences>, polls: nat)
    requires
        polls >= pending.len(),
    ensures
        pending.len() == 0 ==> snapshot_after_polls(snapshot, pending, polls) == snapshot,
        pending.len() > 0 ==> snapshot_after_polls(snapshot, pending, polls)
            == snapshot_of(pending.last()),
    decreases polls,
{
    if polls > 0 {
        if pending.len() > 0 {
            lemma_snapshot_settles(
                snapshot_of(pending.first()),
                pending.drop_first(),
                (polls - 1) as nat,
            );
        } else {
            lemma_snapshot_settles(snapshot, pending, (polls - 1) as nat);
        }
    }
}

} // verus!
