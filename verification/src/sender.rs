//! Batch delivery accounting. The transport itself lives outside the
//! library; a caller drives [`SendBatch`]: `next` yields the next wire
//! message (counting skip-send messages as sent without any transport
//! interaction), the caller transmits it and reports the transport's
//! outcome through `apply_outcome`. A positive acknowledgment counts, a
//! negative one is tolerated without counting, and a transport failure
//! aborts the remaining batch: the caller then learns only the error,
//! never a partial count.

use crate::template::{
    spec_effective_from, spec_render, spec_sendable, spec_sendable_err, RenderedEmail, Template,
    TemplateError,
};
use vstd::prelude::*;

verus! {

/// What the transport reported for one transmitted message.
#[derive(Debug, Clone)]
pub enum TransportOutcome {
    /// Positive acknowledgment: the message counts as sent.
    Positive,
    /// Rejection without a transport error: logged by the caller, not
    /// counted, the batch goes on.
    Negative,
    /// A transport error, with its description: the batch is aborted.
    Failed(String),
}

/// Why a send call failed.
#[derive(Debug, Clone)]
pub enum SendError {
    /// A message could not be rendered into a wire message.
    Message(TemplateError),
    /// The transport failed; the remaining batch was abandoned.
    Transport(String),
}

/// The result of delivering `msgs[i..]` when the transport answers as
/// `outs` says: the count of messages sent (skip-send ones included), or
/// the first error. A message that cannot be rendered, or a transport
/// failure, aborts everything after it; the outcome of a skip-send
/// message is never consulted.
pub open spec fn spec_batch(
    msgs: Seq<Template>,
    outs: Seq<TransportOutcome>,
    i: int,
) -> Result<int, SendError>
    decreases msgs.len() - i,
{
    if i < 0 || i >= msgs.len() {
        Ok(0)
    } else {
        let rest = spec_batch(msgs, outs, i + 1);
        if msgs[i].skip_send {
            match rest {
                Ok(k) => Ok(1 + k),
                Err(e) => Err(e),
            }
        } else if !spec_sendable(msgs[i]) {
            Err(SendError::Message(spec_sendable_err(msgs[i])))
        } else {
            match outs[i] {
                TransportOutcome::Failed(s) => Err(SendError::Transport(s)),
                TransportOutcome::Positive => match rest {
                    Ok(k) => Ok(1 + k),
                    Err(e) => Err(e),
                },
                TransportOutcome::Negative => rest,
            }
        }
    }
}

/// The index of the first message at or after `i` that needs the
/// transport; `msgs.len()` when every remaining message is skip-send.
pub open spec fn spec_next_transmit(msgs: Seq<Template>, i: int) -> int
    decreases msgs.len() - i,
{
    if 0 <= i < msgs.len() && msgs[i].skip_send {
        spec_next_transmit(msgs, i + 1)
    } else {
        i
    }
}

/// A transport failure on any transmitted message makes the whole call an
/// error: the caller never learns a partial count.
pub proof fn lemma_transport_error_aborts(msgs: Seq<Template>, outs: Seq<TransportOutcome>)
    requires
        exists|i: int|
            0 <= i < msgs.len() && !msgs[i].skip_send && outs[i] is Failed,
    ensures
        spec_batch(msgs, outs, 0) is Err,
{
    let w = choose|i: int| 0 <= i < msgs.len() && !msgs[i].skip_send && outs[i] is Failed;
    lemma_batch_err_upto(msgs, outs, 0, w);
}

proof fn lemma_batch_err_upto(msgs: Seq<Template>, outs: Seq<TransportOutcome>, i: int, w: int)
    requires
        0 <= i <= w < msgs.len(),
        !msgs[w].skip_send,
        outs[w] is Failed,
    ensures
        spec_batch(msgs, outs, i) is Err,
    decreases w - i,
{
    if i < w {
        lemma_batch_err_upto(msgs, outs, i + 1, w);
    }
}

/// A batch whose every transmitted message renders and is positively
/// acknowledged succeeds with the full count: the skip-send messages are
/// counted as sent without any transport interaction.
pub proof fn lemma_all_positive_counts_everything(msgs: Seq<Template>, outs: Seq<TransportOutcome>)
    requires
        forall|i: int|
            0 <= i < msgs.len() && !msgs[i].skip_send ==> spec_sendable(msgs[i]) && outs[i]
                is Positive,
    ensures
        spec_batch(msgs, outs, 0) == Ok::<int, SendError>(msgs.len() as int),
{
    lemma_batch_ok_from(msgs, outs, 0);
}

proof fn lemma_batch_ok_from(msgs: Seq<Template>, outs: Seq<TransportOutcome>, i: int)
    requires
        0 <= i <= msgs.len(),
        forall|j: int|
            0 <= j < msgs.len() && !msgs[j].skip_send ==> spec_sendable(msgs[j]) && outs[j]
                is Positive,
    ensures
        spec_batch(msgs, outs, i) == Ok::<int, SendError>(msgs.len() - i),
    decreases msgs.len() - i,
{
    if i < msgs.len() {
        lemma_batch_ok_from(msgs, outs, i + 1);
    }
}

/// One send call in progress: the messages, the sender's default
/// from-mailbox, the next message to look at, and the count of messages
/// sent so far.
pub struct SendBatch {
    pub msgs: Vec<Template>,
    pub default_from: String,
    pub idx: usize,
    pub sent: usize,
}

/// The machine never looks past the end and never counts more messages
/// than it has passed.
pub open spec fn spec_inv(b: SendBatch) -> bool {
    b.idx <= b.msgs@.len() && b.sent <= b.idx && b.msgs@.len() <= usize::MAX
}

/// What `next` reports: the next wire message to transmit, the final
/// count when the batch is exhausted, or the error of a message that
/// could not be rendered.
#[derive(Debug)]
pub enum BatchStep {
    /// Transmit this and report the outcome through `apply_outcome`.
    Wire(RenderedEmail),
    /// Every message was dealt with; the count of sent messages.
    Done(usize),
    /// A message could not be rendered; the batch is abandoned.
    Failed(SendError),
}

impl SendBatch {
    /// Start a batch over `msgs`, stamping `default_from` on messages
    /// that carry no explicit from-mailbox.
    pub fn new(msgs: Vec<Template>, default_from: String) -> (b: SendBatch)
        ensures
            b.msgs@ == msgs@,
            b.default_from@ == default_from@,
            b.idx == 0,
            b.sent == 0,
            spec_inv(b),
    {
        let n = msgs.len();
        proof {
            assert(n == msgs@.len());
        }
        SendBatch { msgs, default_from, idx: 0, sent: 0 }
    }

    /// Advance to the next message that needs the transport, counting the
    /// skip-send messages passed over as sent, and render it with the
    /// default from-mailbox stamped where none is set.
    pub fn next(&mut self) -> (s: BatchStep)
        requires
            spec_inv(*old(self)),
        ensures
            spec_inv(*final(self)),
            final(self).msgs == old(self).msgs,
            final(self).default_from == old(self).default_from,
            final(self).idx == spec_next_transmit(old(self).msgs@, old(self).idx as int),
            final(self).sent == old(self).sent + (final(self).idx - old(self).idx),
            (s is Done <==> final(self).idx == old(self).msgs@.len()),
            s matches BatchStep::Done(c) ==> c == final(self).sent,
            s matches BatchStep::Wire(m) ==> {
                let k = final(self).idx as int;
                &&& k < old(self).msgs@.len()
                &&& spec_sendable(old(self).msgs@[k])
                &&& m.from@ == spec_effective_from(old(self).msgs@[k], old(self).default_from@)
                &&& m.to@ == old(self).msgs@[k].to->0@
                &&& m.subject@ == old(self).msgs@[k].subject@
                &&& m.preview@ == old(self).msgs@[k].preview@
                &&& m.body@ == spec_render(
                    old(self).msgs@[k].body->0@,
                    old(self).msgs@[k].vars.deep_view(),
                )->0
            },
            s matches BatchStep::Failed(e) ==> {
                let k = final(self).idx as int;
                &&& k < old(self).msgs@.len()
                &&& !spec_sendable(old(self).msgs@[k])
                &&& e == SendError::Message(spec_sendable_err(old(self).msgs@[k]))
            },
    {
        let n = self.msgs.len();
        while self.idx < n && self.msgs[self.idx].skip_send
            invariant
                n == self.msgs@.len(),
                self.msgs == old(self).msgs,
                self.default_from == old(self).default_from,
                old(self).idx <= self.idx <= n,
                self.sent == old(self).sent + (self.idx - old(self).idx),
                self.sent <= self.idx,
                spec_next_transmit(old(self).msgs@, old(self).idx as int) == spec_next_transmit(
                    self.msgs@,
                    self.idx as int,
                ),
            decreases n - self.idx,
        {
            self.sent = self.sent + 1;
            self.idx = self.idx + 1;
        }
        if self.idx == n {
            return BatchStep::Done(self.sent);
        }
        let m = &self.msgs[self.idx];
        match m.message_with_from(self.default_from.as_str()) {
            Ok(w) => BatchStep::Wire(w),
            Err(e) => BatchStep::Failed(SendError::Message(e)),
        }
    }

    /// Record the transport's outcome for the message last yielded by
    /// `next`: a positive acknowledgment counts it as sent, a negative one
    /// passes it over, and a transport failure yields the error that
    /// abandons the batch.
    pub fn apply_outcome(&mut self, outcome: &TransportOutcome) -> (r: Option<SendError>)
        requires
            spec_inv(*old(self)),
            old(self).idx < old(self).msgs@.len(),
        ensures
            spec_inv(*final(self)),
            final(self).msgs == old(self).msgs,
            final(self).default_from == old(self).default_from,
            *outcome is Positive ==> r is None && final(self).idx == old(self).idx + 1
                && final(self).sent == old(self).sent + 1,
            *outcome is Negative ==> r is None && final(self).idx == old(self).idx + 1
                && final(self).sent == old(self).sent,
            *outcome matches TransportOutcome::Failed(s) ==> (r matches Some(e) && e
                == SendError::Transport(s)) && final(self).idx == old(self).idx && final(self).sent
                == old(self).sent,
    {
        match outcome {
            TransportOutcome::Positive => {
                self.sent = self.sent + 1;
                self.idx = self.idx + 1;
                Option::None
            },
            TransportOutcome::Negative => {
                self.idx = self.idx + 1;
                Option::None
            },
            TransportOutcome::Failed(s) => Option::Some(SendError::Transport(s.clone())),
        }
    }
}

/// Deliver a whole batch against a given sequence of transport outcomes,
/// one outcome per message; the outcome of a skip-send message is never
/// consulted. Returns exactly what `spec_batch` says: the full count on
/// success, or the first error.
pub fn send_tally(
    msgs: &Vec<Template>,
    default_from: &str,
    outcomes: &Vec<TransportOutcome>,
) -> (r: Result<usize, SendError>)
    requires
        outcomes@.len() == msgs@.len(),
    ensures
        r matches Ok(n) ==> spec_batch(msgs@, outcomes@, 0) == Ok::<int, SendError>(n as int),
        r matches Err(e) ==> spec_batch(msgs@, outcomes@, 0) == Err::<int, SendError>(e),
{
    let n = msgs.len();
    let mut i: usize = 0;
    let mut sent: usize = 0;
    while i < n
        invariant
            n == msgs@.len(),
            i <= n,
            sent <= i,
            outcomes@.len() == msgs@.len(),
            spec_batch(msgs@, outcomes@, 0) == (match spec_batch(msgs@, outcomes@, i as int) {
                Ok(k) => Ok::<int, SendError>(sent + k),
                Err(e) => Err::<int, SendError>(e),
            }),
        decreases n - i,
    {
        let m = &msgs[i];
        if m.skip_send {
            sent = sent + 1;
            i = i + 1;
        } else {
            match m.message_with_from(default_from) {
                Err(e) => {
                    let err = SendError::Message(e);
                    proof {
                        assert(spec_batch(msgs@, outcomes@, i as int) == Err::<int, SendError>(
                            err,
                        ));
                    }
                    return Err(err);
                },
                Ok(_w) => {
                    match &outcomes[i] {
                        TransportOutcome::Failed(s) => {
                            let err = SendError::Transport(s.clone());
                            proof {
                                assert(spec_batch(msgs@, outcomes@, i as int)
                                    == Err::<int, SendError>(err));
                            }
                            return Err(err);
                        },
                        TransportOutcome::Positive => {
                            sent = sent + 1;
                            i = i + 1;
                        },
                        TransportOutcome::Negative => {
                            i = i + 1;
                        },
                    }
                },
            }
        }
    }
    Ok(sent)
}

} // verus!
