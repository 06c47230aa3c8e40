use vstd::prelude::*;

use crate::channel::Channel;
use crate::message::{receiver_failure, sender_failure, ReceiverMessage, SenderMessage};
use crate::progress::{
    run_receiver, run_sender, run_sender_effects, text_view, ProgressState,
};

verus! {

/// The text of the first terminal failure in a sender stream, if any.
pub open spec fn first_sender_failure(ms: Seq<SenderMessage>) -> Option<Seq<char>>
    decreases ms.len(),
{
    if ms.len() == 0 {
        None
    } else {
        match sender_failure(ms[0]) {
            Some(e) => Some(e),
            None => first_sender_failure(ms.drop_first()),
        }
    }
}

/// The text of the first terminal failure in a receiver stream, if any.
pub open spec fn first_receiver_failure(ms: Seq<ReceiverMessage>) -> Option<Seq<char>>
    decreases ms.len(),
{
    if ms.len() == 0 {
        None
    } else {
        match receiver_failure(ms[0]) {
            Some(e) => Some(e),
            None => first_receiver_failure(ms.drop_first()),
        }
    }
}

/// The views of the instruction texts collected while draining.
pub open spec fn texts_view(v: Seq<String>) -> Seq<Seq<char>> {
    v.map_values(|s: String| s@)
}

/// Computes the exit status of a completed run: zero unless a terminal
/// failure was observed.
pub fn exit_status(failure_observed: bool) -> (code: i32)
    ensures
        code == if failure_observed { 1int } else { 0int },
{
    if failure_observed {
        1
    } else {
        0
    }
}

/// Drains a closed channel in log mode. Every message is discarded
/// except a terminal failure, whose text is returned at once: the loop
/// short-circuits and reads nothing past the first failure.
pub fn drain_sender_log(c: &mut Channel<SenderMessage>) -> (failure: Option<String>)
    requires
        old(c).wf(),
        !old(c).is_open(),
    ensures
        final(c).wf(),
        !final(c).is_open(),
        text_view(failure) == first_sender_failure(old(c).pending()),
{
    loop
        invariant
            c.wf(),
            !c.is_open(),
            first_sender_failure(c.pending()) == first_sender_failure(old(c).pending()),
        decreases c.pending().len(),
    {
        let ghost before = c.pending();
        match c.receive() {
            None => {
                return None;
            },
            Some(m) => {
                match m {
                    SenderMessage::Failed { error } => {
                        proof {
                            assert(first_sender_failure(before) == Some(error@));
                        }
                        return Some(error);
                    },
                    _ => {
                        proof {
                            assert(first_sender_failure(before) == first_sender_failure(
                                before.drop_first(),
                            ));
                        }
                    },
                }
            },
        }
    }
}

/// Drains a closed channel in log mode on the receiving side; the
/// counterpart of the sender-side log drain.
pub fn drain_receiver_log(c: &mut Channel<ReceiverMessage>) -> (failure: Option<String>)
    requires
        old(c).wf(),
        !old(c).is_open(),
    ensures
        final(c).wf(),
        !final(c).is_open(),
        text_view(failure) == first_receiver_failure(old(c).pending()),
{
    loop
        invariant
            c.wf(),
            !c.is_open(),
            first_receiver_failure(c.pending()) == first_receiver_failure(old(c).pending()),
        decreases c.pending().len(),
    {
        let ghost before = c.pending();
        match c.receive() {
            None => {
                return None;
            },
            Some(m) => {
                match m {
                    ReceiverMessage::Failed { error } => {
                        proof {
                            assert(first_receiver_failure(before) == Some(error@));
                        }
                        return Some(error);
                    },
                    _ => {
                        proof {
                            assert(first_receiver_failure(before) == first_receiver_failure(
                                before.drop_first(),
                            ));
                        }
                    },
                }
            },
        }
    }
}

/// Drains a closed channel in bar mode on the sending side: folds every
/// pending message through the progress reducer in delivery order, and
/// returns the instruction texts the stream asked to print, in order.
pub fn drain_sender_bar(
    c: &mut Channel<SenderMessage>,
    state: &mut ProgressState,
    passphrase: &str,
) -> (instructions: Vec<String>)
    requires
        old(c).wf(),
        !old(c).is_open(),
    ensures
        final(c).wf(),
        !final(c).is_open(),
        final(c).pending().len() == 0,
        final(state)@ == run_sender(old(state)@, old(c).pending()),
        texts_view(instructions@) == run_sender_effects(
            old(state)@,
            old(c).pending(),
            passphrase@,
        ),
{
    let mut instructions: Vec<String> = Vec::new();
    proof {
        assert(texts_view(instructions@) =~= Seq::<Seq<char>>::empty());
    }
    loop
        invariant
            c.wf(),
            !c.is_open(),
            run_sender(state@, c.pending()) == run_sender(old(state)@, old(c).pending()),
            texts_view(instructions@) + run_sender_effects(state@, c.pending(), passphrase@)
                =~= run_sender_effects(old(state)@, old(c).pending(), passphrase@),
        decreases c.pending().len(),
    {
        let ghost before = c.pending();
        let ghost model = state@;
        let ghost collected = instructions@;
        match c.receive() {
            None => {
                proof {
                    assert(texts_view(instructions@) =~= run_sender_effects(
                        old(state)@,
                        old(c).pending(),
                        passphrase@,
                    ));
                }
                return instructions;
            },
            Some(m) => {
                let effect = state.apply_sender_message(&m, passphrase);
                match effect {
                    Some(text) => {
                        instructions.push(text);
                        proof {
                            assert(texts_view(instructions@) =~= texts_view(collected).push(
                                text_view(Some(text)).unwrap(),
                            ));
                        }
                    },
                    None => {},
                }
                proof {
                    assert(texts_view(instructions@) + run_sender_effects(
                        state@,
                        c.pending(),
                        passphrase@,
                    ) =~= texts_view(collected) + run_sender_effects(model, before, passphrase@));
                }
            },
        }
    }
}

/// Drains a closed channel in bar mode on the receiving side: folds
/// every pending message through the receiver reducer in delivery order.
pub fn drain_receiver_bar(c: &mut Channel<ReceiverMessage>, state: &mut ProgressState)
    requires
        old(c).wf(),
        !old(c).is_open(),
    ensures
        final(c).wf(),
        !final(c).is_open(),
        final(c).pending().len() == 0,
        final(state)@ == run_receiver(old(state)@, old(c).pending()),
{
    loop
        invariant
            c.wf(),
            !c.is_open(),
            run_receiver(state@, c.pending()) == run_receiver(old(state)@, old(c).pending()),
        decreases c.pending().len(),
    {
        match c.receive() {
            None => {
                return;
            },
            Some(m) => {
                state.apply_receiver_message(&m);
            },
        }
    }
}

/// Law: failure short-circuit. When a terminal failure is the last
/// message of a stream whose earlier messages are all ordinary, the
/// first failure of the stream is exactly that failure, so a log-mode
/// drain reports it and the run exits non-zero.
pub proof fn lemma_failure_short_circuit(ms: Seq<SenderMessage>, error: String)
    requires
        forall|i: int| 0 <= i < ms.len() ==> sender_failure(ms[i]) is None,
    ensures
        first_sender_failure(ms.push(SenderMessage::Failed { error })) == Some(error@),
    decreases ms.len(),
{
    let whole = ms.push(SenderMessage::Failed { error });
    if ms.len() == 0 {
        assert(whole[0] == SenderMessage::Failed { error });
    } else {
        assert(whole[0] == ms[0]);
        assert(whole.drop_first() =~= ms.drop_first().push(SenderMessage::Failed { error }));
        lemma_failure_short_circuit(ms.drop_first(), error);
    }
}

} // verus!
