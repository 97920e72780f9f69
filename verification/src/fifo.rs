//! What holds of the command channel over whole runs: commands leave in the
//! order in which they came, each once, one at a time, and a request to close
//! refuses what comes after it without losing what came before.

use crate::command::callbacks;
use crate::command::ChannelState;
use crate::command::Dispatch;
use crate::command::Message;
use crate::command::SubmitError;
use vstd::prelude::*;

verus! {

/// Every step of the channel keeps it well formed.
pub proof fn lemma_steps_keep_well_formed<D, F>(state: ChannelState<D, F>, message: Message<D, F>)
    requires
        state.wf(),
    ensures
        ChannelState::<D, F>::fresh().wf(),
        state.after_offer(message).wf(),
        state.after_turn().wf(),
        state.after_finish().wf(),
        state.after_disconnect().wf(),
{
    let offered = state.after_offer(message);
    assert forall|i: int|
        #![trigger offered.pending[i]]
        0 <= i < offered.pending.len() && offered.pending[i] is Close implies offered.closed && i
        == offered.pending.len() - 1 by {
        if i < state.pending.len() {
            assert(state.pending[i] is Close);
        }
    }
    let turned = state.after_turn();
    assert forall|i: int|
        #![trigger turned.pending[i]]
        0 <= i < turned.pending.len() && turned.pending[i] is Close implies turned.closed && i
        == turned.pending.len() - 1 by {
        if turned.pending.len() == state.pending.len() {
            assert(state.pending[i] is Close);
        } else {
            assert(turned.pending[i] == state.pending[i + 1]);
        }
    }
}

/// While a command runs, the dispatcher is handed no other: asking for work
/// changes nothing until the command has finished. Handing a command out
/// marks it as running.
pub proof fn lemma_one_command_at_a_time<D, F>(state: ChannelState<D, F>)
    ensures
        state.running ==> !(state.turn() is Run) && state.after_turn() == state,
        state.turn() is Run ==> !state.running && state.after_turn().running,
        !state.after_finish().running,
{
}

/// Submitting commands to an open channel appends them to the queue in the
/// order of submission and changes nothing else.
pub proof fn lemma_sends_append<D, F>(state: ChannelState<D, F>, commands: Seq<(D, F)>)
    requires
        state.refusal() is None,
    ensures
        state.after_sends(commands) == (ChannelState {
            pending: state.pending + callbacks(commands),
            ..state
        }),
    decreases commands.len(),
{
    if commands.len() == 0 {
        assert(state.pending + callbacks(commands) =~= state.pending);
    } else {
        let earlier = commands.drop_last();
        lemma_sends_append(state, earlier);
        let before = state.after_sends(earlier);
        let after = before.after_send(commands.last().0, commands.last().1);
        assert(after.pending =~= state.pending + callbacks(commands));
    }
}

/// A dispatcher that finds `queued` at the head of the queue is handed
/// exactly these commands, in this order, over as many rounds, and leaves the
/// rest of the queue as it was.
pub proof fn lemma_head_of_queue_is_handed_out<D, F>(
    state: ChannelState<D, F>,
    queued: Seq<(D, F)>,
    rest: Seq<Message<D, F>>,
)
    requires
        !state.stopped,
        !state.running,
        state.pending == callbacks(queued) + rest,
    ensures
        state.handed_out(queued.len()) == queued,
        state.after_turns(queued.len()) == (ChannelState { pending: rest, ..state }),
    decreases queued.len(),
{
    if queued.len() == 0 {
        assert(state.pending =~= rest);
        assert(state.handed_out(0) =~= queued);
    } else {
        let later = queued.skip(1);
        let next = state.after_turn().after_finish();
        assert(state.pending[0] == Message::Callback(queued[0].0, queued[0].1));
        assert(next.pending =~= callbacks(later) + rest);
        lemma_head_of_queue_is_handed_out(next, later, rest);
        assert(later.len() == queued.len() - 1);
        assert(state.handed_out(queued.len()) =~= queued);
    }
}

/// Commands submitted to an open channel are run in the order in which they
/// were submitted, after those that were queued before them, each exactly
/// once; when the last has run, nothing is left in the queue.
pub proof fn lemma_commands_run_in_submission_order<D, F>(
    state: ChannelState<D, F>,
    queued: Seq<(D, F)>,
    commands: Seq<(D, F)>,
)
    requires
        state.refusal() is None,
        !state.running,
        state.pending == callbacks(queued),
    ensures
        state.after_sends(commands).handed_out(queued.len() + commands.len()) == queued
            + commands,
        state.after_sends(commands).after_turns(queued.len() + commands.len()).pending.len()
            == 0,
{
    lemma_sends_append(state, commands);
    let sent = state.after_sends(commands);
    let all = queued + commands;
    assert(sent.pending =~= callbacks(all) + Seq::<Message<D, F>>::empty());
    lemma_head_of_queue_is_handed_out(sent, all, Seq::empty());
}

/// After a request to close, every later command and every later request to
/// close is refused as closed and leaves the channel as it is. The commands
/// queued before the request are still run, in order; the round after the
/// last of them tells the dispatcher to stop.
pub proof fn lemma_close_refuses_later_and_runs_earlier<D, F>(
    state: ChannelState<D, F>,
    queued: Seq<(D, F)>,
    deferred: D,
    callback: F,
)
    requires
        state.refusal() is None,
        !state.running,
        state.pending == callbacks(queued),
    ensures
        state.after_close().refusal() == Some(SubmitError::Closed),
        state.after_close().after_send(deferred, callback) == state.after_close(),
        state.after_close().after_close() == state.after_close(),
        state.after_close().handed_out(queued.len()) == queued,
        state.after_close().after_turns(queued.len()).turn() == Dispatch::<D, F>::Stop,
        state.after_close().after_turns(queued.len()).after_turn().stopped,
{
    let closed = state.after_close();
    let rest = seq![Message::<D, F>::Close];
    assert(closed.pending =~= callbacks(queued) + rest);
    lemma_head_of_queue_is_handed_out(closed, queued, rest);
}

/// A channel whose dispatcher has gone away without a request to close
/// refuses every later message as disconnected.
pub proof fn lemma_disconnect_refuses_later<D, F>(state: ChannelState<D, F>)
    requires
        !state.closed,
    ensures
        state.after_disconnect().refusal() == Some(SubmitError::Disconnected),
        state.after_disconnect().turn() == Dispatch::<D, F>::Stop,
{
}

} // verus!
