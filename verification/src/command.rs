//! The command channel between the host and the dispatcher.
//!
//! Host threads submit commands; one dispatcher takes them out again, oldest
//! first, and runs each to completion before it asks for the next. The state
//! kept here is the whole channel: the embedding program shares it between
//! the two sides under a lock of its own.

use std::collections::VecDeque;
use vstd::prelude::*;

verus! {

/// What travels through the channel: a unit of work with the handle that
/// reports its completion, or the request to shut down.
#[derive(Debug, PartialEq, Eq)]
pub enum Message<D, F> {
    Callback(D, F),
    Close,
}

/// Why the channel refused a message.
#[derive(Clone, Copy, Debug, PartialEq, Eq, Structural)]
pub enum SubmitError {
    /// `close` has been requested.
    Closed,
    /// The dispatcher is gone without a request to close.
    Disconnected,
}

/// A refused message, handed back with the reason.
#[derive(Debug, PartialEq, Eq)]
pub struct SendError<D, F> {
    pub reason: SubmitError,
    pub message: Message<D, F>,
}

/// What the dispatcher is told when it asks for work.
#[derive(Debug, PartialEq, Eq)]
pub enum Dispatch<D, F> {
    /// Run this command, then report that it has finished.
    Run(D, F),
    /// Nothing is queued: wait until something is.
    Idle,
    /// The command handed out last has not finished.
    Busy,
    /// Leave the loop.
    Stop,
}

/// The channel as a mathematical value.
pub struct ChannelState<D, F> {
    /// The queued messages, oldest first.
    pub pending: Seq<Message<D, F>>,
    /// `close` has been requested.
    pub closed: bool,
    /// The dispatcher has left its loop.
    pub stopped: bool,
    /// A command has been handed out and has not finished.
    pub running: bool,
}

/// The messages that submitting `commands` in order puts into the queue.
pub open spec fn callbacks<D, F>(commands: Seq<(D, F)>) -> Seq<Message<D, F>> {
    Seq::new(commands.len(), |i: int| Message::Callback(commands[i].0, commands[i].1))
}

impl<D, F> ChannelState<D, F> {
    /// A request to close is the last message of the queue, and a channel
    /// whose dispatcher has stopped holds nothing.
    pub open spec fn wf(self) -> bool {
        &&& forall|i: int|
            #![trigger self.pending[i]]
            0 <= i < self.pending.len() && self.pending[i] is Close ==> self.closed && i
                == self.pending.len() - 1
        &&& self.stopped ==> self.pending.len() == 0 && !self.running
    }

    /// The open, empty channel.
    pub open spec fn fresh() -> Self {
        ChannelState { pending: Seq::empty(), closed: false, stopped: false, running: false }
    }

    /// Why a message offered now is refused, if it is.
    pub open spec fn refusal(self) -> Option<SubmitError> {
        if self.closed {
            Some(SubmitError::Closed)
        } else if self.stopped {
            Some(SubmitError::Disconnected)
        } else {
            None
        }
    }

    /// The channel after `message` has been offered.
    pub open spec fn after_offer(self, message: Message<D, F>) -> Self {
        if self.refusal() is Some {
            self
        } else {
            ChannelState {
                pending: self.pending.push(message),
                closed: message is Close,
                ..self
            }
        }
    }

    /// The channel after a command has been submitted.
    pub open spec fn after_send(self, deferred: D, callback: F) -> Self {
        self.after_offer(Message::Callback(deferred, callback))
    }

    /// The channel after a request to close.
    pub open spec fn after_close(self) -> Self {
        self.after_offer(Message::Close)
    }

    /// The channel after `commands` have been submitted in order.
    pub open spec fn after_sends(self, commands: Seq<(D, F)>) -> Self
        decreases commands.len(),
    {
        if commands.len() == 0 {
            self
        } else {
            self.after_sends(commands.drop_last()).after_send(
                commands.last().0,
                commands.last().1,
            )
        }
    }

    /// What the dispatcher is told when it asks for work now.
    pub open spec fn turn(self) -> Dispatch<D, F> {
        if self.stopped {
            Dispatch::Stop
        } else if self.running {
            Dispatch::Busy
        } else if self.pending.len() == 0 {
            if self.closed {
                Dispatch::Stop
            } else {
                Dispatch::Idle
            }
        } else {
            match self.pending[0] {
                Message::Callback(deferred, callback) => Dispatch::Run(deferred, callback),
                Message::Close => Dispatch::Stop,
            }
        }
    }

    /// The channel after the dispatcher has asked for work.
    pub open spec fn after_turn(self) -> Self {
        if self.stopped || self.running {
            self
        } else if self.pending.len() == 0 {
            ChannelState { stopped: self.closed, ..self }
        } else if self.pending[0] is Close {
            ChannelState { pending: Seq::empty(), stopped: true, ..self }
        } else {
            ChannelState {
                pending: self.pending.subrange(1, self.pending.len() as int),
                running: true,
                ..self
            }
        }
    }

    /// The channel after the running command has finished.
    pub open spec fn after_finish(self) -> Self {
        ChannelState { running: false, ..self }
    }

    /// The channel after the dispatcher has gone away.
    pub open spec fn after_disconnect(self) -> Self {
        ChannelState { pending: Seq::empty(), stopped: true, running: false, ..self }
    }

    /// The channel after `turns` rounds of the dispatcher loop, in each of
    /// which the command handed out, if any, runs to its end.
    pub open spec fn after_turns(self, turns: nat) -> Self
        decreases turns,
    {
        if turns == 0 {
            self
        } else {
            self.after_turn().after_finish().after_turns((turns - 1) as nat)
        }
    }

    /// The commands handed out over `turns` rounds of the dispatcher loop, in
    /// the order in which they are handed out.
    pub open spec fn handed_out(self, turns: nat) -> Seq<(D, F)>
        decreases turns,
    {
        if turns == 0 {
            Seq::empty()
        } else {
            let rest = self.after_turn().after_finish().handed_out((turns - 1) as nat);
            match self.turn() {
                Dispatch::Run(deferred, callback) => seq![(deferred, callback)] + rest,
                _ => rest,
            }
        }
    }
}

/// The host's handle on the bridge together with the queue behind it.
pub struct JsPlayerWrapper<D, F> {
    queue: VecDeque<Message<D, F>>,
    closed: bool,
    stopped: bool,
    running: bool,
}

impl<D, F> View for JsPlayerWrapper<D, F> {
    type V = ChannelState<D, F>;

    closed spec fn view(&self) -> ChannelState<D, F> {
        ChannelState {
            pending: self.queue@,
            closed: self.closed,
            stopped: self.stopped,
            running: self.running,
        }
    }
}

impl<D, F> JsPlayerWrapper<D, F> {
    #[verifier::type_invariant]
    spec fn well_formed(&self) -> bool {
        self@.wf()
    }

    /// An open channel with nothing queued.
    pub fn new() -> (bridge: Self)
        ensures
            bridge@ == ChannelState::<D, F>::fresh(),
            bridge@.wf(),
    {
        JsPlayerWrapper { queue: VecDeque::new(), closed: false, stopped: false, running: false }
    }

    fn offer(&mut self, message: Message<D, F>) -> (sent: Result<(), SendError<D, F>>)
        ensures
            final(self)@ == old(self)@.after_offer(message),
            final(self)@.wf(),
            match sent {
                Ok(_) => old(self)@.refusal() is None,
                Err(refused) => old(self)@.refusal() == Some(refused.reason) && refused.message
                    == message,
            },
    {
        proof {
            use_type_invariant(&*self);
        }
        if self.closed {
            return Err(SendError { reason: SubmitError::Closed, message });
        }
        if self.stopped {
            return Err(SendError { reason: SubmitError::Disconnected, message });
        }
        let closing = match &message {
            Message::Close => true,
            Message::Callback(_, _) => false,
        };
        let ghost before = self@;
        let mut queue: VecDeque<Message<D, F>> = VecDeque::new();
        std::mem::swap(&mut self.queue, &mut queue);
        queue.push_back(message);
        assert forall|i: int|
            #![trigger queue@[i]]
            0 <= i < queue@.len() && queue@[i] is Close implies closing && i == queue@.len()
            - 1 by {
            if i < before.pending.len() {
                assert(before.pending[i] is Close);
            }
        }
        if closing {
            self.closed = true;
        }
        self.queue = queue;
        Ok(())
    }

    /// Submits a command: `callback` is to be run with `deferred`, after all
    /// commands submitted before it. Never blocks. A channel that has been
    /// closed, or whose dispatcher is gone, hands the command back.
    pub fn send(&mut self, deferred: D, callback: F) -> (sent: Result<(), SendError<D, F>>)
        ensures
            final(self)@ == old(self)@.after_send(deferred, callback),
            final(self)@.wf(),
            match sent {
                Ok(_) => old(self)@.refusal() is None,
                Err(refused) => old(self)@.refusal() == Some(refused.reason) && refused.message
                    == Message::Callback(deferred, callback),
            },
    {
        self.offer(Message::Callback(deferred, callback))
    }

    /// Asks the dispatcher to leave its loop once it has run what is queued.
    /// Later messages are refused; so is a second request to close.
    pub fn close(&mut self) -> (sent: Result<(), SendError<D, F>>)
        ensures
            final(self)@ == old(self)@.after_close(),
            final(self)@.wf(),
            match sent {
                Ok(_) => old(self)@.refusal() is None,
                Err(refused) => old(self)@.refusal() == Some(refused.reason)
                    && refused.message is Close,
            },
    {
        self.offer(Message::Close)
    }

    /// One round of the dispatcher loop: takes the oldest message out of the
    /// queue and says what to do with it. A command is handed out only while
    /// none is running.
    pub fn listen_commands(&mut self) -> (turn: Dispatch<D, F>)
        ensures
            turn == old(self)@.turn(),
            final(self)@ == old(self)@.after_turn(),
            final(self)@.wf(),
    {
        proof {
            use_type_invariant(&*self);
        }
        if self.stopped {
            return Dispatch::Stop;
        }
        if self.running {
            return Dispatch::Busy;
        }
        let ghost before = self@;
        let mut queue: VecDeque<Message<D, F>> = VecDeque::new();
        std::mem::swap(&mut self.queue, &mut queue);
        match queue.pop_front() {
            Some(Message::Callback(deferred, callback)) => {
                assert forall|i: int|
                    #![trigger queue@[i]]
                    0 <= i < queue@.len() && queue@[i] is Close implies before.closed && i
                    == queue@.len() - 1 by {
                    assert(queue@[i] == before.pending[i + 1]);
                }
                self.queue = queue;
                self.running = true;
                assert(self@.pending =~= before.after_turn().pending);
                Dispatch::Run(deferred, callback)
            },
            Some(Message::Close) => {
                self.stopped = true;
                assert(self@.pending =~= before.after_turn().pending);
                Dispatch::Stop
            },
            None => {
                assert(self@.pending =~= before.pending);
                if self.closed {
                    self.stopped = true;
                    Dispatch::Stop
                } else {
                    Dispatch::Idle
                }
            },
        }
    }

    /// Reports that the command handed out last has run to its end.
    pub fn complete(&mut self)
        ensures
            final(self)@ == old(self)@.after_finish(),
            final(self)@.wf(),
    {
        proof {
            use_type_invariant(&*self);
        }
        self.running = false;
    }

    /// Reports that the dispatcher is gone. What was still queued is handed
    /// back, oldest first, and later messages are refused.
    pub fn disconnect(&mut self) -> (abandoned: VecDeque<Message<D, F>>)
        ensures
            final(self)@ == old(self)@.after_disconnect(),
            final(self)@.wf(),
            abandoned@ == old(self)@.pending,
    {
        proof {
            use_type_invariant(&*self);
        }
        let mut queue: VecDeque<Message<D, F>> = VecDeque::new();
        std::mem::swap(&mut self.queue, &mut queue);
        self.running = false;
        self.stopped = true;
        queue
    }
}

} // verus!
