//! Senders: queues of messages that are relayed to a logger.

use crate::level::Level;
use crate::request::{Request, RequestView};
use std::collections::VecDeque;
use vstd::prelude::*;

verus! {

/// What the relay between a sender and a logger has to do.
pub enum Relay<C, F, W> {
    /// Wait for the next message of the sender.
    Receive,
    /// Hand the request to the logger.
    Submit(Request<C, F, W>),
    /// Stop relaying.
    Stop,
}

impl<C, F, W> Relay<C, F, W> {
    /// Goes on after waiting for a message: the message is to be logged, and
    /// never ends the process. There is none once nobody can send any more;
    /// then the relay stops.
    pub fn received(entry: Option<(Level, String)>) -> (relay: Self)
        ensures
            match entry {
                Some(entry) => {
                    &&& relay matches Relay::Submit(request)
                    &&& request@ == RequestView::<C, F, W>::log(entry.0, entry.1@, None)
                    &&& request@.valid()
                },
                None => relay is Stop,
            },
    {
        match entry {
            Some(entry) => Relay::Submit(Request::relayed(entry)),
            None => Relay::Stop,
        }
    }

    /// Goes on after handing a request on: waits for the next message if the
    /// logger took it, and stops if the logger takes no more requests.
    pub fn handed_on(taken: bool) -> (relay: Self)
        ensures
            relay == (if taken {
                Relay::<C, F, W>::Receive
            } else {
                Relay::<C, F, W>::Stop
            }),
    {
        if taken {
            Relay::Receive
        } else {
            Relay::Stop
        }
    }
}

/// Takes messages for a logger, which fetches them with `forward` until the
/// relay between the two stops.
pub struct MessageSender {
    entries: VecDeque<(Level, String)>,
    hung_up: bool,
    stopped: bool,
}

/// The messages that wait, oldest first, whether no more are to come, and
/// whether the relay has stopped.
pub struct MessageSenderView {
    pub entries: Seq<(Level, Seq<char>)>,
    pub hung_up: bool,
    pub stopped: bool,
}

impl View for MessageSender {
    type V = MessageSenderView;

    closed spec fn view(&self) -> MessageSenderView {
        MessageSenderView {
            entries: self.entries@.map_values(|entry: (Level, String)| (entry.0, entry.1@)),
            hung_up: self.hung_up,
            stopped: self.stopped,
        }
    }
}

impl MessageSenderView {
    /// A sender that nothing was sent through yet.
    pub open spec fn fresh() -> Self {
        MessageSenderView { entries: Seq::empty(), hung_up: false, stopped: false }
    }

    /// The sender once the message has been added behind the others. It is not
    /// added where the relay has stopped.
    pub open spec fn sent(self, level: Level, message: Seq<char>) -> Self {
        if self.stopped {
            self
        } else {
            MessageSenderView { entries: self.entries.push((level, message)), ..self }
        }
    }

    /// The sender once its oldest message has been fetched.
    pub open spec fn fetched(self) -> Self {
        MessageSenderView { entries: self.entries.drop_first(), ..self }
    }

    /// The sender once the relay has stopped. What still waited is lost.
    pub open spec fn cut_off(self) -> Self {
        MessageSenderView { entries: Seq::empty(), stopped: true, ..self }
    }
}

impl MessageSender {
    /// A sender that nothing was sent through yet.
    pub(crate) fn new() -> (sender: MessageSender)
        ensures
            sender@ == MessageSenderView::fresh(),
    {
        let sender = MessageSender { entries: VecDeque::new(), hung_up: false, stopped: false };
        assert(sender@.entries =~= Seq::<(Level, Seq<char>)>::empty());
        sender
    }

    /// Hands over a message with its level. It waits behind those sent before.
    /// Once the relay has stopped, the message is handed back.
    pub fn send(&mut self, entry: (Level, String)) -> (result: Result<(), (Level, String)>)
        requires
            !old(self)@.hung_up,
        ensures
            final(self)@ == old(self)@.sent(entry.0, entry.1@),
            !old(self)@.stopped ==> final(self)@.entries == old(self)@.entries.push(
                (entry.0, entry.1@),
            ),
            result == if old(self)@.stopped {
                Err(entry)
            } else {
                Ok(())
            },
    {
        if self.stopped {
            return Err(entry);
        }
        let ghost before = self@;
        self.entries.push_back(entry);
        assert(self@.entries =~= before.entries.push((entry.0, entry.1@)));
        Ok(())
    }

    /// Says that no more messages are to come. Those that wait still count.
    pub fn hang_up(&mut self)
        ensures
            final(self)@ == (MessageSenderView { hung_up: true, ..old(self)@ }),
    {
        self.hung_up = true;
    }

    /// Whether the relay has stopped.
    pub fn is_stopped(&self) -> (stopped: bool)
        ensures
            stopped == self@.stopped,
    {
        self.stopped
    }

    /// The relay has stopped.
    pub(crate) fn cut_off(&mut self)
        ensures
            final(self)@ == old(self)@.cut_off(),
    {
        self.entries = VecDeque::new();
        self.stopped = true;
        assert(self@.entries =~= Seq::<(Level, Seq<char>)>::empty());
    }

    /// Whether nothing waits and nothing more is to come.
    pub(crate) fn is_spent(&self) -> (spent: bool)
        ensures
            spent == (self@.entries.len() == 0 && self@.hung_up),
    {
        self.hung_up && self.entries.len() == 0
    }

    /// Takes the oldest message out.
    pub(crate) fn fetch(&mut self) -> (entry: Option<(Level, String)>)
        ensures
            match entry {
                Some(entry) => {
                    &&& old(self)@.entries.len() > 0
                    &&& (entry.0, entry.1@) == old(self)@.entries[0]
                    &&& final(self)@ == old(self)@.fetched()
                },
                None => old(self)@.entries.len() == 0 && final(self)@ == old(self)@,
            },
    {
        let ghost before = self@;
        let entry = self.entries.pop_front();
        assert(entry is Some ==> self@.entries =~= before.entries.drop_first());
        assert(entry is None ==> self@.entries =~= before.entries);
        entry
    }
}

} // verus!
