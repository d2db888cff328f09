use vstd::prelude::*;

use crossbeam_channel::{Receiver, Sender, TryRecvError, TrySendError};

use crate::messaging::packet_types::Message;

verus! {

#[verifier::external_type_specification]
#[verifier::external_body]
#[verifier::reject_recursive_types(T)]
pub struct ExSender<T>(Sender<T>);

#[verifier::external_type_specification]
#[verifier::external_body]
#[verifier::reject_recursive_types(T)]
pub struct ExReceiver<T>(Receiver<T>);

/// How many messages the queue holds before sends are refused.
pub const MESSAGE_QUEUE_CAPACITY: usize = 32;

/// Why `try_send` did not deliver.
#[derive(Debug, Clone, Copy, PartialEq, Eq, Structural)]
pub enum SendFailure {
    Full,
    Disconnected,
}

/// Why `try_recv` gave no message.
#[derive(Debug, Clone, Copy, PartialEq, Eq, Structural)]
pub enum RecvFailure {
    Empty,
    Disconnected,
}

/// Why a message could not be sent; the message comes back with the error.
#[derive(Debug, Clone, Copy, PartialEq, Eq, Structural)]
pub enum MessageSendError {
    /// The queue holds as many messages as it can.
    Full(Message),
    /// The receiving end is gone.
    Disconnected(Message),
}

/// Why the queue could not be read.
#[derive(Debug, Clone, Copy, PartialEq, Eq, Structural)]
pub enum MessageRecvError {
    /// The sending end is gone and no message is left.
    Disconnected,
}

/// What `Receiver::capacity` gives for a receiving end: the capacity its
/// channel was made with.
pub uninterp spec fn receiver_capacity(receiver: Receiver<Message>) -> Option<usize>;

/// The receiving end that was made together with a sending end, by the same
/// call of `bounded`: the end that receives what it sends.
pub uninterp spec fn sender_receiver(sender: Sender<Message>) -> Receiver<Message>;

/// The messages a sending end has put into its channel, oldest first.
pub uninterp spec fn sender_sent(sender: Sender<Message>) -> Seq<Message>;

/// Calls `crossbeam_channel::bounded(cap)`, which makes one channel of
/// capacity `cap` and hands out its sending and its receiving end; the new
/// sending end has sent nothing.
#[verifier::external_body]
fn channel_bounded(cap: usize) -> (res: (Sender<Message>, Receiver<Message>))
    ensures
        receiver_capacity(res.1) == Some(cap),
        sender_receiver(res.0) == res.1,
        sender_sent(res.0) == Seq::<Message>::empty(),
{
    crossbeam_channel::bounded(cap)
}

/// Calls `Sender::try_send`. Whether it succeeds depends on the other
/// thread. On success the message is in the channel; on failure
/// (`TrySendError::Full` or `Disconnected`) crossbeam hands it back, and it is
/// returned with the kind of failure. The end stays on its channel.
#[verifier::external_body]
fn sender_try_send(sender: &mut Sender<Message>, message: Message) -> (res: Result<
    (),
    (SendFailure, Message),
>)
    ensures
        sender_receiver(*final(sender)) == sender_receiver(*old(sender)),
        res is Ok ==> sender_sent(*final(sender)) == sender_sent(*old(sender)).push(message),
        res matches Err((_, back)) ==> back == message && sender_sent(*final(sender))
            == sender_sent(*old(sender)),
{
    match sender.try_send(message) {
        Ok(()) => Ok(()),
        Err(TrySendError::Full(m)) => Err((SendFailure::Full, m)),
        Err(TrySendError::Disconnected(m)) => Err((SendFailure::Disconnected, m)),
    }
}

/// Calls `Receiver::try_recv`, mapping its error variant by variant. What it
/// returns depends on the other thread, so nothing is stated of it.
#[verifier::external_body]
fn receiver_try_recv(receiver: &Receiver<Message>) -> (res: Result<Message, RecvFailure>) {
    match receiver.try_recv() {
        Ok(m) => Ok(m),
        Err(TryRecvError::Empty) => Err(RecvFailure::Empty),
        Err(TryRecvError::Disconnected) => Err(RecvFailure::Disconnected),
    }
}

/// What a send reports for each outcome of `try_send`: the failure's kind,
/// with the message it gave back.
pub fn send_outcome(outcome: Result<(), (SendFailure, Message)>) -> (res: Result<
    (),
    MessageSendError,
>)
    ensures
        outcome is Ok <==> res is Ok,
        outcome matches Err((SendFailure::Full, m)) ==> res == Err::<(), MessageSendError>(
            MessageSendError::Full(m),
        ),
        outcome matches Err((SendFailure::Disconnected, m)) ==> res == Err::<(), MessageSendError>(
            MessageSendError::Disconnected(m),
        ),
{
    match outcome {
        Ok(()) => Ok(()),
        Err((SendFailure::Full, m)) => Err(MessageSendError::Full(m)),
        Err((SendFailure::Disconnected, m)) => Err(MessageSendError::Disconnected(m)),
    }
}

/// What a read reports for each outcome of `try_recv`: the message, nothing
/// when the queue is empty, an error when the sender is gone.
pub fn recv_outcome(outcome: Result<Message, RecvFailure>) -> (res: Result<
    Option<Message>,
    MessageRecvError,
>)
    ensures
        outcome matches Ok(m) ==> res == Ok::<Option<Message>, MessageRecvError>(Some(m)),
        outcome == Err::<Message, RecvFailure>(RecvFailure::Empty) ==> res == Ok::<
            Option<Message>,
            MessageRecvError,
        >(None),
        outcome == Err::<Message, RecvFailure>(RecvFailure::Disconnected) ==> res == Err::<
            Option<Message>,
            MessageRecvError,
        >(MessageRecvError::Disconnected),
{
    match outcome {
        Ok(m) => Ok(Some(m)),
        Err(RecvFailure::Empty) => Ok(None),
        Err(RecvFailure::Disconnected) => Err(MessageRecvError::Disconnected),
    }
}

/// The sending end of the message queue.
pub struct MessageTx {
    producer: Sender<Message>,
}

/// The receiving end of the message queue.
pub struct MessageRx {
    consumer: Receiver<Message>,
}

impl MessageTx {
    /// The channel end this sender sends on.
    pub closed spec fn sender(&self) -> Sender<Message> {
        self.producer
    }

    /// The receiving end of the channel this end sends on.
    pub closed spec fn channel(&self) -> Receiver<Message> {
        sender_receiver(self.producer)
    }

    /// The messages this end has put into its channel, oldest first.
    pub closed spec fn sent(&self) -> Seq<Message> {
        sender_sent(self.producer)
    }

    /// A sending end that sends on `tx`.
    pub fn new(tx: Sender<Message>) -> (res: MessageTx)
        ensures
            res.sender() == tx,
    {
        MessageTx { producer: tx }
    }

    /// Sends `message` without waiting. Whether the queue has room depends on
    /// the receiving thread: on success the message is the last one this end
    /// sent; on failure nothing is sent and the error, which says which way it
    /// failed, carries the message back.
    pub fn send(&mut self, message: Message) -> (res: Result<(), MessageSendError>)
        ensures
            final(self).channel() == old(self).channel(),
            res is Ok ==> final(self).sent() == old(self).sent().push(message),
            res is Err ==> final(self).sent() == old(self).sent(),
            res matches Err(e) ==> e == MessageSendError::Full(message) || e
                == MessageSendError::Disconnected(message),
    {
        send_outcome(sender_try_send(&mut self.producer, message))
    }
}

impl MessageRx {
    /// The channel end this receiver reads from.
    pub closed spec fn receiver(&self) -> Receiver<Message> {
        self.consumer
    }

    /// A receiving end that reads from `rx`.
    pub fn new(rx: Receiver<Message>) -> (res: MessageRx)
        ensures
            res.receiver() == rx,
    {
        MessageRx { consumer: rx }
    }

    /// Reads without waiting: a message, `None` when there is none yet, or an
    /// error when the sending end is gone.
    pub fn recv(&mut self) -> (res: Result<Option<Message>, MessageRecvError>)
        ensures
            final(self).receiver() == old(self).receiver(),
    {
        recv_outcome(receiver_try_recv(&self.consumer))
    }
}

/// The two ends belong to the same queue: the receiver gets what the sender
/// sends.
pub open spec fn same_queue(tx: MessageTx, rx: MessageRx) -> bool {
    tx.channel() == rx.receiver()
}

/// A bounded queue of messages whose two ends can each be taken once.
pub struct MessageQueue {
    message_tx: Option<MessageTx>,
    message_rx: Option<MessageRx>,
    channel: Ghost<Receiver<Message>>,
}

impl MessageQueue {
    /// The receiving end of the queue's channel.
    pub closed spec fn channel(&self) -> Receiver<Message> {
        self.channel@
    }

    /// How many messages the queue holds at most.
    pub open spec fn capacity(&self) -> Option<usize> {
        receiver_capacity(self.channel())
    }

    /// Both ends still here belong to the queue's channel, and the sending
    /// end has sent nothing yet.
    pub closed spec fn wf(&self) -> bool {
        &&& self.message_tx matches Some(tx) ==> tx.channel() == self.channel@ && tx.sent()
            == Seq::<Message>::empty()
        &&& self.message_rx matches Some(rx) ==> rx.receiver() == self.channel@
    }

    pub closed spec fn has_tx(&self) -> bool {
        self.message_tx is Some
    }

    pub closed spec fn has_rx(&self) -> bool {
        self.message_rx is Some
    }

    /// A queue of `MESSAGE_QUEUE_CAPACITY` messages with both ends in place.
    pub fn new() -> (res: MessageQueue)
        ensures
            res.wf(),
            res.has_tx(),
            res.has_rx(),
            res.capacity() == Some(MESSAGE_QUEUE_CAPACITY),
    {
        let (tx, rx) = channel_bounded(MESSAGE_QUEUE_CAPACITY);
        let ghost g = rx;
        MessageQueue {
            message_tx: Some(MessageTx::new(tx)),
            message_rx: Some(MessageRx::new(rx)),
            channel: Ghost(g),
        }
    }

    /// Takes the sending end: `Some` the first time, `None` after. It sends
    /// on the queue's channel.
    pub fn take_tx(&mut self) -> (res: Option<MessageTx>)
        requires
            old(self).wf(),
        ensures
            final(self).wf(),
            final(self).channel() == old(self).channel(),
            res matches Some(tx) ==> tx.channel() == old(self).channel() && tx.sent()
                == Seq::<Message>::empty(),
            res is Some <==> old(self).has_tx(),
            !final(self).has_tx(),
            final(self).has_rx() == old(self).has_rx(),
    {
        self.message_tx.take()
    }

    /// Takes the receiving end: `Some` the first time, `None` after. It is
    /// the queue's channel end.
    pub fn take_rx(&mut self) -> (res: Option<MessageRx>)
        requires
            old(self).wf(),
        ensures
            final(self).wf(),
            final(self).channel() == old(self).channel(),
            res matches Some(rx) ==> rx.receiver() == old(self).channel(),
            res is Some <==> old(self).has_rx(),
            !final(self).has_rx(),
            final(self).has_tx() == old(self).has_tx(),
    {
        self.message_rx.take()
    }
}

} // verus!
