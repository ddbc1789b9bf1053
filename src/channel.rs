use vstd::prelude::*;

use crate::collision::CollisionNotification;

verus! {

#[verifier::external_type_specification]
#[verifier::external_body]
#[verifier::reject_recursive_types(T)]
pub struct ExSender<T>(crossbeam::channel::Sender<T>);

#[verifier::external_type_specification]
#[verifier::external_body]
#[verifier::reject_recursive_types(T)]
pub struct ExReceiver<T>(crossbeam::channel::Receiver<T>);

/// The notifications waiting in the channel that `r` receives from, oldest first.
pub uninterp spec fn queued(r: crossbeam::channel::Receiver<CollisionNotification>) -> Seq<
    CollisionNotification,
>;

/// Lock-free FIFO between the physics engine's callbacks and the dispatch
/// stage. It holds both ends of its channel and never hands either out, so
/// every message passes through its own methods.
pub struct NotificationChannel {
    sender: crossbeam::channel::Sender<CollisionNotification>,
    receiver: crossbeam::channel::Receiver<CollisionNotification>,
}

/// Relies on crossbeam::channel::unbounded: a new channel holds no message.
#[verifier::external_body]
fn unbounded_channel() -> (r: (
    crossbeam::channel::Sender<CollisionNotification>,
    crossbeam::channel::Receiver<CollisionNotification>,
))
    ensures
        queued(r.1) == Seq::<CollisionNotification>::empty(),
{
    crossbeam::channel::unbounded()
}

/// Relies on crossbeam::channel::Sender::send on an unbounded channel: it
/// does not block and appends the message at the back. It fails only once the
/// channel is disconnected, which needs every receiver (or every sender)
/// dropped; the channel passed here holds one of each, alive for the call.
#[verifier::external_body]
fn send_notification(ch: &mut NotificationChannel, n: CollisionNotification)
    ensures
        queued(final(ch).receiver) == queued(old(ch).receiver).push(n),
{
    let _ = ch.sender.send(n);
}

/// Relies on crossbeam::channel::Receiver::try_recv: without blocking it
/// takes the oldest message, or reports an empty channel.
#[verifier::external_body]
fn try_receive(ch: &mut NotificationChannel) -> (r: Option<CollisionNotification>)
    ensures
        queued(old(ch).receiver).len() == 0 ==> r is None && queued(final(ch).receiver) == queued(
            old(ch).receiver,
        ),
        queued(old(ch).receiver).len() > 0 ==> r == Some(queued(old(ch).receiver)[0]) && queued(
            final(ch).receiver,
        ) == queued(old(ch).receiver).drop_first(),
{
    ch.receiver.try_recv().ok()
}

impl View for NotificationChannel {
    type V = Seq<CollisionNotification>;

    closed spec fn view(&self) -> Seq<CollisionNotification> {
        queued(self.receiver)
    }
}

impl NotificationChannel {
    pub fn new() -> (r: NotificationChannel)
        ensures
            r@ == Seq::<CollisionNotification>::empty(),
    {
        let (sender, receiver) = unbounded_channel();
        NotificationChannel { sender, receiver }
    }

    /// Appends a notification; never blocks.
    pub fn send(&mut self, n: CollisionNotification)
        ensures
            final(self)@ == old(self)@.push(n),
    {
        send_notification(self, n);
    }

    /// Takes the oldest pending notification, if any; never blocks.
    pub fn try_recv(&mut self) -> (r: Option<CollisionNotification>)
        ensures
            old(self)@.len() == 0 ==> r is None && final(self)@ == old(self)@,
            old(self)@.len() > 0 ==> r == Some(old(self)@[0]) && final(self)@ == old(
                self,
            )@.drop_first(),
    {
        try_receive(self)
    }

    /// Takes every pending notification, in the order they were sent.
    pub fn drain_all(&mut self) -> (r: Vec<CollisionNotification>)
        ensures
            r@ == old(self)@,
            final(self)@ == Seq::<CollisionNotification>::empty(),
    {
        let mut out: Vec<CollisionNotification> = Vec::new();
        loop
            invariant
                out@ + self@ == old(self)@,
            decreases self@.len(),
        {
            let ghost before = self@;
            match self.try_recv() {
                Some(n) => {
                    out.push(n);
                    assert(out@ + self@ =~= old(self)@) by {
                        assert(before =~= seq![n] + self@);
                        assert(out@ =~= (out@.drop_last() + seq![n]));
                    }
                },
                None => {
                    assert(out@ =~= old(self)@);
                    return out;
                },
            }
        }
    }
}

} // verus!
