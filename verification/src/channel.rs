//! The channels through which the core reaches the rest of the program.
//!
//! Sending into a channel of tokio leaves no trace in the sender that a contract could speak of.
//! So the core holds every sender inside a type of its own, which keeps account of all that was
//! sent through it and of the copies that were handed out. Nothing can be sent, and no copy made,
//! without the account showing it.
use tokio::sync::mpsc::{unbounded_channel, UnboundedReceiver, UnboundedSender};
use tokio::sync::watch;
use vstd::prelude::*;

verus! {

/// The sending half of an unbounded tokio channel.
#[verifier::external_type_specification]
#[verifier::external_body]
#[verifier::reject_recursive_types(T)]
pub struct ExUnboundedSender<T>(UnboundedSender<T>);

/// The receiving half of an unbounded tokio channel.
#[verifier::external_type_specification]
#[verifier::external_body]
#[verifier::reject_recursive_types(T)]
pub struct ExUnboundedReceiver<T>(UnboundedReceiver<T>);

/// The sending half of a tokio watch channel.
#[verifier::external_type_specification]
#[verifier::external_body]
#[verifier::reject_recursive_types(T)]
pub struct ExWatchSender<T>(watch::Sender<T>);

/// The account of an outlet.
#[verifier::ext_equal]
#[verifier::reject_recursive_types(T)]
pub struct Flow<T> {
    /// The channel it leads to.
    pub channel: UnboundedSender<T>,
    /// All that was sent, whether or not anybody was left to receive it.
    pub sent: Seq<T>,
    /// How many copies of the sender were handed out.
    pub copies: nat,
}

impl<T> Flow<T> {
    /// Nothing was sent and no copy made.
    pub open spec fn fresh(channel: UnboundedSender<T>) -> Flow<T> {
        Flow { channel, sent: Seq::empty(), copies: 0 }
    }

    /// One more message was sent.
    pub open spec fn with(self, message: T) -> Flow<T> {
        Flow { sent: self.sent.push(message), ..self }
    }

    /// One more copy was handed out.
    pub open spec fn copied(self) -> Flow<T> {
        Flow { copies: self.copies + 1, ..self }
    }
}

/// The sending half of an unbounded channel, with an account of what went through it.
#[verifier::reject_recursive_types(T)]
pub struct Outlet<T> {
    tx: UnboundedSender<T>,
    sent: Ghost<Seq<T>>,
    copies: Ghost<nat>,
    answers: Ghost<Seq<bool>>,
}

impl<T> View for Outlet<T> {
    type V = Flow<T>;

    closed spec fn view(&self) -> Flow<T> {
        Flow { channel: self.tx, sent: self.sent@, copies: self.copies@ }
    }
}

impl<T> Outlet<T> {
    /// What each attempt to send was answered, in order: whether it succeeded.
    pub closed spec fn answers(self) -> Seq<bool> {
        self.answers@
    }

    /// An outlet into a channel, through which nothing was sent yet.
    pub fn new(tx: UnboundedSender<T>) -> (outlet: Outlet<T>)
        ensures
            outlet@ == Flow::fresh(tx),
            outlet.answers() == Seq::<bool>::empty(),
    {
        Outlet { tx, sent: Ghost(Seq::empty()), copies: Ghost(0), answers: Ghost(Seq::empty()) }
    }

    /// Sends a message with tokio's `UnboundedSender::send`. Claimed of it: this message, and no
    /// other, was sent into the channel, and the result is what `send` answered: whether it
    /// succeeded. Which answer comes depends on whether the receiving half is still there, so
    /// nothing is claimed of that.
    #[verifier::external_body]
    pub(crate) fn hand_over(&mut self, message: T) -> (accepted: bool)
        ensures
            final(self)@ == old(self)@.with(message),
            final(self).answers() == old(self).answers().push(accepted),
    {
        self.tx.send(message).is_ok()
    }

    /// Hands out another handle on the channel, made by tokio's `UnboundedSender::clone`. Claimed
    /// of it: sending through the new handle is sending into the same channel, so contracts do not
    /// tell the two apart; and nothing was sent.
    #[verifier::external_body]
    pub(crate) fn share(&mut self) -> (copy: UnboundedSender<T>)
        ensures
            copy == old(self)@.channel,
            final(self)@ == old(self)@.copied(),
            final(self).answers() == old(self).answers(),
    {
        self.tx.clone()
    }
}

/// The receiving half of an unbounded channel, with an account of where it is fed from.
#[verifier::reject_recursive_types(T)]
pub struct Inbox<T> {
    rx: UnboundedReceiver<T>,
    source: Ghost<UnboundedSender<T>>,
}

impl<T> Inbox<T> {
    /// The sending half of the same channel.
    pub closed spec fn fed_by(self) -> UnboundedSender<T> {
        self.source@
    }

    /// The receiving half itself.
    pub closed spec fn receiver(self) -> UnboundedReceiver<T> {
        self.rx
    }

    /// Takes the receiving half out.
    pub fn into_receiver(self) -> (rx: UnboundedReceiver<T>)
        ensures
            rx == self.receiver(),
    {
        self.rx
    }
}

/// A new unbounded channel, made by tokio's `unbounded_channel`: its sending and its receiving
/// half. Claimed of it: what is sent into the one comes out of the other.
#[verifier::external_body]
pub(crate) fn open_channel<T>() -> (halves: (UnboundedSender<T>, Inbox<T>))
    ensures
        halves.1.fed_by() == halves.0,
{
    let (tx, rx) = unbounded_channel();
    let source = Ghost(tx);
    (tx, Inbox { rx, source })
}

/// The account of a shutdown switch.
#[verifier::ext_equal]
pub struct Signals {
    /// The channel it leads to.
    pub channel: watch::Sender<bool>,
    /// All that was sent, whether or not anybody was left to receive it.
    pub sent: Seq<bool>,
}

impl Signals {
    /// Nothing was sent.
    pub open spec fn fresh(channel: watch::Sender<bool>) -> Signals {
        Signals { channel, sent: Seq::empty() }
    }

    /// One more value was sent.
    pub open spec fn with(self, value: bool) -> Signals {
        Signals { sent: self.sent.push(value), ..self }
    }
}

/// The sending half of a watch channel that ends a link, with an account of what went through it.
pub struct Switch {
    tx: watch::Sender<bool>,
    sent: Ghost<Seq<bool>>,
}

impl View for Switch {
    type V = Signals;

    closed spec fn view(&self) -> Signals {
        Signals { channel: self.tx, sent: self.sent@ }
    }
}

impl Switch {
    /// A switch for a channel, through which nothing was sent yet.
    pub fn new(tx: watch::Sender<bool>) -> (switch: Switch)
        ensures
            switch@ == Signals::fresh(tx),
    {
        Switch { tx, sent: Ghost(Seq::empty()) }
    }

    /// Sends a value with tokio's `watch::Sender::send`. Claimed of it: this value, and no other,
    /// was sent into the channel. A channel without a receiver makes `send` fail without effect;
    /// that failure is of no interest.
    #[verifier::external_body]
    pub(crate) fn notify(&mut self, value: bool)
        ensures
            final(self)@ == old(self)@.with(value),
    {
        let _ = self.tx.send(value);
    }
}

/// The sending half of a new watch channel, made by tokio's `watch::channel`. Its receiving half is
/// dropped at once, so nothing listens to it, and nothing is claimed of it.
#[verifier::external_body]
pub(crate) fn detached_watch(initial: bool) -> (tx: watch::Sender<bool>)
{
    watch::channel(initial).0
}

} // verus!
