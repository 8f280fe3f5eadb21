//! The sending half of an unbounded channel, with a record of what was handed to it.

use tokio::sync::mpsc::UnboundedSender;
use vstd::prelude::*;

verus! {

/// The sending half of an unbounded tokio channel. Opaque: nothing is known of its contents.
#[verifier::external_type_specification]
#[verifier::external_body]
#[verifier::reject_recursive_types(T)]
pub struct ExUnboundedSender<T>(UnboundedSender<T>);

/// An outgoing channel, with two ghost records: every message that was offered to the channel
/// through this handle, and those of them that the channel took, both in order.
#[verifier::reject_recursive_types(T)]
pub struct Outbox<T> {
    tx: UnboundedSender<T>,
    offered: Ghost<Seq<T>>,
    delivered: Ghost<Seq<T>>,
}

impl<T> Outbox<T> {
    /// The messages offered so far.
    pub closed spec fn offered(self) -> Seq<T> {
        self.offered@
    }

    /// The messages that the channel took so far.
    pub closed spec fn delivered(self) -> Seq<T> {
        self.delivered@
    }

    /// A handle through which nothing was offered yet.
    pub fn new(tx: UnboundedSender<T>) -> (r: Self)
        ensures
            r.offered() == Seq::<T>::empty(),
            r.delivered() == Seq::<T>::empty(),
    {
        Outbox { tx, offered: Ghost(Seq::empty()), delivered: Ghost(Seq::empty()) }
    }

    /// `UnboundedSender::send`: offers a message to the channel, which takes it, or hands it back
    /// where the receiving half is gone. Which of the two happens is up to the receiver. This call
    /// alone extends the two records: the first by the message in any case, the second where the
    /// call succeeds.
    #[verifier::external_body]
    pub(crate) fn offer(&mut self, message: T) -> (r: Result<(), T>)
        ensures
            final(self).offered() == old(self).offered().push(message),
            r is Ok ==> final(self).delivered() == old(self).delivered().push(message),
            r matches Err(back) ==> back == message && final(self).delivered()
                == old(self).delivered(),
    {
        self.tx.send(message).map_err(|err| err.0)
    }
}

} // verus!
