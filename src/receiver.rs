//! The decisions of the datagram receiver loop. The loop itself (waiting on
//! the socket, awaiting the consumer) runs outside; it hands each datagram or
//! transport failure to `Receiver` and performs the action it gets back.
use vstd::prelude::*;
use crate::codec::{decode, decode_bytes, DecodeError, DecodeErrorV};
use crate::events::{Notification, NotificationV};

verus! {

#[derive(Clone, Copy, Debug, PartialEq, Eq, Structural)]
pub enum ReceiverState {
    Listening,
    Terminated,
}

/// What the loop does next.
#[derive(Debug)]
pub enum Action {
    /// Hand the notification to the consumer, wait for it, then read on.
    Dispatch(Notification),
    /// Log the failure, drop the datagram, and read on.
    Skip(DecodeError),
    /// End the loop.
    Stop,
}

pub enum ActionV {
    Dispatch(NotificationV),
    Skip(DecodeErrorV),
    Stop,
}

impl View for Action {
    type V = ActionV;

    open spec fn view(&self) -> ActionV {
        match self {
            Action::Dispatch(n) => ActionV::Dispatch(n@),
            Action::Skip(e) => ActionV::Skip(e@),
            Action::Stop => ActionV::Stop,
        }
    }
}

/// The action for one datagram while listening.
pub open spec fn action_for(b: Seq<u8>) -> ActionV {
    match decode_bytes(b) {
        Ok(n) => ActionV::Dispatch(n),
        Err(e) => ActionV::Skip(e),
    }
}

pub struct Receiver {
    pub state: ReceiverState,
}

impl Receiver {
    /// A receiver whose socket has just been bound.
    pub fn new() -> (r: Receiver)
        ensures
            r.state == ReceiverState::Listening,
    {
        Receiver { state: ReceiverState::Listening }
    }

    /// One datagram arrived. While listening, it is decoded and either
    /// dispatched or skipped, and the receiver listens on; a terminated
    /// receiver only stops.
    pub fn on_datagram(&mut self, b: &[u8]) -> (a: Action)
        ensures
            final(self).state == old(self).state,
            old(self).state == ReceiverState::Listening ==> a@ == action_for(b@),
            old(self).state == ReceiverState::Terminated ==> a@ == ActionV::Stop,
    {
        match self.state {
            ReceiverState::Terminated => Action::Stop,
            ReceiverState::Listening => match decode(b) {
                Ok(n) => Action::Dispatch(n),
                Err(e) => Action::Skip(e),
            },
        }
    }

    /// Reading from the socket failed: the loop ends, once and for good.
    pub fn on_transport_error(&mut self) -> (a: Action)
        ensures
            final(self).state == ReceiverState::Terminated,
            a@ == ActionV::Stop,
    {
        self.state = ReceiverState::Terminated;
        Action::Stop
    }
}

/// The notifications that a run over the datagrams `ds` dispatches, in order.
pub open spec fn delivered(ds: Seq<Seq<u8>>) -> Seq<NotificationV>
    decreases ds.len(),
{
    if ds.len() == 0 {
        Seq::empty()
    } else {
        match decode_bytes(ds.last()) {
            Ok(n) => delivered(ds.drop_last()).push(n),
            Err(_) => delivered(ds.drop_last()),
        }
    }
}

/// The decode failures that a run over the datagrams `ds` logs, in order.
pub open spec fn failures(ds: Seq<Seq<u8>>) -> Seq<DecodeErrorV>
    decreases ds.len(),
{
    if ds.len() == 0 {
        Seq::empty()
    } else {
        match decode_bytes(ds.last()) {
            Ok(_) => failures(ds.drop_last()),
            Err(e) => failures(ds.drop_last()).push(e),
        }
    }
}

/// The notifications that datagrams which all decode decode to.
pub open spec fn decoded_all(ds: Seq<Seq<u8>>) -> Seq<NotificationV> {
    ds.map_values(|d: Seq<u8>| decode_bytes(d)->Ok_0)
}

pub open spec fn datagrams_view(ds: Seq<Vec<u8>>) -> Seq<Seq<u8>> {
    ds.map_values(|d: Vec<u8>| d@)
}

pub open spec fn notifications_view(ns: Seq<Notification>) -> Seq<NotificationV> {
    ns.map_values(|n: Notification| n@)
}

pub open spec fn errors_view(es: Seq<DecodeError>) -> Seq<DecodeErrorV> {
    es.map_values(|e: DecodeError| e@)
}

/// Runs a listening receiver over a sequence of datagrams, as the loop would
/// receive them, and returns what it dispatched and what it logged.
pub fn run_datagrams(ds: &Vec<Vec<u8>>) -> (r: (Vec<Notification>, Vec<DecodeError>))
    ensures
        notifications_view(r.0@) == delivered(datagrams_view(ds@)),
        errors_view(r.1@) == failures(datagrams_view(ds@)),
{
    let ghost all = datagrams_view(ds@);
    let mut receiver = Receiver::new();
    let mut out: Vec<Notification> = Vec::new();
    let mut errs: Vec<DecodeError> = Vec::new();
    let mut i: usize = 0;
    while i < ds.len()
        invariant
            i <= ds.len(),
            all == datagrams_view(ds@),
            receiver.state == ReceiverState::Listening,
            notifications_view(out@) == delivered(all.take(i as int)),
            errors_view(errs@) == failures(all.take(i as int)),
        decreases ds.len() - i,
    {
        assert(all.take(i + 1).drop_last() =~= all.take(i as int));
        assert(all.take(i + 1).last() == ds@[i as int]@);
        match receiver.on_datagram(ds[i].as_slice()) {
            Action::Dispatch(n) => {
                out.push(n);
                assert(notifications_view(out@) =~= delivered(all.take(i as int)).push(n@));
            },
            Action::Skip(e) => {
                errs.push(e);
                assert(errors_view(errs@) =~= failures(all.take(i as int)).push(e@));
            },
            Action::Stop => {},
        }
        i += 1;
    }
    assert(all.take(ds.len() as int) =~= all);
    (out, errs)
}

/// Of datagrams that all decode, a run dispatches every one, in order, and
/// logs nothing.
pub proof fn lemma_all_valid(ds: Seq<Seq<u8>>)
    requires
        forall|i: int| 0 <= i < ds.len() ==> decode_bytes(#[trigger] ds[i]) is Ok,
    ensures
        delivered(ds) == decoded_all(ds),
        failures(ds).len() == 0,
    decreases ds.len(),
{
    if ds.len() > 0 {
        let rest = ds.drop_last();
        assert forall|i: int| 0 <= i < rest.len() implies decode_bytes(#[trigger] rest[i]) is Ok by {
            assert(rest[i] == ds[i]);
        }
        lemma_all_valid(rest);
        assert(decode_bytes(ds[ds.len() - 1]) is Ok);
        assert(decoded_all(ds) =~= decoded_all(rest).push(decode_bytes(ds.last())->Ok_0));
    }
}

/// Where exactly one datagram, the k-th, fails to decode, a run dispatches
/// the other N - 1 in the order they arrived and logs exactly one failure.
pub proof fn lemma_one_bad_datagram(ds: Seq<Seq<u8>>, k: int)
    requires
        0 <= k < ds.len(),
        decode_bytes(ds[k]) is Err,
        forall|i: int| 0 <= i < ds.len() && i != k ==> decode_bytes(#[trigger] ds[i]) is Ok,
    ensures
        delivered(ds) == decoded_all(ds.remove(k)),
        delivered(ds).len() == ds.len() - 1,
        failures(ds).len() == 1,
    decreases ds.len(),
{
    let rest = ds.drop_last();
    if k == ds.len() - 1 {
        assert forall|i: int| 0 <= i < rest.len() implies decode_bytes(#[trigger] rest[i]) is Ok by {
            assert(rest[i] == ds[i]);
        }
        lemma_all_valid(rest);
        assert(ds.remove(k) =~= rest);
    } else {
        assert(rest[k] == ds[k]);
        assert forall|i: int| 0 <= i < rest.len() && i != k implies decode_bytes(
            #[trigger] rest[i],
        ) is Ok by {
            assert(rest[i] == ds[i]);
        }
        lemma_one_bad_datagram(rest, k);
        assert(decode_bytes(ds[ds.len() - 1]) is Ok);
        assert(ds.remove(k) =~= rest.remove(k).push(ds.last()));
        assert(decoded_all(ds.remove(k)) =~= decoded_all(rest.remove(k)).push(
            decode_bytes(ds.last())->Ok_0,
        ));
    }
}

} // verus!
