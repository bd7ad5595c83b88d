use crate::service_shutdown_outcome::{ServiceShutdownOutcome, ServiceShutdownOutcomeWithServiceName};
use crate::service_shutdown_outcome_collection::ServiceShutdownOutcomeCollection;
use tokio::sync::oneshot::error::TryRecvError;
use tokio::sync::oneshot::Receiver;
use vstd::prelude::*;

verus! {

broadcast use vstd::std_specs::vec::axiom_spec_into_iter;

/// The receiving half of a one-shot channel.
#[verifier::external_type_specification]
#[verifier::external_body]
#[verifier::reject_recursive_types(T)]
pub struct ExOneshotReceiver<T>(Receiver<T>);

/// The error of awaiting a one-shot receiver; declared because the receiver is
/// a future that yields it.
#[verifier::external_type_specification]
#[verifier::external_body]
pub struct ExOneshotRecvError(tokio::sync::oneshot::error::RecvError);

/// What the outcome channel of a service held when it was read.
#[derive(Debug)]
pub enum OutcomeReceipt {
    /// The service's task sent its outcome.
    Delivered(ServiceShutdownOutcome),
    /// The task was dropped without sending: it was aborted.
    SenderDropped,
    /// Nothing was sent and the task is still alive.
    NothingSentYet,
}

/// The outcome that a receipt stands for.
pub open spec fn settled_outcome(receipt: OutcomeReceipt) -> ServiceShutdownOutcome {
    match receipt {
        OutcomeReceipt::Delivered(outcome) => outcome,
        OutcomeReceipt::SenderDropped => ServiceShutdownOutcome::AbortedByShutdownDeadline,
        OutcomeReceipt::NothingSentYet => ServiceShutdownOutcome::LeakedBeyondShutdownDeadline,
    }
}

/// The named outcome of a service, from what its channel held: the delivered
/// outcome; `AbortedByShutdownDeadline` when the task was dropped without
/// sending; `LeakedBeyondShutdownDeadline` when it is still running.
pub fn settle_outcome(name: &'static str, receipt: OutcomeReceipt) -> (named: ServiceShutdownOutcomeWithServiceName)
    ensures
        named.name == name,
        named.outcome == settled_outcome(receipt),
        receipt matches OutcomeReceipt::Delivered(outcome) ==> named.outcome == outcome,
        receipt is SenderDropped ==> named.outcome is AbortedByShutdownDeadline,
        receipt is NothingSentYet ==> named.outcome is LeakedBeyondShutdownDeadline,
{
    let outcome = match receipt {
        OutcomeReceipt::Delivered(outcome) => outcome,
        OutcomeReceipt::SenderDropped => ServiceShutdownOutcome::AbortedByShutdownDeadline,
        OutcomeReceipt::NothingSentYet => ServiceShutdownOutcome::LeakedBeyondShutdownDeadline,
    };
    ServiceShutdownOutcomeWithServiceName { name, outcome }
}

/// A started service: its name, the channel on which its task sends its
/// outcome, and the log of what reading the channel gave. Only
/// `receive_outcome`, which reads the channel, adds to the log.
pub struct RunningService {
    name: &'static str,
    outcome_receiver: Receiver<ServiceShutdownOutcome>,
    reads: Ghost<Seq<OutcomeReceipt>>,
}

impl RunningService {
    pub closed spec fn spec_name(&self) -> &'static str {
        self.name
    }

    /// What each read of the service's channel gave, in order.
    pub closed spec fn reads(&self) -> Seq<OutcomeReceipt> {
        self.reads@
    }

    /// A started service whose channel has not been read yet.
    pub fn new(name: &'static str, outcome_receiver: Receiver<ServiceShutdownOutcome>) -> (running: Self)
        ensures
            running.spec_name() == name,
            running.reads() == Seq::<OutcomeReceipt>::empty(),
    {
        RunningService { name, outcome_receiver, reads: Ghost(Seq::empty()) }
    }

    pub fn name(&self) -> (name: &'static str)
        ensures
            name == self.spec_name(),
    {
        self.name
    }

    /// Reads the service's channel once, without waiting, with
    /// `Receiver::try_recv`, tells its three answers apart (a value;
    /// `TryRecvError::Closed`: the sender was dropped, or the value already
    /// taken; `TryRecvError::Empty`) and logs the receipt. Which answer comes
    /// back depends on the tasks, so only the log entry is stated.
    #[verifier::external_body]
    pub fn receive_outcome(&mut self) -> (receipt: OutcomeReceipt)
        ensures
            final(self).spec_name() == old(self).spec_name(),
            final(self).reads() == old(self).reads().push(receipt),
    {
        match self.outcome_receiver.try_recv() {
            Ok(outcome) => OutcomeReceipt::Delivered(outcome),
            Err(TryRecvError::Closed) => OutcomeReceipt::SenderDropped,
            Err(TryRecvError::Empty) => OutcomeReceipt::NothingSentYet,
        }
    }

    /// Reads the service's channel once and settles its outcome under its
    /// name, from what that read gave.
    pub fn read_named_outcome(&mut self) -> (named: ServiceShutdownOutcomeWithServiceName)
        ensures
            final(self).spec_name() == old(self).spec_name(),
            final(self).reads().len() == old(self).reads().len() + 1,
            final(self).reads().drop_last() == old(self).reads(),
            named.name == old(self).spec_name(),
            named.outcome == settled_outcome(final(self).reads().last()),
    {
        let receipt = self.receive_outcome();
        proof {
            assert(self.reads().drop_last() =~= old(self).reads());
        }
        settle_outcome(self.name, receipt)
    }
}

/// Whether `after` is `before` with its channel read once more, and `named`
/// is the outcome settled from that read, under the service's name.
pub open spec fn settled_from_own_channel(
    before: RunningService,
    after: RunningService,
    named: ServiceShutdownOutcomeWithServiceName,
) -> bool {
    &&& after.spec_name() == before.spec_name()
    &&& after.reads().len() == before.reads().len() + 1
    &&& after.reads().drop_last() == before.reads()
    &&& named.name == before.spec_name()
    &&& named.outcome == settled_outcome(after.reads().last())
}

/// Settles every service, in order: each service's channel is read once, and
/// the collection holds, for each service, the outcome settled from that
/// read, under its name. The services stay in `running_services`, in order,
/// with the read logged.
pub fn collect_outcomes(running_services: &mut Vec<RunningService>) -> (collection:
    ServiceShutdownOutcomeCollection)
    ensures
        final(running_services)@.len() == old(running_services)@.len(),
        collection@.len() == old(running_services)@.len(),
        forall|i: int|
            0 <= i < collection@.len() ==> settled_from_own_channel(
                old(running_services)@[i],
                #[trigger] final(running_services)@[i],
                collection@[i],
            ),
{
    let mut taken: Vec<RunningService> = Vec::new();
    std::mem::swap(running_services, &mut taken);
    let ghost all = taken@;
    let mut outcomes: Vec<ServiceShutdownOutcomeWithServiceName> = Vec::new();
    for service in it: taken.into_iter()
        invariant
            it.seq() == all,
            all == old(running_services)@,
            outcomes@.len() == it.index(),
            running_services@.len() == it.index(),
            forall|j: int|
                0 <= j < it.index() ==> settled_from_own_channel(
                    all[j],
                    #[trigger] running_services@[j],
                    outcomes@[j],
                ),
    {
        let mut service = service;
        let named = service.read_named_outcome();
        outcomes.push(named);
        running_services.push(service);
    }
    ServiceShutdownOutcomeCollection::new(outcomes)
}

/// A delivered outcome is kept as it is, whatever it is (an error stays that
/// very error); a task dropped without sending is `AbortedByShutdownDeadline`;
/// a task that has sent nothing yet is `LeakedBeyondShutdownDeadline`. So a
/// service is reported `Completed` only when its task delivered `Completed`.
pub proof fn lemma_settling_keeps_delivered_outcome(outcome: ServiceShutdownOutcome, receipt: OutcomeReceipt)
    ensures
        settled_outcome(OutcomeReceipt::Delivered(outcome)) == outcome,
        settled_outcome(OutcomeReceipt::SenderDropped) is AbortedByShutdownDeadline,
        settled_outcome(OutcomeReceipt::NothingSentYet) is LeakedBeyondShutdownDeadline,
        settled_outcome(receipt) is Completed ==> receipt == OutcomeReceipt::Delivered(
            ServiceShutdownOutcome::Completed,
        ),
        settled_outcome(receipt).is_failure() <==> !(receipt == OutcomeReceipt::Delivered(
            ServiceShutdownOutcome::Completed,
        )),
{
}

} // verus!
