use crate::service_shutdown_error::ServiceShutdownError;
use crate::service_shutdown_outcome::{
    failures_of, lemma_failures_of_take_next, ServiceShutdownOutcomeWithServiceName,
};
use vstd::prelude::*;

verus! {

broadcast use vstd::std_specs::vec::axiom_spec_into_iter;

/// The outcome of every service of a shutdown, in the order in which the
/// services were registered.
#[derive(Debug)]
pub struct ServiceShutdownOutcomeCollection {
    outcomes: Vec<ServiceShutdownOutcomeWithServiceName>,
}

impl View for ServiceShutdownOutcomeCollection {
    type V = Seq<ServiceShutdownOutcomeWithServiceName>;

    closed spec fn view(&self) -> Seq<ServiceShutdownOutcomeWithServiceName> {
        self.outcomes@
    }
}

impl ServiceShutdownOutcomeCollection {
    pub fn new(outcomes: Vec<ServiceShutdownOutcomeWithServiceName>) -> (collection: Self)
        ensures
            collection@ == outcomes@,
    {
        Self { outcomes }
    }

    pub fn outcomes(&self) -> (outcomes: &[ServiceShutdownOutcomeWithServiceName])
        ensures
            outcomes@ == self@,
    {
        self.outcomes.as_slice()
    }

    /// `Ok` when every service completed; otherwise the error that holds the
    /// failed outcomes, in their order.
    pub fn into_result(self) -> (result: Result<(), ServiceShutdownError>)
        ensures
            result is Ok <==> failures_of(self@).len() == 0,
            result matches Err(error) ==> error@ == failures_of(self@),
    {
        let ghost all = self@;
        let mut failed: Vec<ServiceShutdownOutcomeWithServiceName> = Vec::new();
        for named_outcome in it: self.outcomes.into_iter()
            invariant
                it.seq() == all,
                failed@ == failures_of(all.take(it.index() as int)),
        {
            proof {
                lemma_failures_of_take_next(all, it.index() as int);
            }
            if !named_outcome.outcome.is_completed() {
                failed.push(named_outcome);
            }
        }
        proof {
            assert(all.take(all.len() as int) =~= all);
        }
        if failed.len() == 0 {
            Ok(())
        } else {
            Err(ServiceShutdownError::new(failed))
        }
    }
}

} // verus!
