//! The service-list test: the peripheral exposes exactly the two expected services.

use vstd::prelude::*;
use vstd::seq_lib::{to_multiset_contains, to_multiset_len};

use crate::failure::{verdict_view, Failure, FailureModel};
use crate::gatt::{contains_identifier, service_identifiers, service_ids, ServiceDescriptor};
use crate::identifier::{ADVERTISING_SERVICE, OTHER_SERVICE};

verus! {

/// The identifiers are exactly two, and both expected services are among them.
pub open spec fn service_list_passes(ids: Seq<u128>) -> bool {
    &&& ids.len() == 2
    &&& ids.contains(ADVERTISING_SERVICE)
    &&& ids.contains(OTHER_SERVICE)
}

/// The verdict on the identifiers of the discovered services. The count is
/// judged first, then the advertising service, then the other one.
pub open spec fn service_list_verdict(ids: Seq<u128>) -> Result<(), FailureModel> {
    if ids.len() != 2 {
        Err(FailureModel::ServiceCount { found: ids.len() })
    } else if !ids.contains(ADVERTISING_SERVICE) {
        Err(FailureModel::MissingService { expected: ADVERTISING_SERVICE, found: ids })
    } else if !ids.contains(OTHER_SERVICE) {
        Err(FailureModel::MissingService { expected: OTHER_SERVICE, found: ids })
    } else {
        Ok(())
    }
}

/// Judges the list of discovered services.
pub fn check_service_list(services: &Vec<ServiceDescriptor>) -> (verdict: Result<(), Failure>)
    ensures
        verdict_view(verdict) == service_list_verdict(service_ids(services@)),
        verdict is Ok <==> service_list_passes(service_ids(services@)),
{
    let ids = service_identifiers(services);
    if ids.len() != 2 {
        return Err(Failure::ServiceCount { found: ids.len() });
    }
    if !contains_identifier(&ids, ADVERTISING_SERVICE) {
        return Err(Failure::MissingService { expected: ADVERTISING_SERVICE, found: ids });
    }
    if !contains_identifier(&ids, OTHER_SERVICE) {
        return Err(Failure::MissingService { expected: OTHER_SERVICE, found: ids });
    }
    Ok(())
}

/// The service list passes exactly when two services are found and both
/// expected identifiers are among them.
pub proof fn lemma_service_list_passes_iff(ids: Seq<u128>)
    ensures
        service_list_verdict(ids) is Ok <==> service_list_passes(ids),
{
}

/// The order in which the services are reported does not change whether
/// the service list passes: two lists with the same identifiers, each as
/// often in the one as in the other, pass or fail together.
pub proof fn lemma_service_list_ignores_order(first: Seq<u128>, second: Seq<u128>)
    requires
        first.to_multiset() == second.to_multiset(),
    ensures
        service_list_passes(first) == service_list_passes(second),
        service_list_verdict(first) is Ok <==> service_list_verdict(second) is Ok,
{
    to_multiset_len(first);
    to_multiset_len(second);
    to_multiset_contains(first, ADVERTISING_SERVICE);
    to_multiset_contains(second, ADVERTISING_SERVICE);
    to_multiset_contains(first, OTHER_SERVICE);
    to_multiset_contains(second, OTHER_SERVICE);
}

/// A list that is not of exactly two services fails on its count, whatever it holds.
pub proof fn lemma_service_count_decides_first(ids: Seq<u128>)
    requires
        ids.len() != 2,
    ensures
        service_list_verdict(ids) == Err::<(), FailureModel>(
            FailureModel::ServiceCount { found: ids.len() },
        ),
{
}

} // verus!
