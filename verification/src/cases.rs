//! The test cases of the suite: their names, their order, and what each
//! of the structural ones makes of the services that were discovered.

use vstd::prelude::*;

use crate::characteristics::{
    advertising_service, characteristics_verdict, check_advertising_service, check_other_service,
    other_service, service_named,
};
use crate::failure::{verdict_view, Failure, FailureModel};
use crate::gatt::{service_ids, ServiceDescriptor};
use crate::identifier::{ADVERTISING_SERVICE, OTHER_SERVICE};
use crate::service_list::{check_service_list, service_list_verdict};

verus! {

/// The tests of the suite. The set is closed: a case is one of these four.
#[derive(Clone, Copy, Debug, PartialEq, Eq, Structural)]
pub enum TestCase {
    /// The peripheral exposes exactly the two expected services.
    ServiceList,
    /// The advertising service holds exactly its two characteristics.
    AdvertisingServiceCharacteristics,
    /// The other service holds exactly its two characteristics.
    OtherServiceCharacteristics,
    /// Two thousand writes without response go through.
    WriteWithoutResponseStress,
}

impl TestCase {
    /// The service whose characteristics the case judges, if it judges one.
    pub open spec fn subject_of(self) -> Option<u128> {
        match self {
            TestCase::AdvertisingServiceCharacteristics => Some(ADVERTISING_SERVICE),
            TestCase::OtherServiceCharacteristics => Some(OTHER_SERVICE),
            _ => None,
        }
    }

    /// The verdict of the case on the services discovered; none for the
    /// stress test, which is judged by its writes.
    pub open spec fn verdict_on(self, services: Seq<ServiceDescriptor>) -> Option<
        Result<(), FailureModel>,
    > {
        match self {
            TestCase::ServiceList => Some(service_list_verdict(service_ids(services))),
            TestCase::AdvertisingServiceCharacteristics => Some(
                characteristics_verdict(
                    service_named(services, ADVERTISING_SERVICE).characteristics@,
                    advertising_service(),
                ),
            ),
            TestCase::OtherServiceCharacteristics => Some(
                characteristics_verdict(
                    service_named(services, OTHER_SERVICE).characteristics@,
                    other_service(),
                ),
            ),
            TestCase::WriteWithoutResponseStress => None,
        }
    }

    /// The service whose characteristics the case judges, if it judges one.
    pub fn subject(&self) -> (subject: Option<u128>)
        ensures
            subject == self.subject_of(),
    {
        match self {
            TestCase::AdvertisingServiceCharacteristics => Some(ADVERTISING_SERVICE),
            TestCase::OtherServiceCharacteristics => Some(OTHER_SERVICE),
            _ => None,
        }
    }

    /// Judges the services discovered as the case asks; none for the
    /// stress test. A case that judges a service asks for that service to be
    /// among those discovered.
    pub fn judge(&self, services: &Vec<ServiceDescriptor>) -> (verdict: Option<
        Result<(), Failure>,
    >)
        requires
            self.subject_of() matches Some(id) ==> service_ids(services@).contains(id),
        ensures
            verdict is None <==> *self == TestCase::WriteWithoutResponseStress,
            match verdict {
                Some(judged) => self.verdict_on(services@) == Some(verdict_view(judged)),
                None => self.verdict_on(services@) is None,
            },
    {
        match self {
            TestCase::ServiceList => Some(check_service_list(services)),
            TestCase::AdvertisingServiceCharacteristics => Some(
                check_advertising_service(services),
            ),
            TestCase::OtherServiceCharacteristics => Some(check_other_service(services)),
            TestCase::WriteWithoutResponseStress => None,
        }
    }

    /// The name under which the case is logged. The two characteristic cases
    /// go by one name and are told apart by their place in the suite.
    pub open spec fn name_text(self) -> Seq<char> {
        match self {
            TestCase::ServiceList => "Service list"@,
            TestCase::AdvertisingServiceCharacteristics => "Advertising service characteristics"@,
            TestCase::OtherServiceCharacteristics => "Advertising service characteristics"@,
            TestCase::WriteWithoutResponseStress => "Write stress test"@,
        }
    }

    /// The name under which the case is logged.
    pub fn name(&self) -> (name: &'static str)
        ensures
            name@ == self.name_text(),
    {
        match self {
            TestCase::ServiceList => "Service list",
            TestCase::AdvertisingServiceCharacteristics => "Advertising service characteristics",
            TestCase::OtherServiceCharacteristics => "Advertising service characteristics",
            TestCase::WriteWithoutResponseStress => "Write stress test",
        }
    }
}

/// The cases of the suite in the order in which they run.
pub open spec fn suite_cases() -> Seq<TestCase> {
    seq![
        TestCase::ServiceList,
        TestCase::AdvertisingServiceCharacteristics,
        TestCase::OtherServiceCharacteristics,
        TestCase::WriteWithoutResponseStress,
    ]
}

/// The cases of the suite in the order in which they run.
pub fn suite() -> (cases: Vec<TestCase>)
    ensures
        cases@ == suite_cases(),
{
    let mut cases: Vec<TestCase> = Vec::new();
    cases.push(TestCase::ServiceList);
    cases.push(TestCase::AdvertisingServiceCharacteristics);
    cases.push(TestCase::OtherServiceCharacteristics);
    cases.push(TestCase::WriteWithoutResponseStress);
    assert(cases@ =~= suite_cases());
    cases
}

} // verus!
