//! The characteristic tests: one service holds exactly the two expected
//! characteristics, each with exactly the expected property flags.

use vstd::prelude::*;

use crate::failure::{verdict_view, Failure, FailureModel};
use crate::gatt::{
    characteristic_identifiers, characteristic_ids, contains_identifier, find_characteristic,
    find_service, service_ids, CharPropFlags, CharacteristicDescriptor, ServiceDescriptor,
    INDICATE, NOTIFY, READ, WRITE_WITHOUT_RESPONSE,
};
use crate::identifier::{
    ADVERTISING_SERVICE, INDICATING_CHARACTERISTIC, NOTIFYING_CHARACTERISTIC, OTHER_SERVICE,
    STATIC_CHARACTERISTIC, WRITABLE_CHARACTERISTIC,
};
use crate::search::{first_position, lemma_first_position};

verus! {

/// What is expected of one characteristic.
#[derive(Clone, Copy, Debug, PartialEq, Eq, Structural)]
pub struct ExpectedCharacteristic {
    pub identifier: u128,
    pub properties: CharPropFlags,
}

/// What is expected of one service: its identifier and its two characteristics.
#[derive(Clone, Copy, Debug, PartialEq, Eq, Structural)]
pub struct ExpectedService {
    pub identifier: u128,
    pub first: ExpectedCharacteristic,
    pub second: ExpectedCharacteristic,
}

/// The advertising service: a read-only characteristic, and one that can be
/// read and written without response.
pub open spec fn advertising_service() -> ExpectedService {
    ExpectedService {
        identifier: ADVERTISING_SERVICE,
        first: ExpectedCharacteristic {
            identifier: STATIC_CHARACTERISTIC,
            properties: CharPropFlags { bits: READ },
        },
        second: ExpectedCharacteristic {
            identifier: WRITABLE_CHARACTERISTIC,
            properties: CharPropFlags { bits: READ | WRITE_WITHOUT_RESPONSE },
        },
    }
}

/// The other service: a characteristic that can be read and notifies, and one
/// that can be read and indicates.
pub open spec fn other_service() -> ExpectedService {
    ExpectedService {
        identifier: OTHER_SERVICE,
        first: ExpectedCharacteristic {
            identifier: NOTIFYING_CHARACTERISTIC,
            properties: CharPropFlags { bits: READ | NOTIFY },
        },
        second: ExpectedCharacteristic {
            identifier: INDICATING_CHARACTERISTIC,
            properties: CharPropFlags { bits: READ | INDICATE },
        },
    }
}

/// The property flags of the first characteristic with the identifier `id`.
pub open spec fn properties_of(characteristics: Seq<CharacteristicDescriptor>, id: u128)
    -> CharPropFlags {
    characteristics[first_position(characteristic_ids(characteristics), id)].properties
}

/// The first service with the identifier `id`.
pub open spec fn service_named(services: Seq<ServiceDescriptor>, id: u128) -> ServiceDescriptor {
    services[first_position(service_ids(services), id)]
}

/// The characteristics are exactly two, both expected identifiers are among
/// them, and each of the two has exactly the expected flags.
pub open spec fn characteristics_pass(
    characteristics: Seq<CharacteristicDescriptor>,
    expected: ExpectedService,
) -> bool {
    let ids = characteristic_ids(characteristics);
    &&& ids.len() == 2
    &&& ids.contains(expected.first.identifier)
    &&& ids.contains(expected.second.identifier)
    &&& properties_of(characteristics, expected.first.identifier) == expected.first.properties
    &&& properties_of(characteristics, expected.second.identifier) == expected.second.properties
}

/// The verdict on the characteristics of one service. The count is judged
/// first, then the presence of the first and of the second expected
/// characteristic, then the flags of the first and of the second.
pub open spec fn characteristics_verdict(
    characteristics: Seq<CharacteristicDescriptor>,
    expected: ExpectedService,
) -> Result<(), FailureModel> {
    let ids = characteristic_ids(characteristics);
    let first = properties_of(characteristics, expected.first.identifier);
    let second = properties_of(characteristics, expected.second.identifier);
    if ids.len() != 2 {
        Err(FailureModel::CharacteristicCount { found: ids })
    } else if !ids.contains(expected.first.identifier) {
        Err(FailureModel::MissingCharacteristic { expected: expected.first.identifier, found: ids })
    } else if !ids.contains(expected.second.identifier) {
        Err(
            FailureModel::MissingCharacteristic { expected: expected.second.identifier, found: ids },
        )
    } else if first != expected.first.properties {
        Err(FailureModel::PropertyMismatch { expected: expected.first.properties, found: first })
    } else if second != expected.second.properties {
        Err(FailureModel::PropertyMismatch { expected: expected.second.properties, found: second })
    } else {
        Ok(())
    }
}

/// What is expected of the advertising service.
pub fn advertising_service_expectation() -> (expected: ExpectedService)
    ensures
        expected == advertising_service(),
{
    ExpectedService {
        identifier: ADVERTISING_SERVICE,
        first: ExpectedCharacteristic {
            identifier: STATIC_CHARACTERISTIC,
            properties: CharPropFlags::from_bits(READ),
        },
        second: ExpectedCharacteristic {
            identifier: WRITABLE_CHARACTERISTIC,
            properties: CharPropFlags::from_bits(READ).union(
                CharPropFlags::from_bits(WRITE_WITHOUT_RESPONSE),
            ),
        },
    }
}

/// What is expected of the other service.
pub fn other_service_expectation() -> (expected: ExpectedService)
    ensures
        expected == other_service(),
{
    ExpectedService {
        identifier: OTHER_SERVICE,
        first: ExpectedCharacteristic {
            identifier: NOTIFYING_CHARACTERISTIC,
            properties: CharPropFlags::from_bits(READ).union(CharPropFlags::from_bits(NOTIFY)),
        },
        second: ExpectedCharacteristic {
            identifier: INDICATING_CHARACTERISTIC,
            properties: CharPropFlags::from_bits(READ).union(CharPropFlags::from_bits(INDICATE)),
        },
    }
}

/// Judges the flags of the first characteristic named `wanted.identifier`.
fn check_properties(characteristics: &Vec<CharacteristicDescriptor>, wanted: ExpectedCharacteristic)
    -> (verdict: Result<(), Failure>)
    requires
        characteristic_ids(characteristics@).contains(wanted.identifier),
    ensures
        verdict is Ok <==> properties_of(characteristics@, wanted.identifier) == wanted.properties,
        verdict is Err ==> verdict_view(verdict) == Err::<(), FailureModel>(
            FailureModel::PropertyMismatch {
                expected: wanted.properties,
                found: properties_of(characteristics@, wanted.identifier),
            },
        ),
{
    match find_characteristic(characteristics, wanted.identifier) {
        Some(at) => {
            proof {
                lemma_first_position(
                    characteristic_ids(characteristics@),
                    wanted.identifier,
                    at as int,
                );
            }
            let found = characteristics[at].properties;
            if found.same(wanted.properties) {
                Ok(())
            } else {
                Err(Failure::PropertyMismatch { expected: wanted.properties, found })
            }
        },
        None => Ok(()),
    }
}

/// Judges the characteristics of one service against what is expected of it.
pub fn check_characteristics(
    characteristics: &Vec<CharacteristicDescriptor>,
    expected: ExpectedService,
) -> (verdict: Result<(), Failure>)
    ensures
        verdict_view(verdict) == characteristics_verdict(characteristics@, expected),
        verdict is Ok <==> characteristics_pass(characteristics@, expected),
        characteristics.len() != 2 ==> verdict_view(verdict) == Err::<(), FailureModel>(
            FailureModel::CharacteristicCount { found: characteristic_ids(characteristics@) },
        ),
{
    let ids = characteristic_identifiers(characteristics);
    if ids.len() != 2 {
        return Err(Failure::CharacteristicCount { found: ids });
    }
    if !contains_identifier(&ids, expected.first.identifier) {
        return Err(
            Failure::MissingCharacteristic { expected: expected.first.identifier, found: ids },
        );
    }
    if !contains_identifier(&ids, expected.second.identifier) {
        return Err(
            Failure::MissingCharacteristic { expected: expected.second.identifier, found: ids },
        );
    }
    let first = check_properties(characteristics, expected.first);
    if first.is_err() {
        return first;
    }
    check_properties(characteristics, expected.second)
}

/// Judges the characteristics of the advertising service. The service has
/// to be among those discovered: [`find_service`] tells.
pub fn check_advertising_service(services: &Vec<ServiceDescriptor>) -> (verdict: Result<
    (),
    Failure,
>)
    requires
        service_ids(services@).contains(ADVERTISING_SERVICE),
    ensures
        verdict_view(verdict) == characteristics_verdict(
            service_named(services@, ADVERTISING_SERVICE).characteristics@,
            advertising_service(),
        ),
{
    check_service(services, advertising_service_expectation())
}

/// Judges the characteristics of the other service. The service has to be
/// among those discovered: [`find_service`] tells.
pub fn check_other_service(services: &Vec<ServiceDescriptor>) -> (verdict: Result<(), Failure>)
    requires
        service_ids(services@).contains(OTHER_SERVICE),
    ensures
        verdict_view(verdict) == characteristics_verdict(
            service_named(services@, OTHER_SERVICE).characteristics@,
            other_service(),
        ),
{
    check_service(services, other_service_expectation())
}

/// Judges the characteristics of the first service named `expected.identifier`.
pub fn check_service(services: &Vec<ServiceDescriptor>, expected: ExpectedService) -> (verdict:
    Result<(), Failure>)
    requires
        service_ids(services@).contains(expected.identifier),
    ensures
        verdict_view(verdict) == characteristics_verdict(
            service_named(services@, expected.identifier).characteristics@,
            expected,
        ),
        verdict is Ok <==> characteristics_pass(
            service_named(services@, expected.identifier).characteristics@,
            expected,
        ),
{
    match find_service(services, expected.identifier) {
        Some(at) => {
            proof {
                lemma_first_position(service_ids(services@), expected.identifier, at as int);
            }
            check_characteristics(&services[at].characteristics, expected)
        },
        None => Ok(()),
    }
}

/// The characteristics pass exactly when they are two, both expected
/// identifiers are among them, and the flags of each equal the expected ones.
pub proof fn lemma_characteristics_pass_iff(
    characteristics: Seq<CharacteristicDescriptor>,
    expected: ExpectedService,
)
    ensures
        characteristics_verdict(characteristics, expected) is Ok <==> characteristics_pass(
            characteristics,
            expected,
        ),
{
}

/// A service that does not hold exactly two characteristics fails, and the
/// diagnostic lists the identifiers that were found, in the order reported.
pub proof fn lemma_wrong_count_lists_identifiers(
    characteristics: Seq<CharacteristicDescriptor>,
    expected: ExpectedService,
)
    requires
        characteristics.len() != 2,
    ensures
        characteristics_verdict(characteristics, expected) matches Err(failure) && failure
            == (FailureModel::CharacteristicCount { found: characteristic_ids(characteristics) })
            && failure.message() == "Expected 2 characteristics, found "@ + crate::text::decimal(
            characteristics.len(),
        ) + ": "@ + crate::identifier::identifier_list(characteristic_ids(characteristics)),
{
}

/// Flags are compared for equality, not for inclusion: a characteristic
/// whose flags differ from the expected ones fails, also where it holds
/// every expected flag and more.
pub proof fn lemma_flags_must_be_equal(
    characteristics: Seq<CharacteristicDescriptor>,
    expected: ExpectedService,
)
    requires
        characteristic_ids(characteristics).len() == 2,
        characteristic_ids(characteristics).contains(expected.first.identifier),
        characteristic_ids(characteristics).contains(expected.second.identifier),
        properties_of(characteristics, expected.first.identifier).bits
            != expected.first.properties.bits || properties_of(
            characteristics,
            expected.second.identifier,
        ).bits != expected.second.properties.bits,
    ensures
        characteristics_verdict(characteristics, expected) matches Err(failure)
            && failure is PropertyMismatch,
        !characteristics_pass(characteristics, expected),
{
}

} // verus!
