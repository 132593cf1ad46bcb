//! Why a test failed, and the diagnostic line that says so.

use vstd::prelude::*;

use crate::gatt::{flags_text, CharPropFlags};
use crate::identifier::{hyphenated, identifier_list, identifier_list_string, upper_hyphenated};
use crate::text::{decimal, decimal_string};

verus! {

/// The reason a test gives for failing. Each variant carries what was
/// expected and what was found, as far as the two differ.
#[derive(Clone, Debug, PartialEq, Eq)]
#[allow(inconsistent_fields)]
pub enum Failure {
    /// The peripheral does not expose exactly two services.
    ServiceCount { found: usize },
    /// One of the two expected services is not among those found.
    MissingService { expected: u128, found: Vec<u128> },
    /// The service does not hold exactly two characteristics.
    CharacteristicCount { found: Vec<u128> },
    /// One of the two expected characteristics is not among those found.
    MissingCharacteristic { expected: u128, found: Vec<u128> },
    /// A characteristic's property flags are not exactly the expected ones.
    PropertyMismatch { expected: CharPropFlags, found: CharPropFlags },
    /// A write of the stress test was refused; the text is the link's own.
    Write { message: String },
}

/// The mathematical content of a [`Failure`].
#[allow(inconsistent_fields)]
pub enum FailureModel {
    ServiceCount { found: nat },
    MissingService { expected: u128, found: Seq<u128> },
    CharacteristicCount { found: Seq<u128> },
    MissingCharacteristic { expected: u128, found: Seq<u128> },
    PropertyMismatch { expected: CharPropFlags, found: CharPropFlags },
    Write { message: Seq<char> },
}

impl View for Failure {
    type V = FailureModel;

    open spec fn view(&self) -> FailureModel {
        match *self {
            Failure::ServiceCount { found } => FailureModel::ServiceCount { found: found as nat },
            Failure::MissingService { expected, found } => FailureModel::MissingService {
                expected,
                found: found@,
            },
            Failure::CharacteristicCount { found } => FailureModel::CharacteristicCount {
                found: found@,
            },
            Failure::MissingCharacteristic {
                expected,
                found,
            } => FailureModel::MissingCharacteristic { expected, found: found@ },
            Failure::PropertyMismatch { expected, found } => FailureModel::PropertyMismatch {
                expected,
                found,
            },
            Failure::Write { message } => FailureModel::Write { message: message@ },
        }
    }
}

impl FailureModel {
    /// The diagnostic line of the failure.
    pub open spec fn message(self) -> Seq<char> {
        match self {
            FailureModel::ServiceCount { found } => "Expected 2 services, found "@ + decimal(found),
            FailureModel::MissingService { expected, found } => "Expected to find service "@
                + hyphenated(expected, true) + ", found "@ + identifier_list(found),
            FailureModel::CharacteristicCount { found } => "Expected 2 characteristics, found "@
                + decimal(found.len()) + ": "@ + identifier_list(found),
            FailureModel::MissingCharacteristic {
                expected,
                found,
            } => "Expected to find characteristic "@ + hyphenated(expected, true) + ", found "@
                + identifier_list(found),
            FailureModel::PropertyMismatch {
                expected,
                found,
            } => "Expected characteristic properties to be "@ + flags_text(expected.bits)
                + ", found "@ + flags_text(found.bits),
            FailureModel::Write { message } => message,
        }
    }
}

/// The verdict of a test over the views of its failures.
pub open spec fn verdict_view(verdict: Result<(), Failure>) -> Result<(), FailureModel> {
    match verdict {
        Ok(_) => Ok(()),
        Err(failure) => Err(failure@),
    }
}

impl Failure {
    /// The diagnostic line of the failure.
    pub fn message(&self) -> (s: String)
        ensures
            s@ == self@.message(),
    {
        match self {
            Failure::ServiceCount { found } => {
                let count = decimal_string(*found as u128);
                String::from_str("Expected 2 services, found ").concat(count.as_str())
            },
            Failure::MissingService { expected, found } => {
                let mut s = String::from_str("Expected to find service ");
                let wanted = upper_hyphenated(*expected);
                s.append(wanted.as_str());
                s.append(", found ");
                let list = identifier_list_string(found);
                s.append(list.as_str());
                s
            },
            Failure::CharacteristicCount { found } => {
                let mut s = String::from_str("Expected 2 characteristics, found ");
                let count = decimal_string(found.len() as u128);
                s.append(count.as_str());
                s.append(": ");
                let list = identifier_list_string(found);
                s.append(list.as_str());
                s
            },
            Failure::MissingCharacteristic { expected, found } => {
                let mut s = String::from_str("Expected to find characteristic ");
                let wanted = upper_hyphenated(*expected);
                s.append(wanted.as_str());
                s.append(", found ");
                let list = identifier_list_string(found);
                s.append(list.as_str());
                s
            },
            Failure::PropertyMismatch { expected, found } => {
                let mut s = String::from_str("Expected characteristic properties to be ");
                let wanted = expected.text();
                s.append(wanted.as_str());
                s.append(", found ");
                let actual = found.text();
                s.append(actual.as_str());
                s
            },
            Failure::Write { message } => message.clone(),
        }
    }
}

} // verus!
