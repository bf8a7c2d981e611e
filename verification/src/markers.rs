//! Which values the server may write to its log when debug mode is off.
use vstd::prelude::*;

use crate::chat::MessageNumber;
use crate::common::{AccountId, AccountIdDb, AccountIdInternal};
use crate::media::{ContentId, ContentIdDb, ContentIdInternal, ContentSlot};

verus! {

/// Marks a type whose values may be logged.
pub struct Allowed;

/// Marks a type whose values are written as "-" in the log.
pub struct NotAllowed;

/// Whether a marker allows logging.
pub trait AllowedStatus {
    spec fn spec_logging_allowed() -> bool;

    fn logging_allowed() -> (r: bool)
        ensures
            r == Self::spec_logging_allowed(),
    ;
}

impl AllowedStatus for Allowed {
    open spec fn spec_logging_allowed() -> bool {
        true
    }

    fn logging_allowed() -> (r: bool) {
        true
    }
}

impl AllowedStatus for NotAllowed {
    open spec fn spec_logging_allowed() -> bool {
        false
    }

    fn logging_allowed() -> (r: bool) {
        false
    }
}

/// Controls logging of a type when server debug mode is disabled: the
/// marker `Value` says whether its values are written to the log.
pub trait IsLoggingAllowed {
    type Value: AllowedStatus;

    fn logging_allowed() -> (r: bool)
        ensures
            r == <Self::Value as AllowedStatus>::spec_logging_allowed(),
    {
        <Self::Value as AllowedStatus>::logging_allowed()
    }
}

impl IsLoggingAllowed for AccountIdInternal {
    type Value = Allowed;
}

impl<'a> IsLoggingAllowed for &'a AccountIdInternal {
    type Value = Allowed;
}

impl IsLoggingAllowed for AccountId {
    type Value = Allowed;
}

impl<'a> IsLoggingAllowed for &'a AccountId {
    type Value = Allowed;
}

impl IsLoggingAllowed for Option<AccountIdDb> {
    type Value = Allowed;
}

impl<'a> IsLoggingAllowed for &'a Option<AccountIdDb> {
    type Value = Allowed;
}

impl IsLoggingAllowed for ContentId {
    type Value = Allowed;
}

impl<'a> IsLoggingAllowed for &'a ContentId {
    type Value = Allowed;
}

impl IsLoggingAllowed for ContentIdDb {
    type Value = Allowed;
}

impl<'a> IsLoggingAllowed for &'a ContentIdDb {
    type Value = Allowed;
}

impl IsLoggingAllowed for Option<ContentId> {
    type Value = Allowed;
}

impl<'a> IsLoggingAllowed for &'a Option<ContentId> {
    type Value = Allowed;
}

impl IsLoggingAllowed for ContentIdInternal {
    type Value = Allowed;
}

impl<'a> IsLoggingAllowed for &'a ContentIdInternal {
    type Value = Allowed;
}

impl IsLoggingAllowed for ContentSlot {
    type Value = Allowed;
}

impl<'a> IsLoggingAllowed for &'a ContentSlot {
    type Value = Allowed;
}

impl IsLoggingAllowed for &'static str {
    type Value = Allowed;
}

impl<'a> IsLoggingAllowed for &'a &'static str {
    type Value = Allowed;
}

impl IsLoggingAllowed for MessageNumber {
    type Value = NotAllowed;
}

impl<'a> IsLoggingAllowed for &'a MessageNumber {
    type Value = NotAllowed;
}

impl IsLoggingAllowed for i64 {
    type Value = NotAllowed;
}

impl<'a> IsLoggingAllowed for &'a i64 {
    type Value = NotAllowed;
}

impl IsLoggingAllowed for () {
    type Value = NotAllowed;
}

impl<'a> IsLoggingAllowed for &'a () {
    type Value = NotAllowed;
}

/// A pair is logged part by part, each part as its own type allows.
impl<T1: IsLoggingAllowed, T2: IsLoggingAllowed> IsLoggingAllowed for (T1, T2) {
    type Value = Allowed;
}

impl<T1: IsLoggingAllowed, T2: IsLoggingAllowed, T3: IsLoggingAllowed> IsLoggingAllowed for (T1, T2, T3) {
    type Value = Allowed;
}

impl<
    T1: IsLoggingAllowed,
    T2: IsLoggingAllowed,
    T3: IsLoggingAllowed,
    T4: IsLoggingAllowed,
> IsLoggingAllowed for (T1, T2, T3, T4) {
    type Value = Allowed;
}

} // verus!
