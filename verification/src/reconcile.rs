//! The policy that combines a native reading of a file with the reading of an
//! external inspection tool.
//!
//! The native reading is made first. The tool is slower and more thorough; it
//! is asked only where the native reading failed or left something open, and
//! then it fills gaps and overrides nothing.

use crate::error::MetadataError;
use crate::metadata::MetaData;
use crate::timestamp::Timestamp;
use vstd::prelude::*;

verus! {

/// The native reading needs no second opinion: it succeeded and is complete.
pub open spec fn settled(native: Result<MetaData, MetadataError>) -> bool {
    native matches Ok(found) && found.complete()
}

/// Two records of one file as one: each field is the native one where that is
/// known, else the external one.
pub open spec fn merged(native: MetaData, external: MetaData) -> MetaData {
    MetaData {
        width: if native.width > 0 {
            native.width
        } else {
            external.width
        },
        height: if native.height > 0 {
            native.height
        } else {
            external.height
        },
        creation_date: if native.creation_date is Some {
            native.creation_date
        } else {
            external.creation_date
        },
    }
}

/// The answer once both attempts were made: the external outcome where the
/// native attempt failed, the native record where only the external attempt
/// failed, the merged record where both succeeded.
pub open spec fn reconciled(
    native: Result<MetaData, MetadataError>,
    external: Result<MetaData, MetadataError>,
) -> Result<MetaData, MetadataError> {
    match native {
        Err(_) => external,
        Ok(a) => match external {
            Err(_) => native,
            Ok(b) => Ok(merged(a, b)),
        },
    }
}

/// The answer to a request for the creation date alone: the native date where
/// there is one, else the date of the external record where that attempt
/// succeeded and found one, else the native failure.
pub open spec fn date_resolved(
    native: Result<Timestamp, MetadataError>,
    external: Result<MetaData, MetadataError>,
) -> Result<Timestamp, MetadataError> {
    match native {
        Ok(_) => native,
        Err(_) => match external {
            Ok(MetaData { creation_date: Some(date), .. }) => Ok(date),
            _ => native,
        },
    }
}

/// Whether the external tool has to be asked after this native outcome.
pub fn needs_external_attempt(native: &Result<MetaData, MetadataError>) -> (needed: bool)
    ensures
        needed == !settled(*native),
{
    match native {
        Ok(found) => !found.is_complete(),
        Err(_) => true,
    }
}

/// Merges two records of one file, field by field; the native one has precedence.
pub fn merge_metadata(native: MetaData, external: MetaData) -> (combined: MetaData)
    ensures
        combined == merged(native, external),
{
    MetaData {
        width: if native.width > 0 {
            native.width
        } else {
            external.width
        },
        height: if native.height > 0 {
            native.height
        } else {
            external.height
        },
        creation_date: if native.creation_date.is_some() {
            native.creation_date
        } else {
            external.creation_date
        },
    }
}

/// Combines the outcomes of both attempts.
pub fn reconcile(
    native: Result<MetaData, MetadataError>,
    external: Result<MetaData, MetadataError>,
) -> (answer: Result<MetaData, MetadataError>)
    ensures
        answer == reconciled(native, external),
{
    match native {
        Err(_) => external,
        Ok(a) => match external {
            Err(_) => Ok(a),
            Ok(b) => Ok(merge_metadata(a, b)),
        },
    }
}

/// Full metadata of a file from a native outcome and, where that does not
/// settle the matter, from the external tool.
///
/// `external` runs the tool on the same file. It is called at most once, and
/// only where `native` failed or is incomplete.
pub fn extract_combined_metadata<F: FnOnce() -> Result<MetaData, MetadataError>>(
    native: Result<MetaData, MetadataError>,
    external: F,
) -> (answer: Result<MetaData, MetadataError>)
    requires
        call_requires(external, ()),
    ensures
        settled(native) ==> answer == native,
        !settled(native) ==> exists|outcome: Result<MetaData, MetadataError>|
            call_ensures(external, (), outcome) && answer == reconciled(native, outcome),
{
    if !needs_external_attempt(&native) {
        return native;
    }
    let outcome = external();
    reconcile(native, outcome)
}

/// Combines a native date with the outcome of the external tool.
pub fn resolve_creation_date(
    native: Result<Timestamp, MetadataError>,
    external: Result<MetaData, MetadataError>,
) -> (answer: Result<Timestamp, MetadataError>)
    ensures
        answer == date_resolved(native, external),
{
    if native.is_ok() {
        return native;
    }
    match external {
        Ok(found) => match found.creation_date {
            Some(date) => Ok(date),
            None => native,
        },
        Err(_) => native,
    }
}

/// The creation date of a file from a native outcome and, where that failed,
/// from the external tool.
///
/// `external` runs the tool on the same file. It is called at most once, and
/// only where `native` failed. Dimensions play no part.
pub fn extract_file_creation_date<F: FnOnce() -> Result<MetaData, MetadataError>>(
    native: Result<Timestamp, MetadataError>,
    external: F,
) -> (answer: Result<Timestamp, MetadataError>)
    requires
        call_requires(external, ()),
    ensures
        native is Ok ==> answer == native,
        native is Err ==> exists|outcome: Result<MetaData, MetadataError>|
            call_ensures(external, (), outcome) && answer == date_resolved(native, outcome),
{
    if native.is_ok() {
        return native;
    }
    let outcome = external();
    resolve_creation_date(native, outcome)
}

/// The merge policy, one line for each pair of outcomes of the two attempts.
///
/// Both failed: the external failure. Only the native attempt failed: the
/// external record. Only the external attempt failed: the native record, as it
/// is. Both succeeded: the native record with its gaps filled from the
/// external one.
pub proof fn merge_policy_by_case(
    native: Result<MetaData, MetadataError>,
    external: Result<MetaData, MetadataError>,
)
    ensures
        native is Err && external is Err ==> reconciled(native, external) == external,
        native is Err && external is Ok ==> reconciled(native, external) == external,
        native is Ok && external is Err ==> reconciled(native, external) == native,
        native is Ok && external is Ok ==> reconciled(native, external) == Ok::<
            MetaData,
            MetadataError,
        >(merged(native->Ok_0, external->Ok_0)),
        reconciled(native, external) is Err <==> native is Err && external is Err,
{
}

/// The fallback for the date alone, one line for each pair of outcomes: a
/// native date stands; a native failure gives way to a date of the tool, and
/// to nothing else.
pub proof fn date_fallback_by_case(
    native: Result<Timestamp, MetadataError>,
    external: Result<MetaData, MetadataError>,
)
    ensures
        native is Ok ==> date_resolved(native, external) == native,
        native is Err && external is Err ==> date_resolved(native, external) == native,
        native is Err && external is Ok && external->Ok_0.creation_date is None ==> date_resolved(
            native,
            external,
        ) == native,
        native is Err && external is Ok && external->Ok_0.creation_date is Some ==> date_resolved(
            native,
            external,
        ) == Ok::<Timestamp, MetadataError>(external->Ok_0.creation_date->0),
{
}

/// A native outcome that is settled stands, whatever the external attempt
/// would have brought: asking the tool could not change the answer.
pub proof fn settled_outcome_stands(
    native: Result<MetaData, MetadataError>,
    external: Result<MetaData, MetadataError>,
)
    requires
        settled(native),
    ensures
        reconciled(native, external) == native,
{
}

/// In a merged record a known native field stays, an unknown one is taken over,
/// and no field is known that neither record knew.
pub proof fn merge_fills_gaps_only(native: MetaData, external: MetaData)
    ensures
        native.width > 0 ==> merged(native, external).width == native.width,
        native.width == 0 ==> merged(native, external).width == external.width,
        native.height > 0 ==> merged(native, external).height == native.height,
        native.height == 0 ==> merged(native, external).height == external.height,
        native.creation_date is Some ==> merged(native, external).creation_date
            == native.creation_date,
        native.creation_date is None ==> merged(native, external).creation_date
            == external.creation_date,
        native.complete() ==> merged(native, external) == native,
        native.empty() ==> merged(native, external) == external,
{
}

/// A native record that found nothing counts as a failed attempt wherever the
/// external attempt succeeds: the answer is the external record either way.
pub proof fn empty_record_counts_as_failure(
    nothing: MetaData,
    failure: MetadataError,
    external: Result<MetaData, MetadataError>,
)
    requires
        nothing.empty(),
        external is Ok,
    ensures
        !settled(Ok(nothing)),
        reconciled(Ok(nothing), external) == reconciled(Err(failure), external),
{
}

} // verus!
