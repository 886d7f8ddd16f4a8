//! JSON Patch (RFC 6902) updates of a configuration document.
use vstd::prelude::*;
use crate::config::error::{ConfigError, ConfigErrorView, ConfigResult};

verus! {

#[verifier::external_type_specification]
#[verifier::external_body]
pub struct ExJsonValue(serde_json::Value);

#[verifier::external_type_specification]
#[verifier::external_body]
pub struct ExPatch(json_patch::Patch);

#[verifier::external_type_specification]
#[verifier::external_body]
pub struct ExPatchOperation(json_patch::PatchOperation);

/// What `serde_json::from_value::<json_patch::Patch>` gives for `updates`:
/// the list of patch operations it reads, or the error it reports.
pub uninterp spec fn parsed_patch(updates: serde_json::Value) -> Result<
    json_patch::Patch,
    serde_json::Error,
>;

/// What `json_patch::patch_unsafe` makes of `doc` with `patch`: the
/// patched document, or the error of the first operation that cannot be
/// applied.
pub uninterp spec fn patch_outcome(doc: serde_json::Value, patch: json_patch::Patch) -> Result<
    serde_json::Value,
    json_patch::PatchError,
>;

/// `serde_json::from_value::<json_patch::Patch>`: reads a list of patch
/// operations (RFC 6902) from a JSON value. The result is named as a function
/// of the value alone.
#[verifier::external_body]
fn patch_from_value(updates: serde_json::Value) -> (r: Result<json_patch::Patch, serde_json::Error>)
    ensures
        r == parsed_patch(updates),
{
    serde_json::from_value(updates)
}

/// `json_patch::patch_unsafe`: applies the operations to `doc` in order,
/// stopping at the first that fails. Its outcome is named as a function of
/// the document and the operations: on success `doc` becomes the patched
/// document. After a failure the operations already applied stay applied
/// (a failed move may even have removed its source), so nothing is stated of
/// `doc` then. Unlike `json_patch::patch`, it attempts no undo, which can
/// panic.
#[verifier::external_body]
fn apply_patch(doc: &mut serde_json::Value, patch: &json_patch::Patch) -> (r: Result<
    (),
    json_patch::PatchError,
>)
    ensures
        match patch_outcome(*old(doc), *patch) {
            Ok(d) => r is Ok && *final(doc) == d,
            Err(e) => r == Err::<(), json_patch::PatchError>(e),
        },
{
    json_patch::patch_unsafe(doc, patch)
}

/// Applies the JSON Patch operations `updates` to `document`. A value that is
/// not a list of operations is reported as invalid JSON with the reader's
/// error, and the document is not touched; an operation that cannot be
/// applied is reported as a failed patch with its error, and the document is
/// then unspecified (callers patch a copy they drop on failure); otherwise
/// the document becomes the patched one.
pub fn patch_document(document: &mut serde_json::Value, updates: serde_json::Value) -> (r:
    ConfigResult<()>)
    ensures
        match parsed_patch(updates) {
            Err(e) => r matches Err(f) && f@ == (ConfigErrorView::InvalidJson { source: e })
                && *final(document) == *old(document),
            Ok(p) => match patch_outcome(*old(document), p) {
                Ok(d) => r is Ok && *final(document) == d,
                Err(e) => r matches Err(f) && f@ == (ConfigErrorView::PatchFailed { source: e }),
            },
        },
{
    let patch = match patch_from_value(updates) {
        Ok(p) => p,
        Err(e) => {
            return Err(ConfigError::InvalidJson { source: e });
        },
    };
    match apply_patch(document, &patch) {
        Ok(()) => Ok(()),
        Err(e) => Err(ConfigError::PatchFailed { source: e }),
    }
}

} // verus!
