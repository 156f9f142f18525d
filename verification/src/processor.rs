//! Support NVIDIA `Processor` OEM extensions.
//!
//! Reading the extension comes in two steps around the decoding of the
//! JSON object: [`NvidiaProcessor::shape`] decides from the `Oem` object of
//! the processor whether there is an NVIDIA object at all and, if there is,
//! as which schema it is read; [`NvidiaProcessor::from_payload`] builds the
//! extension out of what the decoding gave back.

use std::sync::Arc;
use vstd::prelude::*;

use crate::oem::{
    declares, declares_spec, lemma_member_value_first, lemma_member_value_none, law_names_type_any_version,
    member_value, names_type, oem_value, oem_value_spec, without_hash, OemValue, ResourceOem,
};

verus! {

/// The key of NVIDIA's object in an `Oem` object.
pub const OEM_KEY: &'static str = "Nvidia";

/// The namespace of NVIDIA's processor schemas.
pub const PROCESSOR_NAMESPACE: &'static str = "NvidiaProcessor";

/// The type of NVIDIA's processor schema for GPUs.
pub const GPU_KIND: &'static str = "NvidiaGPU";

#[verifier::external_type_specification]
#[verifier::external_body]
pub struct ExJsonError(serde_json::Error);

/// Errors of reading the extension.
#[derive(Debug)]
pub enum OemError {
    /// The NVIDIA object does not decode into the schema it is read as.
    Json(serde_json::Error),
}

/// Properties common to NVIDIA processors (schema `NvidiaProcessor`).
/// Each member is absent (`None`) or `null` (`Some(None)`) or a value.
#[derive(Clone, Debug)]
pub struct NvidiaProcessorSchema {
    pub mig_mode_enabled: Option<Option<bool>>,
    pub cc_mode_enabled: Option<Option<bool>>,
}

/// GPU properties, including the properties shared by NVIDIA processors
/// (schema `NvidiaGPU`).
#[derive(Clone, Debug)]
pub struct NvidiaGpuSchema {
    pub mig_mode_enabled: Option<Option<bool>>,
    pub cc_mode_enabled: Option<Option<bool>>,
    pub total_number_nv_links: Option<Option<i64>>,
}

/// NVIDIA extension of a processor.
#[derive(Debug)]
pub enum NvidiaProcessor {
    /// GPU properties, including the properties shared by NVIDIA processors.
    Gpu(Arc<NvidiaGpuSchema>),
    /// Properties common to NVIDIA processors with another or unknown type.
    Generic(Arc<NvidiaProcessorSchema>),
}

/// The schema as which an NVIDIA object is read.
#[derive(Clone, Copy, Debug, PartialEq, Eq, Structural)]
pub enum NvidiaShape {
    Gpu,
    Generic,
}

/// An NVIDIA object decoded into one of the schemas.
#[derive(Clone, Debug)]
pub enum NvidiaPayload {
    Gpu(NvidiaGpuSchema),
    Generic(NvidiaProcessorSchema),
}

/// The schema as which the NVIDIA object of the `Oem` object `oem` is
/// read: none when there is no NVIDIA object or it is `null`; the GPU
/// schema when the object declares the type `NvidiaGPU` of the namespace
/// `NvidiaProcessor`; the common schema otherwise, also when the type is
/// unknown or absent.
pub open spec fn shape_spec(oem: ResourceOem) -> Option<NvidiaShape> {
    match oem_value_spec(oem, OEM_KEY@) {
        None => None,
        Some(value) => if declares_spec(value, PROCESSOR_NAMESPACE@, GPU_KIND@) {
            Some(NvidiaShape::Gpu)
        } else {
            Some(NvidiaShape::Generic)
        },
    }
}

/// `extension` holds, behind its `Arc`, the schema value of `payload`, in
/// the variant of the same schema.
pub open spec fn holds_payload(extension: NvidiaProcessor, payload: NvidiaPayload) -> bool {
    match payload {
        NvidiaPayload::Gpu(gpu) => extension matches NvidiaProcessor::Gpu(a) && *a == gpu,
        NvidiaPayload::Generic(generic) => extension matches NvidiaProcessor::Generic(a) && *a == generic,
    }
}

/// The schema of the extension's variant.
pub open spec fn shape_of_extension(extension: NvidiaProcessor) -> NvidiaShape {
    match extension {
        NvidiaProcessor::Gpu(_) => NvidiaShape::Gpu,
        NvidiaProcessor::Generic(_) => NvidiaShape::Generic,
    }
}

/// The schema of a decoded payload.
pub open spec fn shape_of_payload(payload: NvidiaPayload) -> NvidiaShape {
    match payload {
        NvidiaPayload::Gpu(_) => NvidiaShape::Gpu,
        NvidiaPayload::Generic(_) => NvidiaShape::Generic,
    }
}

/// `decoded` is the decoding of the NVIDIA object into the schema that
/// `shape` chose: present exactly when there is a schema, and, when it
/// succeeded, of that schema.
pub open spec fn decoding_fits(shape: Option<NvidiaShape>, decoded: Option<Result<NvidiaPayload, serde_json::Error>>) -> bool {
    match (shape, decoded) {
        (None, None) => true,
        (Some(s), Some(Ok(payload))) => shape_of_payload(payload) == s,
        (Some(_), Some(Err(_))) => true,
        _ => false,
    }
}

/// `r` is what reading the extension gives when the `Oem` object chose
/// `shape` and the decoding into that schema gave `decoded`: no extension
/// when there is no NVIDIA object; the decoded value in the variant of the
/// chosen schema; or the decoding error.
pub open spec fn reads_decoding(
    shape: Option<NvidiaShape>,
    decoded: Option<Result<NvidiaPayload, serde_json::Error>>,
    r: Result<Option<NvidiaProcessor>, OemError>,
) -> bool {
    match (shape, decoded) {
        (None, _) => r == Ok::<Option<NvidiaProcessor>, OemError>(None),
        (Some(s), Some(Ok(payload))) => r matches Ok(Some(extension)) && holds_payload(extension, payload)
            && shape_of_extension(extension) == s,
        (Some(_), Some(Err(e))) => r == Err::<Option<NvidiaProcessor>, OemError>(OemError::Json(e)),
        (Some(_), None) => false,
    }
}

impl NvidiaProcessor {
    /// Decides how the extension is read out of a `Processor` OEM payload.
    ///
    /// Returns `None` when the payload carries no NVIDIA object,
    /// including when it carries an explicit `null`.
    ///
    /// Unknown or absent `@odata.type` values use the generic shape so
    /// shared processor properties remain available.
    pub fn shape(oem: &ResourceOem) -> (r: Option<NvidiaShape>)
        ensures
            r == shape_spec(*oem),
    {
        match oem_value(oem, OEM_KEY) {
            None => None,
            Some(nvidia) => if declares(nvidia, PROCESSOR_NAMESPACE, GPU_KIND) {
                Some(NvidiaShape::Gpu)
            } else {
                Some(NvidiaShape::Generic)
            },
        }
    }

    /// Builds the extension out of the decoding of the NVIDIA object: the
    /// decoded value in the variant of its schema, or the decoding error.
    pub fn from_payload(decoded: Result<NvidiaPayload, serde_json::Error>) -> (r: Result<NvidiaProcessor, OemError>)
        ensures
            match decoded {
                Ok(payload) => r matches Ok(extension) && holds_payload(extension, payload),
                Err(e) => r == Err::<NvidiaProcessor, OemError>(OemError::Json(e)),
            },
    {
        match decoded {
            Ok(NvidiaPayload::Gpu(gpu)) => Ok(NvidiaProcessor::Gpu(Arc::new(gpu))),
            Ok(NvidiaPayload::Generic(generic)) => Ok(NvidiaProcessor::Generic(Arc::new(generic))),
            Err(e) => Err(OemError::Json(e)),
        }
    }

    /// Reads the extension out of a `Processor` OEM payload, given the
    /// schema that [`NvidiaProcessor::shape`] chose for it and the decoding
    /// of the NVIDIA object into that schema (none when there is no schema).
    ///
    /// Returns `Ok(None)` when the payload carries no NVIDIA object; the
    /// decoded value in the variant of the chosen schema; or the decoding
    /// error.
    pub fn from_decoding(
        shape: Option<NvidiaShape>,
        decoded: Option<Result<NvidiaPayload, serde_json::Error>>,
    ) -> (r: Result<Option<NvidiaProcessor>, OemError>)
        requires
            decoding_fits(shape, decoded),
        ensures
            reads_decoding(shape, decoded, r),
    {
        match decoded {
            None => Ok(None),
            Some(decoded) => match NvidiaProcessor::from_payload(decoded) {
                Ok(extension) => Ok(Some(extension)),
                Err(e) => Err(e),
            },
        }
    }
}

/// An `Oem` object without an NVIDIA object, or with a `null` one, has no
/// NVIDIA extension.
pub proof fn law_no_nvidia_object_no_extension(oem: ResourceOem)
    requires
        !(member_value(oem.members@, OEM_KEY@) matches Some(OemValue::Present { .. })),
    ensures
        shape_spec(oem) is None,
{
}

/// An NVIDIA object whose `@odata.type` names the type `NvidiaGPU` of the
/// namespace `NvidiaProcessor` is read as a GPU.
pub proof fn law_declared_gpu_is_gpu(oem: ResourceOem, odata_type: String)
    requires
        member_value(oem.members@, OEM_KEY@) == Some(OemValue::Present { odata_type: Some(odata_type) }),
        names_type(odata_type@, PROCESSOR_NAMESPACE@, GPU_KIND@),
    ensures
        shape_spec(oem) == Some(NvidiaShape::Gpu),
{
}

/// An NVIDIA object without an `@odata.type`, or with one that names
/// another type, is read with the properties common to NVIDIA processors.
pub proof fn law_other_or_absent_type_is_generic(oem: ResourceOem, odata_type: Option<String>)
    requires
        member_value(oem.members@, OEM_KEY@) == Some(OemValue::Present { odata_type }),
        match odata_type {
            Some(t) => !names_type(t@, PROCESSOR_NAMESPACE@, GPU_KIND@),
            None => true,
        },
    ensures
        shape_spec(oem) == Some(NvidiaShape::Generic),
{
}

/// Read as a whole, an NVIDIA object that declares the type `NvidiaGPU` of
/// the namespace `NvidiaProcessor` gives the GPU variant or a decoding
/// error.
pub proof fn law_declared_gpu_reads_gpu_or_error(
    oem: ResourceOem,
    odata_type: String,
    decoded: Option<Result<NvidiaPayload, serde_json::Error>>,
    r: Result<Option<NvidiaProcessor>, OemError>,
)
    requires
        member_value(oem.members@, OEM_KEY@) == Some(OemValue::Present { odata_type: Some(odata_type) }),
        names_type(odata_type@, PROCESSOR_NAMESPACE@, GPU_KIND@),
        decoding_fits(shape_spec(oem), decoded),
        reads_decoding(shape_spec(oem), decoded, r),
    ensures
        r matches Ok(Some(NvidiaProcessor::Gpu(_))) || r matches Err(OemError::Json(_)),
{
}

/// Read as a whole, an `Oem` object without an NVIDIA object, or with a
/// `null` one, gives no extension, whatever else it holds.
pub proof fn law_no_nvidia_object_reads_none(
    oem: ResourceOem,
    decoded: Option<Result<NvidiaPayload, serde_json::Error>>,
    r: Result<Option<NvidiaProcessor>, OemError>,
)
    requires
        !(member_value(oem.members@, OEM_KEY@) matches Some(OemValue::Present { .. })),
        reads_decoding(shape_spec(oem), decoded, r),
    ensures
        r == Ok::<Option<NvidiaProcessor>, OemError>(None),
{
}

/// Building the extension from a decoded GPU object keeps the decoded
/// value whole, member by member.
pub proof fn law_from_payload_keeps_gpu(
    gpu: NvidiaGpuSchema,
    r: Result<NvidiaProcessor, OemError>,
)
    requires
        call_ensures(NvidiaProcessor::from_payload, (Ok::<NvidiaPayload, serde_json::Error>(NvidiaPayload::Gpu(gpu)),), r),
    ensures
        r matches Ok(NvidiaProcessor::Gpu(a)) && {
            &&& (*a).mig_mode_enabled == gpu.mig_mode_enabled
            &&& (*a).cc_mode_enabled == gpu.cc_mode_enabled
            &&& (*a).total_number_nv_links == gpu.total_number_nv_links
        },
{
}

/// Building the extension from a decoded object of the common schema keeps
/// the decoded value whole, member by member.
pub proof fn law_from_payload_keeps_generic(
    generic: NvidiaProcessorSchema,
    r: Result<NvidiaProcessor, OemError>,
)
    requires
        call_ensures(
            NvidiaProcessor::from_payload,
            (Ok::<NvidiaPayload, serde_json::Error>(NvidiaPayload::Generic(generic)),),
            r,
        ),
    ensures
        r matches Ok(NvidiaProcessor::Generic(a)) && {
            &&& (*a).mig_mode_enabled == generic.mig_mode_enabled
            &&& (*a).cc_mode_enabled == generic.cc_mode_enabled
        },
{
}

/// A decoding error is handed on unchanged as the JSON error.
pub proof fn law_from_payload_passes_error(e: serde_json::Error, r: Result<NvidiaProcessor, OemError>)
    requires
        call_ensures(NvidiaProcessor::from_payload, (Err::<NvidiaPayload, serde_json::Error>(e),), r),
    ensures
        r matches Err(OemError::Json(x)) && x == e,
{
}

/// Read as a whole, with no NVIDIA object there is no extension.
pub proof fn law_from_decoding_no_object(r: Result<Option<NvidiaProcessor>, OemError>)
    requires
        call_ensures(
            NvidiaProcessor::from_decoding,
            (None::<NvidiaShape>, None::<Result<NvidiaPayload, serde_json::Error>>),
            r,
        ),
    ensures
        r matches Ok(None),
{
}

/// Read as a whole, an NVIDIA object read as a GPU and decoded gives the
/// GPU variant holding the decoded value, member by member.
pub proof fn law_from_decoding_keeps_gpu(gpu: NvidiaGpuSchema, r: Result<Option<NvidiaProcessor>, OemError>)
    requires
        call_ensures(
            NvidiaProcessor::from_decoding,
            (Some(NvidiaShape::Gpu), Some(Ok::<NvidiaPayload, serde_json::Error>(NvidiaPayload::Gpu(gpu)))),
            r,
        ),
    ensures
        r matches Ok(Some(NvidiaProcessor::Gpu(a))) && {
            &&& (*a).mig_mode_enabled == gpu.mig_mode_enabled
            &&& (*a).cc_mode_enabled == gpu.cc_mode_enabled
            &&& (*a).total_number_nv_links == gpu.total_number_nv_links
        },
{
}

/// Read as a whole, an NVIDIA object read with the common schema and
/// decoded gives the generic variant holding the decoded value, member by
/// member: the shared processor properties remain available.
pub proof fn law_from_decoding_keeps_generic(
    generic: NvidiaProcessorSchema,
    r: Result<Option<NvidiaProcessor>, OemError>,
)
    requires
        call_ensures(
            NvidiaProcessor::from_decoding,
            (
                Some(NvidiaShape::Generic),
                Some(Ok::<NvidiaPayload, serde_json::Error>(NvidiaPayload::Generic(generic))),
            ),
            r,
        ),
    ensures
        r matches Ok(Some(NvidiaProcessor::Generic(a))) && {
            &&& (*a).mig_mode_enabled == generic.mig_mode_enabled
            &&& (*a).cc_mode_enabled == generic.cc_mode_enabled
        },
{
}

/// Read as a whole, a decoding error of the NVIDIA object, whichever schema
/// it was read as, is handed on unchanged as the JSON error.
pub proof fn law_from_decoding_passes_error(
    shape: NvidiaShape,
    e: serde_json::Error,
    r: Result<Option<NvidiaProcessor>, OemError>,
)
    requires
        call_ensures(
            NvidiaProcessor::from_decoding,
            (Some(shape), Some(Err::<NvidiaPayload, serde_json::Error>(e))),
            r,
        ),
    ensures
        r matches Err(OemError::Json(x)) && x == e,
{
}

/// An `Oem` object without an `"Nvidia"` member has no NVIDIA extension.
pub proof fn law_shape_without_nvidia_member(oem: ResourceOem, r: Option<NvidiaShape>)
    requires
        call_ensures(NvidiaProcessor::shape, (&oem,), r),
        forall|j: int| 0 <= j < oem.members@.len() ==> oem.members@[j].key@ != OEM_KEY@,
    ensures
        r is None,
{
    lemma_member_value_none(oem.members@, OEM_KEY@);
}

/// How the first `"Nvidia"` member of an `Oem` object is read: not at all
/// when it is `null`; always otherwise; with the common schema when it has
/// no `@odata.type`; as a GPU when its `@odata.type` is
/// `#NvidiaProcessor.<version>.NvidiaGPU` for any version without a `.`;
/// and as a GPU only when its `@odata.type` ends in `.NvidiaGPU`.
pub proof fn law_shape_reads_first_nvidia_member(oem: ResourceOem, i: int, version: Seq<char>, r: Option<NvidiaShape>)
    requires
        call_ensures(NvidiaProcessor::shape, (&oem,), r),
        0 <= i < oem.members@.len(),
        oem.members@[i].key@ == OEM_KEY@,
        forall|j: int| 0 <= j < i ==> oem.members@[j].key@ != OEM_KEY@,
        !version.contains('.'),
    ensures
        oem.members@[i].value is Null ==> r is None,
        oem.members@[i].value is Present ==> r is Some,
        oem.members@[i].value == (OemValue::Present { odata_type: None }) ==> r == Some(NvidiaShape::Generic),
        (oem.members@[i].value matches OemValue::Present { odata_type: Some(t) } && t@ == seq!['#']
            + PROCESSOR_NAMESPACE@ + seq!['.'] + version + seq!['.'] + GPU_KIND@) ==> r == Some(NvidiaShape::Gpu),
        r == Some(NvidiaShape::Gpu) ==> (oem.members@[i].value matches OemValue::Present { odata_type: Some(t) }
            && GPU_KIND@.len() < t@.len() && t@[t@.len() - GPU_KIND@.len() - 1] == '.'
            && forall|k: int| 0 <= k < GPU_KIND@.len() ==> t@[t@.len() - GPU_KIND@.len() + k] == GPU_KIND@[k]),
{
    lemma_member_value_first(oem.members@, OEM_KEY@, i);
    reveal_strlit("NvidiaProcessor");
    reveal_strlit("NvidiaGPU");
    assert(!PROCESSOR_NAMESPACE@.contains('.')) by {
        assert forall|k: int| 0 <= k < PROCESSOR_NAMESPACE@.len() implies PROCESSOR_NAMESPACE@[k] != '.' by {}
    }
    assert(!GPU_KIND@.contains('.')) by {
        assert forall|k: int| 0 <= k < GPU_KIND@.len() implies GPU_KIND@[k] != '.' by {}
    }
    law_names_type_any_version(PROCESSOR_NAMESPACE@, version, GPU_KIND@, true);
    if let OemValue::Present { odata_type: Some(t) } = oem.members@[i].value {
        if names_type(t@, PROCESSOR_NAMESPACE@, GPU_KIND@) {
            let body = without_hash(t@);
            let n = GPU_KIND@.len();
            assert forall|k: int| 0 <= k < n implies t@[t@.len() - n + k] == GPU_KIND@[k] by {
                assert(body.skip(body.len() - n)[k] == body[body.len() - n + k]);
            }
        }
    }
}

} // verus!
