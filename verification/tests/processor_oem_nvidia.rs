//! Reading the NVIDIA `Processor` OEM extension.

use nv_redfish::oem::{OemMember, OemValue, ResourceOem};
use nv_redfish::processor::{
    NvidiaGpuSchema, NvidiaPayload, NvidiaProcessor, NvidiaProcessorSchema, NvidiaShape, OemError,
};

const GPU_TYPE: &str = "#NvidiaProcessor.v1_7_0.NvidiaGPU";

fn oem_with(members: Vec<(&str, OemValue)>) -> ResourceOem {
    ResourceOem {
        members: members
            .into_iter()
            .map(|(key, value)| OemMember { key: key.to_string(), value })
            .collect(),
    }
}

fn object(odata_type: Option<&str>) -> OemValue {
    OemValue::Present { odata_type: odata_type.map(|t| t.to_string()) }
}

#[test]
fn gpu_oem_payload_has_typed_fields() {
    let oem = oem_with(vec![("Nvidia", object(Some(GPU_TYPE)))]);
    assert_eq!(NvidiaProcessor::shape(&oem), Some(NvidiaShape::Gpu));

    let decoded = NvidiaGpuSchema {
        mig_mode_enabled: Some(Some(true)),
        cc_mode_enabled: Some(Some(false)),
        total_number_nv_links: Some(Some(18)),
    };
    let Ok(NvidiaProcessor::Gpu(gpu)) = NvidiaProcessor::from_payload(Ok(NvidiaPayload::Gpu(decoded))) else {
        panic!("processor must expose the GPU shape");
    };
    assert_eq!(gpu.mig_mode_enabled.flatten(), Some(true));
    assert_eq!(gpu.cc_mode_enabled.flatten(), Some(false));
    assert_eq!(gpu.total_number_nv_links.flatten(), Some(18));
}

#[test]
fn missing_or_null_nvidia_oem_payload_is_absent() {
    for oem in [oem_with(vec![]), oem_with(vec![("Nvidia", OemValue::Null)])] {
        assert!(NvidiaProcessor::shape(&oem).is_none());
    }
}

#[test]
fn unknown_or_missing_type_keeps_generic_properties() {
    for odata_type in [None, Some("#NvidiaProcessor.v9_9_0.NvidiaSomethingElse")] {
        let oem = oem_with(vec![("Nvidia", object(odata_type))]);
        assert_eq!(NvidiaProcessor::shape(&oem), Some(NvidiaShape::Generic));

        let decoded = NvidiaProcessorSchema { mig_mode_enabled: Some(Some(true)), cc_mode_enabled: None };
        let Ok(NvidiaProcessor::Generic(generic)) =
            NvidiaProcessor::from_payload(Ok(NvidiaPayload::Generic(decoded)))
        else {
            panic!("unknown type must retain generic processor properties");
        };
        assert_eq!(generic.mig_mode_enabled.flatten(), Some(true));
    }
}

#[test]
fn malformed_declared_gpu_is_an_error() {
    let oem = oem_with(vec![("Nvidia", object(Some(GPU_TYPE)))]);
    assert_eq!(NvidiaProcessor::shape(&oem), Some(NvidiaShape::Gpu));

    // `"MIGModeEnabled": "invalid"` does not decode as a boolean.
    let error = serde_json::from_str::<bool>("\"invalid\"").unwrap_err();
    let message = error.to_string();
    let result = NvidiaProcessor::from_payload(Err(error));
    match result {
        Err(OemError::Json(e)) => assert_eq!(e.to_string(), message),
        Ok(_) => panic!("a malformed GPU object must be an error"),
    }
}

#[test]
fn other_vendors_are_not_read_as_nvidia() {
    let oem = oem_with(vec![("Contoso", object(Some(GPU_TYPE))), ("nvidia", object(Some(GPU_TYPE)))]);
    assert_eq!(NvidiaProcessor::shape(&oem), None);
}

#[test]
fn nvidia_object_among_other_vendors() {
    let oem = oem_with(vec![("Contoso", OemValue::Null), ("Nvidia", object(Some(GPU_TYPE)))]);
    assert_eq!(NvidiaProcessor::shape(&oem), Some(NvidiaShape::Gpu));
}

#[test]
fn first_nvidia_member_decides() {
    let oem = oem_with(vec![("Nvidia", OemValue::Null), ("Nvidia", object(Some(GPU_TYPE)))]);
    assert_eq!(NvidiaProcessor::shape(&oem), None);
    let oem = oem_with(vec![("Nvidia", object(None)), ("Nvidia", object(Some(GPU_TYPE)))]);
    assert_eq!(NvidiaProcessor::shape(&oem), Some(NvidiaShape::Generic));
}

#[test]
fn gpu_declared_without_version_or_hash_is_gpu() {
    for t in ["#NvidiaProcessor.NvidiaGPU", "NvidiaProcessor.v1_0_0.NvidiaGPU", "#NvidiaProcessor.v2.NvidiaGPU"] {
        let oem = oem_with(vec![("Nvidia", object(Some(t)))]);
        assert_eq!(NvidiaProcessor::shape(&oem), Some(NvidiaShape::Gpu), "{t}");
    }
}

#[test]
fn gpu_of_another_namespace_is_generic() {
    for t in [
        "#OtherProcessor.v1_7_0.NvidiaGPU",
        "#NvidiaProcessorX.v1_7_0.NvidiaGPU",
        "#NvidiaProcessor.v1_7_0.NvidiaGPUs",
        "#NvidiaProcessor.v1_7_0.XNvidiaGPU",
        "#NvidiaProcessorNvidiaGPU",
        "",
        "#",
        "##NvidiaProcessor.v1_7_0.NvidiaGPU",
    ] {
        let oem = oem_with(vec![("Nvidia", object(Some(t)))]);
        assert_eq!(NvidiaProcessor::shape(&oem), Some(NvidiaShape::Generic), "{t}");
    }
}

#[test]
fn generic_payload_is_kept_whole() {
    let decoded = NvidiaProcessorSchema { mig_mode_enabled: Some(None), cc_mode_enabled: Some(Some(true)) };
    let Ok(NvidiaProcessor::Generic(generic)) = NvidiaProcessor::from_payload(Ok(NvidiaPayload::Generic(decoded)))
    else {
        panic!("a generic payload gives the generic shape");
    };
    assert_eq!(generic.mig_mode_enabled, Some(None));
    assert_eq!(generic.cc_mode_enabled, Some(Some(true)));
}

#[test]
fn whole_read_of_declared_gpu() {
    let oem = oem_with(vec![("Nvidia", object(Some(GPU_TYPE)))]);
    let shape = NvidiaProcessor::shape(&oem);
    let decoded = NvidiaGpuSchema {
        mig_mode_enabled: Some(Some(true)),
        cc_mode_enabled: None,
        total_number_nv_links: Some(None),
    };
    match NvidiaProcessor::from_decoding(shape, Some(Ok(NvidiaPayload::Gpu(decoded)))) {
        Ok(Some(NvidiaProcessor::Gpu(gpu))) => {
            assert_eq!(gpu.mig_mode_enabled, Some(Some(true)));
            assert_eq!(gpu.total_number_nv_links, Some(None));
        }
        other => panic!("expected the GPU shape, got {other:?}"),
    }

    let error = serde_json::from_str::<bool>("\"invalid\"").unwrap_err();
    assert!(matches!(NvidiaProcessor::from_decoding(shape, Some(Err(error))), Err(OemError::Json(_))));
}

#[test]
fn whole_read_without_nvidia_object_is_none() {
    for oem in [oem_with(vec![]), oem_with(vec![("Nvidia", OemValue::Null)])] {
        let shape = NvidiaProcessor::shape(&oem);
        assert!(matches!(NvidiaProcessor::from_decoding(shape, None), Ok(None)));
    }
}

#[test]
fn whole_read_of_unknown_type_is_generic() {
    let oem = oem_with(vec![("Nvidia", object(Some("#NvidiaProcessor.v9_9_0.NvidiaSomethingElse")))]);
    let shape = NvidiaProcessor::shape(&oem);
    let decoded = NvidiaProcessorSchema { mig_mode_enabled: Some(Some(true)), cc_mode_enabled: None };
    match NvidiaProcessor::from_decoding(shape, Some(Ok(NvidiaPayload::Generic(decoded)))) {
        Ok(Some(NvidiaProcessor::Generic(generic))) => assert_eq!(generic.mig_mode_enabled.flatten(), Some(true)),
        other => panic!("expected the generic shape, got {other:?}"),
    }
}
