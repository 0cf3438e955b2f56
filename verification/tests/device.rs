use paddleocr_rs_onnx::runtime::{provider_for, ExecutionProvider};
use paddleocr_rs_onnx::AccelerationDevice;

#[test]
fn default_device_is_cpu() {
    assert_eq!(AccelerationDevice::default(), AccelerationDevice::Cpu);
}

#[test]
fn parses_every_documented_alias() {
    let cases = [
        ("cpu", AccelerationDevice::Cpu),
        ("cuda", AccelerationDevice::Cuda),
        ("nvidia", AccelerationDevice::Cuda),
        ("directml", AccelerationDevice::DirectML),
        ("dml", AccelerationDevice::DirectML),
        ("openvino", AccelerationDevice::OpenVINO),
        ("open-vino", AccelerationDevice::OpenVINO),
        ("ov", AccelerationDevice::OpenVINO),
        ("nnapi", AccelerationDevice::Nnapi),
        ("coreml", AccelerationDevice::Coreml),
        ("apple", AccelerationDevice::Coreml),
        ("cann", AccelerationDevice::Cann),
        ("ascend", AccelerationDevice::Cann),
        ("huawei", AccelerationDevice::Cann),
    ];
    for (name, device) in cases {
        assert_eq!(AccelerationDevice::from_str_loose(name), Some(device));
        assert_eq!(AccelerationDevice::from_lowercase_name(name), Some(device));
    }
}

#[test]
fn parsing_ignores_case() {
    assert_eq!(AccelerationDevice::from_str_loose("CUDA"), Some(AccelerationDevice::Cuda));
    assert_eq!(AccelerationDevice::from_str_loose("DirectML"), Some(AccelerationDevice::DirectML));
    assert_eq!(AccelerationDevice::from_str_loose("Open-Vino"), Some(AccelerationDevice::OpenVINO));
    assert_eq!(AccelerationDevice::from_str_loose("HUAWEI"), Some(AccelerationDevice::Cann));
    assert_eq!(AccelerationDevice::from_str_loose("CpU"), Some(AccelerationDevice::Cpu));
}

#[test]
fn lowercase_parsing_is_case_sensitive() {
    assert_eq!(AccelerationDevice::from_lowercase_name("CUDA"), None);
    assert_eq!(AccelerationDevice::from_lowercase_name("cuda"), Some(AccelerationDevice::Cuda));
}

#[test]
fn unknown_names_are_refused() {
    assert_eq!(AccelerationDevice::from_str_loose(""), None);
    assert_eq!(AccelerationDevice::from_str_loose("gpu"), None);
    assert_eq!(AccelerationDevice::from_str_loose(" cpu"), None);
    assert_eq!(AccelerationDevice::from_str_loose("metal"), None);
}

#[test]
fn display_names() {
    assert_eq!(AccelerationDevice::Cpu.display_name(), "CPU");
    assert_eq!(AccelerationDevice::DirectML.display_name(), "DirectML");
    assert_eq!(AccelerationDevice::Cuda.display_name(), "CUDA");
    assert_eq!(AccelerationDevice::OpenVINO.display_name(), "OpenVINO");
    assert_eq!(AccelerationDevice::Nnapi.display_name(), "NNAPI");
    assert_eq!(AccelerationDevice::Coreml.display_name(), "CoreML");
    assert_eq!(AccelerationDevice::Cann.display_name(), "CANN");
}

#[test]
fn display_names_parse_back() {
    let all = [
        AccelerationDevice::Cpu,
        AccelerationDevice::DirectML,
        AccelerationDevice::Cuda,
        AccelerationDevice::OpenVINO,
        AccelerationDevice::Nnapi,
        AccelerationDevice::Coreml,
        AccelerationDevice::Cann,
    ];
    for device in all {
        assert_eq!(AccelerationDevice::from_str_loose(&device.display_name()), Some(device));
    }
}

#[test]
fn execution_provider_of_each_device() {
    assert_eq!(provider_for(AccelerationDevice::Cpu), None);
    assert_eq!(provider_for(AccelerationDevice::DirectML), Some(ExecutionProvider::DirectML));
    assert_eq!(provider_for(AccelerationDevice::Cuda), Some(ExecutionProvider::Cuda));
    assert_eq!(provider_for(AccelerationDevice::OpenVINO), Some(ExecutionProvider::OpenVINO));
    assert_eq!(provider_for(AccelerationDevice::Nnapi), Some(ExecutionProvider::Nnapi));
    assert_eq!(provider_for(AccelerationDevice::Coreml), Some(ExecutionProvider::CoreML));
    assert_eq!(provider_for(AccelerationDevice::Cann), Some(ExecutionProvider::Cann));
}
