use hanhcute::accel::{
    available_accelerators, describe_transcribe_device, gpu_device_label, gpu_device_options,
    ort_accelerator_for, resolve_transcribe_backend, BackendChoice, ComputeDevice,
    OrtAccelerator, OrtAcceleratorSetting, WhisperAcceleratorSetting,
};

fn dev(index: Option<usize>, name: &str, description: &str, is_gpu: bool, mem: u64) -> ComputeDevice {
    ComputeDevice {
        index,
        name: name.to_string(),
        description: description.to_string(),
        is_gpu,
        memory_total: mem,
    }
}

#[test]
fn device_description_preferred() {
    assert_eq!(describe_transcribe_device(&dev(None, "vk0", "", true, 0)), "vk0");
    assert_eq!(describe_transcribe_device(&dev(None, "vk0", "RTX 4090", true, 0)), "RTX 4090");
}

#[test]
fn backend_resolution() {
    let devices = vec![dev(None, "cpu", "", false, 0), dev(Some(1), "a", "", true, 0), dev(Some(1), "b", "", true, 0)];
    assert_eq!(resolve_transcribe_backend(WhisperAcceleratorSetting::Cpu, 1, &devices), BackendChoice::Cpu);
    assert_eq!(resolve_transcribe_backend(WhisperAcceleratorSetting::Gpu, 1, &devices), BackendChoice::Auto(Some(1)));
    assert_eq!(resolve_transcribe_backend(WhisperAcceleratorSetting::Auto, 7, &devices), BackendChoice::Auto(None));
    assert_eq!(resolve_transcribe_backend(WhisperAcceleratorSetting::Auto, -1, &devices), BackendChoice::Auto(None));
}

#[test]
fn gpu_options_only_gpus() {
    let devices = vec![
        dev(None, "cpu", "CPU", false, 1 << 34),
        dev(None, "vk0", "", true, 3 * 1024 * 1024 + 5),
        dev(Some(4), "vk1", "Radeon", true, 8 << 30),
    ];
    let opts = gpu_device_options(&devices);
    assert_eq!(opts.len(), 2);
    assert_eq!((opts[0].id, opts[0].name.as_str(), opts[0].total_vram_mb), (1, "vk0", 3));
    assert_eq!((opts[1].id, opts[1].name.as_str(), opts[1].total_vram_mb), (4, "Radeon", 8192));
}

#[test]
fn accelerators_on_offer() {
    let a = available_accelerators(vec!["cuda".to_string()], vec![]);
    assert_eq!(a.whisper, vec!["auto", "cpu", "gpu"]);
    assert_eq!(a.ort, vec!["cuda"]);
    assert!(a.gpu_devices.is_empty());
}

#[test]
fn ort_mapping() {
    assert_eq!(ort_accelerator_for(OrtAcceleratorSetting::Cpu), OrtAccelerator::CpuOnly);
    assert_eq!(ort_accelerator_for(OrtAcceleratorSetting::Auto), OrtAccelerator::Auto);
    assert_eq!(ort_accelerator_for(OrtAcceleratorSetting::Rocm), OrtAccelerator::Rocm);
}

#[test]
fn gpu_label() {
    assert_eq!(gpu_device_label(-1), "auto");
    assert_eq!(gpu_device_label(3), "3");
}
