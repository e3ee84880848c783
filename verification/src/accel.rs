//! Accelerator choices: which compute device a whisper model is loaded on,
//! which devices are offered as GPUs, and how the ONNX runtime preference
//! maps to the runtime's own setting.
use vstd::prelude::*;
use vstd::string::*;
use crate::text::{decimal, decimal_string};

verus! {

/// A compute device as the whisper runtime enumerates it.
pub struct ComputeDevice {
    /// The device's registry index, when it has one.
    pub index: Option<usize>,
    pub name: String,
    pub description: String,
    /// Whether it is a discrete or integrated GPU.
    pub is_gpu: bool,
    /// Total memory in bytes.
    pub memory_total: u64,
}

/// The persisted whisper accelerator preference.
#[derive(Clone, Copy, PartialEq, Eq, Debug)]
pub enum WhisperAcceleratorSetting {
    Auto,
    Cpu,
    Gpu,
}

/// The backend a whisper model is loaded with.
#[derive(Clone, Copy, PartialEq, Eq, Debug)]
pub enum BackendChoice {
    /// Force the CPU.
    Cpu,
    /// Let the runtime choose, pinned to the device at this position of the
    /// enumeration when one was selected.
    Auto(Option<usize>),
}

/// The name shown for a device: its description, or its name when the
/// description is empty.
pub open spec fn device_label(d: ComputeDevice) -> Seq<char> {
    if d.description@.len() == 0 {
        d.name@
    } else {
        d.description@
    }
}

/// The name shown for a compute device.
pub fn describe_transcribe_device(device: &ComputeDevice) -> (r: String)
    ensures
        r@ == device_label(*device),
{
    if device.description.as_str().is_empty() {
        device.name.clone()
    } else {
        device.description.clone()
    }
}

/// The first position at or after `from` of a device with registry index
/// `wanted`.
pub open spec fn first_position(devices: Seq<ComputeDevice>, wanted: usize, from: nat) -> Option<
    nat,
>
    decreases devices.len() - from,
{
    if from >= devices.len() {
        None
    } else if devices[from as int].index == Some(wanted) {
        Some(from)
    } else {
        first_position(devices, wanted, from + 1)
    }
}

/// The backend for a preference and an explicit device index (negative for
/// automatic selection): the CPU when asked for; otherwise automatic
/// selection, pinned to the first enumerated device with that index if
/// there is one.
pub open spec fn backend_for(
    accelerator: WhisperAcceleratorSetting,
    gpu_device: i32,
    devices: Seq<ComputeDevice>,
) -> BackendChoice {
    if accelerator == WhisperAcceleratorSetting::Cpu {
        BackendChoice::Cpu
    } else if gpu_device >= 0 {
        match first_position(devices, gpu_device as usize, 0) {
            Some(p) => BackendChoice::Auto(Some(p as usize)),
            None => BackendChoice::Auto(None),
        }
    } else {
        BackendChoice::Auto(None)
    }
}

proof fn lemma_first_position(devices: Seq<ComputeDevice>, wanted: usize, from: nat)
    ensures
        match first_position(devices, wanted, from) {
            Some(p) => {
                &&& from <= p < devices.len()
                &&& devices[p as int].index == Some(wanted)
                &&& forall|q: int| from <= q < p ==> devices[q].index != Some(wanted)
            },
            None => forall|q: int| from <= q < devices.len() ==> devices[q].index != Some(wanted),
        },
    decreases devices.len() - from,
{
    if from < devices.len() && devices[from as int].index != Some(wanted) {
        lemma_first_position(devices, wanted, from + 1);
    }
}

/// The backend pins exactly the requested device: a pinned position is a
/// position of the enumeration whose device carries the requested registry
/// index, and no earlier device carries it; nothing is pinned when the CPU
/// is asked for, when automatic selection is asked for, or when no device
/// carries the index.
pub proof fn lemma_backend_pins_requested_device(
    accelerator: WhisperAcceleratorSetting,
    gpu_device: i32,
    devices: Seq<ComputeDevice>,
)
    requires
        devices.len() <= usize::MAX,
    ensures
        (backend_for(accelerator, gpu_device, devices) == BackendChoice::Cpu) <==> accelerator
            == WhisperAcceleratorSetting::Cpu,
        backend_for(accelerator, gpu_device, devices) matches BackendChoice::Auto(Some(p)) ==> {
            &&& gpu_device >= 0
            &&& p < devices.len()
            &&& devices[p as int].index == Some(gpu_device as usize)
            &&& forall|q: int| 0 <= q < p ==> devices[q].index != Some(gpu_device as usize)
        },
        backend_for(accelerator, gpu_device, devices) == BackendChoice::Auto(None) ==> {
            ||| gpu_device < 0
            ||| forall|q: int| 0 <= q < devices.len() ==> devices[q].index != Some(gpu_device as usize)
        },
        accelerator != WhisperAcceleratorSetting::Cpu && gpu_device >= 0 ==> forall|q: int|
            0 <= q < devices.len() && devices[q].index == Some(gpu_device as usize)
                ==> (backend_for(accelerator, gpu_device, devices) matches BackendChoice::Auto(
                Some(p),
            ) && p <= q),
{
    if gpu_device >= 0 {
        lemma_first_position(devices, gpu_device as usize, 0);
    }
}

/// Maps the accelerator preference and an optional exact device index to a
/// backend request.
pub fn resolve_transcribe_backend(
    accelerator: WhisperAcceleratorSetting,
    gpu_device: i32,
    devices: &Vec<ComputeDevice>,
) -> (r: BackendChoice)
    ensures
        r == backend_for(accelerator, gpu_device, devices@),
{
    match accelerator {
        WhisperAcceleratorSetting::Cpu => {
            return BackendChoice::Cpu;
        },
        _ => {},
    }
    if gpu_device >= 0 {
        let wanted = gpu_device as usize;
        let mut p: usize = 0;
        while p < devices.len()
            invariant
                accelerator != WhisperAcceleratorSetting::Cpu,
                gpu_device >= 0,
                wanted == gpu_device as usize,
                p <= devices@.len(),
                first_position(devices@, wanted, 0) == first_position(devices@, wanted, p as nat),
            decreases devices@.len() - p,
        {
            let hit = match devices[p].index {
                Some(i) => i == wanted,
                None => false,
            };
            if hit {
                return BackendChoice::Auto(Some(p));
            }
            p = p + 1;
        }
    }
    BackendChoice::Auto(None)
}

/// A GPU offered to the user for whisper inference.
pub struct GpuDeviceOption {
    pub id: i32,
    pub name: String,
    pub total_vram_mb: usize,
}

/// The option offered for the device at position `pos`: its index (or the
/// position when it has none) as id, its label, and its memory in MiB.
pub open spec fn gpu_option_of(d: ComputeDevice, pos: int) -> (int, Seq<char>, int) {
    (
        match d.index {
            Some(i) => i as i32,
            None => pos as usize as i32,
        } as int,
        device_label(d),
        (d.memory_total / 1048576) as usize as int,
    )
}

/// The options for the GPUs among the first `n` devices, in order.
pub open spec fn gpu_options(devices: Seq<ComputeDevice>, n: nat) -> Seq<(int, Seq<char>, int)>
    decreases n,
{
    if n == 0 || n > devices.len() {
        Seq::empty()
    } else {
        let prev = gpu_options(devices, (n - 1) as nat);
        if devices[n - 1].is_gpu {
            prev.push(gpu_option_of(devices[n - 1], n - 1))
        } else {
            prev
        }
    }
}

/// The view of a GPU option.
pub open spec fn option_view(o: GpuDeviceOption) -> (int, Seq<char>, int) {
    (o.id as int, o.name@, o.total_vram_mb as int)
}

/// The GPU options among the enumerated devices.
pub fn gpu_device_options(devices: &Vec<ComputeDevice>) -> (r: Vec<GpuDeviceOption>)
    ensures
        r@.map_values(|o: GpuDeviceOption| option_view(o)) == gpu_options(devices@, devices@.len()),
{
    let mut out: Vec<GpuDeviceOption> = Vec::new();
    let mut pos: usize = 0;
    while pos < devices.len()
        invariant
            pos <= devices@.len(),
            out@.map_values(|o: GpuDeviceOption| option_view(o)) == gpu_options(
                devices@,
                pos as nat,
            ),
        decreases devices@.len() - pos,
    {
        let d = &devices[pos];
        if d.is_gpu {
            let id = match d.index {
                Some(i) => i as i32,
                None => pos as i32,
            };
            let ghost before = out@;
            out.push(
                GpuDeviceOption {
                    id,
                    name: describe_transcribe_device(d),
                    total_vram_mb: (d.memory_total / 1048576) as usize,
                },
            );
            assert(out@.map_values(|o: GpuDeviceOption| option_view(o)) =~= before.map_values(
                |o: GpuDeviceOption| option_view(o),
            ).push(option_view(out@.last())));
        }
        pos = pos + 1;
    }
    out
}

/// The accelerators this build offers.
pub struct AvailableAccelerators {
    pub whisper: Vec<String>,
    pub ort: Vec<String>,
    pub gpu_devices: Vec<GpuDeviceOption>,
}

/// The accelerators on offer: `auto`, `cpu` and `gpu` for whisper, and the
/// given ONNX runtime options and GPUs.
pub fn available_accelerators(ort: Vec<String>, gpu_devices: Vec<GpuDeviceOption>) -> (r:
    AvailableAccelerators)
    ensures
        r.whisper@.map_values(|s: String| s@) == seq!["auto"@, "cpu"@, "gpu"@],
        r.ort == ort,
        r.gpu_devices == gpu_devices,
{
    let mut whisper: Vec<String> = Vec::new();
    whisper.push(String::from_str("auto"));
    whisper.push(String::from_str("cpu"));
    whisper.push(String::from_str("gpu"));
    assert(whisper@.map_values(|s: String| s@) =~= seq!["auto"@, "cpu"@, "gpu"@]);
    AvailableAccelerators { whisper, ort, gpu_devices }
}

/// The persisted ONNX runtime preference.
#[derive(Clone, Copy, PartialEq, Eq, Debug)]
pub enum OrtAcceleratorSetting {
    Auto,
    Cpu,
    Cuda,
    DirectMl,
    Rocm,
}

/// The ONNX runtime's accelerator setting.
#[derive(Clone, Copy, PartialEq, Eq, Debug)]
pub enum OrtAccelerator {
    Auto,
    CpuOnly,
    Cuda,
    DirectMl,
    Rocm,
}

/// The runtime setting for a preference.
pub fn ort_accelerator_for(setting: OrtAcceleratorSetting) -> (r: OrtAccelerator)
    ensures
        r == match setting {
            OrtAcceleratorSetting::Auto => OrtAccelerator::Auto,
            OrtAcceleratorSetting::Cpu => OrtAccelerator::CpuOnly,
            OrtAcceleratorSetting::Cuda => OrtAccelerator::Cuda,
            OrtAcceleratorSetting::DirectMl => OrtAccelerator::DirectMl,
            OrtAcceleratorSetting::Rocm => OrtAccelerator::Rocm,
        },
{
    match setting {
        OrtAcceleratorSetting::Auto => OrtAccelerator::Auto,
        OrtAcceleratorSetting::Cpu => OrtAccelerator::CpuOnly,
        OrtAcceleratorSetting::Cuda => OrtAccelerator::Cuda,
        OrtAcceleratorSetting::DirectMl => OrtAccelerator::DirectMl,
        OrtAcceleratorSetting::Rocm => OrtAccelerator::Rocm,
    }
}

/// How the GPU device preference is logged: `auto` when negative, else the
/// index.
pub fn gpu_device_label(gpu_device: i32) -> (r: String)
    ensures
        r@ == if gpu_device < 0 {
            "auto"@
        } else {
            decimal(gpu_device as nat)
        },
{
    if gpu_device < 0 {
        String::from_str("auto")
    } else {
        decimal_string(gpu_device as u64)
    }
}

} // verus!
