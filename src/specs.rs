use vstd::prelude::*;

verus! {

/// One graphics adapter, as the host's probe reports it.
pub struct GpuInfo {
    pub name: String,
    /// Bytes.
    pub vram_total: u64,
    /// Bytes.
    pub vram_used: u64,
    pub driver_version: Option<String>,
    pub cuda_version: Option<String>,
}

/// What the host's probe reports of the machine.
pub struct SystemSpecs {
    pub os_name: String,
    pub os_version: String,
    pub cpu_model: String,
    pub cpu_cores: usize,
    pub total_memory: u64,
    pub used_memory: u64,
    pub gpus: Vec<GpuInfo>,
}

/// Some adapter has at least `min_vram` bytes of video memory.
pub open spec fn has_adapter_with(gpus: Seq<GpuInfo>, min_vram: u64) -> bool {
    exists|i: int| 0 <= i < gpus.len() && (#[trigger] gpus[i]).vram_total >= min_vram
}

/// Major and minor number of a CUDA driver version reported as a single
/// integer (`major * 1000 + minor * 10`).
pub fn cuda_version_parts(v: u32) -> (r: (u32, u32))
    ensures
        r.0 == v / 1000,
        r.1 == (v % 1000) / 10,
{
    (v / 1000, (v % 1000) / 10)
}

/// Whether the machine meets a model's advisory memory figures: enough RAM,
/// and enough video memory on some adapter unless the model needs none.
pub fn meets_requirements(specs: &SystemSpecs, min_ram: u64, min_vram: u64) -> (r: bool)
    ensures
        r == (specs.total_memory >= min_ram && (min_vram == 0 || has_adapter_with(
            specs.gpus@,
            min_vram,
        ))),
{
    if specs.total_memory < min_ram {
        return false;
    }
    if min_vram == 0 {
        return true;
    }
    let mut i: usize = 0;
    while i < specs.gpus.len()
        invariant
            i <= specs.gpus@.len(),
            specs.total_memory >= min_ram,
            min_vram != 0,
            forall|j: int| 0 <= j < i ==> specs.gpus@[j].vram_total < min_vram,
        decreases specs.gpus@.len() - i,
    {
        if specs.gpus[i].vram_total >= min_vram {
            assert(has_adapter_with(specs.gpus@, min_vram)) by {
                assert(specs.gpus@[i as int].vram_total >= min_vram);
            }
            return true;
        }
        i += 1;
    }
    false
}

} // verus!
