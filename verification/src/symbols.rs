use vstd::prelude::*;
use crate::text::str_eq;

verus! {

/// A CUDA grid or block extent.
#[allow(non_camel_case_types)]
#[derive(Debug, Clone, Copy)]
pub struct dim3 {
    pub x: u32,
    pub y: u32,
    pub z: u32,
}

/// The driver API hook that stands in for `symbol`, by the name of the function it wraps, if there is one.
pub open spec fn driver_hook(s: Seq<char>) -> Option<&'static str> {
    if s == "cuInit"@ {
        Some("cuInit")
    } else if s == "cuDeviceGet"@ {
        Some("cuDeviceGet")
    } else if s == "cuDeviceGetName"@ {
        Some("cuDeviceGetName")
    } else if s == "cuCtxCreate"@ {
        Some("cuCtxCreate_v2")
    } else if s == "cuCtxCreate_v2"@ {
        Some("cuCtxCreate_v2")
    } else if s == "cuCtxDestroy"@ {
        Some("cuCtxDestroy_v2")
    } else if s == "cuCtxDestroy_v2"@ {
        Some("cuCtxDestroy_v2")
    } else if s == "cuCtxSynchronize"@ {
        Some("cuCtxSynchronize")
    } else if s == "cuCtxGetCurrent"@ {
        Some("cuCtxGetCurrent")
    } else if s == "cuCtxSetCurrent"@ {
        Some("cuCtxSetCurrent")
    } else if s == "cuCtxPushCurrent"@ {
        Some("cuCtxPushCurrent_v2")
    } else if s == "cuCtxPushCurrent_v2"@ {
        Some("cuCtxPushCurrent_v2")
    } else if s == "cuCtxPopCurrent"@ {
        Some("cuCtxPopCurrent_v2")
    } else if s == "cuCtxPopCurrent_v2"@ {
        Some("cuCtxPopCurrent_v2")
    } else if s == "cuDevicePrimaryCtxRetain"@ {
        Some("cuDevicePrimaryCtxRetain")
    } else if s == "cuDevicePrimaryCtxRelease"@ {
        Some("cuDevicePrimaryCtxRelease")
    } else if s == "cuDevicePrimaryCtxReset"@ {
        Some("cuDevicePrimaryCtxReset")
    } else if s == "cuDevicePrimaryCtxSetFlags"@ {
        Some("cuDevicePrimaryCtxSetFlags")
    } else if s == "cuDevicePrimaryCtxSetFlags_v2"@ {
        Some("cuDevicePrimaryCtxSetFlags")
    } else if s == "cuDevicePrimaryCtxGetState"@ {
        Some("cuDevicePrimaryCtxGetState")
    } else if s == "cuStreamCreate"@ {
        Some("cuStreamCreate")
    } else if s == "cuStreamCreateWithPriority"@ {
        Some("cuStreamCreateWithPriority")
    } else if s == "cuStreamDestroy"@ {
        Some("cuStreamDestroy")
    } else if s == "cuStreamDestroy_v2"@ {
        Some("cuStreamDestroy")
    } else if s == "cuEventCreate"@ {
        Some("cuEventCreate")
    } else if s == "cuEventDestroy"@ {
        Some("cuEventDestroy")
    } else if s == "cuEventDestroy_v2"@ {
        Some("cuEventDestroy")
    } else if s == "cuEventRecord"@ {
        Some("cuEventRecord")
    } else if s == "cuEventRecord_ptsz"@ {
        Some("cuEventRecord")
    } else if s == "cuEventRecordWithFlags"@ {
        Some("cuEventRecordWithFlags")
    } else if s == "cuEventRecordWithFlags_ptsz"@ {
        Some("cuEventRecordWithFlags")
    } else if s == "cuEventSynchronize"@ {
        Some("cuEventSynchronize")
    } else if s == "cuEventElapsedTime"@ {
        Some("cuEventElapsedTime")
    } else if s == "cuEventElapsedTime_v2"@ {
        Some("cuEventElapsedTime")
    } else if s == "cuMemcpyAsync"@ {
        Some("cuMemcpyAsync")
    } else if s == "cuMemcpyAsync_ptsz"@ {
        Some("cuMemcpyAsync")
    } else if s == "cuMemcpyHtoDAsync"@ {
        Some("cuMemcpyHtoDAsync_v2")
    } else if s == "cuMemcpyHtoDAsync_v2"@ {
        Some("cuMemcpyHtoDAsync_v2")
    } else if s == "cuMemcpyHtoDAsync_v2_ptsz"@ {
        Some("cuMemcpyHtoDAsync_v2")
    } else if s == "cuMemcpyDtoHAsync"@ {
        Some("cuMemcpyDtoHAsync_v2")
    } else if s == "cuMemcpyDtoHAsync_v2"@ {
        Some("cuMemcpyDtoHAsync_v2")
    } else if s == "cuMemcpyDtoHAsync_v2_ptsz"@ {
        Some("cuMemcpyDtoHAsync_v2")
    } else if s == "cuModuleLoad"@ {
        Some("cuModuleLoad")
    } else if s == "cuModuleGetFunction"@ {
        Some("cuModuleGetFunction")
    } else if s == "cuModuleUnload"@ {
        Some("cuModuleUnload")
    } else if s == "cuLaunchKernel"@ {
        Some("cuLaunchKernel")
    } else if s == "cuMemcpyHtoD"@ {
        Some("cuMemcpyHtoD_v2")
    } else if s == "cuMemcpyHtoD_v2"@ {
        Some("cuMemcpyHtoD_v2")
    } else if s == "cuMemcpyDtoH"@ {
        Some("cuMemcpyDtoH_v2")
    } else if s == "cuMemcpyDtoH_v2"@ {
        Some("cuMemcpyDtoH_v2")
    } else if s == "cuMemAlloc"@ {
        Some("cuMemAlloc_v2")
    } else if s == "cuMemAlloc_v2"@ {
        Some("cuMemAlloc_v2")
    } else if s == "cuMemFree"@ {
        Some("cuMemFree_v2")
    } else if s == "cuMemFree_v2"@ {
        Some("cuMemFree_v2")
    } else if s == "cuMemAllocHost"@ {
        Some("cuMemAllocHost_v2")
    } else if s == "cuMemAllocHost_v2"@ {
        Some("cuMemAllocHost_v2")
    } else if s == "cuMemFreeHost"@ {
        Some("cuMemFreeHost")
    } else if s == "cuGetProcAddress"@ {
        Some("cuGetProcAddress")
    } else if s == "cuGetProcAddress_v2"@ {
        Some("cuGetProcAddress_v2")
    } else {
        None
    }
}

/// The driver API hook that stands in for `symbol`, by the name of the function it wraps, if there is one.
pub fn wrapper_for_driver_symbol(symbol: &str) -> (r: Option<&'static str>)
    ensures
        r == driver_hook(symbol@),
{
    if str_eq(symbol, "cuInit") {
        return Some("cuInit");
    }
    if str_eq(symbol, "cuDeviceGet") {
        return Some("cuDeviceGet");
    }
    if str_eq(symbol, "cuDeviceGetName") {
        return Some("cuDeviceGetName");
    }
    if str_eq(symbol, "cuCtxCreate") {
        return Some("cuCtxCreate_v2");
    }
    if str_eq(symbol, "cuCtxCreate_v2") {
        return Some("cuCtxCreate_v2");
    }
    if str_eq(symbol, "cuCtxDestroy") {
        return Some("cuCtxDestroy_v2");
    }
    if str_eq(symbol, "cuCtxDestroy_v2") {
        return Some("cuCtxDestroy_v2");
    }
    if str_eq(symbol, "cuCtxSynchronize") {
        return Some("cuCtxSynchronize");
    }
    if str_eq(symbol, "cuCtxGetCurrent") {
        return Some("cuCtxGetCurrent");
    }
    if str_eq(symbol, "cuCtxSetCurrent") {
        return Some("cuCtxSetCurrent");
    }
    if str_eq(symbol, "cuCtxPushCurrent") {
        return Some("cuCtxPushCurrent_v2");
    }
    if str_eq(symbol, "cuCtxPushCurrent_v2") {
        return Some("cuCtxPushCurrent_v2");
    }
    if str_eq(symbol, "cuCtxPopCurrent") {
        return Some("cuCtxPopCurrent_v2");
    }
    if str_eq(symbol, "cuCtxPopCurrent_v2") {
        return Some("cuCtxPopCurrent_v2");
    }
    if str_eq(symbol, "cuDevicePrimaryCtxRetain") {
        return Some("cuDevicePrimaryCtxRetain");
    }
    if str_eq(symbol, "cuDevicePrimaryCtxRelease") {
        return Some("cuDevicePrimaryCtxRelease");
    }
    if str_eq(symbol, "cuDevicePrimaryCtxReset") {
        return Some("cuDevicePrimaryCtxReset");
    }
    if str_eq(symbol, "cuDevicePrimaryCtxSetFlags") {
        return Some("cuDevicePrimaryCtxSetFlags");
    }
    if str_eq(symbol, "cuDevicePrimaryCtxSetFlags_v2") {
        return Some("cuDevicePrimaryCtxSetFlags");
    }
    if str_eq(symbol, "cuDevicePrimaryCtxGetState") {
        return Some("cuDevicePrimaryCtxGetState");
    }
    if str_eq(symbol, "cuStreamCreate") {
        return Some("cuStreamCreate");
    }
    if str_eq(symbol, "cuStreamCreateWithPriority") {
        return Some("cuStreamCreateWithPriority");
    }
    if str_eq(symbol, "cuStreamDestroy") {
        return Some("cuStreamDestroy");
    }
    if str_eq(symbol, "cuStreamDestroy_v2") {
        return Some("cuStreamDestroy");
    }
    if str_eq(symbol, "cuEventCreate") {
        return Some("cuEventCreate");
    }
    if str_eq(symbol, "cuEventDestroy") {
        return Some("cuEventDestroy");
    }
    if str_eq(symbol, "cuEventDestroy_v2") {
        return Some("cuEventDestroy");
    }
    if str_eq(symbol, "cuEventRecord") {
        return Some("cuEventRecord");
    }
    if str_eq(symbol, "cuEventRecord_ptsz") {
        return Some("cuEventRecord");
    }
    if str_eq(symbol, "cuEventRecordWithFlags") {
        return Some("cuEventRecordWithFlags");
    }
    if str_eq(symbol, "cuEventRecordWithFlags_ptsz") {
        return Some("cuEventRecordWithFlags");
    }
    if str_eq(symbol, "cuEventSynchronize") {
        return Some("cuEventSynchronize");
    }
    if str_eq(symbol, "cuEventElapsedTime") {
        return Some("cuEventElapsedTime");
    }
    if str_eq(symbol, "cuEventElapsedTime_v2") {
        return Some("cuEventElapsedTime");
    }
    if str_eq(symbol, "cuMemcpyAsync") {
        return Some("cuMemcpyAsync");
    }
    if str_eq(symbol, "cuMemcpyAsync_ptsz") {
        return Some("cuMemcpyAsync");
    }
    if str_eq(symbol, "cuMemcpyHtoDAsync") {
        return Some("cuMemcpyHtoDAsync_v2");
    }
    if str_eq(symbol, "cuMemcpyHtoDAsync_v2") {
        return Some("cuMemcpyHtoDAsync_v2");
    }
    if str_eq(symbol, "cuMemcpyHtoDAsync_v2_ptsz") {
        return Some("cuMemcpyHtoDAsync_v2");
    }
    if str_eq(symbol, "cuMemcpyDtoHAsync") {
        return Some("cuMemcpyDtoHAsync_v2");
    }
    if str_eq(symbol, "cuMemcpyDtoHAsync_v2") {
        return Some("cuMemcpyDtoHAsync_v2");
    }
    if str_eq(symbol, "cuMemcpyDtoHAsync_v2_ptsz") {
        return Some("cuMemcpyDtoHAsync_v2");
    }
    if str_eq(symbol, "cuModuleLoad") {
        return Some("cuModuleLoad");
    }
    if str_eq(symbol, "cuModuleGetFunction") {
        return Some("cuModuleGetFunction");
    }
    if str_eq(symbol, "cuModuleUnload") {
        return Some("cuModuleUnload");
    }
    if str_eq(symbol, "cuLaunchKernel") {
        return Some("cuLaunchKernel");
    }
    if str_eq(symbol, "cuMemcpyHtoD") {
        return Some("cuMemcpyHtoD_v2");
    }
    if str_eq(symbol, "cuMemcpyHtoD_v2") {
        return Some("cuMemcpyHtoD_v2");
    }
    if str_eq(symbol, "cuMemcpyDtoH") {
        return Some("cuMemcpyDtoH_v2");
    }
    if str_eq(symbol, "cuMemcpyDtoH_v2") {
        return Some("cuMemcpyDtoH_v2");
    }
    if str_eq(symbol, "cuMemAlloc") {
        return Some("cuMemAlloc_v2");
    }
    if str_eq(symbol, "cuMemAlloc_v2") {
        return Some("cuMemAlloc_v2");
    }
    if str_eq(symbol, "cuMemFree") {
        return Some("cuMemFree_v2");
    }
    if str_eq(symbol, "cuMemFree_v2") {
        return Some("cuMemFree_v2");
    }
    if str_eq(symbol, "cuMemAllocHost") {
        return Some("cuMemAllocHost_v2");
    }
    if str_eq(symbol, "cuMemAllocHost_v2") {
        return Some("cuMemAllocHost_v2");
    }
    if str_eq(symbol, "cuMemFreeHost") {
        return Some("cuMemFreeHost");
    }
    if str_eq(symbol, "cuGetProcAddress") {
        return Some("cuGetProcAddress");
    }
    if str_eq(symbol, "cuGetProcAddress_v2") {
        return Some("cuGetProcAddress_v2");
    }
    None
}

/// The runtime API hook that stands in for `symbol`, by the name of the function it wraps, if there is one.
pub open spec fn cudart_hook(s: Seq<char>) -> Option<&'static str> {
    if s == "cudaMalloc"@ {
        Some("cudaMalloc")
    } else if s == "cudaFree"@ {
        Some("cudaFree")
    } else if s == "cudaHostAlloc"@ {
        Some("cudaHostAlloc")
    } else if s == "cudaMallocHost"@ {
        Some("cudaMallocHost")
    } else if s == "cudaFreeHost"@ {
        Some("cudaFreeHost")
    } else if s == "cudaMemcpyAsync"@ {
        Some("cudaMemcpyAsync")
    } else if s == "cudaLaunchKernel"@ {
        Some("cudaLaunchKernel")
    } else if s == "cudaStreamCreate"@ {
        Some("cudaStreamCreate")
    } else if s == "cudaStreamDestroy"@ {
        Some("cudaStreamDestroy")
    } else if s == "cudaEventCreate"@ {
        Some("cudaEventCreate")
    } else if s == "cudaEventRecord"@ {
        Some("cudaEventRecord")
    } else if s == "cudaEventSynchronize"@ {
        Some("cudaEventSynchronize")
    } else if s == "cudaEventElapsedTime"@ {
        Some("cudaEventElapsedTime")
    } else if s == "cudaDeviceReset"@ {
        Some("cudaDeviceReset")
    } else {
        None
    }
}

/// The runtime API hook that stands in for `symbol`, by the name of the function it wraps, if there is one.
pub fn wrapper_for_cudart_symbol(symbol: &str) -> (r: Option<&'static str>)
    ensures
        r == cudart_hook(symbol@),
{
    if str_eq(symbol, "cudaMalloc") {
        return Some("cudaMalloc");
    }
    if str_eq(symbol, "cudaFree") {
        return Some("cudaFree");
    }
    if str_eq(symbol, "cudaHostAlloc") {
        return Some("cudaHostAlloc");
    }
    if str_eq(symbol, "cudaMallocHost") {
        return Some("cudaMallocHost");
    }
    if str_eq(symbol, "cudaFreeHost") {
        return Some("cudaFreeHost");
    }
    if str_eq(symbol, "cudaMemcpyAsync") {
        return Some("cudaMemcpyAsync");
    }
    if str_eq(symbol, "cudaLaunchKernel") {
        return Some("cudaLaunchKernel");
    }
    if str_eq(symbol, "cudaStreamCreate") {
        return Some("cudaStreamCreate");
    }
    if str_eq(symbol, "cudaStreamDestroy") {
        return Some("cudaStreamDestroy");
    }
    if str_eq(symbol, "cudaEventCreate") {
        return Some("cudaEventCreate");
    }
    if str_eq(symbol, "cudaEventRecord") {
        return Some("cudaEventRecord");
    }
    if str_eq(symbol, "cudaEventSynchronize") {
        return Some("cudaEventSynchronize");
    }
    if str_eq(symbol, "cudaEventElapsedTime") {
        return Some("cudaEventElapsedTime");
    }
    if str_eq(symbol, "cudaDeviceReset") {
        return Some("cudaDeviceReset");
    }
    None
}

/// The hook that a symbol lookup returns in place of `symbol`: a driver hook, else a runtime hook.
pub open spec fn override_hook(s: Seq<char>) -> Option<&'static str> {
    match driver_hook(s) {
        Some(h) => Some(h),
        None => cudart_hook(s),
    }
}

/// The hook that a symbol lookup returns in place of `symbol`: a driver hook, else a runtime hook.
pub fn dlsym_override(symbol: &str) -> (r: Option<&'static str>)
    ensures
        r == override_hook(symbol@),
{
    match wrapper_for_driver_symbol(symbol) {
        Some(h) => Some(h),
        None => wrapper_for_cudart_symbol(symbol),
    }
}


/// Whether the hook `h` wraps the function named `s`: it is `s` itself, its `_v2`
/// revision, the function that `s` revises (`s` is `h` with `_v2`), or the function whose
/// per-thread-stream variant `s` is (`s` is `h` with `_ptsz`).
pub open spec fn wraps_same_function(s: Seq<char>, h: Seq<char>) -> bool {
    ||| h == s
    ||| h == s + "_v2"@
    ||| s == h + "_v2"@
    ||| s == h + "_ptsz"@
}

#[verifier::spinoff_prover]
#[verifier::rlimit(100)]
proof fn lemma_driver_hook_own_names_0()
    ensures
        driver_hook("cuInit"@) == Some("cuInit"),
        driver_hook("cuDeviceGet"@) == Some("cuDeviceGet"),
        driver_hook("cuDeviceGetName"@) == Some("cuDeviceGetName"),
        driver_hook("cuCtxCreate_v2"@) == Some("cuCtxCreate_v2"),
        driver_hook("cuCtxDestroy_v2"@) == Some("cuCtxDestroy_v2"),
        driver_hook("cuCtxSynchronize"@) == Some("cuCtxSynchronize"),
{
    reveal_strlit("cuCtxCreate");
    assert("cuCtxCreate"@.len() == 11);
    reveal_strlit("cuCtxCreate_v2");
    assert("cuCtxCreate_v2"@.len() == 14);
    reveal_strlit("cuCtxDestroy");
    assert("cuCtxDestroy"@.len() == 12);
    reveal_strlit("cuCtxDestroy_v2");
    assert("cuCtxDestroy_v2"@.len() == 15);
    reveal_strlit("cuCtxSynchronize");
    assert("cuCtxSynchronize"@.len() == 16);
    reveal_strlit("cuDeviceGet");
    assert("cuDeviceGet"@.len() == 11);
    reveal_strlit("cuDeviceGetName");
    assert("cuDeviceGetName"@.len() == 15);
    reveal_strlit("cuInit");
    assert("cuInit"@.len() == 6);
    assert("cuDeviceGetName"@[2] != "cuCtxDestroy_v2"@[2]);
}

#[verifier::spinoff_prover]
#[verifier::rlimit(100)]
proof fn lemma_driver_hook_own_names_1()
    ensures
        driver_hook("cuCtxGetCurrent"@) == Some("cuCtxGetCurrent"),
        driver_hook("cuCtxSetCurrent"@) == Some("cuCtxSetCurrent"),
        driver_hook("cuCtxPushCurrent_v2"@) == Some("cuCtxPushCurrent_v2"),
        driver_hook("cuCtxPopCurrent_v2"@) == Some("cuCtxPopCurrent_v2"),
        driver_hook("cuDevicePrimaryCtxRetain"@) == Some("cuDevicePrimaryCtxRetain"),
        driver_hook("cuDevicePrimaryCtxRelease"@) == Some("cuDevicePrimaryCtxRelease"),
{
    reveal_strlit("cuCtxCreate");
    assert("cuCtxCreate"@.len() == 11);
    reveal_strlit("cuCtxCreate_v2");
    assert("cuCtxCreate_v2"@.len() == 14);
    reveal_strlit("cuCtxDestroy");
    assert("cuCtxDestroy"@.len() == 12);
    reveal_strlit("cuCtxDestroy_v2");
    assert("cuCtxDestroy_v2"@.len() == 15);
    reveal_strlit("cuCtxGetCurrent");
    assert("cuCtxGetCurrent"@.len() == 15);
    reveal_strlit("cuCtxPopCurrent");
    assert("cuCtxPopCurrent"@.len() == 15);
    reveal_strlit("cuCtxPopCurrent_v2");
    assert("cuCtxPopCurrent_v2"@.len() == 18);
    reveal_strlit("cuCtxPushCurrent");
    assert("cuCtxPushCurrent"@.len() == 16);
    reveal_strlit("cuCtxPushCurrent_v2");
    assert("cuCtxPushCurrent_v2"@.len() == 19);
    reveal_strlit("cuCtxSetCurrent");
    assert("cuCtxSetCurrent"@.len() == 15);
    reveal_strlit("cuCtxSynchronize");
    assert("cuCtxSynchronize"@.len() == 16);
    reveal_strlit("cuDeviceGet");
    assert("cuDeviceGet"@.len() == 11);
    reveal_strlit("cuDeviceGetName");
    assert("cuDeviceGetName"@.len() == 15);
    reveal_strlit("cuDevicePrimaryCtxRelease");
    assert("cuDevicePrimaryCtxRelease"@.len() == 25);
    reveal_strlit("cuDevicePrimaryCtxRetain");
    assert("cuDevicePrimaryCtxRetain"@.len() == 24);
    reveal_strlit("cuInit");
    assert("cuInit"@.len() == 6);
    assert("cuDeviceGetName"@[2] != "cuCtxGetCurrent"@[2]);
    assert("cuCtxDestroy_v2"@[5] != "cuCtxGetCurrent"@[5]);
    assert("cuDeviceGetName"@[2] != "cuCtxSetCurrent"@[2]);
    assert("cuCtxDestroy_v2"@[5] != "cuCtxSetCurrent"@[5]);
    assert("cuCtxGetCurrent"@[5] != "cuCtxSetCurrent"@[5]);
}

#[verifier::spinoff_prover]
#[verifier::rlimit(100)]
proof fn lemma_driver_hook_own_names_2()
    ensures
        driver_hook("cuDevicePrimaryCtxReset"@) == Some("cuDevicePrimaryCtxReset"),
        driver_hook("cuDevicePrimaryCtxSetFlags"@) == Some("cuDevicePrimaryCtxSetFlags"),
        driver_hook("cuDevicePrimaryCtxGetState"@) == Some("cuDevicePrimaryCtxGetState"),
        driver_hook("cuStreamCreate"@) == Some("cuStreamCreate"),
        driver_hook("cuStreamCreateWithPriority"@) == Some("cuStreamCreateWithPriority"),
        driver_hook("cuStreamDestroy"@) == Some("cuStreamDestroy"),
{
    reveal_strlit("cuCtxCreate");
    assert("cuCtxCreate"@.len() == 11);
    reveal_strlit("cuCtxCreate_v2");
    assert("cuCtxCreate_v2"@.len() == 14);
    reveal_strlit("cuCtxDestroy");
    assert("cuCtxDestroy"@.len() == 12);
    reveal_strlit("cuCtxDestroy_v2");
    assert("cuCtxDestroy_v2"@.len() == 15);
    reveal_strlit("cuCtxGetCurrent");
    assert("cuCtxGetCurrent"@.len() == 15);
    reveal_strlit("cuCtxPopCurrent");
    assert("cuCtxPopCurrent"@.len() == 15);
    reveal_strlit("cuCtxPopCurrent_v2");
    assert("cuCtxPopCurrent_v2"@.len() == 18);
    reveal_strlit("cuCtxPushCurrent");
    assert("cuCtxPushCurrent"@.len() == 16);
    reveal_strlit("cuCtxPushCurrent_v2");
    assert("cuCtxPushCurrent_v2"@.len() == 19);
    reveal_strlit("cuCtxSetCurrent");
    assert("cuCtxSetCurrent"@.len() == 15);
    reveal_strlit("cuCtxSynchronize");
    assert("cuCtxSynchronize"@.len() == 16);
    reveal_strlit("cuDeviceGet");
    assert("cuDeviceGet"@.len() == 11);
    reveal_strlit("cuDeviceGetName");
    assert("cuDeviceGetName"@.len() == 15);
    reveal_strlit("cuDevicePrimaryCtxGetState");
    assert("cuDevicePrimaryCtxGetState"@.len() == 26);
    reveal_strlit("cuDevicePrimaryCtxRelease");
    assert("cuDevicePrimaryCtxRelease"@.len() == 25);
    reveal_strlit("cuDevicePrimaryCtxReset");
    assert("cuDevicePrimaryCtxReset"@.len() == 23);
    reveal_strlit("cuDevicePrimaryCtxRetain");
    assert("cuDevicePrimaryCtxRetain"@.len() == 24);
    reveal_strlit("cuDevicePrimaryCtxSetFlags");
    assert("cuDevicePrimaryCtxSetFlags"@.len() == 26);
    reveal_strlit("cuDevicePrimaryCtxSetFlags_v2");
    assert("cuDevicePrimaryCtxSetFlags_v2"@.len() == 29);
    reveal_strlit("cuInit");
    assert("cuInit"@.len() == 6);
    reveal_strlit("cuStreamCreate");
    assert("cuStreamCreate"@.len() == 14);
    reveal_strlit("cuStreamCreateWithPriority");
    assert("cuStreamCreateWithPriority"@.len() == 26);
    reveal_strlit("cuStreamDestroy");
    assert("cuStreamDestroy"@.len() == 15);
    assert("cuDevicePrimaryCtxSetFlags"@[18] != "cuDevicePrimaryCtxGetState"@[18]);
    assert("cuCtxCreate_v2"@[2] != "cuStreamCreate"@[2]);
    assert("cuDevicePrimaryCtxSetFlags"@[2] != "cuStreamCreateWithPriority"@[2]);
    assert("cuDevicePrimaryCtxGetState"@[2] != "cuStreamCreateWithPriority"@[2]);
    assert("cuDeviceGetName"@[2] != "cuStreamDestroy"@[2]);
    assert("cuCtxDestroy_v2"@[2] != "cuStreamDestroy"@[2]);
    assert("cuCtxGetCurrent"@[2] != "cuStreamDestroy"@[2]);
    assert("cuCtxSetCurrent"@[2] != "cuStreamDestroy"@[2]);
    assert("cuCtxPopCurrent"@[2] != "cuStreamDestroy"@[2]);
}

#[verifier::spinoff_prover]
#[verifier::rlimit(100)]
proof fn lemma_driver_hook_own_names_3()
    ensures
        driver_hook("cuEventCreate"@) == Some("cuEventCreate"),
        driver_hook("cuEventDestroy"@) == Some("cuEventDestroy"),
        driver_hook("cuEventRecord"@) == Some("cuEventRecord"),
        driver_hook("cuEventRecordWithFlags"@) == Some("cuEventRecordWithFlags"),
        driver_hook("cuEventSynchronize"@) == Some("cuEventSynchronize"),
        driver_hook("cuEventElapsedTime"@) == Some("cuEventElapsedTime"),
{
    reveal_strlit("cuCtxCreate");
    assert("cuCtxCreate"@.len() == 11);
    reveal_strlit("cuCtxCreate_v2");
    assert("cuCtxCreate_v2"@.len() == 14);
    reveal_strlit("cuCtxDestroy");
    assert("cuCtxDestroy"@.len() == 12);
    reveal_strlit("cuCtxDestroy_v2");
    assert("cuCtxDestroy_v2"@.len() == 15);
    reveal_strlit("cuCtxGetCurrent");
    assert("cuCtxGetCurrent"@.len() == 15);
    reveal_strlit("cuCtxPopCurrent");
    assert("cuCtxPopCurrent"@.len() == 15);
    reveal_strlit("cuCtxPopCurrent_v2");
    assert("cuCtxPopCurrent_v2"@.len() == 18);
    reveal_strlit("cuCtxPushCurrent");
    assert("cuCtxPushCurrent"@.len() == 16);
    reveal_strlit("cuCtxPushCurrent_v2");
    assert("cuCtxPushCurrent_v2"@.len() == 19);
    reveal_strlit("cuCtxSetCurrent");
    assert("cuCtxSetCurrent"@.len() == 15);
    reveal_strlit("cuCtxSynchronize");
    assert("cuCtxSynchronize"@.len() == 16);
    reveal_strlit("cuDeviceGet");
    assert("cuDeviceGet"@.len() == 11);
    reveal_strlit("cuDeviceGetName");
    assert("cuDeviceGetName"@.len() == 15);
    reveal_strlit("cuDevicePrimaryCtxGetState");
    assert("cuDevicePrimaryCtxGetState"@.len() == 26);
    reveal_strlit("cuDevicePrimaryCtxRelease");
    assert("cuDevicePrimaryCtxRelease"@.len() == 25);
    reveal_strlit("cuDevicePrimaryCtxReset");
    assert("cuDevicePrimaryCtxReset"@.len() == 23);
    reveal_strlit("cuDevicePrimaryCtxRetain");
    assert("cuDevicePrimaryCtxRetain"@.len() == 24);
    reveal_strlit("cuDevicePrimaryCtxSetFlags");
    assert("cuDevicePrimaryCtxSetFlags"@.len() == 26);
    reveal_strlit("cuDevicePrimaryCtxSetFlags_v2");
    assert("cuDevicePrimaryCtxSetFlags_v2"@.len() == 29);
    reveal_strlit("cuEventCreate");
    assert("cuEventCreate"@.len() == 13);
    reveal_strlit("cuEventDestroy");
    assert("cuEventDestroy"@.len() == 14);
    reveal_strlit("cuEventDestroy_v2");
    assert("cuEventDestroy_v2"@.len() == 17);
    reveal_strlit("cuEventElapsedTime");
    assert("cuEventElapsedTime"@.len() == 18);
    reveal_strlit("cuEventRecord");
    assert("cuEventRecord"@.len() == 13);
    reveal_strlit("cuEventRecordWithFlags");
    assert("cuEventRecordWithFlags"@.len() == 22);
    reveal_strlit("cuEventRecordWithFlags_ptsz");
    assert("cuEventRecordWithFlags_ptsz"@.len() == 27);
    reveal_strlit("cuEventRecord_ptsz");
    assert("cuEventRecord_ptsz"@.len() == 18);
    reveal_strlit("cuEventSynchronize");
    assert("cuEventSynchronize"@.len() == 18);
    reveal_strlit("cuInit");
    assert("cuInit"@.len() == 6);
    reveal_strlit("cuStreamCreate");
    assert("cuStreamCreate"@.len() == 14);
    reveal_strlit("cuStreamCreateWithPriority");
    assert("cuStreamCreateWithPriority"@.len() == 26);
    reveal_strlit("cuStreamDestroy");
    assert("cuStreamDestroy"@.len() == 15);
    reveal_strlit("cuStreamDestroy_v2");
    assert("cuStreamDestroy_v2"@.len() == 18);
    assert("cuCtxCreate_v2"@[2] != "cuEventDestroy"@[2]);
    assert("cuStreamCreate"@[2] != "cuEventDestroy"@[2]);
    assert("cuEventCreate"@[7] != "cuEventRecord"@[7]);
    assert("cuCtxPopCurrent_v2"@[2] != "cuEventSynchronize"@[2]);
    assert("cuStreamDestroy_v2"@[2] != "cuEventSynchronize"@[2]);
    assert("cuEventRecord_ptsz"@[7] != "cuEventSynchronize"@[7]);
    assert("cuCtxPopCurrent_v2"@[2] != "cuEventElapsedTime"@[2]);
    assert("cuStreamDestroy_v2"@[2] != "cuEventElapsedTime"@[2]);
    assert("cuEventRecord_ptsz"@[7] != "cuEventElapsedTime"@[7]);
    assert("cuEventSynchronize"@[7] != "cuEventElapsedTime"@[7]);
}

#[verifier::spinoff_prover]
#[verifier::rlimit(100)]
proof fn lemma_driver_hook_own_names_4()
    ensures
        driver_hook("cuMemcpyAsync"@) == Some("cuMemcpyAsync"),
        driver_hook("cuMemcpyHtoDAsync_v2"@) == Some("cuMemcpyHtoDAsync_v2"),
        driver_hook("cuMemcpyDtoHAsync_v2"@) == Some("cuMemcpyDtoHAsync_v2"),
        driver_hook("cuModuleLoad"@) == Some("cuModuleLoad"),
        driver_hook("cuModuleGetFunction"@) == Some("cuModuleGetFunction"),
        driver_hook("cuModuleUnload"@) == Some("cuModuleUnload"),
{
    reveal_strlit("cuCtxCreate");
    assert("cuCtxCreate"@.len() == 11);
    reveal_strlit("cuCtxCreate_v2");
    assert("cuCtxCreate_v2"@.len() == 14);
    reveal_strlit("cuCtxDestroy");
    assert("cuCtxDestroy"@.len() == 12);
    reveal_strlit("cuCtxDestroy_v2");
    assert("cuCtxDestroy_v2"@.len() == 15);
    reveal_strlit("cuCtxGetCurrent");
    assert("cuCtxGetCurrent"@.len() == 15);
    reveal_strlit("cuCtxPopCurrent");
    assert("cuCtxPopCurrent"@.len() == 15);
    reveal_strlit("cuCtxPopCurrent_v2");
    assert("cuCtxPopCurrent_v2"@.len() == 18);
    reveal_strlit("cuCtxPushCurrent");
    assert("cuCtxPushCurrent"@.len() == 16);
    reveal_strlit("cuCtxPushCurrent_v2");
    assert("cuCtxPushCurrent_v2"@.len() == 19);
    reveal_strlit("cuCtxSetCurrent");
    assert("cuCtxSetCurrent"@.len() == 15);
    reveal_strlit("cuCtxSynchronize");
    assert("cuCtxSynchronize"@.len() == 16);
    reveal_strlit("cuDeviceGet");
    assert("cuDeviceGet"@.len() == 11);
    reveal_strlit("cuDeviceGetName");
    assert("cuDeviceGetName"@.len() == 15);
    reveal_strlit("cuDevicePrimaryCtxGetState");
    assert("cuDevicePrimaryCtxGetState"@.len() == 26);
    reveal_strlit("cuDevicePrimaryCtxRelease");
    assert("cuDevicePrimaryCtxRelease"@.len() == 25);
    reveal_strlit("cuDevicePrimaryCtxReset");
    assert("cuDevicePrimaryCtxReset"@.len() == 23);
    reveal_strlit("cuDevicePrimaryCtxRetain");
    assert("cuDevicePrimaryCtxRetain"@.len() == 24);
    reveal_strlit("cuDevicePrimaryCtxSetFlags");
    assert("cuDevicePrimaryCtxSetFlags"@.len() == 26);
    reveal_strlit("cuDevicePrimaryCtxSetFlags_v2");
    assert("cuDevicePrimaryCtxSetFlags_v2"@.len() == 29);
    reveal_strlit("cuEventCreate");
    assert("cuEventCreate"@.len() == 13);
    reveal_strlit("cuEventDestroy");
    assert("cuEventDestroy"@.len() == 14);
    reveal_strlit("cuEventDestroy_v2");
    assert("cuEventDestroy_v2"@.len() == 17);
    reveal_strlit("cuEventElapsedTime");
    assert("cuEventElapsedTime"@.len() == 18);
    reveal_strlit("cuEventElapsedTime_v2");
    assert("cuEventElapsedTime_v2"@.len() == 21);
    reveal_strlit("cuEventRecord");
    assert("cuEventRecord"@.len() == 13);
    reveal_strlit("cuEventRecordWithFlags");
    assert("cuEventRecordWithFlags"@.len() == 22);
    reveal_strlit("cuEventRecordWithFlags_ptsz");
    assert("cuEventRecordWithFlags_ptsz"@.len() == 27);
    reveal_strlit("cuEventRecord_ptsz");
    assert("cuEventRecord_ptsz"@.len() == 18);
    reveal_strlit("cuEventSynchronize");
    assert("cuEventSynchronize"@.len() == 18);
    reveal_strlit("cuInit");
    assert("cuInit"@.len() == 6);
    reveal_strlit("cuMemcpyAsync");
    assert("cuMemcpyAsync"@.len() == 13);
    reveal_strlit("cuMemcpyAsync_ptsz");
    assert("cuMemcpyAsync_ptsz"@.len() == 18);
    reveal_strlit("cuMemcpyDtoHAsync");
    assert("cuMemcpyDtoHAsync"@.len() == 17);
    reveal_strlit("cuMemcpyDtoHAsync_v2");
    assert("cuMemcpyDtoHAsync_v2"@.len() == 20);
    reveal_strlit("cuMemcpyDtoHAsync_v2_ptsz");
    assert("cuMemcpyDtoHAsync_v2_ptsz"@.len() == 25);
    reveal_strlit("cuMemcpyHtoDAsync");
    assert("cuMemcpyHtoDAsync"@.len() == 17);
    reveal_strlit("cuMemcpyHtoDAsync_v2");
    assert("cuMemcpyHtoDAsync_v2"@.len() == 20);
    reveal_strlit("cuMemcpyHtoDAsync_v2_ptsz");
    assert("cuMemcpyHtoDAsync_v2_ptsz"@.len() == 25);
    reveal_strlit("cuModuleGetFunction");
    assert("cuModuleGetFunction"@.len() == 19);
    reveal_strlit("cuModuleLoad");
    assert("cuModuleLoad"@.len() == 12);
    reveal_strlit("cuModuleUnload");
    assert("cuModuleUnload"@.len() == 14);
    reveal_strlit("cuStreamCreate");
    assert("cuStreamCreate"@.len() == 14);
    reveal_strlit("cuStreamCreateWithPriority");
    assert("cuStreamCreateWithPriority"@.len() == 26);
    reveal_strlit("cuStreamDestroy");
    assert("cuStreamDestroy"@.len() == 15);
    reveal_strlit("cuStreamDestroy_v2");
    assert("cuStreamDestroy_v2"@.len() == 18);
    assert("cuEventCreate"@[2] != "cuMemcpyAsync"@[2]);
    assert("cuEventRecord"@[2] != "cuMemcpyAsync"@[2]);
    assert("cuMemcpyHtoDAsync_v2"@[8] != "cuMemcpyDtoHAsync_v2"@[8]);
    assert("cuCtxDestroy"@[2] != "cuModuleLoad"@[2]);
    assert("cuCtxPushCurrent_v2"@[2] != "cuModuleGetFunction"@[2]);
    assert("cuCtxCreate_v2"@[2] != "cuModuleUnload"@[2]);
    assert("cuStreamCreate"@[2] != "cuModuleUnload"@[2]);
    assert("cuEventDestroy"@[2] != "cuModuleUnload"@[2]);
}

#[verifier::spinoff_prover]
#[verifier::rlimit(100)]
proof fn lemma_driver_hook_own_names_5()
    ensures
        driver_hook("cuLaunchKernel"@) == Some("cuLaunchKernel"),
        driver_hook("cuMemcpyHtoD_v2"@) == Some("cuMemcpyHtoD_v2"),
        driver_hook("cuMemcpyDtoH_v2"@) == Some("cuMemcpyDtoH_v2"),
        driver_hook("cuMemAlloc_v2"@) == Some("cuMemAlloc_v2"),
        driver_hook("cuMemFree_v2"@) == Some("cuMemFree_v2"),
        driver_hook("cuMemAllocHost_v2"@) == Some("cuMemAllocHost_v2"),
{
    reveal_strlit("cuCtxCreate");
    assert("cuCtxCreate"@.len() == 11);
    reveal_strlit("cuCtxCreate_v2");
    assert("cuCtxCreate_v2"@.len() == 14);
    reveal_strlit("cuCtxDestroy");
    assert("cuCtxDestroy"@.len() == 12);
    reveal_strlit("cuCtxDestroy_v2");
    assert("cuCtxDestroy_v2"@.len() == 15);
    reveal_strlit("cuCtxGetCurrent");
    assert("cuCtxGetCurrent"@.len() == 15);
    reveal_strlit("cuCtxPopCurrent");
    assert("cuCtxPopCurrent"@.len() == 15);
    reveal_strlit("cuCtxPopCurrent_v2");
    assert("cuCtxPopCurrent_v2"@.len() == 18);
    reveal_strlit("cuCtxPushCurrent");
    assert("cuCtxPushCurrent"@.len() == 16);
    reveal_strlit("cuCtxPushCurrent_v2");
    assert("cuCtxPushCurrent_v2"@.len() == 19);
    reveal_strlit("cuCtxSetCurrent");
    assert("cuCtxSetCurrent"@.len() == 15);
    reveal_strlit("cuCtxSynchronize");
    assert("cuCtxSynchronize"@.len() == 16);
    reveal_strlit("cuDeviceGet");
    assert("cuDeviceGet"@.len() == 11);
    reveal_strlit("cuDeviceGetName");
    assert("cuDeviceGetName"@.len() == 15);
    reveal_strlit("cuDevicePrimaryCtxGetState");
    assert("cuDevicePrimaryCtxGetState"@.len() == 26);
    reveal_strlit("cuDevicePrimaryCtxRelease");
    assert("cuDevicePrimaryCtxRelease"@.len() == 25);
    reveal_strlit("cuDevicePrimaryCtxReset");
    assert("cuDevicePrimaryCtxReset"@.len() == 23);
    reveal_strlit("cuDevicePrimaryCtxRetain");
    assert("cuDevicePrimaryCtxRetain"@.len() == 24);
    reveal_strlit("cuDevicePrimaryCtxSetFlags");
    assert("cuDevicePrimaryCtxSetFlags"@.len() == 26);
    reveal_strlit("cuDevicePrimaryCtxSetFlags_v2");
    assert("cuDevicePrimaryCtxSetFlags_v2"@.len() == 29);
    reveal_strlit("cuEventCreate");
    assert("cuEventCreate"@.len() == 13);
    reveal_strlit("cuEventDestroy");
    assert("cuEventDestroy"@.len() == 14);
    reveal_strlit("cuEventDestroy_v2");
    assert("cuEventDestroy_v2"@.len() == 17);
    reveal_strlit("cuEventElapsedTime");
    assert("cuEventElapsedTime"@.len() == 18);
    reveal_strlit("cuEventElapsedTime_v2");
    assert("cuEventElapsedTime_v2"@.len() == 21);
    reveal_strlit("cuEventRecord");
    assert("cuEventRecord"@.len() == 13);
    reveal_strlit("cuEventRecordWithFlags");
    assert("cuEventRecordWithFlags"@.len() == 22);
    reveal_strlit("cuEventRecordWithFlags_ptsz");
    assert("cuEventRecordWithFlags_ptsz"@.len() == 27);
    reveal_strlit("cuEventRecord_ptsz");
    assert("cuEventRecord_ptsz"@.len() == 18);
    reveal_strlit("cuEventSynchronize");
    assert("cuEventSynchronize"@.len() == 18);
    reveal_strlit("cuInit");
    assert("cuInit"@.len() == 6);
    reveal_strlit("cuLaunchKernel");
    assert("cuLaunchKernel"@.len() == 14);
    reveal_strlit("cuMemAlloc");
    assert("cuMemAlloc"@.len() == 10);
    reveal_strlit("cuMemAllocHost");
    assert("cuMemAllocHost"@.len() == 14);
    reveal_strlit("cuMemAllocHost_v2");
    assert("cuMemAllocHost_v2"@.len() == 17);
    reveal_strlit("cuMemAlloc_v2");
    assert("cuMemAlloc_v2"@.len() == 13);
    reveal_strlit("cuMemFree");
    assert("cuMemFree"@.len() == 9);
    reveal_strlit("cuMemFree_v2");
    assert("cuMemFree_v2"@.len() == 12);
    reveal_strlit("cuMemcpyAsync");
    assert("cuMemcpyAsync"@.len() == 13);
    reveal_strlit("cuMemcpyAsync_ptsz");
    assert("cuMemcpyAsync_ptsz"@.len() == 18);
    reveal_strlit("cuMemcpyDtoH");
    assert("cuMemcpyDtoH"@.len() == 12);
    reveal_strlit("cuMemcpyDtoHAsync");
    assert("cuMemcpyDtoHAsync"@.len() == 17);
    reveal_strlit("cuMemcpyDtoHAsync_v2");
    assert("cuMemcpyDtoHAsync_v2"@.len() == 20);
    reveal_strlit("cuMemcpyDtoHAsync_v2_ptsz");
    assert("cuMemcpyDtoHAsync_v2_ptsz"@.len() == 25);
    reveal_strlit("cuMemcpyDtoH_v2");
    assert("cuMemcpyDtoH_v2"@.len() == 15);
    reveal_strlit("cuMemcpyHtoD");
    assert("cuMemcpyHtoD"@.len() == 12);
    reveal_strlit("cuMemcpyHtoDAsync");
    assert("cuMemcpyHtoDAsync"@.len() == 17);
    reveal_strlit("cuMemcpyHtoDAsync_v2");
    assert("cuMemcpyHtoDAsync_v2"@.len() == 20);
    reveal_strlit("cuMemcpyHtoDAsync_v2_ptsz");
    assert("cuMemcpyHtoDAsync_v2_ptsz"@.len() == 25);
    reveal_strlit("cuMemcpyHtoD_v2");
    assert("cuMemcpyHtoD_v2"@.len() == 15);
    reveal_strlit("cuModuleGetFunction");
    assert("cuModuleGetFunction"@.len() == 19);
    reveal_strlit("cuModuleLoad");
    assert("cuModuleLoad"@.len() == 12);
    reveal_strlit("cuModuleUnload");
    assert("cuModuleUnload"@.len() == 14);
    reveal_strlit("cuStreamCreate");
    assert("cuStreamCreate"@.len() == 14);
    reveal_strlit("cuStreamCreateWithPriority");
    assert("cuStreamCreateWithPriority"@.len() == 26);
    reveal_strlit("cuStreamDestroy");
    assert("cuStreamDestroy"@.len() == 15);
    reveal_strlit("cuStreamDestroy_v2");
    assert("cuStreamDestroy_v2"@.len() == 18);
    assert("cuCtxCreate_v2"@[2] != "cuLaunchKernel"@[2]);
    assert("cuStreamCreate"@[2] != "cuLaunchKernel"@[2]);
    assert("cuEventDestroy"@[2] != "cuLaunchKernel"@[2]);
    assert("cuModuleUnload"@[2] != "cuLaunchKernel"@[2]);
    assert("cuDeviceGetName"@[2] != "cuMemcpyHtoD_v2"@[2]);
    assert("cuCtxDestroy_v2"@[2] != "cuMemcpyHtoD_v2"@[2]);
    assert("cuCtxGetCurrent"@[2] != "cuMemcpyHtoD_v2"@[2]);
    assert("cuCtxSetCurrent"@[2] != "cuMemcpyHtoD_v2"@[2]);
    assert("cuCtxPopCurrent"@[2] != "cuMemcpyHtoD_v2"@[2]);
    assert("cuStreamDestroy"@[2] != "cuMemcpyHtoD_v2"@[2]);
    assert("cuDeviceGetName"@[2] != "cuMemcpyDtoH_v2"@[2]);
    assert("cuCtxDestroy_v2"@[2] != "cuMemcpyDtoH_v2"@[2]);
    assert("cuCtxGetCurrent"@[2] != "cuMemcpyDtoH_v2"@[2]);
    assert("cuCtxSetCurrent"@[2] != "cuMemcpyDtoH_v2"@[2]);
    assert("cuCtxPopCurrent"@[2] != "cuMemcpyDtoH_v2"@[2]);
    assert("cuStreamDestroy"@[2] != "cuMemcpyDtoH_v2"@[2]);
    assert("cuMemcpyHtoD_v2"@[8] != "cuMemcpyDtoH_v2"@[8]);
    assert("cuEventCreate"@[2] != "cuMemAlloc_v2"@[2]);
    assert("cuEventRecord"@[2] != "cuMemAlloc_v2"@[2]);
    assert("cuMemcpyAsync"@[5] != "cuMemAlloc_v2"@[5]);
    assert("cuCtxDestroy"@[2] != "cuMemFree_v2"@[2]);
    assert("cuModuleLoad"@[3] != "cuMemFree_v2"@[3]);
    assert("cuMemcpyHtoD"@[5] != "cuMemFree_v2"@[5]);
    assert("cuMemcpyDtoH"@[5] != "cuMemFree_v2"@[5]);
    assert("cuEventDestroy_v2"@[2] != "cuMemAllocHost_v2"@[2]);
    assert("cuMemcpyHtoDAsync"@[5] != "cuMemAllocHost_v2"@[5]);
    assert("cuMemcpyDtoHAsync"@[5] != "cuMemAllocHost_v2"@[5]);
}

#[verifier::spinoff_prover]
#[verifier::rlimit(100)]
proof fn lemma_driver_hook_own_names_6()
    ensures
        driver_hook("cuMemFreeHost"@) == Some("cuMemFreeHost"),
        driver_hook("cuGetProcAddress"@) == Some("cuGetProcAddress"),
        driver_hook("cuGetProcAddress_v2"@) == Some("cuGetProcAddress_v2"),
{
    reveal_strlit("cuCtxCreate");
    assert("cuCtxCreate"@.len() == 11);
    reveal_strlit("cuCtxCreate_v2");
    assert("cuCtxCreate_v2"@.len() == 14);
    reveal_strlit("cuCtxDestroy");
    assert("cuCtxDestroy"@.len() == 12);
    reveal_strlit("cuCtxDestroy_v2");
    assert("cuCtxDestroy_v2"@.len() == 15);
    reveal_strlit("cuCtxGetCurrent");
    assert("cuCtxGetCurrent"@.len() == 15);
    reveal_strlit("cuCtxPopCurrent");
    assert("cuCtxPopCurrent"@.len() == 15);
    reveal_strlit("cuCtxPopCurrent_v2");
    assert("cuCtxPopCurrent_v2"@.len() == 18);
    reveal_strlit("cuCtxPushCurrent");
    assert("cuCtxPushCurrent"@.len() == 16);
    reveal_strlit("cuCtxPushCurrent_v2");
    assert("cuCtxPushCurrent_v2"@.len() == 19);
    reveal_strlit("cuCtxSetCurrent");
    assert("cuCtxSetCurrent"@.len() == 15);
    reveal_strlit("cuCtxSynchronize");
    assert("cuCtxSynchronize"@.len() == 16);
    reveal_strlit("cuDeviceGet");
    assert("cuDeviceGet"@.len() == 11);
    reveal_strlit("cuDeviceGetName");
    assert("cuDeviceGetName"@.len() == 15);
    reveal_strlit("cuDevicePrimaryCtxGetState");
    assert("cuDevicePrimaryCtxGetState"@.len() == 26);
    reveal_strlit("cuDevicePrimaryCtxRelease");
    assert("cuDevicePrimaryCtxRelease"@.len() == 25);
    reveal_strlit("cuDevicePrimaryCtxReset");
    assert("cuDevicePrimaryCtxReset"@.len() == 23);
    reveal_strlit("cuDevicePrimaryCtxRetain");
    assert("cuDevicePrimaryCtxRetain"@.len() == 24);
    reveal_strlit("cuDevicePrimaryCtxSetFlags");
    assert("cuDevicePrimaryCtxSetFlags"@.len() == 26);
    reveal_strlit("cuDevicePrimaryCtxSetFlags_v2");
    assert("cuDevicePrimaryCtxSetFlags_v2"@.len() == 29);
    reveal_strlit("cuEventCreate");
    assert("cuEventCreate"@.len() == 13);
    reveal_strlit("cuEventDestroy");
    assert("cuEventDestroy"@.len() == 14);
    reveal_strlit("cuEventDestroy_v2");
    assert("cuEventDestroy_v2"@.len() == 17);
    reveal_strlit("cuEventElapsedTime");
    assert("cuEventElapsedTime"@.len() == 18);
    reveal_strlit("cuEventElapsedTime_v2");
    assert("cuEventElapsedTime_v2"@.len() == 21);
    reveal_strlit("cuEventRecord");
    assert("cuEventRecord"@.len() == 13);
    reveal_strlit("cuEventRecordWithFlags");
    assert("cuEventRecordWithFlags"@.len() == 22);
    reveal_strlit("cuEventRecordWithFlags_ptsz");
    assert("cuEventRecordWithFlags_ptsz"@.len() == 27);
    reveal_strlit("cuEventRecord_ptsz");
    assert("cuEventRecord_ptsz"@.len() == 18);
    reveal_strlit("cuEventSynchronize");
    assert("cuEventSynchronize"@.len() == 18);
    reveal_strlit("cuGetProcAddress");
    assert("cuGetProcAddress"@.len() == 16);
    reveal_strlit("cuGetProcAddress_v2");
    assert("cuGetProcAddress_v2"@.len() == 19);
    reveal_strlit("cuInit");
    assert("cuInit"@.len() == 6);
    reveal_strlit("cuLaunchKernel");
    assert("cuLaunchKernel"@.len() == 14);
    reveal_strlit("cuMemAlloc");
    assert("cuMemAlloc"@.len() == 10);
    reveal_strlit("cuMemAllocHost");
    assert("cuMemAllocHost"@.len() == 14);
    reveal_strlit("cuMemAllocHost_v2");
    assert("cuMemAllocHost_v2"@.len() == 17);
    reveal_strlit("cuMemAlloc_v2");
    assert("cuMemAlloc_v2"@.len() == 13);
    reveal_strlit("cuMemFree");
    assert("cuMemFree"@.len() == 9);
    reveal_strlit("cuMemFreeHost");
    assert("cuMemFreeHost"@.len() == 13);
    reveal_strlit("cuMemFree_v2");
    assert("cuMemFree_v2"@.len() == 12);
    reveal_strlit("cuMemcpyAsync");
    assert("cuMemcpyAsync"@.len() == 13);
    reveal_strlit("cuMemcpyAsync_ptsz");
    assert("cuMemcpyAsync_ptsz"@.len() == 18);
    reveal_strlit("cuMemcpyDtoH");
    assert("cuMemcpyDtoH"@.len() == 12);
    reveal_strlit("cuMemcpyDtoHAsync");
    assert("cuMemcpyDtoHAsync"@.len() == 17);
    reveal_strlit("cuMemcpyDtoHAsync_v2");
    assert("cuMemcpyDtoHAsync_v2"@.len() == 20);
    reveal_strlit("cuMemcpyDtoHAsync_v2_ptsz");
    assert("cuMemcpyDtoHAsync_v2_ptsz"@.len() == 25);
    reveal_strlit("cuMemcpyDtoH_v2");
    assert("cuMemcpyDtoH_v2"@.len() == 15);
    reveal_strlit("cuMemcpyHtoD");
    assert("cuMemcpyHtoD"@.len() == 12);
    reveal_strlit("cuMemcpyHtoDAsync");
    assert("cuMemcpyHtoDAsync"@.len() == 17);
    reveal_strlit("cuMemcpyHtoDAsync_v2");
    assert("cuMemcpyHtoDAsync_v2"@.len() == 20);
    reveal_strlit("cuMemcpyHtoDAsync_v2_ptsz");
    assert("cuMemcpyHtoDAsync_v2_ptsz"@.len() == 25);
    reveal_strlit("cuMemcpyHtoD_v2");
    assert("cuMemcpyHtoD_v2"@.len() == 15);
    reveal_strlit("cuModuleGetFunction");
    assert("cuModuleGetFunction"@.len() == 19);
    reveal_strlit("cuModuleLoad");
    assert("cuModuleLoad"@.len() == 12);
    reveal_strlit("cuModuleUnload");
    assert("cuModuleUnload"@.len() == 14);
    reveal_strlit("cuStreamCreate");
    assert("cuStreamCreate"@.len() == 14);
    reveal_strlit("cuStreamCreateWithPriority");
    assert("cuStreamCreateWithPriority"@.len() == 26);
    reveal_strlit("cuStreamDestroy");
    assert("cuStreamDestroy"@.len() == 15);
    reveal_strlit("cuStreamDestroy_v2");
    assert("cuStreamDestroy_v2"@.len() == 18);
    assert("cuEventCreate"@[2] != "cuMemFreeHost"@[2]);
    assert("cuEventRecord"@[2] != "cuMemFreeHost"@[2]);
    assert("cuMemcpyAsync"@[5] != "cuMemFreeHost"@[5]);
    assert("cuMemAlloc_v2"@[5] != "cuMemFreeHost"@[5]);
    assert("cuCtxSynchronize"@[2] != "cuGetProcAddress"@[2]);
    assert("cuCtxPushCurrent"@[2] != "cuGetProcAddress"@[2]);
    assert("cuCtxPushCurrent_v2"@[2] != "cuGetProcAddress_v2"@[2]);
    assert("cuModuleGetFunction"@[2] != "cuGetProcAddress_v2"@[2]);
}

/// Every driver API hook wraps the function that was looked up (or its `_v2` revision, the
/// function it revises, or the function whose per-thread-stream variant was looked up), and
/// each hook answers to its own name.
#[verifier::spinoff_prover]
#[verifier::rlimit(100)]
pub proof fn lemma_driver_hook_wraps_looked_up_function(s: Seq<char>)
    ensures
        driver_hook(s) matches Some(h) ==> wraps_same_function(s, h@) && driver_hook(h@) == Some(h),
{
    lemma_driver_hook_own_names_0();
    lemma_driver_hook_own_names_1();
    lemma_driver_hook_own_names_2();
    lemma_driver_hook_own_names_3();
    lemma_driver_hook_own_names_4();
    lemma_driver_hook_own_names_5();
    lemma_driver_hook_own_names_6();
    reveal_strlit("_ptsz");
    reveal_strlit("_v2");
    reveal_strlit("cuCtxCreate");
    reveal_strlit("cuCtxCreate_v2");
    reveal_strlit("cuCtxDestroy");
    reveal_strlit("cuCtxDestroy_v2");
    reveal_strlit("cuCtxGetCurrent");
    reveal_strlit("cuCtxPopCurrent");
    reveal_strlit("cuCtxPopCurrent_v2");
    reveal_strlit("cuCtxPushCurrent");
    reveal_strlit("cuCtxPushCurrent_v2");
    reveal_strlit("cuCtxSetCurrent");
    reveal_strlit("cuCtxSynchronize");
    reveal_strlit("cuDeviceGet");
    reveal_strlit("cuDeviceGetName");
    reveal_strlit("cuDevicePrimaryCtxGetState");
    reveal_strlit("cuDevicePrimaryCtxRelease");
    reveal_strlit("cuDevicePrimaryCtxReset");
    reveal_strlit("cuDevicePrimaryCtxRetain");
    reveal_strlit("cuDevicePrimaryCtxSetFlags");
    reveal_strlit("cuDevicePrimaryCtxSetFlags_v2");
    reveal_strlit("cuEventCreate");
    reveal_strlit("cuEventDestroy");
    reveal_strlit("cuEventDestroy_v2");
    reveal_strlit("cuEventElapsedTime");
    reveal_strlit("cuEventElapsedTime_v2");
    reveal_strlit("cuEventRecord");
    reveal_strlit("cuEventRecordWithFlags");
    reveal_strlit("cuEventRecordWithFlags_ptsz");
    reveal_strlit("cuEventRecord_ptsz");
    reveal_strlit("cuEventSynchronize");
    reveal_strlit("cuGetProcAddress");
    reveal_strlit("cuGetProcAddress_v2");
    reveal_strlit("cuInit");
    reveal_strlit("cuLaunchKernel");
    reveal_strlit("cuMemAlloc");
    reveal_strlit("cuMemAllocHost");
    reveal_strlit("cuMemAllocHost_v2");
    reveal_strlit("cuMemAlloc_v2");
    reveal_strlit("cuMemFree");
    reveal_strlit("cuMemFreeHost");
    reveal_strlit("cuMemFree_v2");
    reveal_strlit("cuMemcpyAsync");
    reveal_strlit("cuMemcpyAsync_ptsz");
    reveal_strlit("cuMemcpyDtoH");
    reveal_strlit("cuMemcpyDtoHAsync");
    reveal_strlit("cuMemcpyDtoHAsync_v2");
    reveal_strlit("cuMemcpyDtoHAsync_v2_ptsz");
    reveal_strlit("cuMemcpyDtoH_v2");
    reveal_strlit("cuMemcpyHtoD");
    reveal_strlit("cuMemcpyHtoDAsync");
    reveal_strlit("cuMemcpyHtoDAsync_v2");
    reveal_strlit("cuMemcpyHtoDAsync_v2_ptsz");
    reveal_strlit("cuMemcpyHtoD_v2");
    reveal_strlit("cuModuleGetFunction");
    reveal_strlit("cuModuleLoad");
    reveal_strlit("cuModuleUnload");
    reveal_strlit("cuStreamCreate");
    reveal_strlit("cuStreamCreateWithPriority");
    reveal_strlit("cuStreamDestroy");
    reveal_strlit("cuStreamDestroy_v2");
    if s == "cuCtxCreate"@ {
        assert("cuCtxCreate_v2"@ =~= "cuCtxCreate"@ + "_v2"@);
    }
    if s == "cuCtxDestroy"@ {
        assert("cuCtxDestroy_v2"@ =~= "cuCtxDestroy"@ + "_v2"@);
    }
    if s == "cuCtxPushCurrent"@ {
        assert("cuCtxPushCurrent_v2"@ =~= "cuCtxPushCurrent"@ + "_v2"@);
    }
    if s == "cuCtxPopCurrent"@ {
        assert("cuCtxPopCurrent_v2"@ =~= "cuCtxPopCurrent"@ + "_v2"@);
    }
    if s == "cuDevicePrimaryCtxSetFlags_v2"@ {
        assert("cuDevicePrimaryCtxSetFlags_v2"@ =~= "cuDevicePrimaryCtxSetFlags"@ + "_v2"@);
    }
    if s == "cuStreamDestroy_v2"@ {
        assert("cuStreamDestroy_v2"@ =~= "cuStreamDestroy"@ + "_v2"@);
    }
    if s == "cuEventDestroy_v2"@ {
        assert("cuEventDestroy_v2"@ =~= "cuEventDestroy"@ + "_v2"@);
    }
    if s == "cuEventRecord_ptsz"@ {
        assert("cuEventRecord_ptsz"@ =~= "cuEventRecord"@ + "_ptsz"@);
    }
    if s == "cuEventRecordWithFlags_ptsz"@ {
        assert("cuEventRecordWithFlags_ptsz"@ =~= "cuEventRecordWithFlags"@ + "_ptsz"@);
    }
    if s == "cuEventElapsedTime_v2"@ {
        assert("cuEventElapsedTime_v2"@ =~= "cuEventElapsedTime"@ + "_v2"@);
    }
    if s == "cuMemcpyAsync_ptsz"@ {
        assert("cuMemcpyAsync_ptsz"@ =~= "cuMemcpyAsync"@ + "_ptsz"@);
    }
    if s == "cuMemcpyHtoDAsync"@ {
        assert("cuMemcpyHtoDAsync_v2"@ =~= "cuMemcpyHtoDAsync"@ + "_v2"@);
    }
    if s == "cuMemcpyHtoDAsync_v2_ptsz"@ {
        assert("cuMemcpyHtoDAsync_v2_ptsz"@ =~= "cuMemcpyHtoDAsync_v2"@ + "_ptsz"@);
    }
    if s == "cuMemcpyDtoHAsync"@ {
        assert("cuMemcpyDtoHAsync_v2"@ =~= "cuMemcpyDtoHAsync"@ + "_v2"@);
    }
    if s == "cuMemcpyDtoHAsync_v2_ptsz"@ {
        assert("cuMemcpyDtoHAsync_v2_ptsz"@ =~= "cuMemcpyDtoHAsync_v2"@ + "_ptsz"@);
    }
    if s == "cuMemcpyHtoD"@ {
        assert("cuMemcpyHtoD_v2"@ =~= "cuMemcpyHtoD"@ + "_v2"@);
    }
    if s == "cuMemcpyDtoH"@ {
        assert("cuMemcpyDtoH_v2"@ =~= "cuMemcpyDtoH"@ + "_v2"@);
    }
    if s == "cuMemAlloc"@ {
        assert("cuMemAlloc_v2"@ =~= "cuMemAlloc"@ + "_v2"@);
    }
    if s == "cuMemFree"@ {
        assert("cuMemFree_v2"@ =~= "cuMemFree"@ + "_v2"@);
    }
    if s == "cuMemAllocHost"@ {
        assert("cuMemAllocHost_v2"@ =~= "cuMemAllocHost"@ + "_v2"@);
    }
}

#[verifier::spinoff_prover]
#[verifier::rlimit(100)]
proof fn lemma_cudart_hook_own_names_0()
    ensures
        cudart_hook("cudaMalloc"@) == Some("cudaMalloc"),
        cudart_hook("cudaFree"@) == Some("cudaFree"),
        cudart_hook("cudaHostAlloc"@) == Some("cudaHostAlloc"),
        cudart_hook("cudaMallocHost"@) == Some("cudaMallocHost"),
        cudart_hook("cudaFreeHost"@) == Some("cudaFreeHost"),
        cudart_hook("cudaMemcpyAsync"@) == Some("cudaMemcpyAsync"),
{
    reveal_strlit("cudaFree");
    assert("cudaFree"@.len() == 8);
    reveal_strlit("cudaFreeHost");
    assert("cudaFreeHost"@.len() == 12);
    reveal_strlit("cudaHostAlloc");
    assert("cudaHostAlloc"@.len() == 13);
    reveal_strlit("cudaMalloc");
    assert("cudaMalloc"@.len() == 10);
    reveal_strlit("cudaMallocHost");
    assert("cudaMallocHost"@.len() == 14);
    reveal_strlit("cudaMemcpyAsync");
    assert("cudaMemcpyAsync"@.len() == 15);
}

#[verifier::spinoff_prover]
#[verifier::rlimit(100)]
proof fn lemma_cudart_hook_own_names_1()
    ensures
        cudart_hook("cudaLaunchKernel"@) == Some("cudaLaunchKernel"),
        cudart_hook("cudaStreamCreate"@) == Some("cudaStreamCreate"),
        cudart_hook("cudaStreamDestroy"@) == Some("cudaStreamDestroy"),
        cudart_hook("cudaEventCreate"@) == Some("cudaEventCreate"),
        cudart_hook("cudaEventRecord"@) == Some("cudaEventRecord"),
        cudart_hook("cudaEventSynchronize"@) == Some("cudaEventSynchronize"),
{
    reveal_strlit("cudaEventCreate");
    assert("cudaEventCreate"@.len() == 15);
    reveal_strlit("cudaEventRecord");
    assert("cudaEventRecord"@.len() == 15);
    reveal_strlit("cudaEventSynchronize");
    assert("cudaEventSynchronize"@.len() == 20);
    reveal_strlit("cudaFree");
    assert("cudaFree"@.len() == 8);
    reveal_strlit("cudaFreeHost");
    assert("cudaFreeHost"@.len() == 12);
    reveal_strlit("cudaHostAlloc");
    assert("cudaHostAlloc"@.len() == 13);
    reveal_strlit("cudaLaunchKernel");
    assert("cudaLaunchKernel"@.len() == 16);
    reveal_strlit("cudaMalloc");
    assert("cudaMalloc"@.len() == 10);
    reveal_strlit("cudaMallocHost");
    assert("cudaMallocHost"@.len() == 14);
    reveal_strlit("cudaMemcpyAsync");
    assert("cudaMemcpyAsync"@.len() == 15);
    reveal_strlit("cudaStreamCreate");
    assert("cudaStreamCreate"@.len() == 16);
    reveal_strlit("cudaStreamDestroy");
    assert("cudaStreamDestroy"@.len() == 17);
    assert("cudaLaunchKernel"@[4] != "cudaStreamCreate"@[4]);
    assert("cudaMemcpyAsync"@[4] != "cudaEventCreate"@[4]);
    assert("cudaMemcpyAsync"@[4] != "cudaEventRecord"@[4]);
    assert("cudaEventCreate"@[9] != "cudaEventRecord"@[9]);
}

#[verifier::spinoff_prover]
#[verifier::rlimit(100)]
proof fn lemma_cudart_hook_own_names_2()
    ensures
        cudart_hook("cudaEventElapsedTime"@) == Some("cudaEventElapsedTime"),
        cudart_hook("cudaDeviceReset"@) == Some("cudaDeviceReset"),
{
    reveal_strlit("cudaDeviceReset");
    assert("cudaDeviceReset"@.len() == 15);
    reveal_strlit("cudaEventCreate");
    assert("cudaEventCreate"@.len() == 15);
    reveal_strlit("cudaEventElapsedTime");
    assert("cudaEventElapsedTime"@.len() == 20);
    reveal_strlit("cudaEventRecord");
    assert("cudaEventRecord"@.len() == 15);
    reveal_strlit("cudaEventSynchronize");
    assert("cudaEventSynchronize"@.len() == 20);
    reveal_strlit("cudaFree");
    assert("cudaFree"@.len() == 8);
    reveal_strlit("cudaFreeHost");
    assert("cudaFreeHost"@.len() == 12);
    reveal_strlit("cudaHostAlloc");
    assert("cudaHostAlloc"@.len() == 13);
    reveal_strlit("cudaLaunchKernel");
    assert("cudaLaunchKernel"@.len() == 16);
    reveal_strlit("cudaMalloc");
    assert("cudaMalloc"@.len() == 10);
    reveal_strlit("cudaMallocHost");
    assert("cudaMallocHost"@.len() == 14);
    reveal_strlit("cudaMemcpyAsync");
    assert("cudaMemcpyAsync"@.len() == 15);
    reveal_strlit("cudaStreamCreate");
    assert("cudaStreamCreate"@.len() == 16);
    reveal_strlit("cudaStreamDestroy");
    assert("cudaStreamDestroy"@.len() == 17);
    assert("cudaEventSynchronize"@[9] != "cudaEventElapsedTime"@[9]);
    assert("cudaMemcpyAsync"@[4] != "cudaDeviceReset"@[4]);
    assert("cudaEventCreate"@[4] != "cudaDeviceReset"@[4]);
    assert("cudaEventRecord"@[4] != "cudaDeviceReset"@[4]);
}

/// Every runtime API hook wraps the function that was looked up (or its `_v2` revision, the
/// function it revises, or the function whose per-thread-stream variant was looked up), and
/// each hook answers to its own name.
#[verifier::spinoff_prover]
#[verifier::rlimit(100)]
pub proof fn lemma_cudart_hook_wraps_looked_up_function(s: Seq<char>)
    ensures
        cudart_hook(s) matches Some(h) ==> wraps_same_function(s, h@) && cudart_hook(h@) == Some(h),
{
    lemma_cudart_hook_own_names_0();
    lemma_cudart_hook_own_names_1();
    lemma_cudart_hook_own_names_2();
    reveal_strlit("_ptsz");
    reveal_strlit("_v2");
    reveal_strlit("cudaDeviceReset");
    reveal_strlit("cudaEventCreate");
    reveal_strlit("cudaEventElapsedTime");
    reveal_strlit("cudaEventRecord");
    reveal_strlit("cudaEventSynchronize");
    reveal_strlit("cudaFree");
    reveal_strlit("cudaFreeHost");
    reveal_strlit("cudaHostAlloc");
    reveal_strlit("cudaLaunchKernel");
    reveal_strlit("cudaMalloc");
    reveal_strlit("cudaMallocHost");
    reveal_strlit("cudaMemcpyAsync");
    reveal_strlit("cudaStreamCreate");
    reveal_strlit("cudaStreamDestroy");
}

#[verifier::spinoff_prover]
#[verifier::rlimit(100)]
proof fn lemma_runtime_hooks_not_driver()
    ensures
        driver_hook("cudaDeviceReset"@) is None,
        driver_hook("cudaEventCreate"@) is None,
        driver_hook("cudaEventElapsedTime"@) is None,
        driver_hook("cudaEventRecord"@) is None,
        driver_hook("cudaEventSynchronize"@) is None,
        driver_hook("cudaFree"@) is None,
        driver_hook("cudaFreeHost"@) is None,
        driver_hook("cudaHostAlloc"@) is None,
        driver_hook("cudaLaunchKernel"@) is None,
        driver_hook("cudaMalloc"@) is None,
        driver_hook("cudaMallocHost"@) is None,
        driver_hook("cudaMemcpyAsync"@) is None,
        driver_hook("cudaStreamCreate"@) is None,
        driver_hook("cudaStreamDestroy"@) is None,
{
    reveal_strlit("cuCtxCreate");
    assert("cuCtxCreate"@.len() == 11);
    reveal_strlit("cuCtxCreate_v2");
    assert("cuCtxCreate_v2"@.len() == 14);
    reveal_strlit("cuCtxDestroy");
    assert("cuCtxDestroy"@.len() == 12);
    reveal_strlit("cuCtxDestroy_v2");
    assert("cuCtxDestroy_v2"@.len() == 15);
    reveal_strlit("cuCtxGetCurrent");
    assert("cuCtxGetCurrent"@.len() == 15);
    reveal_strlit("cuCtxPopCurrent");
    assert("cuCtxPopCurrent"@.len() == 15);
    reveal_strlit("cuCtxPopCurrent_v2");
    assert("cuCtxPopCurrent_v2"@.len() == 18);
    reveal_strlit("cuCtxPushCurrent");
    assert("cuCtxPushCurrent"@.len() == 16);
    reveal_strlit("cuCtxPushCurrent_v2");
    assert("cuCtxPushCurrent_v2"@.len() == 19);
    reveal_strlit("cuCtxSetCurrent");
    assert("cuCtxSetCurrent"@.len() == 15);
    reveal_strlit("cuCtxSynchronize");
    assert("cuCtxSynchronize"@.len() == 16);
    reveal_strlit("cuDeviceGet");
    assert("cuDeviceGet"@.len() == 11);
    reveal_strlit("cuDeviceGetName");
    assert("cuDeviceGetName"@.len() == 15);
    reveal_strlit("cuDevicePrimaryCtxGetState");
    assert("cuDevicePrimaryCtxGetState"@.len() == 26);
    reveal_strlit("cuDevicePrimaryCtxRelease");
    assert("cuDevicePrimaryCtxRelease"@.len() == 25);
    reveal_strlit("cuDevicePrimaryCtxReset");
    assert("cuDevicePrimaryCtxReset"@.len() == 23);
    reveal_strlit("cuDevicePrimaryCtxRetain");
    assert("cuDevicePrimaryCtxRetain"@.len() == 24);
    reveal_strlit("cuDevicePrimaryCtxSetFlags");
    assert("cuDevicePrimaryCtxSetFlags"@.len() == 26);
    reveal_strlit("cuDevicePrimaryCtxSetFlags_v2");
    assert("cuDevicePrimaryCtxSetFlags_v2"@.len() == 29);
    reveal_strlit("cuEventCreate");
    assert("cuEventCreate"@.len() == 13);
    reveal_strlit("cuEventDestroy");
    assert("cuEventDestroy"@.len() == 14);
    reveal_strlit("cuEventDestroy_v2");
    assert("cuEventDestroy_v2"@.len() == 17);
    reveal_strlit("cuEventElapsedTime");
    assert("cuEventElapsedTime"@.len() == 18);
    reveal_strlit("cuEventElapsedTime_v2");
    assert("cuEventElapsedTime_v2"@.len() == 21);
    reveal_strlit("cuEventRecord");
    assert("cuEventRecord"@.len() == 13);
    reveal_strlit("cuEventRecordWithFlags");
    assert("cuEventRecordWithFlags"@.len() == 22);
    reveal_strlit("cuEventRecordWithFlags_ptsz");
    assert("cuEventRecordWithFlags_ptsz"@.len() == 27);
    reveal_strlit("cuEventRecord_ptsz");
    assert("cuEventRecord_ptsz"@.len() == 18);
    reveal_strlit("cuEventSynchronize");
    assert("cuEventSynchronize"@.len() == 18);
    reveal_strlit("cuGetProcAddress");
    assert("cuGetProcAddress"@.len() == 16);
    reveal_strlit("cuGetProcAddress_v2");
    assert("cuGetProcAddress_v2"@.len() == 19);
    reveal_strlit("cuInit");
    assert("cuInit"@.len() == 6);
    reveal_strlit("cuLaunchKernel");
    assert("cuLaunchKernel"@.len() == 14);
    reveal_strlit("cuMemAlloc");
    assert("cuMemAlloc"@.len() == 10);
    reveal_strlit("cuMemAllocHost");
    assert("cuMemAllocHost"@.len() == 14);
    reveal_strlit("cuMemAllocHost_v2");
    assert("cuMemAllocHost_v2"@.len() == 17);
    reveal_strlit("cuMemAlloc_v2");
    assert("cuMemAlloc_v2"@.len() == 13);
    reveal_strlit("cuMemFree");
    assert("cuMemFree"@.len() == 9);
    reveal_strlit("cuMemFreeHost");
    assert("cuMemFreeHost"@.len() == 13);
    reveal_strlit("cuMemFree_v2");
    assert("cuMemFree_v2"@.len() == 12);
    reveal_strlit("cuMemcpyAsync");
    assert("cuMemcpyAsync"@.len() == 13);
    reveal_strlit("cuMemcpyAsync_ptsz");
    assert("cuMemcpyAsync_ptsz"@.len() == 18);
    reveal_strlit("cuMemcpyDtoH");
    assert("cuMemcpyDtoH"@.len() == 12);
    reveal_strlit("cuMemcpyDtoHAsync");
    assert("cuMemcpyDtoHAsync"@.len() == 17);
    reveal_strlit("cuMemcpyDtoHAsync_v2");
    assert("cuMemcpyDtoHAsync_v2"@.len() == 20);
    reveal_strlit("cuMemcpyDtoHAsync_v2_ptsz");
    assert("cuMemcpyDtoHAsync_v2_ptsz"@.len() == 25);
    reveal_strlit("cuMemcpyDtoH_v2");
    assert("cuMemcpyDtoH_v2"@.len() == 15);
    reveal_strlit("cuMemcpyHtoD");
    assert("cuMemcpyHtoD"@.len() == 12);
    reveal_strlit("cuMemcpyHtoDAsync");
    assert("cuMemcpyHtoDAsync"@.len() == 17);
    reveal_strlit("cuMemcpyHtoDAsync_v2");
    assert("cuMemcpyHtoDAsync_v2"@.len() == 20);
    reveal_strlit("cuMemcpyHtoDAsync_v2_ptsz");
    assert("cuMemcpyHtoDAsync_v2_ptsz"@.len() == 25);
    reveal_strlit("cuMemcpyHtoD_v2");
    assert("cuMemcpyHtoD_v2"@.len() == 15);
    reveal_strlit("cuModuleGetFunction");
    assert("cuModuleGetFunction"@.len() == 19);
    reveal_strlit("cuModuleLoad");
    assert("cuModuleLoad"@.len() == 12);
    reveal_strlit("cuModuleUnload");
    assert("cuModuleUnload"@.len() == 14);
    reveal_strlit("cuStreamCreate");
    assert("cuStreamCreate"@.len() == 14);
    reveal_strlit("cuStreamCreateWithPriority");
    assert("cuStreamCreateWithPriority"@.len() == 26);
    reveal_strlit("cuStreamDestroy");
    assert("cuStreamDestroy"@.len() == 15);
    reveal_strlit("cuStreamDestroy_v2");
    assert("cuStreamDestroy_v2"@.len() == 18);
    reveal_strlit("cudaDeviceReset");
    assert("cudaDeviceReset"@.len() == 15);
    reveal_strlit("cudaEventCreate");
    assert("cudaEventCreate"@.len() == 15);
    reveal_strlit("cudaEventElapsedTime");
    assert("cudaEventElapsedTime"@.len() == 20);
    reveal_strlit("cudaEventRecord");
    assert("cudaEventRecord"@.len() == 15);
    reveal_strlit("cudaEventSynchronize");
    assert("cudaEventSynchronize"@.len() == 20);
    reveal_strlit("cudaFree");
    assert("cudaFree"@.len() == 8);
    reveal_strlit("cudaFreeHost");
    assert("cudaFreeHost"@.len() == 12);
    reveal_strlit("cudaHostAlloc");
    assert("cudaHostAlloc"@.len() == 13);
    reveal_strlit("cudaLaunchKernel");
    assert("cudaLaunchKernel"@.len() == 16);
    reveal_strlit("cudaMalloc");
    assert("cudaMalloc"@.len() == 10);
    reveal_strlit("cudaMallocHost");
    assert("cudaMallocHost"@.len() == 14);
    reveal_strlit("cudaMemcpyAsync");
    assert("cudaMemcpyAsync"@.len() == 15);
    reveal_strlit("cudaStreamCreate");
    assert("cudaStreamCreate"@.len() == 16);
    reveal_strlit("cudaStreamDestroy");
    assert("cudaStreamDestroy"@.len() == 17);
    assert("cuDeviceGetName"@[2] != "cudaDeviceReset"@[2]);
    assert("cuCtxDestroy_v2"@[2] != "cudaDeviceReset"@[2]);
    assert("cuCtxGetCurrent"@[2] != "cudaDeviceReset"@[2]);
    assert("cuCtxSetCurrent"@[2] != "cudaDeviceReset"@[2]);
    assert("cuCtxPopCurrent"@[2] != "cudaDeviceReset"@[2]);
    assert("cuStreamDestroy"@[2] != "cudaDeviceReset"@[2]);
    assert("cuMemcpyHtoD_v2"@[2] != "cudaDeviceReset"@[2]);
    assert("cuMemcpyDtoH_v2"@[2] != "cudaDeviceReset"@[2]);
    assert("cuDeviceGetName"@[2] != "cudaEventCreate"@[2]);
    assert("cuCtxDestroy_v2"@[2] != "cudaEventCreate"@[2]);
    assert("cuCtxGetCurrent"@[2] != "cudaEventCreate"@[2]);
    assert("cuCtxSetCurrent"@[2] != "cudaEventCreate"@[2]);
    assert("cuCtxPopCurrent"@[2] != "cudaEventCreate"@[2]);
    assert("cuStreamDestroy"@[2] != "cudaEventCreate"@[2]);
    assert("cuMemcpyHtoD_v2"@[2] != "cudaEventCreate"@[2]);
    assert("cuMemcpyDtoH_v2"@[2] != "cudaEventCreate"@[2]);
    assert("cuMemcpyHtoDAsync_v2"@[2] != "cudaEventElapsedTime"@[2]);
    assert("cuMemcpyDtoHAsync_v2"@[2] != "cudaEventElapsedTime"@[2]);
    assert("cuDeviceGetName"@[2] != "cudaEventRecord"@[2]);
    assert("cuCtxDestroy_v2"@[2] != "cudaEventRecord"@[2]);
    assert("cuCtxGetCurrent"@[2] != "cudaEventRecord"@[2]);
    assert("cuCtxSetCurrent"@[2] != "cudaEventRecord"@[2]);
    assert("cuCtxPopCurrent"@[2] != "cudaEventRecord"@[2]);
    assert("cuStreamDestroy"@[2] != "cudaEventRecord"@[2]);
    assert("cuMemcpyHtoD_v2"@[2] != "cudaEventRecord"@[2]);
    assert("cuMemcpyDtoH_v2"@[2] != "cudaEventRecord"@[2]);
    assert("cuMemcpyHtoDAsync_v2"@[2] != "cudaEventSynchronize"@[2]);
    assert("cuMemcpyDtoHAsync_v2"@[2] != "cudaEventSynchronize"@[2]);
    assert("cuCtxDestroy"@[2] != "cudaFreeHost"@[2]);
    assert("cuModuleLoad"@[2] != "cudaFreeHost"@[2]);
    assert("cuMemcpyHtoD"@[2] != "cudaFreeHost"@[2]);
    assert("cuMemcpyDtoH"@[2] != "cudaFreeHost"@[2]);
    assert("cuMemFree_v2"@[2] != "cudaFreeHost"@[2]);
    assert("cuEventCreate"@[2] != "cudaHostAlloc"@[2]);
    assert("cuEventRecord"@[2] != "cudaHostAlloc"@[2]);
    assert("cuMemcpyAsync"@[2] != "cudaHostAlloc"@[2]);
    assert("cuMemAlloc_v2"@[2] != "cudaHostAlloc"@[2]);
    assert("cuMemFreeHost"@[2] != "cudaHostAlloc"@[2]);
    assert("cuCtxSynchronize"@[2] != "cudaLaunchKernel"@[2]);
    assert("cuCtxPushCurrent"@[2] != "cudaLaunchKernel"@[2]);
    assert("cuGetProcAddress"@[2] != "cudaLaunchKernel"@[2]);
    assert("cuMemAlloc"@[2] != "cudaMalloc"@[2]);
    assert("cuCtxCreate_v2"@[2] != "cudaMallocHost"@[2]);
    assert("cuStreamCreate"@[2] != "cudaMallocHost"@[2]);
    assert("cuEventDestroy"@[2] != "cudaMallocHost"@[2]);
    assert("cuModuleUnload"@[2] != "cudaMallocHost"@[2]);
    assert("cuLaunchKernel"@[2] != "cudaMallocHost"@[2]);
    assert("cuMemAllocHost"@[2] != "cudaMallocHost"@[2]);
    assert("cuDeviceGetName"@[2] != "cudaMemcpyAsync"@[2]);
    assert("cuCtxDestroy_v2"@[2] != "cudaMemcpyAsync"@[2]);
    assert("cuCtxGetCurrent"@[2] != "cudaMemcpyAsync"@[2]);
    assert("cuCtxSetCurrent"@[2] != "cudaMemcpyAsync"@[2]);
    assert("cuCtxPopCurrent"@[2] != "cudaMemcpyAsync"@[2]);
    assert("cuStreamDestroy"@[2] != "cudaMemcpyAsync"@[2]);
    assert("cuMemcpyHtoD_v2"@[2] != "cudaMemcpyAsync"@[2]);
    assert("cuMemcpyDtoH_v2"@[2] != "cudaMemcpyAsync"@[2]);
    assert("cuCtxSynchronize"@[2] != "cudaStreamCreate"@[2]);
    assert("cuCtxPushCurrent"@[2] != "cudaStreamCreate"@[2]);
    assert("cuGetProcAddress"@[2] != "cudaStreamCreate"@[2]);
    assert("cuEventDestroy_v2"@[2] != "cudaStreamDestroy"@[2]);
    assert("cuMemcpyHtoDAsync"@[2] != "cudaStreamDestroy"@[2]);
    assert("cuMemcpyDtoHAsync"@[2] != "cudaStreamDestroy"@[2]);
    assert("cuMemAllocHost_v2"@[2] != "cudaStreamDestroy"@[2]);
}

/// The hook that a symbol lookup returns wraps the function that was looked up, and
/// answers to its own name.
pub proof fn lemma_override_wraps_looked_up_function(s: Seq<char>)
    ensures
        override_hook(s) matches Some(h) ==> wraps_same_function(s, h@) && override_hook(h@) == Some(h),
{
    lemma_driver_hook_wraps_looked_up_function(s);
    lemma_cudart_hook_wraps_looked_up_function(s);
    if driver_hook(s) is None {
        if let Some(h) = cudart_hook(s) {
            lemma_runtime_hooks_not_driver();
        }
    }
}

} // verus!
