use cudatrace::fd_map::is_gpu_path;
use cudatrace::graph::{format_close_line, format_leaf_line, format_open_line};
use cudatrace::logger::thread_output_path;
use cudatrace::nvidia::{
    Nv0000CtrlClientGetAddrSpaceTypeParams, Nv0000CtrlOsUnixGetControlFileDescriptorParams,
    Nv0000CtrlSystemGetBuildVersionParams, NvIoctlAllocOsEvent, NvIoctlCardInfo,
    NvIoctlExportToDmaBufFdPrefix, NvIoctlNumaInfo, NvIoctlNvos02ParametersWithFd,
    NvIoctlNvos33ParametersWithFd, NvIoctlQueryDeviceIntr, NvIoctlRegisterFd, NvIoctlRmApiVersion,
    NvIoctlSetNumaStatus, NvIoctlStatusCode, NvIoctlSysParams, NvIoctlWaitOpenComplete,
    NvIoctlXfer, NvOs00Parameters, NvOs02Parameters, NvOs05Parameters, NvOs21Parameters,
    NvOs33Parameters, NvOs34Parameters, NvOs54Parameters, NvOs64Parameters, NvPciInfo,
};
use cudatrace::reentry::{hooks_blocked, BypassDepth, HookBypassGuard};
use cudatrace::symbols::{dlsym_override, wrapper_for_cudart_symbol, wrapper_for_driver_symbol};

#[test]
fn nvidia_struct_layout_matches_headers() {
    assert_eq!(std::mem::size_of::<NvPciInfo>(), 12);
    assert_eq!(std::mem::size_of::<NvIoctlCardInfo>(), 72);

    assert_eq!(std::mem::size_of::<NvIoctlXfer>(), 16);
    assert_eq!(std::mem::align_of::<NvIoctlXfer>(), 8);

    assert_eq!(std::mem::size_of::<NvIoctlRegisterFd>(), 4);
    assert_eq!(std::mem::size_of::<NvIoctlAllocOsEvent>(), 16);
    assert_eq!(std::mem::size_of::<NvIoctlStatusCode>(), 12);
    assert_eq!(std::mem::size_of::<NvIoctlRmApiVersion>(), 72);
    assert_eq!(std::mem::size_of::<NvIoctlQueryDeviceIntr>(), 8);
    assert_eq!(std::mem::size_of::<NvIoctlSysParams>(), 8);
    assert_eq!(std::mem::size_of::<NvIoctlWaitOpenComplete>(), 8);
    assert_eq!(std::mem::size_of::<NvIoctlNumaInfo>(), 560);
    assert_eq!(std::mem::size_of::<NvIoctlSetNumaStatus>(), 4);
    assert_eq!(std::mem::size_of::<NvIoctlExportToDmaBufFdPrefix>(), 40);

    assert_eq!(std::mem::size_of::<NvOs00Parameters>(), 16);
    assert_eq!(std::mem::size_of::<NvOs02Parameters>(), 48);
    assert_eq!(std::mem::size_of::<NvIoctlNvos02ParametersWithFd>(), 56);
    assert_eq!(std::mem::size_of::<NvOs05Parameters>(), 20);
    assert_eq!(std::mem::size_of::<NvOs21Parameters>(), 32);
    assert_eq!(std::mem::size_of::<NvOs64Parameters>(), 48);
    assert_eq!(std::mem::size_of::<NvOs33Parameters>(), 48);
    assert_eq!(std::mem::size_of::<NvIoctlNvos33ParametersWithFd>(), 56);
    assert_eq!(std::mem::size_of::<NvOs34Parameters>(), 32);

    assert_eq!(std::mem::size_of::<NvOs54Parameters>(), 32);
    assert_eq!(std::mem::align_of::<NvOs54Parameters>(), 8);

    assert_eq!(
        std::mem::size_of::<Nv0000CtrlClientGetAddrSpaceTypeParams>(),
        12
    );
    assert_eq!(
        std::mem::align_of::<Nv0000CtrlClientGetAddrSpaceTypeParams>(),
        4
    );

    assert_eq!(
        std::mem::size_of::<Nv0000CtrlOsUnixGetControlFileDescriptorParams>(),
        4
    );
    assert_eq!(
        std::mem::align_of::<Nv0000CtrlOsUnixGetControlFileDescriptorParams>(),
        4
    );

    assert_eq!(
        std::mem::size_of::<Nv0000CtrlSystemGetBuildVersionParams>(),
        40
    );
    assert_eq!(
        std::mem::align_of::<Nv0000CtrlSystemGetBuildVersionParams>(),
        8
    );
}

#[test]
fn gpu_prefixes_are_detected() {
    assert!(is_gpu_path("/dev/nvidia0"));
    assert!(is_gpu_path("/dev/nvidia-uvm"));
    assert!(is_gpu_path("/dev/dri/renderD128"));
}

#[test]
fn non_gpu_path_is_filtered() {
    assert!(!is_gpu_path("/tmp/abc"));
}

#[test]
fn leaf_line_has_no_braces() {
    let line = format_leaf_line(1, "foo", "x=1", "0", 7, "us");
    assert!(!line.contains("{"));
    assert!(!line.contains("} ="));
    assert!(line.contains("foo(x=1) = 0"));
}

#[test]
fn open_and_close_lines_keep_braces() {
    let open = format_open_line(0, "foo", "");
    let close = format_close_line(0, "0", 9, "us");
    assert!(open.ends_with(" {"));
    assert!(close.contains("} = 0"));
}

#[test]
fn golden_trace_line_format_stability() {
    let open = format_open_line(1, "cudaHostAlloc", "ptr=0x1, size=64, flags=0x0");
    let leaf = format_leaf_line(1, "close", "fd=7", "0", 5, "us");
    let close = format_close_line(1, "304", 1572, "us");

    assert_eq!(open, "\tcudaHostAlloc(ptr=0x1, size=64, flags=0x0) {");
    assert_eq!(leaf, "\tclose(fd=7) = 0  /* 5 us */");
    assert_eq!(close, "\t} = 304  /* 1572 us */");
}

#[test]
fn wrapper_table_covers_core_runtime_symbols() {
    assert!(wrapper_for_cudart_symbol("cudaMalloc").is_some());
    assert!(wrapper_for_cudart_symbol("cudaMemcpyAsync").is_some());
    assert!(wrapper_for_cudart_symbol("cudaUnknown").is_none());
}

#[test]
fn wrapper_table_covers_core_driver_symbols() {
    assert!(wrapper_for_driver_symbol("cuInit").is_some());
    assert!(wrapper_for_driver_symbol("cuMemAlloc_v2").is_some());
    assert!(wrapper_for_driver_symbol("cuGetProcAddress_v2").is_some());
    assert!(wrapper_for_driver_symbol("cuUnknownSymbol").is_none());
}

#[test]
fn dlsym_override_recognizes_known_symbol() {
    assert!(dlsym_override("cuInit").is_some());
    assert!(dlsym_override("cudaMalloc").is_some());
    assert!(dlsym_override("not_exists").is_none());
}

#[test]
fn thread_output_path_appends_tid_suffix() {
    let path = thread_output_path("./cudatrace.output", 1234);
    assert_eq!(path, "./cudatrace.output.tid-1234");
}

#[test]
fn bypass_blocks_hooks_in_scope() {
    let mut depth = BypassDepth::new();
    assert!(!hooks_blocked(&depth));
    let _guard = HookBypassGuard::enter(&mut depth);
    assert!(hooks_blocked(&depth));
}

#[test]
fn nested_bypass_scope_restores_state() {
    let mut depth = BypassDepth::new();
    {
        let outer = HookBypassGuard::enter(&mut depth);
        assert!(hooks_blocked(&depth));
        {
            let inner = HookBypassGuard::enter(&mut depth);
            assert!(hooks_blocked(&depth));
            inner.release(&mut depth);
        }
        assert!(hooks_blocked(&depth));
        outer.release(&mut depth);
    }
    assert!(!hooks_blocked(&depth));
}
