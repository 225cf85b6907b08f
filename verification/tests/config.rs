use cudatrace::config::{
    parse_left_meta, parse_max_blob, parse_trace_mask, Config, IoctlDecodeMode, LeftMetaMode, OutputMode,
    TimeUnit, TraceDomain,
};

#[test]
fn documented_defaults() {
    let cfg = Config::from_values(None, None, None, None, None, None, None, None);
    assert_eq!(cfg.output, OutputMode::File);
    assert_eq!(cfg.path, "./cudatrace.output");
    assert!(cfg.trace_enabled(TraceDomain::Cudart));
    assert!(cfg.trace_enabled(TraceDomain::Driver));
    assert!(cfg.trace_enabled(TraceDomain::Syscall));
    assert_eq!(cfg.ioctl_decode, IoctlDecodeMode::Full);
    assert_eq!(cfg.max_blob, 256);
    assert_eq!(cfg.time_unit, TimeUnit::Us);
    assert_eq!(cfg.left_meta, LeftMetaMode::Off);
    assert!(!cfg.ptrace_debug);
}

#[test]
fn documented_example_settings() {
    let cfg = Config::from_values(
        Some("stdout"),
        Some("/tmp/t"),
        Some("driver,syscall"),
        Some("header"),
        Some("64"),
        Some("ns"),
        Some("tid,ts"),
        Some("yes"),
    );
    assert_eq!(cfg.output, OutputMode::Stdout);
    assert_eq!(cfg.path, "/tmp/t");
    assert!(!cfg.trace_enabled(TraceDomain::Cudart));
    assert!(cfg.trace_enabled(TraceDomain::Driver));
    assert!(cfg.trace_enabled(TraceDomain::Syscall));
    assert_eq!(cfg.ioctl_decode, IoctlDecodeMode::Header);
    assert_eq!(cfg.max_blob, 64);
    assert_eq!(cfg.time_unit, TimeUnit::Ns);
    assert_eq!(cfg.left_meta, LeftMetaMode::TidTimestamp);
    assert!(cfg.ptrace_debug);
}

#[test]
fn setting_values() {
    assert_eq!(parse_left_meta(Some("tid")), LeftMetaMode::Tid);
    assert_eq!(parse_left_meta(Some("ts")), LeftMetaMode::Timestamp);
    assert_eq!(parse_left_meta(Some("timestamp")), LeftMetaMode::Timestamp);
    assert_eq!(parse_left_meta(Some("off")), LeftMetaMode::Off);
    let all = parse_trace_mask(Some("all"));
    assert!(all.cudart && all.driver && all.syscall);
    let one = parse_trace_mask(Some("cudart"));
    assert!(one.cudart && !one.driver && !one.syscall);
    assert_eq!(parse_max_blob(Some("12x")), 256);
    assert_eq!(parse_max_blob(Some("")), 256);
    assert_eq!(parse_max_blob(Some("99999999999999999999999")), 256);
    assert_eq!(parse_max_blob(Some("0")), 0);
    assert!(Config::from_values(None, None, None, Some("off"), None, None, None, None).ioctl_decode == IoctlDecodeMode::Off);
}
