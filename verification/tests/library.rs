use cudatrace::config::{IoctlDecodeMode, LeftMetaMode, OutputMode, TimeUnit};
use cudatrace::fgraph::{
    begin_capture_steps, control_payload, detect_tracefs_root, end_capture_steps, next_run_decision, reset_steps,
    runtime_config_step, tracers_support_function_graph, ControlStep, RunDecision, StepResult, TraceFsController,
};
use cudatrace::graph::{duration_for_config, enter, exit, CallStack, LineStyle};
use cudatrace::json::{json_quote, JsonObject};
use cudatrace::line_meta::{prepend_left_meta, timestamp_in_unit};
use cudatrace::logger::{log_action, write_progress, LogAction, LoggerSettings, LoggerTarget, WriteProgress};
use cudatrace::nvidia::{NvIoctlRmApiVersion, NvOfflineAddresses};
use cudatrace::reentry::{hooks_blocked, BypassDepth, HookBypassGuard};
use cudatrace::scope::{next_fgraph_window_seq, ScopeConfig, ThreadTraceState, TraceScope, WindowSeqTable};
use cudatrace::text::dec_string;
use cudatrace::uvm::{decode_uvm_ioctl, uvm_read_len};
use cudatrace::uvm_fields::{clamp_count, format_uuid, hex_nibble};
use cudatrace::uvm_table::{normalize_uvm_cmd, uvm_cmd_name};

fn style() -> LineStyle {
    LineStyle { tid: 7, meta: LeftMetaMode::Off, unit: TimeUnit::Us }
}

#[test]
fn json_quote_escapes_specials_and_controls() {
    assert_eq!(json_quote("plain"), "\"plain\"");
    assert_eq!(json_quote("a\"b\\c"), "\"a\\\"b\\\\c\"");
    assert_eq!(json_quote("x\ny\rz\tw"), "\"x\\ny\\rz\\tw\"");
    assert_eq!(json_quote("\u{1}\u{7f}\u{9f}"), "\"\\u0001\\u007f\\u009f\"");
    assert_eq!(json_quote("é"), "\"é\"");
    assert_eq!(json_quote(""), "\"\"");
}

#[test]
fn json_object_members_in_order() {
    let mut obj = JsonObject::new();
    obj.field_str("name", "cu\"Init");
    obj.field_bool("ok", true);
    obj.field_bool("bad", false);
    obj.field_i64("neg", -42);
    obj.field_i64("min", i64::MIN);
    obj.field_u64("max", u64::MAX);
    obj.field_raw("list", "[1,2]");
    assert_eq!(
        obj.finish(),
        "{\"name\":\"cu\\\"Init\",\"ok\":true,\"bad\":false,\"neg\":-42,\"min\":-9223372036854775808,\"max\":18446744073709551615,\"list\":[1,2]}"
    );
    assert_eq!(JsonObject::new().finish(), "{}");
}

#[test]
fn decimal_text() {
    assert_eq!(dec_string(0), "0");
    assert_eq!(dec_string(10), "10");
    assert_eq!(dec_string(1572), "1572");
}

fn le64(v: u64) -> Vec<u8> {
    v.to_le_bytes().to_vec()
}

#[test]
fn uvm_header_mode_only_reports_status() {
    let r = decode_uvm_ioctl(0x30000001, IoctlDecodeMode::Header, false, None, 256).unwrap();
    assert_eq!(r.json, "{\"status\":\"header\"}");
    assert_eq!(r.legacy, "");
    assert_eq!(uvm_read_len(0x30000001, IoctlDecodeMode::Header, false, 256), None);
}

#[test]
fn uvm_deinitialize_and_null_argument() {
    let r = decode_uvm_ioctl(0x30000002, IoctlDecodeMode::Full, true, None, 256).unwrap();
    assert_eq!(r.json, "{\"status\":\"ok\"}");
    let r = decode_uvm_ioctl(1, IoctlDecodeMode::Full, true, None, 256).unwrap();
    assert_eq!(r.json, "{\"status\":\"arg_null\"}");
}

#[test]
fn uvm_reserve_va_decoded() {
    let mut b = le64(0x7f00_0000_1000);
    b.extend(le64(4096));
    b.extend((-3i32).to_le_bytes());
    b.extend([0u8; 4]);
    assert_eq!(uvm_read_len(1, IoctlDecodeMode::Full, false, 256), Some(24));
    let r = decode_uvm_ioctl(1, IoctlDecodeMode::Full, false, Some(&b), 256).unwrap();
    assert_eq!(
        r.json,
        "{\"requestedBase\":\"0x7f0000001000\",\"length\":4096,\"rm_status\":-3,\"status\":\"ok\"}"
    );
    // the upper 32 bits of the command are ignored
    let r2 = decode_uvm_ioctl(0xabcd_0000_0001, IoctlDecodeMode::Full, false, Some(&b), 256).unwrap();
    assert_eq!(r2.json, r.json);
}

#[test]
fn uvm_unreadable_parameters() {
    let b = vec![0u8; 10];
    let r = decode_uvm_ioctl(1, IoctlDecodeMode::Full, false, Some(&b), 256).unwrap();
    assert_eq!(r.json, "{\"status\":\"arg_unreadable\"}");
    let r = decode_uvm_ioctl(1, IoctlDecodeMode::Full, false, None, 256).unwrap();
    assert_eq!(r.json, "{\"status\":\"arg_unreadable\"}");
}

#[test]
fn uvm_initialize_flags_in_hex() {
    let mut b = le64(0x30);
    b.extend(0i32.to_le_bytes());
    b.extend([0u8; 4]);
    let r = decode_uvm_ioctl(0x30000001, IoctlDecodeMode::Full, false, Some(&b), 256).unwrap();
    assert_eq!(r.json, "{\"flags\":\"0x30\",\"rm_status\":0,\"status\":\"ok\"}");
}

#[test]
fn uvm_stream_list_clamped_and_flagged() {
    // UVM_SET_STREAM_STOPPED: 32 stream ids, a count, a status
    let mut b = Vec::new();
    for i in 0..32u64 {
        b.extend(le64(i + 100));
    }
    b.extend(le64(2));
    b.extend(0i32.to_le_bytes());
    b.extend([0u8; 4]);
    assert_eq!(uvm_read_len(7, IoctlDecodeMode::Full, false, 256), Some(272));
    let r = decode_uvm_ioctl(7, IoctlDecodeMode::Full, false, Some(&b), 256).unwrap();
    assert_eq!(
        r.json,
        "{\"nStreams\":2,\"streamIds\":[100,101],\"truncated\":false,\"rm_status\":0,\"status\":\"ok\"}"
    );
    b[256..264].copy_from_slice(&le64(40));
    let r = decode_uvm_ioctl(7, IoctlDecodeMode::Full, false, Some(&b), 256).unwrap();
    let expected_ids: Vec<String> = (0..32u64).map(|i| (i + 100).to_string()).collect();
    assert_eq!(
        r.json,
        format!(
            "{{\"nStreams\":40,\"streamIds\":[{}],\"truncated\":true,\"rm_status\":0,\"status\":\"ok\"}}",
            expected_ids.join(",")
        )
    );
}

#[test]
fn uvm_uuid_and_flag_members() {
    // UVM_REGISTER_GPU
    let mut b: Vec<u8> = (0u8..16).collect();
    b.push(1);
    b.extend([0u8; 3]);
    b.extend((-1i32).to_le_bytes());
    b.extend(5i32.to_le_bytes());
    b.extend(0xabu32.to_le_bytes());
    b.extend(0x10u32.to_le_bytes());
    b.extend(0i32.to_le_bytes());
    let r = decode_uvm_ioctl(37, IoctlDecodeMode::Full, false, Some(&b), 256).unwrap();
    assert_eq!(
        r.json,
        "{\"gpu_uuid\":\"00010203-0405-0607-0809-0a0b0c0d0e0f\",\"numaEnabled\":true,\"numaNodeId\":-1,\
\"rmCtrlFd\":5,\"hClient\":\"0xab\",\"hSmcPartRef\":\"0x10\",\"rm_status\":0,\"status\":\"ok\"}"
    );
}

#[test]
fn uvm_counter_config_objects() {
    // UVM_ENABLE_COUNTERS: 32 configs of 28 bytes, a count and a status
    let mut b = Vec::new();
    for i in 0..32u32 {
        b.extend(i.to_le_bytes());
        b.extend((i + 1).to_le_bytes());
        b.extend([0xffu8; 16]);
        b.extend(9u32.to_le_bytes());
    }
    b.extend(1u32.to_le_bytes());
    b.extend(0i32.to_le_bytes());
    let r = decode_uvm_ioctl(12, IoctlDecodeMode::Full, false, Some(&b), 256).unwrap();
    assert_eq!(
        r.json,
        "{\"count\":1,\"config\":[{\"scope\":0,\"name\":1,\"gpu_uuid\":\"ffffffff-ffff-ffff-ffff-ffffffffffff\",\"state\":9}],\
\"truncated\":false,\"rm_status\":0,\"status\":\"ok\"}"
    );
}

#[test]
fn uvm_unknown_command_blob() {
    assert_eq!(uvm_read_len(9999, IoctlDecodeMode::Full, false, 4), Some(16));
    assert_eq!(uvm_read_len(9999, IoctlDecodeMode::Full, false, 256), Some(64));
    assert_eq!(uvm_read_len(9999, IoctlDecodeMode::Full, false, 20), Some(20));
    let mut b: Vec<u8> = vec![0x00, 0x1f, 0xa0, 0xff];
    b.extend(std::iter::repeat(0x11u8).take(14));
    let r = decode_uvm_ioctl(9999, IoctlDecodeMode::Full, false, Some(&b), 4).unwrap();
    assert_eq!(
        r.json,
        "{\"blob_hex\":\"001fa0ff111111111111111111111111\",\"status\":\"unknown_cmd\"}"
    );
}

#[test]
fn uvm_unknown_command_short_block_is_unreadable() {
    let b: Vec<u8> = vec![0x00, 0x1f, 0xa0, 0xff];
    let r = decode_uvm_ioctl(9999, IoctlDecodeMode::Full, false, Some(&b), 256).unwrap();
    assert_eq!(r.json, "{\"status\":\"arg_unreadable\"}");
}

#[test]
fn uvm_command_names() {
    assert_eq!(uvm_cmd_name(0x30000001), "UVM_INITIALIZE");
    assert_eq!(uvm_cmd_name(0x1234_0000_0023), "UVM_MEM_MAP");
    assert_eq!(uvm_cmd_name(2047), "UVM_IS_8_SUPPORTED");
    assert_eq!(uvm_cmd_name(9), "UNKNOWN");
    assert_eq!(normalize_uvm_cmd(0xffff_ffff_0000_0005), 5);
}

#[test]
fn small_formatters() {
    assert_eq!(clamp_count(5, 32), (5, false));
    assert_eq!(clamp_count(33, 32), (32, true));
    assert_eq!(clamp_count(32, 32), (32, false));
    assert_eq!(hex_nibble(9), '9');
    assert_eq!(hex_nibble(10), 'a');
    assert_eq!(hex_nibble(16), '?');
    let uuid = [0xde, 0xad, 0xbe, 0xef, 0, 1, 2, 3, 4, 5, 6, 7, 8, 9, 0xa, 0xb];
    assert_eq!(format_uuid(&uuid), "deadbeef-0001-0203-0405-060708090a0b");
}

#[test]
fn left_meta_prefixes() {
    assert_eq!(prepend_left_meta("x", 12345, 99, LeftMetaMode::Off, TimeUnit::Us), "x");
    assert_eq!(prepend_left_meta("x", 12345, 99, LeftMetaMode::Tid, TimeUnit::Us), "tid=12345  |  x");
    assert_eq!(prepend_left_meta("x", 12345, 99, LeftMetaMode::Timestamp, TimeUnit::Ns), "ts=99ns  |  x");
    assert_eq!(
        prepend_left_meta("x", 12345, 1739950000000000, LeftMetaMode::TidTimestamp, TimeUnit::Us),
        "tid=12345 ts=1739950000000000us  |  x"
    );
    assert_eq!(timestamp_in_unit(1_234_567, TimeUnit::Us), 1234);
    assert_eq!(timestamp_in_unit(1_234_567, TimeUnit::Ns), 1_234_567);
    assert_eq!(duration_for_config(5_999, TimeUnit::Us), (5, "us"));
}

#[test]
fn call_stack_leaf_and_nested() {
    let mut stack = CallStack::new();
    let (tok, lines) = enter(&mut stack, "cudaMalloc", "size=8".to_string(), 0, 1_000, false, style());
    assert!(lines.is_empty());
    let lines = exit(&mut stack, tok, "0", 6_000, false, style());
    assert_eq!(lines, vec!["cudaMalloc(size=8) = 0  /* 5 us */".to_string()]);
    assert_eq!(stack.depth(), 0);

    let (outer, l1) = enter(&mut stack, "cudaHostAlloc", "n=1".to_string(), 0, 0, false, style());
    assert!(l1.is_empty());
    let (inner, l2) = enter(&mut stack, "close", "fd=7".to_string(), 0, 0, false, style());
    assert_eq!(l2, vec!["cudaHostAlloc(n=1) {".to_string()]);
    let (inner2, l3) = enter(&mut stack, "ioctl", "".to_string(), 0, 0, false, style());
    assert_eq!(l3, vec!["\tclose(fd=7) {".to_string()]);
    assert_eq!(stack.depth(), 3);
    let l4 = exit(&mut stack, inner2, "0", 2_000, false, style());
    assert_eq!(l4, vec!["\t\tioctl() = 0  /* 2 us */".to_string()]);
    let l5 = exit(&mut stack, inner, "0", 3_000, false, style());
    assert_eq!(l5, vec!["\t} = 0  /* 3 us */".to_string()]);
    let l6 = exit(&mut stack, outer, "304", 1_572_000, false, style());
    assert_eq!(l6, vec!["} = 304  /* 1572 us */".to_string()]);
    let l7 = exit(&mut stack, cudatrace::graph::SpanToken, "0", 0, false, style());
    assert!(l7.is_empty());
}

#[test]
fn call_stack_forced_braces() {
    let mut stack = CallStack::new();
    let (tok, lines) = enter(&mut stack, "f", "a".to_string(), 3, 0, true, style());
    assert_eq!(lines, vec!["f(a) {".to_string()]);
    let lines = exit(&mut stack, tok, "1", 0, true, style());
    assert_eq!(lines, vec!["} = 1  /* 0 us */".to_string()]);
    let (tok, _) = enter(&mut stack, "g", "".to_string(), 3, 0, false, style());
    let lines = exit(&mut stack, tok, "1", 10_000, true, style());
    assert_eq!(lines, vec!["g() {".to_string(), "} = 1  /* 10 us */".to_string()]);
    let s = LineStyle { tid: 5, meta: LeftMetaMode::TidTimestamp, unit: TimeUnit::Ns };
    let (tok, _) = enter(&mut stack, "h", "".to_string(), 42, 0, false, s);
    let lines = exit(&mut stack, tok, "0", 10, false, s);
    assert_eq!(lines, vec!["tid=5 ts=42ns  |  h() = 0  /* 10 ns */".to_string()]);
}

#[test]
fn window_sequence_numbers_per_function() {
    let mut table = WindowSeqTable::new();
    assert_eq!(next_fgraph_window_seq(&mut table, "cuInit"), 1);
    assert_eq!(next_fgraph_window_seq(&mut table, "cuInit"), 2);
    assert_eq!(next_fgraph_window_seq(&mut table, "cudaMalloc"), 1);
    assert_eq!(next_fgraph_window_seq(&mut table, "cuInit"), 3);
    assert_eq!(next_fgraph_window_seq(&mut table, "cudaMalloc"), 2);
}

fn cfg(internal: bool, window: bool, enabled: bool) -> ScopeConfig {
    ScopeConfig { internal_tracer: internal, window_match: window, trace_enabled: enabled, eager_open: false, style: style() }
}

#[test]
fn trace_scope_decisions() {
    let mut state = ThreadTraceState::new();
    let mut seqs = WindowSeqTable::new();
    let (scope, fx) = TraceScope::enter(&mut state, &mut seqs, cfg(false, true, true), "cuInit", "flags=0x0".to_string(), 0, 0);
    assert_eq!(fx.window_enter, Some((1, 1)));
    assert!(fx.lines.is_empty());
    let fx = scope.finish(&mut state, "0", 4_000, false, style());
    assert_eq!(fx.window_exit, Some(0));
    assert_eq!(fx.lines, vec!["cuInit(flags=0x0) = 0  /* 4 us */".to_string()]);

    // the tracer's own thread does nothing
    let (scope, fx) = TraceScope::enter(&mut state, &mut seqs, cfg(true, true, true), "cuInit", String::new(), 0, 0);
    assert_eq!(fx.window_enter, None);
    let fx = scope.finish(&mut state, "0", 0, false, style());
    assert_eq!(fx.window_exit, None);
    assert!(fx.lines.is_empty());

    // a blocked thread neither traces nor opens windows
    let guard = HookBypassGuard::enter(&mut state.bypass);
    let (scope, fx) = TraceScope::enter(&mut state, &mut seqs, cfg(false, true, true), "cuInit", String::new(), 0, 0);
    assert_eq!(fx.window_enter, None);
    let fx = scope.finish(&mut state, "0", 0, false, style());
    assert!(fx.lines.is_empty());
    guard.release(&mut state.bypass);

    // a domain that is not traced still opens a window
    let (scope, fx) = TraceScope::enter_lazy(&mut state, &mut seqs, cfg(false, true, false), "cuInit", || "x".to_string(), 0, 0);
    assert_eq!(fx.window_enter, Some((1, 2)));
    let fx = scope.finish(&mut state, "0", 0, false, style());
    assert_eq!(fx.window_exit, Some(0));
    assert!(fx.lines.is_empty());
    assert_eq!(state.stack.depth(), 0);
}

#[test]
fn bypass_depth_saturates_at_zero() {
    let mut depth = BypassDepth::new();
    HookBypassGuard::unavailable().release(&mut depth);
    assert_eq!(depth.get(), 0);
    let g = HookBypassGuard::enter(&mut depth);
    assert_eq!(depth.get(), 1);
    g.release(&mut depth);
    assert!(!hooks_blocked(&depth));
}

#[test]
fn tracefs_plans() {
    assert!(tracers_support_function_graph("blk function_graph wakeup function nop"));
    assert!(tracers_support_function_graph("function_graph\n"));
    assert!(!tracers_support_function_graph("function_graphx nop"));
    assert!(!tracers_support_function_graph("function nop"));
    assert_eq!(control_payload(""), "\n");
    assert_eq!(control_payload("1"), "1");
    let steps = begin_capture_steps(1234, Some("cuInit"));
    assert_eq!(steps.len(), 7);
    match &steps[2] {
        ControlStep::Write { file, value } => {
            assert_eq!(*file, "set_ftrace_pid");
            assert_eq!(value, "1234");
        },
        _ => panic!("expected a write"),
    }
    match &steps[3] {
        ControlStep::GraphFunction { function } => assert_eq!(function.as_deref(), Some("cuInit")),
        _ => panic!("expected the graph function"),
    }
    assert_eq!(reset_steps().len(), 5);
    match runtime_config_step(4096) {
        ControlStep::Write { file, value } => {
            assert_eq!(file, "buffer_size_kb");
            assert_eq!(value, "4096");
        },
        _ => panic!("expected a write"),
    }
}

#[test]
fn logger_settings_from_output_mode() {
    match LoggerSettings::from_config(OutputMode::File, "./out").target {
        LoggerTarget::ThreadFiles { base_path } => assert_eq!(base_path, "./out"),
        _ => panic!("expected thread files"),
    }
    assert!(matches!(LoggerSettings::from_config(OutputMode::Stdout, "./out").target, LoggerTarget::Stdout));
}

#[test]
fn nvidia_defaults_are_zero() {
    let v = NvIoctlRmApiVersion::default();
    assert_eq!(v.cmd, 0);
    assert!(v.version_string.iter().all(|b| *b == 0));
    let a = NvOfflineAddresses::default();
    assert_eq!(a.num_entries, 0);
    assert!(a.addresses.iter().all(|x| *x == 0));
}

#[test]
fn log_destinations() {
    let files = LoggerSettings::from_config(OutputMode::File, "./cudatrace.output");
    match log_action(&files, None, 1234) {
        LogAction::OpenThreadFile { path } => assert_eq!(path, "./cudatrace.output.tid-1234"),
        _ => panic!("expected to open the thread file"),
    }
    assert!(matches!(log_action(&files, Some(9), 1234), LogAction::ThreadFile(9)));
    let stdout = LoggerSettings::from_config(OutputMode::Stdout, "./cudatrace.output");
    assert!(matches!(log_action(&stdout, None, 1), LogAction::Stdout));
    assert_eq!(write_progress(10, 4, 0), WriteProgress::Advance(4));
    assert_eq!(write_progress(10, -1, 4), WriteProgress::Retry);
    assert_eq!(write_progress(10, -1, 5), WriteProgress::Failed);
}

#[test]
fn tracefs_root_and_access_checks() {
    assert_eq!(detect_tracefs_root(&[true, true]), Some("/sys/kernel/tracing"));
    assert_eq!(detect_tracefs_root(&[false, true]), Some("/sys/kernel/debug/tracing"));
    assert_eq!(detect_tracefs_root(&[false, false]), None);
    match TraceFsController::init_or_fail(&[false, false]) {
        Err(e) => assert_eq!(e, "tracefs is not available under /sys/kernel/tracing or /sys/kernel/debug/tracing"),
        Ok(_) => panic!("expected no tracing root"),
    }
    let c = match TraceFsController::init_or_fail(&[false, true]) {
        Ok(c) => c,
        Err(_) => panic!("expected a tracing root"),
    };
    assert_eq!(c.path("trace"), "/sys/kernel/debug/tracing/trace");
    assert_eq!(c.missing_file_error(&[true; 6]), None);
    assert_eq!(
        c.missing_file_error(&[true, true, false, true, false, true]).as_deref(),
        Some("required tracefs file missing: /sys/kernel/debug/tracing/set_ftrace_pid")
    );
    match c.validate_access(&[true, true, true, true, true, false], "function_graph") {
        Err(e) => assert_eq!(e, "required tracefs file missing: /sys/kernel/debug/tracing/buffer_size_kb"),
        Ok(_) => panic!("expected a missing file"),
    }
    match c.validate_access(&[true; 6], "function nop") {
        Err(e) => assert_eq!(e, "kernel does not expose function_graph tracer"),
        Ok(_) => panic!("expected no function_graph tracer"),
    }
    match c.validate_access(&[true; 6], "function_graph function nop") {
        Ok(steps) => assert_eq!(steps.len(), 4),
        Err(e) => panic!("unexpected error {e}"),
    }
}

#[test]
fn control_sequences_stop_at_the_first_failed_write() {
    let steps = begin_capture_steps(7, Some("cuInit"));
    assert!(matches!(next_run_decision(&steps, &[]), RunDecision::Perform(0)));
    let results = vec![StepResult::Done, StepResult::Failed("failed to open x".to_string())];
    match next_run_decision(&steps, &results) {
        RunDecision::Finish(Err(e)) => assert_eq!(e, "failed to open x"),
        _ => panic!("expected the run to end"),
    }
    let results = vec![
        StepResult::Done,
        StepResult::Done,
        StepResult::Done,
        StepResult::Failed("graph function refused".to_string()),
    ];
    assert!(matches!(next_run_decision(&steps, &results), RunDecision::Perform(4)));
    let all: Vec<StepResult> = (0..7).map(|_| StepResult::Done).collect();
    assert!(matches!(next_run_decision(&steps, &all), RunDecision::Finish(Ok(None))));
    let end = end_capture_steps();
    let results = vec![
        StepResult::Done,
        StepResult::Read("# tracer: function_graph".to_string()),
        StepResult::Done,
        StepResult::Done,
        StepResult::Done,
    ];
    match next_run_decision(&end, &results) {
        RunDecision::Finish(Ok(Some(t))) => assert_eq!(t, "# tracer: function_graph"),
        _ => panic!("expected the trace text"),
    }
}

#[test]
fn uvm_command_names_are_distinct() {
    let mut seen = std::collections::HashMap::new();
    let codes = (0u64..0x800).chain([0x30000001u64, 0x30000002u64]);
    for code in codes {
        let name = uvm_cmd_name(code);
        assert_eq!(uvm_cmd_name(code | 0xabcd_0000_0000_0000), name);
        if name != "UNKNOWN" {
            assert!(seen.insert(name, code).is_none(), "{name} names two commands");
        }
    }
    assert_eq!(seen.len(), 72);
}

#[test]
fn uuid_text_shape_and_round_trip() {
    let uuid: [u8; 16] = [0x00, 0xff, 0x10, 0x9a, 0xab, 0xcd, 0xef, 0x01, 0x23, 0x45, 0x67, 0x89, 0xfe, 0xdc, 0xba, 0x98];
    let text = format_uuid(&uuid);
    assert_eq!(text.len(), 36);
    for (k, c) in text.chars().enumerate() {
        if [8, 13, 18, 23].contains(&k) {
            assert_eq!(c, '-');
        } else {
            assert!(c.is_ascii_hexdigit() && !c.is_ascii_uppercase());
        }
    }
    let digits: String = text.chars().filter(|c| *c != '-').collect();
    let back: Vec<u8> = (0..16).map(|i| u8::from_str_radix(&digits[2 * i..2 * i + 2], 16).unwrap()).collect();
    assert_eq!(back, uuid.to_vec());
}

#[test]
fn json_quote_has_no_control_characters() {
    let s = "a\u{0}b\u{1f}c\u{7f}d\u{85}\"\\\n\r\t é";
    let q = json_quote(s);
    assert!(q.starts_with('"') && q.ends_with('"'));
    assert!(!q.chars().any(|c| c.is_control()));
    assert_eq!(q, "\"a\\u0000b\\u001fc\\u007fd\\u0085\\\"\\\\\\n\\r\\t é\"");
}

#[test]
fn balanced_run_renders_the_call_tree() {
    let s = style();
    let mut stack = CallStack::new();
    let mut out: Vec<String> = Vec::new();
    let (a, l) = enter(&mut stack, "a", String::new(), 0, 0, false, s);
    out.extend(l);
    let (b, l) = enter(&mut stack, "b", String::new(), 0, 0, false, s);
    out.extend(l);
    out.extend(exit(&mut stack, b, "1", 1_000, false, s));
    let (c, l) = enter(&mut stack, "c", String::new(), 0, 0, false, s);
    out.extend(l);
    let (d, l) = enter(&mut stack, "d", String::new(), 0, 0, false, s);
    out.extend(l);
    out.extend(exit(&mut stack, d, "2", 2_000, false, s));
    out.extend(exit(&mut stack, c, "3", 3_000, false, s));
    out.extend(exit(&mut stack, a, "4", 4_000, false, s));
    assert_eq!(stack.depth(), 0);
    assert_eq!(
        out,
        vec![
            "a() {".to_string(),
            "\tb() = 1  /* 1 us */".to_string(),
            "\tc() {".to_string(),
            "\t\td() = 2  /* 2 us */".to_string(),
            "\t} = 3  /* 3 us */".to_string(),
            "} = 4  /* 4 us */".to_string(),
        ]
    );
}

#[test]
fn lazy_and_eager_entry_agree() {
    let mut state1 = ThreadTraceState::new();
    let mut seqs1 = WindowSeqTable::new();
    let mut state2 = ThreadTraceState::new();
    let mut seqs2 = WindowSeqTable::new();
    let (_, fx1) = TraceScope::enter(&mut state1, &mut seqs1, cfg(false, true, true), "f", "x=1".to_string(), 0, 0);
    let (_, fx2) = TraceScope::enter_lazy(&mut state2, &mut seqs2, cfg(false, true, true), "f", || "x=1".to_string(), 0, 0);
    assert_eq!(fx1.window_enter, fx2.window_enter);
    assert_eq!(fx1.lines, fx2.lines);
    assert_eq!(state1.stack.depth(), state2.stack.depth());
    // a blocked thread leaves the window numbers alone
    let guard = HookBypassGuard::enter(&mut state2.bypass);
    let (_, fx) = TraceScope::enter_lazy(&mut state2, &mut seqs2, cfg(false, true, true), "f", || panic!("not needed"), 0, 0);
    assert_eq!(fx.window_enter, None);
    guard.release(&mut state2.bypass);
    assert_eq!(next_fgraph_window_seq(&mut seqs2, "f"), 2);
}
