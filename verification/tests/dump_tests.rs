use minidump_analyzer::analyzer::{DumpException, DumpSystemInfo};
use minidump_analyzer::channel::AnalysisPlan;
use minidump_analyzer::dump::{prepare_analysis, read_context, read_dump_streams};

fn put_u16(out: &mut Vec<u8>, v: u16) {
    out.extend_from_slice(&v.to_le_bytes());
}

fn put_u32(out: &mut Vec<u8>, v: u32) {
    out.extend_from_slice(&v.to_le_bytes());
}

fn put_u64(out: &mut Vec<u8>, v: u64) {
    out.extend_from_slice(&v.to_le_bytes());
}

/// A minidump header with `stream_count` directory entries right after it.
fn header(version: u32, stream_count: u32) -> Vec<u8> {
    let mut out = Vec::new();
    put_u32(&mut out, 0x504d_444d);
    put_u32(&mut out, version);
    put_u32(&mut out, stream_count);
    put_u32(&mut out, 32);
    put_u32(&mut out, 0);
    put_u32(&mut out, 0);
    put_u64(&mut out, 0);
    out
}

/// A little-endian dump of a 64-bit Windows process that crashed with an
/// access violation at 0x7FF6_1234_5678; its thread context is empty.
fn windows_dump() -> Vec<u8> {
    let mut out = header(0xa793, 2);
    // directory: system info (56 bytes at 56), exception (168 bytes at 112)
    put_u32(&mut out, 7);
    put_u32(&mut out, 56);
    put_u32(&mut out, 56);
    put_u32(&mut out, 6);
    put_u32(&mut out, 168);
    put_u32(&mut out, 112);
    assert_eq!(out.len(), 56);
    // system info
    put_u16(&mut out, 9); // x86-64
    put_u16(&mut out, 6);
    put_u16(&mut out, 0);
    out.push(1);
    out.push(1);
    put_u32(&mut out, 10);
    put_u32(&mut out, 0);
    put_u32(&mut out, 19041);
    put_u32(&mut out, 2); // Windows NT
    put_u32(&mut out, 0);
    put_u16(&mut out, 0);
    put_u16(&mut out, 0);
    out.extend_from_slice(&[0u8; 24]);
    assert_eq!(out.len(), 112);
    // exception stream
    put_u32(&mut out, 1);
    put_u32(&mut out, 0);
    put_u32(&mut out, 0xC000_0005);
    put_u32(&mut out, 0);
    put_u64(&mut out, 0);
    put_u64(&mut out, 0x7FF6_1234_5678);
    put_u32(&mut out, 0);
    put_u32(&mut out, 0);
    out.extend_from_slice(&[0u8; 120]);
    put_u32(&mut out, 0);
    put_u32(&mut out, 0);
    assert_eq!(out.len(), 280);
    out
}

#[test]
fn empty_bytes_are_no_dump() {
    assert_eq!(
        prepare_analysis(&[], false, false, false).unwrap_err(),
        "Missing minidump header (empty minidump?)"
    );
}

#[test]
fn wrong_signature_or_version_is_refused() {
    assert_eq!(prepare_analysis(&[0u8; 32], false, false, false).unwrap_err(), "Header mismatch");
    assert_eq!(
        prepare_analysis(&header(0x1234, 0), false, false, false).unwrap_err(),
        "Minidump version mismatch"
    );
}

#[test]
fn dump_without_streams_has_nothing_to_report() {
    let (streams, plan) = prepare_analysis(&header(0xa793, 0), false, false, true).unwrap();
    assert_eq!(streams.system_info, None);
    assert_eq!(streams.exception, None);
    assert_eq!(streams.modules, None);
    assert_eq!(streams.context, None);
    assert_eq!(plan, AnalysisPlan::new(false, false, true));
}

#[test]
fn system_info_and_exception_are_read() {
    let bytes = windows_dump();
    let (streams, plan) = prepare_analysis(&bytes, true, false, false).unwrap();
    assert_eq!(
        streams.system_info,
        Some(DumpSystemInfo { os: "Windows".to_string(), cpu: "X86_64".to_string() })
    );
    assert_eq!(
        streams.exception,
        Some(DumpException { code: 0xC000_0005, address: 0x7FF6_1234_5678 })
    );
    assert_eq!(streams.modules, None);
    assert_eq!(streams.context, None);
    assert!(plan.prefetch_symbols && plan.stop_after_prefetch && !plan.want_context);
}

#[test]
fn empty_thread_context_gives_no_registers() {
    let bytes = windows_dump();
    assert_eq!(read_context(&bytes), None);
    let streams = read_dump_streams(&bytes, true);
    assert_eq!(streams.context, None);
    assert!(streams.exception.is_some());
}
