use minidump_analyzer::mcp::{
    analyze_dump_reply, default_cache_dir, default_symbols_dir, download_symbols_reply,
    download_symbols_refusal, dump_syms_unavailable_reply, AnalyzeDumpInput, DownloadSymbolsInput,
};

#[test]
fn request_defaults() {
    assert_eq!(default_symbols_dir(), "./symbols");
    assert_eq!(default_cache_dir(), "./sym_cache");
    let a = AnalyzeDumpInput::new("crash.dmp".to_string());
    assert_eq!(a.dmp_path, "crash.dmp");
    assert_eq!(a.symbols_dir, "./symbols");
    assert_eq!(a.cache_dir, "./sym_cache");
    assert!(a.pdb_dir.is_none() && !a.all_threads && !a.registers);
    let d = DownloadSymbolsInput::new("crash.dmp".to_string());
    assert_eq!(d.cache_dir, "./sym_cache");
    assert!(d.pdb_dir.is_none());
}

#[test]
fn analysis_replies() {
    assert_eq!(analyze_dump_reply(Ok(Ok("{}".to_string()))), "{}");
    assert_eq!(
        analyze_dump_reply(Ok(Err("bad".to_string()))),
        "JSON serialization failed: bad"
    );
    assert_eq!(analyze_dump_reply(Err("no file".to_string())), "Analysis failed: no file");
}

#[test]
fn download_replies() {
    assert_eq!(
        download_symbols_reply(Ok(())),
        "Symbol download/conversion completed successfully. Run analyze_dump to analyze the crash now."
    );
    assert_eq!(download_symbols_reply(Err("x".to_string())), "Symbol download failed: x");
    assert_eq!(
        dump_syms_unavailable_reply("not found"),
        "dump_syms not available: not found. Install with: cargo install dump_syms"
    );
}

#[test]
fn symbol_requests_need_dump_syms_only_with_a_pdb_dir() {
    assert_eq!(download_symbols_refusal(false, Err("not found".to_string())), None);
    assert_eq!(download_symbols_refusal(true, Ok(())), None);
    assert_eq!(download_symbols_refusal(false, Ok(())), None);
    assert_eq!(
        download_symbols_refusal(true, Err("not found".to_string())),
        Some(
            "dump_syms not available: not found. Install with: cargo install dump_syms"
                .to_string()
        )
    );
}
