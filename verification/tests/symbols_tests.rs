use minidump_analyzer::symbols::{
    self, conversion_outcome, download_outcome, fetch_action, fetch_key, FetchAction, FetchTally,
};

#[test]
fn breakpad_id_drops_dashes_and_uppercases() {
    assert_eq!(symbols::guid_to_breakpad_id("0f-a"), "0FA");
    assert_eq!(symbols::guid_to_breakpad_id(""), "");
    assert_eq!(symbols::guid_to_breakpad_id("----"), "");
}

#[test]
fn breakpad_id_uppercases_non_ascii_letters() {
    // 'ß' upper-cases to "SS" and 'é' to 'É' under the Unicode mapping.
    assert_eq!(symbols::guid_to_breakpad_id("ab-ß"), "ABSS");
    assert_eq!(symbols::guid_to_breakpad_id("é-1"), "É1");
}

#[test]
fn breakpad_id_is_idempotent() {
    let once = symbols::guid_to_breakpad_id("a1b2c3d4-e5f6-7890-abcd-ef1234567890");
    let twice = symbols::guid_to_breakpad_id(&once);
    assert_eq!(once, twice);
}

#[test]
fn sym_file_name_replaces_pdb_extension() {
    assert_eq!(symbols::sym_file_name("ntdll.pdb"), "ntdll.sym");
    assert_eq!(symbols::sym_file_name("test.pdb"), "test.sym");
    assert_eq!(symbols::sym_file_name("noext"), "noext");
    assert_eq!(symbols::pdb_stem("ntdll.pdb"), "ntdll");
}

#[test]
fn symbol_url_layout() {
    assert_eq!(
        symbols::symbol_url("ntdll.pdb", "ABC123"),
        "https://msdl.microsoft.com/download/symbols/ntdll.pdb/ABC123/ntdll.pdb"
    );
}

#[test]
fn fetch_action_decisions() {
    assert_eq!(fetch_action(true, true, true, true), FetchAction::AlreadyPresent);
    assert_eq!(fetch_action(false, true, true, true), FetchAction::ConvertLocal);
    assert_eq!(fetch_action(false, true, false, true), FetchAction::Download);
    assert_eq!(fetch_action(false, false, true, true), FetchAction::Download);
    assert_eq!(fetch_action(false, false, true, false), FetchAction::Leave);
}

#[test]
fn fetch_key_needs_debug_file_and_id() {
    let df = Some("c:\\symbols\\ntdll.pdb".to_string());
    let id = Some("a1-b2".to_string());
    let k = fetch_key(&df, &id, Some("ntdll.pdb".to_string())).unwrap();
    assert_eq!(k.pdb_name, "ntdll.pdb");
    assert_eq!(k.breakpad_id, "A1B2");
    let k = fetch_key(&df, &id, None).unwrap();
    assert_eq!(k.pdb_name, "c:\\symbols\\ntdll.pdb");
    assert!(fetch_key(&None, &id, None).is_none());
    assert!(fetch_key(&df, &None, None).is_none());
}

#[test]
fn tally_counts_and_summary() {
    let mut t = FetchTally::new();
    t.record_module(FetchAction::AlreadyPresent);
    t.record_module(FetchAction::Download);
    t.record_module(FetchAction::ConvertLocal);
    t.record_module(FetchAction::Leave);
    t.record_result(true);
    t.record_result(false);
    assert_eq!((t.total, t.skipped, t.spawned, t.ok, t.fail), (4, 1, 2, 1, 1));
    assert!(t.ok + t.fail + t.skipped <= t.total);
    assert_eq!(t.summary(), "\n符号获取完成: 总计=4, 成功=1, 跳过(已存在)=1, 失败=1");
}

#[test]
fn download_and_conversion_outcomes() {
    assert_eq!(
        download_outcome(false, "404 Not Found", 10),
        Err("HTTP 404 Not Found: 符号可能不存在".to_string())
    );
    assert_eq!(download_outcome(true, "200 OK", 0), Err("下载的文件为空".to_string()));
    assert_eq!(download_outcome(true, "200 OK", 5), Ok(()));
    assert_eq!(
        conversion_outcome(false, "bad pdb"),
        Err("dump_syms 执行失败: bad pdb".to_string())
    );
    assert_eq!(conversion_outcome(true, ""), Ok(()));
}

#[test]
fn symbol_file_lies_below_pdb_and_id() {
    assert_eq!(
        symbols::symbol_file_parts("ntdll.pdb", "ABC123"),
        vec!["ntdll.pdb".to_string(), "ABC123".to_string(), "ntdll.sym".to_string()]
    );
}
