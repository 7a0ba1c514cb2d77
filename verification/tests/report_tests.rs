use minidump_analyzer::analyzer::{
    build_report, extract_registers, format_text, name_modules, report_symbol_keys, Amd64Registers,
    DumpException, DumpFrame, DumpModule, DumpState, DumpSystemInfo, DumpThread, RawContext,
    X86Registers,
};
use minidump_analyzer::Channel;

fn frame(name: Option<&str>, file: Option<&str>, line: Option<u32>) -> DumpFrame {
    DumpFrame {
        function_name: name.map(|s| s.to_string()),
        source_file_name: file.map(|s| s.to_string()),
        source_line: line,
    }
}

fn x86() -> X86Registers {
    X86Registers {
        eip: 0x401000,
        esp: 0x12FF00,
        ebp: 0x12FF40,
        eax: 0,
        ebx: 1,
        ecx: 2,
        edx: 3,
        esi: 4,
        edi: 5,
        eflags: 0x202,
    }
}

fn sample_modules() -> Vec<DumpModule> {
    vec![
        DumpModule {
            code_file: "/app/bin/game.exe".to_string(),
            debug_file: Some("/app/bin/game.pdb".to_string()),
            debug_id: Some("a1b2-c3".to_string()),
        },
        DumpModule { code_file: "/lib/x.dll".to_string(), debug_file: None, debug_id: None },
    ]
}

fn sample_state() -> DumpState {
    DumpState {
        requesting_thread: Some(0),
        threads: vec![
            DumpThread {
                frames: vec![
                    frame(Some("main"), Some("a.cpp"), Some(10)),
                    frame(Some("<unknown in x.dll>"), None, None),
                    frame(None, None, None),
                    frame(Some("<未知 模块>"), None, None),
                    frame(Some("start"), Some("crt.c"), Some(0)),
                    frame(Some("tail"), None, Some(3)),
                ],
            },
            DumpThread { frames: vec![frame(Some("worker"), None, None)] },
            DumpThread { frames: vec![] },
        ],
    }
}

fn sample_report(all: bool, regs: bool) -> minidump_analyzer::analyzer::CrashReport {
    let mods = sample_modules();
    let names = name_modules(&mods);
    let presence = vec![true, false];
    build_report(
        Some(DumpSystemInfo { os: "Windows".to_string(), cpu: "X86".to_string() }),
        Some(DumpException { code: 0xC0000005, address: 0x7FF6_1234 }),
        Some(mods),
        &names,
        &presence,
        Some(RawContext::X86(x86())),
        &sample_state(),
        all,
        regs,
        Channel::Pc,
    )
}

#[test]
fn file_names_come_from_the_path() {
    let names = name_modules(&sample_modules());
    assert_eq!(names[0].code_file_name.as_deref(), Some("game.exe"));
    assert_eq!(names[0].debug_file_name.as_deref(), Some("game.pdb"));
    assert_eq!(names[1].code_file_name.as_deref(), Some("x.dll"));
    assert_eq!(names[1].debug_file_name, None);
    let plain = vec![DumpModule {
        code_file: "kernel32.dll".to_string(),
        debug_file: Some("kernel32.pdb".to_string()),
        debug_id: None,
    }];
    let names = name_modules(&plain);
    assert_eq!(names[0].code_file_name.as_deref(), Some("kernel32.dll"));
    assert_eq!(names[0].debug_file_name.as_deref(), Some("kernel32.pdb"));
}

#[test]
fn report_symbol_keys_follow_debug_ids() {
    let mods = sample_modules();
    let names = name_modules(&mods);
    let keys = report_symbol_keys(&mods, &names);
    let k = keys[0].as_ref().unwrap();
    assert_eq!(k.pdb_name, "game.pdb");
    assert_eq!(k.breakpad_id, "A1B2C3");
    assert!(keys[1].is_none());
}

#[test]
fn report_rows() {
    let r = sample_report(false, true);
    assert_eq!(r.channel, Channel::Pc);
    let si = r.system_info.as_ref().unwrap();
    assert_eq!((si.os.as_str(), si.cpu.as_str()), ("Windows", "X86"));
    let e = r.exception.as_ref().unwrap();
    assert_eq!(e.code, "0xC0000005");
    assert_eq!(e.address, "0x000000007FF61234");
    assert_eq!(e.reason.as_deref(), Some("ACCESS_VIOLATION"));

    assert_eq!(r.modules.len(), 2);
    assert_eq!(r.modules[0].name, "game.exe");
    assert_eq!(r.modules[0].debug_file.as_deref(), Some("game.pdb"));
    assert_eq!(r.modules[0].debug_id.as_deref(), Some("A1B2C3"));
    assert!(r.modules[0].has_symbol);
    assert_eq!(r.modules[1].name, "x.dll");
    assert_eq!(r.modules[1].debug_file, None);
    assert_eq!(r.modules[1].debug_id, None);
    assert!(!r.modules[1].has_symbol);

    assert_eq!(r.threads.len(), 3);
    let t0 = &r.threads[0];
    assert!(t0.is_crash_thread);
    let names: Vec<&str> = t0.frames.iter().map(|f| f.function.as_str()).collect();
    assert_eq!(names, vec!["main", "start", "tail"]);
    for (j, f) in t0.frames.iter().enumerate() {
        assert_eq!(f.index, j);
    }
    assert_eq!(t0.frames[0].file.as_deref(), Some("a.cpp"));
    assert_eq!(t0.frames[0].line, Some(10));
    let regs = t0.registers.as_ref().unwrap();
    assert_eq!(regs.len(), 10);
    assert_eq!(regs[0].register, "eip");
    assert_eq!(regs[0].value, "0x00401000");
    assert!(!r.threads[1].is_crash_thread);
    assert!(r.threads[1].frames.is_empty());
    assert!(r.threads[1].registers.is_none());
}

#[test]
fn report_all_threads_without_registers() {
    let r = sample_report(true, false);
    assert!(r.threads[0].registers.is_none());
    assert_eq!(r.threads[1].frames.len(), 1);
    assert_eq!(r.threads[1].frames[0].function, "worker");
    assert!(r.threads[2].frames.is_empty());
}

#[test]
fn report_without_module_list() {
    let r = build_report(
        None,
        None,
        None,
        &vec![],
        &vec![],
        None,
        &DumpState { requesting_thread: None, threads: vec![DumpThread { frames: vec![] }] },
        false,
        true,
        Channel::Android,
    );
    assert!(r.system_info.is_none() && r.exception.is_none() && r.modules.is_empty());
    assert_eq!(r.threads.len(), 1);
    assert!(!r.threads[0].is_crash_thread);
    assert!(r.threads[0].registers.is_none());
}

#[test]
fn amd64_registers_in_order() {
    let c = Amd64Registers {
        rip: 0x1,
        rsp: 0x2,
        rbp: 0x3,
        rax: 0,
        rbx: 0,
        rcx: 0,
        rdx: 0,
        rsi: 0,
        rdi: 0,
        r8: 0,
        r9: 0,
        r10: 0,
        r11: 0,
        r12: 0,
        r13: 0,
        r14: 0,
        r15: 0xFFFF,
        eflags: 0x246,
    };
    let regs = extract_registers(&RawContext::Amd64(c));
    let names: Vec<&str> = regs.iter().map(|r| r.register.as_str()).collect();
    assert_eq!(
        names,
        vec![
            "rip", "rsp", "rbp", "rax", "rbx", "rcx", "rdx", "rsi", "rdi", "r8", "r9", "r10",
            "r11", "r12", "r13", "r14", "r15", "eflags"
        ]
    );
    assert_eq!(regs[0].value, "0x0000000000000001");
    assert_eq!(regs[16].value, "0x000000000000FFFF");
    assert_eq!(regs[17].value, "0x0000000000000246");
    assert!(extract_registers(&RawContext::Other).is_empty());
}

#[test]
fn text_of_crash_thread_only() {
    let r = sample_report(false, true);
    let text = format_text(&r, false, true);
    let mut expected = String::new();
    expected.push_str("渠道: Pc\n");
    expected.push_str("--- 系统信息 ---\n操作系统: Windows\nCPU 架构: X86\n");
    expected.push_str("\n--- 异常信息 ---\n异常码:  0xC0000005\n异常地址: 0x000000007FF61234\n异常原因: ACCESS_VIOLATION\n");
    expected.push_str("\n--- 模块列表 ---\n");
    expected.push_str(&format!("  {:<40} {:<30} {}{}\n", "game.exe", "game.pdb", "A1B2C3", " [sym]"));
    expected.push_str(&format!("  {:<40} <无调试信息>\n", "x.dll"));
    expected.push_str("\n--- 崩溃调用栈 (线程 #0) ---\n");
    expected.push_str("  寄存器:\n");
    expected.push_str("    eip    0x00401000  esp    0x0012FF00  ebp    0x0012FF40  eax    0x00000000\n");
    expected.push_str("    ebx    0x00000001  ecx    0x00000002  edx    0x00000003  esi    0x00000004\n");
    expected.push_str("    edi    0x00000005  eflags 0x00000202\n");
    expected.push_str(&format!("#{:>2} {:<50} ({})\n", 0, "main", "a.cpp:10"));
    expected.push_str(&format!("#{:>2} {:<50} ({})\n", 1, "start", "crt.c"));
    expected.push_str(&format!("#{:>2} {:<50} ({})\n", 2, "tail", "<未知位置>"));
    expected.push_str("\n其他 2 个线程的调用栈 (使用 --all-threads 查看)\n");
    assert_eq!(text, expected);
}

#[test]
fn text_of_all_threads() {
    let r = sample_report(true, false);
    let text = format_text(&r, true, false);
    assert!(text.contains("\n--- 线程 #1 ---\n"));
    assert!(text.contains(&format!("#{:>2} {:<50} ({})\n", 0, "worker", "<未知位置>")));
    assert!(text.contains("\n--- 线程 #2 ---\n  <无已解析的调用帧>\n"));
    assert!(!text.contains("寄存器"));
    assert!(!text.contains("其他"));
}

#[test]
fn relative_paths_name_their_last_component() {
    let mods = vec![DumpModule {
        code_file: "lib/libc.so.6".to_string(),
        debug_file: Some("dbg/libc.so.6.debug".to_string()),
        debug_id: None,
    }];
    let names = name_modules(&mods);
    assert_eq!(names[0].code_file_name.as_deref(), Some("libc.so.6"));
    assert_eq!(names[0].debug_file_name.as_deref(), Some("libc.so.6.debug"));
    let abs = vec![DumpModule {
        code_file: "/usr/lib/libc.so.6".to_string(),
        debug_file: None,
        debug_id: None,
    }];
    assert_eq!(name_modules(&abs)[0].code_file_name.as_deref(), Some("libc.so.6"));
}
