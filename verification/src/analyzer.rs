//! The crash report: the data read from a dump (as plain values), the report
//! built from it, register extraction, exception naming, and the text
//! rendering of a report.
use vstd::prelude::*;
use vstd::string::*;

use crate::platform::{file_name_facts, path_file_name};
use crate::symbols::{breakpad_id, guid_to_breakpad_id, key_view, opt_view, SymbolKey};
use crate::text::{
    dec_digits, decimal, has_prefix, hex32, hex32_text, hex64, hex64_text, hex_digits, pad_left,
    pad_right,
    push_decimal, push_padded_left, push_padded_right, starts_with,
};
use crate::{channel_debug_spec, Channel};

verus! {

// ── Output data structures ────────────────────────────────────────────

/// The result of analysing one dump.
#[derive(Clone, Debug, PartialEq, Eq)]
pub struct CrashReport {
    pub channel: Channel,
    pub system_info: Option<SystemInfoOutput>,
    pub exception: Option<ExceptionOutput>,
    pub modules: Vec<ModuleOutput>,
    pub threads: Vec<ThreadOutput>,
}

/// Operating system and CPU of the crashed machine.
#[derive(Clone, Debug, PartialEq, Eq)]
pub struct SystemInfoOutput {
    pub os: String,
    pub cpu: String,
}

/// The exception that ended the process.
#[derive(Clone, Debug, PartialEq, Eq)]
pub struct ExceptionOutput {
    pub code: String,
    pub address: String,
    pub reason: Option<String>,
}

/// One loaded module and whether its symbols are at hand.
#[derive(Clone, Debug, PartialEq, Eq)]
pub struct ModuleOutput {
    pub name: String,
    pub debug_file: Option<String>,
    pub debug_id: Option<String>,
    pub has_symbol: bool,
}

/// One thread with its resolved frames and, for the crashing thread, its
/// registers.
#[derive(Clone, Debug, PartialEq, Eq)]
pub struct ThreadOutput {
    pub index: usize,
    pub is_crash_thread: bool,
    pub registers: Option<Vec<RegisterOutput>>,
    pub frames: Vec<FrameOutput>,
}

/// A register name with its value in hexadecimal.
#[derive(Clone, Debug, PartialEq, Eq)]
pub struct RegisterOutput {
    pub register: String,
    pub value: String,
}

/// A stack frame whose function is known.
#[derive(Clone, Debug, PartialEq, Eq)]
pub struct FrameOutput {
    pub index: usize,
    pub function: String,
    pub file: Option<String>,
    pub line: Option<u32>,
}

// ── Dump data, as read from the minidump ──────────────────────────────

/// Operating system and CPU as the dump names them.
#[derive(Clone, Debug, PartialEq, Eq)]
pub struct DumpSystemInfo {
    pub os: String,
    pub cpu: String,
}

/// The exception record of the dump.
#[derive(Clone, Copy, Debug, PartialEq, Eq)]
pub struct DumpException {
    pub code: u32,
    pub address: u64,
}

/// A module of the dump's module list; `debug_id` is its debug identifier
/// in GUID form.
#[derive(Clone, Debug, PartialEq, Eq)]
pub struct DumpModule {
    pub code_file: String,
    pub debug_file: Option<String>,
    pub debug_id: Option<String>,
}

/// What `Path::file_name` gave for a module's code file and debug file.
#[derive(Clone, Debug, PartialEq, Eq)]
pub struct ModuleFileNames {
    pub code_file_name: Option<String>,
    pub debug_file_name: Option<String>,
}

/// A stack frame after symbolication.
#[derive(Clone, Debug, PartialEq, Eq)]
pub struct DumpFrame {
    pub function_name: Option<String>,
    pub source_file_name: Option<String>,
    pub source_line: Option<u32>,
}

/// The frames of one thread.
#[derive(Clone, Debug, PartialEq, Eq)]
pub struct DumpThread {
    pub frames: Vec<DumpFrame>,
}

/// The processed state: all threads, and which one requested the dump.
#[derive(Clone, Debug, PartialEq, Eq)]
pub struct DumpState {
    pub requesting_thread: Option<usize>,
    pub threads: Vec<DumpThread>,
}

/// General registers of an x86-64 CPU context.
#[derive(Clone, Copy, Debug, PartialEq, Eq)]
pub struct Amd64Registers {
    pub rip: u64,
    pub rsp: u64,
    pub rbp: u64,
    pub rax: u64,
    pub rbx: u64,
    pub rcx: u64,
    pub rdx: u64,
    pub rsi: u64,
    pub rdi: u64,
    pub r8: u64,
    pub r9: u64,
    pub r10: u64,
    pub r11: u64,
    pub r12: u64,
    pub r13: u64,
    pub r14: u64,
    pub r15: u64,
    pub eflags: u32,
}

/// General registers of an x86 CPU context.
#[derive(Clone, Copy, Debug, PartialEq, Eq)]
pub struct X86Registers {
    pub eip: u32,
    pub esp: u32,
    pub ebp: u32,
    pub eax: u32,
    pub ebx: u32,
    pub ecx: u32,
    pub edx: u32,
    pub esi: u32,
    pub edi: u32,
    pub eflags: u32,
}

/// General registers of an ARM64 CPU context.
#[derive(Clone, Copy, Debug, PartialEq, Eq)]
pub struct Arm64Registers {
    pub iregs: [u64; 31],
    pub sp: u64,
    pub pc: u64,
    pub cpsr: u32,
}

/// The CPU context of the crashing thread, by architecture.
#[derive(Clone, Copy, Debug, PartialEq, Eq)]
pub enum RawContext {
    Amd64(Amd64Registers),
    X86(X86Registers),
    Arm64(Arm64Registers),
    OldArm64(Arm64Registers),
    /// Any other architecture: no registers are shown.
    Other,
}

// ── Exception reason mapping ──────────────────────────────────────────

/// Symbolic name of a Windows exception code.
pub open spec fn exception_reason_spec(code: u32) -> Seq<char> {
    if code == 0xC0000005 {
        "ACCESS_VIOLATION"@
    } else if code == 0xC0000094 {
        "INT_DIVIDE_BY_ZERO"@
    } else if code == 0xC00000FD {
        "STACK_OVERFLOW"@
    } else if code == 0xC0000096 {
        "PRIV_INSTRUCTION"@
    } else if code == 0xC000001D {
        "ILLEGAL_INSTRUCTION"@
    } else if code == 0xC0000006 {
        "IN_PAGE_ERROR"@
    } else if code == 0xC0000017 {
        "NO_MEMORY"@
    } else if code == 0x80000003 {
        "BREAKPOINT"@
    } else if code == 0x80000004 {
        "SINGLE_STEP"@
    } else {
        "UNKNOWN"@
    }
}

/// Names a Windows exception code; codes outside the table are `UNKNOWN`.
pub fn exception_reason(code: u32) -> (r: &'static str)
    ensures
        r@ == exception_reason_spec(code),
{
    match code {
        0xC0000005 => "ACCESS_VIOLATION",
        0xC0000094 => "INT_DIVIDE_BY_ZERO",
        0xC00000FD => "STACK_OVERFLOW",
        0xC0000096 => "PRIV_INSTRUCTION",
        0xC000001D => "ILLEGAL_INSTRUCTION",
        0xC0000006 => "IN_PAGE_ERROR",
        0xC0000017 => "NO_MEMORY",
        0x80000003 => "BREAKPOINT",
        0x80000004 => "SINGLE_STEP",
        _ => "UNKNOWN",
    }
}

// ── Register extraction ───────────────────────────────────────────────

/// A register as a (name, value text) pair.
pub open spec fn reg_view(r: RegisterOutput) -> (Seq<char>, Seq<char>) {
    (r.register@, r.value@)
}

/// The registers of a list as (name, value text) pairs.
pub open spec fn regs_view(v: Seq<RegisterOutput>) -> Seq<(Seq<char>, Seq<char>)> {
    v.map_values(|r: RegisterOutput| reg_view(r))
}

/// Name of the `i`-th general ARM64 register: `x0`..`x28`, `fp`, `lr`.
pub open spec fn arm64_reg_name(i: int) -> Seq<char> {
    if i < 29 {
        "x"@ + dec_digits(i as nat)
    } else if i == 29 {
        "fp"@
    } else {
        "lr"@
    }
}

/// The ARM64 registers in output order: the 31 general registers, then
/// `sp`, `pc` and `cpsr`, each as `0x` and sixteen hex digits.
pub open spec fn arm64_register_list(iregs: Seq<u64>, sp: u64, pc: u64, cpsr: u32) -> Seq<
    (Seq<char>, Seq<char>),
> {
    Seq::new(31, |i: int| (arm64_reg_name(i), hex64_text(iregs[i]))).push(
        ("sp"@, hex64_text(sp)),
    ).push(("pc"@, hex64_text(pc))).push(("cpsr"@, hex64_text(cpsr as u64)))
}

/// The x86-64 registers in output order, sixteen hex digits each.
pub open spec fn amd64_register_list(c: Amd64Registers) -> Seq<(Seq<char>, Seq<char>)> {
    seq![
        ("rip"@, hex64_text(c.rip)),
        ("rsp"@, hex64_text(c.rsp)),
        ("rbp"@, hex64_text(c.rbp)),
        ("rax"@, hex64_text(c.rax)),
        ("rbx"@, hex64_text(c.rbx)),
        ("rcx"@, hex64_text(c.rcx)),
        ("rdx"@, hex64_text(c.rdx)),
        ("rsi"@, hex64_text(c.rsi)),
        ("rdi"@, hex64_text(c.rdi)),
        ("r8"@, hex64_text(c.r8)),
        ("r9"@, hex64_text(c.r9)),
        ("r10"@, hex64_text(c.r10)),
        ("r11"@, hex64_text(c.r11)),
        ("r12"@, hex64_text(c.r12)),
        ("r13"@, hex64_text(c.r13)),
        ("r14"@, hex64_text(c.r14)),
        ("r15"@, hex64_text(c.r15)),
        ("eflags"@, hex64_text(c.eflags as u64)),
    ]
}

/// The x86 registers in output order, eight hex digits each.
pub open spec fn x86_register_list(c: X86Registers) -> Seq<(Seq<char>, Seq<char>)> {
    seq![
        ("eip"@, hex32_text(c.eip)),
        ("esp"@, hex32_text(c.esp)),
        ("ebp"@, hex32_text(c.ebp)),
        ("eax"@, hex32_text(c.eax)),
        ("ebx"@, hex32_text(c.ebx)),
        ("ecx"@, hex32_text(c.ecx)),
        ("edx"@, hex32_text(c.edx)),
        ("esi"@, hex32_text(c.esi)),
        ("edi"@, hex32_text(c.edi)),
        ("eflags"@, hex32_text(c.eflags)),
    ]
}

/// The registers shown for a CPU context; none for other architectures.
pub open spec fn register_list(ctx: RawContext) -> Seq<(Seq<char>, Seq<char>)> {
    match ctx {
        RawContext::Amd64(c) => amd64_register_list(c),
        RawContext::X86(c) => x86_register_list(c),
        RawContext::Arm64(c) => arm64_register_list(c.iregs@, c.sp, c.pc, c.cpsr),
        RawContext::OldArm64(c) => arm64_register_list(c.iregs@, c.sp, c.pc, c.cpsr),
        RawContext::Other => seq![],
    }
}

/// Appends a register with its value text.
fn push_register(out: &mut Vec<RegisterOutput>, name: &str, value: String)
    ensures
        regs_view(final(out)@) == regs_view(old(out)@).push((name@, value@)),
{
    out.push(RegisterOutput { register: String::from_str(name), value });
    assert(regs_view(out@) =~= regs_view(old(out)@).push((name@, value@)));
}

/// Name of the `i`-th general ARM64 register.
fn arm64_name(i: usize) -> (r: String)
    requires
        i < 31,
    ensures
        r@ == arm64_reg_name(i as int),
{
    if i < 29 {
        let mut r = String::new();
        r.append("x");
        push_decimal(&mut r, i as u64);
        r
    } else if i == 29 {
        String::from_str("fp")
    } else {
        String::from_str("lr")
    }
}

/// The ARM64 registers `x0`..`x28`, `fp`, `lr`, `sp`, `pc`, `cpsr`, each
/// with its value as `0x` and sixteen upper-case hex digits.
pub fn extract_arm64_regs(iregs: &[u64; 31], sp: u64, pc: u64, cpsr: u32) -> (r: Vec<
    RegisterOutput,
>)
    ensures
        regs_view(r@) == arm64_register_list(iregs@, sp, pc, cpsr),
{
    let mut out: Vec<RegisterOutput> = Vec::new();
    let mut i: usize = 0;
    while i < 31
        invariant
            i <= 31,
            iregs@.len() == 31,
            regs_view(out@) == Seq::new(
                i as nat,
                |k: int| (arm64_reg_name(k), hex64_text(iregs@[k])),
            ),
        decreases 31 - i,
    {
        let name = arm64_name(i);
        push_register(&mut out, name.as_str(), hex64(iregs[i]));
        i = i + 1;
        assert(regs_view(out@) =~= Seq::new(
            i as nat,
            |k: int| (arm64_reg_name(k), hex64_text(iregs@[k])),
        ));
    }
    push_register(&mut out, "sp", hex64(sp));
    push_register(&mut out, "pc", hex64(pc));
    push_register(&mut out, "cpsr", hex64(cpsr as u64));
    out
}

/// The registers of a CPU context in output order: x86-64 and x86 general
/// registers, the ARM64 register file, and none for other architectures.
pub fn extract_registers(context: &RawContext) -> (r: Vec<RegisterOutput>)
    ensures
        regs_view(r@) == register_list(*context),
{
    let mut out: Vec<RegisterOutput> = Vec::new();
    match context {
        RawContext::Amd64(c) => {
            push_register(&mut out, "rip", hex64(c.rip));
            push_register(&mut out, "rsp", hex64(c.rsp));
            push_register(&mut out, "rbp", hex64(c.rbp));
            push_register(&mut out, "rax", hex64(c.rax));
            push_register(&mut out, "rbx", hex64(c.rbx));
            push_register(&mut out, "rcx", hex64(c.rcx));
            push_register(&mut out, "rdx", hex64(c.rdx));
            push_register(&mut out, "rsi", hex64(c.rsi));
            push_register(&mut out, "rdi", hex64(c.rdi));
            push_register(&mut out, "r8", hex64(c.r8));
            push_register(&mut out, "r9", hex64(c.r9));
            push_register(&mut out, "r10", hex64(c.r10));
            push_register(&mut out, "r11", hex64(c.r11));
            push_register(&mut out, "r12", hex64(c.r12));
            push_register(&mut out, "r13", hex64(c.r13));
            push_register(&mut out, "r14", hex64(c.r14));
            push_register(&mut out, "r15", hex64(c.r15));
            push_register(&mut out, "eflags", hex64(c.eflags as u64));
            assert(regs_view(out@) =~= amd64_register_list(*c));
            out
        },
        RawContext::X86(c) => {
            push_register(&mut out, "eip", hex32(c.eip));
            push_register(&mut out, "esp", hex32(c.esp));
            push_register(&mut out, "ebp", hex32(c.ebp));
            push_register(&mut out, "eax", hex32(c.eax));
            push_register(&mut out, "ebx", hex32(c.ebx));
            push_register(&mut out, "ecx", hex32(c.ecx));
            push_register(&mut out, "edx", hex32(c.edx));
            push_register(&mut out, "esi", hex32(c.esi));
            push_register(&mut out, "edi", hex32(c.edi));
            push_register(&mut out, "eflags", hex32(c.eflags));
            assert(regs_view(out@) =~= x86_register_list(*c));
            out
        },
        RawContext::Arm64(c) => extract_arm64_regs(&c.iregs, c.sp, c.pc, c.cpsr),
        RawContext::OldArm64(c) => extract_arm64_regs(&c.iregs, c.sp, c.pc, c.cpsr),
        RawContext::Other => {
            assert(regs_view(out@) =~= Seq::<(Seq<char>, Seq<char>)>::empty());
            out
        },
    }
}

// ── Report builder ────────────────────────────────────────────────────

/// `name` when `Path::file_name` found one, else the whole path.
pub open spec fn file_name_or(name: Option<String>, whole: Seq<char>) -> Seq<char> {
    match name {
        Some(n) => n@,
        None => whole,
    }
}

/// The PDB name shown for a module with a debug id: the debug file's file
/// name, else the whole debug file, else empty.
pub open spec fn report_pdb_name(m: DumpModule, n: ModuleFileNames) -> Seq<char> {
    match m.debug_file {
        Some(df) => file_name_or(n.debug_file_name, df@),
        None => Seq::<char>::empty(),
    }
}

/// The key under which the report looks for a module's symbols: present
/// exactly when the module has a debug id.
pub open spec fn report_key_spec(m: DumpModule, n: ModuleFileNames) -> Option<
    (Seq<char>, Seq<char>),
> {
    match m.debug_id {
        Some(id) => Some((report_pdb_name(m, n), breakpad_id(id@))),
        None => None,
    }
}

/// The report row of a module, given the file names found for it and
/// whether its `.sym` file is on disk.
pub open spec fn module_output_ok(
    o: ModuleOutput,
    m: DumpModule,
    n: ModuleFileNames,
    present: bool,
) -> bool {
    &&& o.name@ == file_name_or(n.code_file_name, m.code_file@)
    &&& match m.debug_id {
        Some(id) => {
            &&& opt_view(o.debug_file) == Some(report_pdb_name(m, n))
            &&& opt_view(o.debug_id) == Some(breakpad_id(id@))
            &&& o.has_symbol == present
        },
        None => {
            &&& opt_view(o.debug_file) == opt_view(m.debug_file)
            &&& o.debug_id is None
            &&& !o.has_symbol
        },
    }
}

/// A frame is kept when its function is known: it has a name that starts
/// neither with `<unknown` nor with `<未知`.
pub open spec fn is_known_frame(f: DumpFrame) -> bool {
    match f.function_name {
        Some(n) => !has_prefix(n@, "<unknown"@) && !has_prefix(n@, "<未知"@),
        None => false,
    }
}

/// The frames whose function is known, in their order.
pub open spec fn known_frames(s: Seq<DumpFrame>) -> Seq<DumpFrame>
    decreases s.len(),
{
    if s.len() == 0 {
        seq![]
    } else {
        let p = known_frames(s.drop_last());
        if is_known_frame(s.last()) {
            p.push(s.last())
        } else {
            p
        }
    }
}

/// Output frame `o` at position `j` shows dump frame `f`.
pub open spec fn frame_output_ok(o: FrameOutput, j: int, f: DumpFrame) -> bool {
    &&& o.index == j
    &&& opt_view(f.function_name) == Some(o.function@)
    &&& opt_view(o.file) == opt_view(f.source_file_name)
    &&& o.line == f.source_line
}

/// The output frames are the kept frames, numbered from 0.
pub open spec fn frames_ok(out: Seq<FrameOutput>, kept: Seq<DumpFrame>) -> bool {
    &&& out.len() == kept.len()
    &&& forall|j: int| 0 <= j < out.len() ==> frame_output_ok(#[trigger] out[j], j, kept[j])
}

/// The report row of thread `i`.
pub open spec fn thread_output_ok(
    o: ThreadOutput,
    i: int,
    t: DumpThread,
    crash: Option<usize>,
    include_all_threads: bool,
    include_registers: bool,
    context: Option<RawContext>,
) -> bool {
    let is_crash = crash == Some(i as usize);
    &&& o.index == i
    &&& o.is_crash_thread == is_crash
    &&& frames_ok(
        o.frames@,
        if is_crash || include_all_threads {
            known_frames(t.frames@)
        } else {
            Seq::<DumpFrame>::empty()
        },
    )
    &&& if is_crash && include_registers && context is Some {
        &&& o.registers is Some
        &&& regs_view(o.registers->0@) == register_list(context->0)
    } else {
        o.registers is None
    }
}

/// The system information row.
pub open spec fn system_info_ok(o: Option<SystemInfoOutput>, s: Option<DumpSystemInfo>) -> bool {
    match (o, s) {
        (Some(o), Some(s)) => o.os@ == s.os@ && o.cpu@ == s.cpu@,
        (None, None) => true,
        _ => false,
    }
}

/// The exception row: code as `0x` and eight hex digits, address as `0x`
/// and sixteen, and the symbolic reason.
pub open spec fn exception_ok(o: Option<ExceptionOutput>, e: Option<DumpException>) -> bool {
    match (o, e) {
        (Some(o), Some(e)) => {
            &&& o.code@ == hex32_text(e.code)
            &&& o.address@ == hex64_text(e.address)
            &&& opt_view(o.reason) == Some(exception_reason_spec(e.code))
        },
        (None, None) => true,
        _ => false,
    }
}

/// The modules of the dump, none when the dump has no module list.
pub open spec fn modules_of(modules: Option<Vec<DumpModule>>) -> Seq<DumpModule> {
    match modules {
        Some(v) => v@,
        None => Seq::<DumpModule>::empty(),
    }
}

/// The file names that `Path::file_name` finds for a module: its code
/// file's, and its debug file's where it has one.
pub open spec fn module_names_ok(n: ModuleFileNames, m: DumpModule) -> bool {
    &&& file_name_facts(n.code_file_name, m.code_file@)
    &&& match m.debug_file {
        Some(df) => file_name_facts(n.debug_file_name, df@),
        None => n.debug_file_name is None,
    }
}

/// Asks `Path::file_name` for the file names of each module's code file and
/// debug file; the debug file name is sought only where there is a debug
/// file. What is known of each name is what holds on every platform.
pub fn name_modules(modules: &Vec<DumpModule>) -> (r: Vec<ModuleFileNames>)
    ensures
        r.len() == modules.len(),
        forall|i: int| 0 <= i < r.len() ==> module_names_ok(#[trigger] r@[i], modules@[i]),
{
    let mut out: Vec<ModuleFileNames> = Vec::new();
    let mut i: usize = 0;
    while i < modules.len()
        invariant
            i <= modules.len(),
            out.len() == i,
            forall|k: int| 0 <= k < i ==> module_names_ok(#[trigger] out@[k], modules@[k]),
        decreases modules.len() - i,
    {
        let m = &modules[i];
        let code_file_name = path_file_name(m.code_file.as_str());
        let debug_file_name = match &m.debug_file {
            Some(df) => path_file_name(df.as_str()),
            None => None,
        };
        out.push(ModuleFileNames { code_file_name, debug_file_name });
        i = i + 1;
    }
    out
}

/// The report's symbol key of one module: PDB name and Breakpad id when it
/// has a debug id, `None` otherwise.
pub fn report_symbol_key(m: &DumpModule, n: &ModuleFileNames) -> (r: Option<SymbolKey>)
    ensures
        key_view(r) == report_key_spec(*m, *n),
{
    match &m.debug_id {
        Some(id) => {
            let pdb_name = pdb_name_of(m, n);
            Some(SymbolKey { pdb_name, breakpad_id: guid_to_breakpad_id(id.as_str()) })
        },
        None => None,
    }
}

/// The report's symbol keys of all modules, in order.
pub fn report_symbol_keys(modules: &Vec<DumpModule>, names: &Vec<ModuleFileNames>) -> (r: Vec<
    Option<SymbolKey>,
>)
    requires
        names.len() == modules.len(),
    ensures
        r.len() == modules.len(),
        forall|i: int|
            0 <= i < r.len() ==> key_view(#[trigger] r@[i]) == report_key_spec(modules@[i], names@[i]),
{
    let mut out: Vec<Option<SymbolKey>> = Vec::new();
    let mut i: usize = 0;
    while i < modules.len()
        invariant
            i <= modules.len(),
            names.len() == modules.len(),
            out.len() == i,
            forall|k: int|
                0 <= k < i ==> key_view(#[trigger] out@[k]) == report_key_spec(modules@[k], names@[k]),
        decreases modules.len() - i,
    {
        out.push(report_symbol_key(&modules[i], &names[i]));
        i = i + 1;
    }
    out
}

/// The shown PDB name of a module.
fn pdb_name_of(m: &DumpModule, n: &ModuleFileNames) -> (r: String)
    ensures
        r@ == report_pdb_name(*m, *n),
{
    match &m.debug_file {
        Some(df) => match &n.debug_file_name {
            Some(x) => x.clone(),
            None => df.clone(),
        },
        None => String::new(),
    }
}

/// The report row of one module.
fn module_output(m: &DumpModule, n: &ModuleFileNames, present: bool) -> (o: ModuleOutput)
    ensures
        module_output_ok(o, *m, *n, present),
{
    let name = match &n.code_file_name {
        Some(x) => x.clone(),
        None => m.code_file.clone(),
    };
    match &m.debug_id {
        Some(id) => ModuleOutput {
            name,
            debug_file: Some(pdb_name_of(m, n)),
            debug_id: Some(guid_to_breakpad_id(id.as_str())),
            has_symbol: present,
        },
        None => ModuleOutput {
            name,
            debug_file: match &m.debug_file {
                Some(df) => Some(df.clone()),
                None => None,
            },
            debug_id: None,
            has_symbol: false,
        },
    }
}

/// Whether a frame's function is known.
fn known_frame(f: &DumpFrame) -> (r: bool)
    ensures
        r == is_known_frame(*f),
{
    match &f.function_name {
        Some(n) => !starts_with(n.as_str(), "<unknown") && !starts_with(n.as_str(), "<未知"),
        None => false,
    }
}

/// The frames of a thread whose function is known, numbered from 0.
fn frame_outputs(frames: &Vec<DumpFrame>) -> (r: Vec<FrameOutput>)
    ensures
        frames_ok(r@, known_frames(frames@)),
{
    let mut out: Vec<FrameOutput> = Vec::new();
    let mut i: usize = 0;
    while i < frames.len()
        invariant
            i <= frames.len(),
            frames_ok(out@, known_frames(frames@.take(i as int))),
        decreases frames.len() - i,
    {
        let f = &frames[i];
        let ghost kept = known_frames(frames@.take(i as int));
        assert(frames@.take(i + 1).drop_last() =~= frames@.take(i as int));
        assert(frames@.take(i + 1).last() == frames@[i as int]);
        if known_frame(f) {
            let function = match &f.function_name {
                Some(n) => n.clone(),
                None => String::new(),
            };
            let file = match &f.source_file_name {
                Some(x) => Some(x.clone()),
                None => None,
            };
            let ghost before = out@;
            out.push(FrameOutput { index: out.len(), function, file, line: f.source_line });
            assert(known_frames(frames@.take(i + 1)) == kept.push(frames@[i as int]));
            assert forall|j: int| 0 <= j < out@.len() implies frame_output_ok(
                #[trigger] out@[j],
                j,
                kept.push(frames@[i as int])[j],
            ) by {
                if j < before.len() {
                    assert(out@[j] == before[j]);
                }
            }
        }
        i = i + 1;
    }
    assert(frames@.take(frames.len() as int) =~= frames@);
    out
}

/// Builds the report of a dump: system information, the exception with
/// its symbolic reason, one row per module, and one row per thread. The
/// crashing thread (the one that requested the dump) always shows its known
/// frames, and its registers when `include_registers`; other threads show
/// their frames only with `include_all_threads`. `module_names` holds what
/// `name_modules` found; `symbol_presence[i]` tells whether the `.sym` file
/// of module `i`'s report key exists in the symbols or cache directory.
pub fn build_report(
    sys_info: Option<DumpSystemInfo>,
    exception: Option<DumpException>,
    modules: Option<Vec<DumpModule>>,
    module_names: &Vec<ModuleFileNames>,
    symbol_presence: &Vec<bool>,
    context: Option<RawContext>,
    state: &DumpState,
    include_all_threads: bool,
    include_registers: bool,
    channel: Channel,
) -> (r: CrashReport)
    requires
        module_names.len() == modules_of(modules).len(),
        symbol_presence.len() == modules_of(modules).len(),
    ensures
        r.channel == channel,
        system_info_ok(r.system_info, sys_info),
        exception_ok(r.exception, exception),
        r.modules.len() == modules_of(modules).len(),
        forall|i: int|
            0 <= i < r.modules.len() ==> module_output_ok(
                #[trigger] r.modules@[i],
                modules_of(modules)[i],
                module_names@[i],
                symbol_presence@[i],
            ),
        r.threads.len() == state.threads.len(),
        forall|i: int|
            0 <= i < r.threads.len() ==> thread_output_ok(
                #[trigger] r.threads@[i],
                i,
                state.threads@[i],
                state.requesting_thread,
                include_all_threads,
                include_registers,
                context,
            ),
{
    let system_info = match sys_info {
        Some(s) => Some(SystemInfoOutput { os: s.os, cpu: s.cpu }),
        None => None,
    };
    let exception_out = match exception {
        Some(e) => Some(
            ExceptionOutput {
                code: hex32(e.code),
                address: hex64(e.address),
                reason: Some(String::from_str(exception_reason(e.code))),
            },
        ),
        None => None,
    };
    let ghost mods = modules_of(modules);
    let mut module_rows: Vec<ModuleOutput> = Vec::new();
    match &modules {
        Some(ms) => {
            let mut i: usize = 0;
            while i < ms.len()
                invariant
                    ms@ == mods,
                    module_names.len() == mods.len(),
                    symbol_presence.len() == mods.len(),
                    i <= ms.len(),
                    module_rows.len() == i,
                    forall|k: int|
                        0 <= k < i ==> module_output_ok(
                            #[trigger] module_rows@[k],
                            mods[k],
                            module_names@[k],
                            symbol_presence@[k],
                        ),
                decreases ms.len() - i,
            {
                module_rows.push(module_output(&ms[i], &module_names[i], symbol_presence[i]));
                i = i + 1;
            }
        },
        None => {},
    }
    let crash = state.requesting_thread;
    let mut threads: Vec<ThreadOutput> = Vec::new();
    let mut i: usize = 0;
    while i < state.threads.len()
        invariant
            i <= state.threads.len(),
            crash == state.requesting_thread,
            threads.len() == i,
            forall|k: int|
                0 <= k < i ==> thread_output_ok(
                    #[trigger] threads@[k],
                    k,
                    state.threads@[k],
                    state.requesting_thread,
                    include_all_threads,
                    include_registers,
                    context,
                ),
        decreases state.threads.len() - i,
    {
        let is_crash = match crash {
            Some(c) => c == i,
            None => false,
        };
        let frames = if is_crash || include_all_threads {
            frame_outputs(&state.threads[i].frames)
        } else {
            let v: Vec<FrameOutput> = Vec::new();
            assert(known_frames(Seq::<DumpFrame>::empty()) == Seq::<DumpFrame>::empty());
            v
        };
        let registers = if is_crash && include_registers {
            match &context {
                Some(c) => Some(extract_registers(c)),
                None => None,
            }
        } else {
            None
        };
        threads.push(ThreadOutput { index: i, is_crash_thread: is_crash, registers, frames });
        i = i + 1;
    }
    CrashReport {
        channel,
        system_info,
        exception: exception_out,
        modules: module_rows,
        threads,
    }
}

// ── Text output ───────────────────────────────────────────────────────

/// The system information section.
pub open spec fn system_section(si: Option<SystemInfoOutput>) -> Seq<char> {
    match si {
        Some(s) => "--- 系统信息 ---\n"@ + "操作系统: "@ + s.os@ + "\n"@ + "CPU 架构: "@ + s.cpu@ + "\n"@,
        None => seq![],
    }
}

/// The exception section.
pub open spec fn exception_section(e: Option<ExceptionOutput>) -> Seq<char> {
    match e {
        Some(x) => "\n--- 异常信息 ---\n"@ + "异常码:  "@ + x.code@ + "\n"@ + "异常地址: "@ + x.address@
            + "\n"@ + match x.reason {
            Some(r) => "异常原因: "@ + r@ + "\n"@,
            None => seq![],
        },
        None => seq![],
    }
}

/// One line of the module list: name, PDB name and id in columns of 40 and
/// 30 characters and ` [sym]` when its symbols are present, or the name and
/// `<无调试信息>` when the module has no debug information.
pub open spec fn module_line(m: ModuleOutput) -> Seq<char> {
    match (m.debug_file, m.debug_id) {
        (Some(df), Some(id)) => "  "@ + pad_right(m.name@, 40) + " "@ + pad_right(df@, 30) + " "@
            + id@ + (if m.has_symbol {
            " [sym]"@
        } else {
            Seq::<char>::empty()
        }) + "\n"@,
        _ => "  "@ + pad_right(m.name@, 40) + " <无调试信息>\n"@,
    }
}

/// The lines of the module list, in order.
pub open spec fn modules_text(ms: Seq<ModuleOutput>) -> Seq<char>
    decreases ms.len(),
{
    if ms.len() == 0 {
        seq![]
    } else {
        modules_text(ms.drop_last()) + module_line(ms.last())
    }
}

/// One register cell: the name in a column of 6, a blank, the value.
pub open spec fn register_cell(r: RegisterOutput) -> Seq<char> {
    pad_right(r.register@, 6) + " "@ + r.value@
}

/// Register cells separated by two blanks.
pub open spec fn register_cells(c: Seq<RegisterOutput>) -> Seq<char>
    decreases c.len(),
{
    if c.len() == 0 {
        seq![]
    } else if c.len() == 1 {
        register_cell(c[0])
    } else {
        register_cells(c.drop_last()) + "  "@ + register_cell(c.last())
    }
}

/// The register lines: four registers per line, indented by four blanks.
pub open spec fn register_lines(rs: Seq<RegisterOutput>) -> Seq<char>
    decreases rs.len(),
{
    if rs.len() == 0 {
        seq![]
    } else if rs.len() <= 4 {
        "    "@ + register_cells(rs) + "\n"@
    } else {
        "    "@ + register_cells(rs.take(4)) + "\n"@ + register_lines(rs.skip(4))
    }
}

/// Where a frame is: `file:line` for a positive line, the file alone
/// otherwise, `<未知位置>` without a file.
pub open spec fn frame_location(f: FrameOutput) -> Seq<char> {
    match f.file {
        Some(file) => match f.line {
            Some(l) => if l > 0 {
                file@ + ":"@ + dec_digits(l as nat)
            } else {
                file@
            },
            None => file@,
        },
        None => "<未知位置>"@,
    }
}

/// One frame line: `#`, the index right-aligned in 2, the function in a
/// column of 50, and the location in parentheses.
pub open spec fn frame_line(f: FrameOutput) -> Seq<char> {
    "#"@ + pad_left(dec_digits(f.index as nat), 2) + " "@ + pad_right(f.function@, 50) + " ("@
        + frame_location(f) + ")\n"@
}

/// The frame lines, in order.
pub open spec fn frames_text(fs: Seq<FrameOutput>) -> Seq<char>
    decreases fs.len(),
{
    if fs.len() == 0 {
        seq![]
    } else {
        frames_text(fs.drop_last()) + frame_line(fs.last())
    }
}

/// The heading of a thread's section.
pub open spec fn thread_heading(t: ThreadOutput) -> Seq<char> {
    if t.is_crash_thread {
        "\n--- 崩溃调用栈 (线程 #"@ + dec_digits(t.index as nat) + ") ---\n"@
    } else {
        "\n--- 线程 #"@ + dec_digits(t.index as nat) + " ---\n"@
    }
}

/// A thread's section: shown for the crashing thread, and for the others
/// only with `include_all_threads`; registers only with
/// `include_registers`; a placeholder line when no frame is resolved.
pub open spec fn thread_text(t: ThreadOutput, include_all_threads: bool, include_registers: bool) -> Seq<
    char,
> {
    if !t.is_crash_thread && !include_all_threads {
        seq![]
    } else {
        thread_heading(t) + (if include_registers && t.registers is Some {
            "  寄存器:\n"@ + register_lines(t.registers->0@)
        } else {
            Seq::<char>::empty()
        }) + (if t.frames.len() == 0 {
            "  <无已解析的调用帧>\n"@
        } else {
            frames_text(t.frames@)
        })
    }
}

/// The thread sections, in order.
pub open spec fn threads_text(ts: Seq<ThreadOutput>, include_all_threads: bool, include_registers: bool) -> Seq<
    char,
>
    decreases ts.len(),
{
    if ts.len() == 0 {
        seq![]
    } else {
        threads_text(ts.drop_last(), include_all_threads, include_registers) + thread_text(
            ts.last(),
            include_all_threads,
            include_registers,
        )
    }
}

/// How many threads are not the crashing thread.
pub open spec fn other_thread_count(ts: Seq<ThreadOutput>) -> nat
    decreases ts.len(),
{
    if ts.len() == 0 {
        0
    } else {
        other_thread_count(ts.drop_last()) + if ts.last().is_crash_thread {
            0nat
        } else {
            1nat
        }
    }
}

/// The closing hint about threads that were not shown.
pub open spec fn footer_text(ts: Seq<ThreadOutput>, include_all_threads: bool) -> Seq<char> {
    if !include_all_threads && other_thread_count(ts) > 0 {
        "\n其他 "@ + dec_digits(other_thread_count(ts)) + " 个线程的调用栈 (使用 --all-threads 查看)\n"@
    } else {
        seq![]
    }
}

/// The whole text rendering of a report.
pub open spec fn format_text_spec(
    report: CrashReport,
    include_all_threads: bool,
    include_registers: bool,
) -> Seq<char> {
    "渠道: "@ + channel_debug_spec(report.channel) + "\n"@ + system_section(report.system_info)
        + exception_section(report.exception) + "\n--- 模块列表 ---\n"@ + modules_text(
        report.modules@,
    ) + threads_text(report.threads@, include_all_threads, include_registers) + footer_text(
        report.threads@,
        include_all_threads,
    )
}

fn push_system_section(out: &mut String, si: &Option<SystemInfoOutput>)
    ensures
        final(out)@ == old(out)@ + system_section(*si),
{
    match si {
        Some(s) => {
            out.append("--- 系统信息 ---\n");
            out.append("操作系统: ");
            out.append(s.os.as_str());
            out.append("\n");
            out.append("CPU 架构: ");
            out.append(s.cpu.as_str());
            out.append("\n");
        },
        None => {},
    }
    assert(out@ =~= old(out)@ + system_section(*si));
}

fn push_exception_section(out: &mut String, e: &Option<ExceptionOutput>)
    ensures
        final(out)@ == old(out)@ + exception_section(*e),
{
    match e {
        Some(x) => {
            out.append("\n--- 异常信息 ---\n");
            out.append("异常码:  ");
            out.append(x.code.as_str());
            out.append("\n");
            out.append("异常地址: ");
            out.append(x.address.as_str());
            out.append("\n");
            match &x.reason {
                Some(r) => {
                    out.append("异常原因: ");
                    out.append(r.as_str());
                    out.append("\n");
                },
                None => {},
            }
        },
        None => {},
    }
    assert(out@ =~= old(out)@ + exception_section(*e));
}

fn push_module_line(out: &mut String, m: &ModuleOutput)
    ensures
        final(out)@ == old(out)@ + module_line(*m),
{
    match (&m.debug_file, &m.debug_id) {
        (Some(df), Some(id)) => {
            out.append("  ");
            push_padded_right(out, m.name.as_str(), 40);
            out.append(" ");
            push_padded_right(out, df.as_str(), 30);
            out.append(" ");
            out.append(id.as_str());
            if m.has_symbol {
                out.append(" [sym]");
            }
            out.append("\n");
        },
        _ => {
            out.append("  ");
            push_padded_right(out, m.name.as_str(), 40);
            out.append(" <无调试信息>\n");
        },
    }
    assert(out@ =~= old(out)@ + module_line(*m));
}

fn push_modules(out: &mut String, ms: &Vec<ModuleOutput>)
    ensures
        final(out)@ == old(out)@ + modules_text(ms@),
{
    let ghost start = out@;
    let mut i: usize = 0;
    while i < ms.len()
        invariant
            i <= ms.len(),
            out@ == start + modules_text(ms@.take(i as int)),
        decreases ms.len() - i,
    {
        push_module_line(out, &ms[i]);
        assert(ms@.take(i + 1).drop_last() =~= ms@.take(i as int));
        i = i + 1;
        assert(out@ =~= start + modules_text(ms@.take(i as int)));
    }
    assert(ms@.take(ms.len() as int) =~= ms@);
}

fn push_register_cell(out: &mut String, r: &RegisterOutput)
    ensures
        final(out)@ == old(out)@ + register_cell(*r),
{
    push_padded_right(out, r.register.as_str(), 6);
    out.append(" ");
    out.append(r.value.as_str());
    assert(out@ =~= old(out)@ + register_cell(*r));
}

fn push_register_lines(out: &mut String, rs: &Vec<RegisterOutput>)
    ensures
        final(out)@ == old(out)@ + register_lines(rs@),
{
    let ghost start = out@;
    let len = rs.len();
    let mut k: usize = 0;
    assert(rs@.skip(0) =~= rs@);
    while k < len
        invariant
            len == rs.len(),
            k <= len,
            out@ + register_lines(rs@.skip(k as int)) == start + register_lines(rs@),
        decreases len - k,
    {
        let ghost rest = rs@.skip(k as int);
        let end = if len - k <= 4 {
            len
        } else {
            k + 4
        };
        let ghost line_start = out@;
        out.append("    ");
        let mut j: usize = k;
        while j < end
            invariant
                k <= j <= end,
                end <= len,
                len == rs.len(),
                out@ == line_start + "    "@ + register_cells(rs@.subrange(k as int, j as int)),
            decreases end - j,
        {
            if j > k {
                out.append("  ");
            }
            push_register_cell(out, &rs[j]);
            let ghost c = rs@.subrange(k as int, j + 1);
            assert(c.drop_last() =~= rs@.subrange(k as int, j as int));
            assert(c.last() == rs@[j as int]);
            if j == k {
                assert(c.len() == 1);
                assert(c[0] == rs@[j as int]);
                assert(rs@.subrange(k as int, j as int) =~= Seq::<RegisterOutput>::empty());
            }
            j = j + 1;
            assert(out@ =~= line_start + "    "@ + register_cells(rs@.subrange(k as int, j as int)));
        }
        out.append("\n");
        if len - k <= 4 {
            assert(rest =~= rs@.subrange(k as int, end as int));
            assert(rs@.skip(end as int) =~= Seq::<RegisterOutput>::empty());
        } else {
            assert(rest.take(4) =~= rs@.subrange(k as int, end as int));
            assert(rest.skip(4) =~= rs@.skip(end as int));
        }
        k = end;
    }
    assert(rs@.skip(k as int) =~= Seq::<RegisterOutput>::empty());
    assert(out@ =~= start + register_lines(rs@));
}

fn push_frame_line(out: &mut String, f: &FrameOutput)
    ensures
        final(out)@ == old(out)@ + frame_line(*f),
{
    out.append("#");
    let idx = decimal(f.index as u64);
    push_padded_left(out, idx.as_str(), 2);
    out.append(" ");
    push_padded_right(out, f.function.as_str(), 50);
    out.append(" (");
    match &f.file {
        Some(file) => {
            out.append(file.as_str());
            match f.line {
                Some(l) => {
                    if l > 0 {
                        out.append(":");
                        push_decimal(out, l as u64);
                    }
                },
                None => {},
            }
        },
        None => {
            out.append("<未知位置>");
        },
    }
    out.append(")\n");
    assert(out@ =~= old(out)@ + frame_line(*f));
}

fn push_frames(out: &mut String, fs: &Vec<FrameOutput>)
    ensures
        final(out)@ == old(out)@ + frames_text(fs@),
{
    let ghost start = out@;
    let mut i: usize = 0;
    while i < fs.len()
        invariant
            i <= fs.len(),
            out@ == start + frames_text(fs@.take(i as int)),
        decreases fs.len() - i,
    {
        push_frame_line(out, &fs[i]);
        assert(fs@.take(i + 1).drop_last() =~= fs@.take(i as int));
        i = i + 1;
        assert(out@ =~= start + frames_text(fs@.take(i as int)));
    }
    assert(fs@.take(fs.len() as int) =~= fs@);
}

fn push_thread(out: &mut String, t: &ThreadOutput, include_all_threads: bool, include_registers: bool)
    ensures
        final(out)@ == old(out)@ + thread_text(*t, include_all_threads, include_registers),
{
    if !t.is_crash_thread && !include_all_threads {
        assert(out@ =~= old(out)@ + thread_text(*t, include_all_threads, include_registers));
        return;
    }
    if t.is_crash_thread {
        out.append("\n--- 崩溃调用栈 (线程 #");
        push_decimal(out, t.index as u64);
        out.append(") ---\n");
    } else {
        out.append("\n--- 线程 #");
        push_decimal(out, t.index as u64);
        out.append(" ---\n");
    }
    let ghost after_heading = out@;
    assert(after_heading =~= old(out)@ + thread_heading(*t));
    if include_registers {
        match &t.registers {
            Some(regs) => {
                out.append("  寄存器:\n");
                push_register_lines(out, regs);
            },
            None => {},
        }
    }
    if t.frames.len() == 0 {
        out.append("  <无已解析的调用帧>\n");
    } else {
        push_frames(out, &t.frames);
    }
    assert(out@ =~= old(out)@ + thread_text(*t, include_all_threads, include_registers));
}

fn push_threads(out: &mut String, ts: &Vec<ThreadOutput>, include_all_threads: bool, include_registers: bool)
    ensures
        final(out)@ == old(out)@ + threads_text(ts@, include_all_threads, include_registers),
{
    let ghost start = out@;
    let mut i: usize = 0;
    while i < ts.len()
        invariant
            i <= ts.len(),
            out@ == start + threads_text(ts@.take(i as int), include_all_threads, include_registers),
        decreases ts.len() - i,
    {
        push_thread(out, &ts[i], include_all_threads, include_registers);
        assert(ts@.take(i + 1).drop_last() =~= ts@.take(i as int));
        i = i + 1;
        assert(out@ =~= start + threads_text(ts@.take(i as int), include_all_threads, include_registers));
    }
    assert(ts@.take(ts.len() as int) =~= ts@);
}

proof fn lemma_other_thread_count_bound(ts: Seq<ThreadOutput>)
    ensures
        other_thread_count(ts) <= ts.len(),
    decreases ts.len(),
{
    if ts.len() > 0 {
        lemma_other_thread_count_bound(ts.drop_last());
    }
}

/// How many threads of the list are not the crashing thread.
fn count_other_threads(ts: &Vec<ThreadOutput>) -> (n: usize)
    ensures
        n == other_thread_count(ts@),
{
    let mut n: usize = 0;
    let mut i: usize = 0;
    while i < ts.len()
        invariant
            i <= ts.len(),
            n == other_thread_count(ts@.take(i as int)),
        decreases ts.len() - i,
    {
        assert(ts@.take(i + 1).drop_last() =~= ts@.take(i as int));
        proof {
            lemma_other_thread_count_bound(ts@.take(i + 1));
        }
        if !ts[i].is_crash_thread {
            n = n + 1;
        }
        i = i + 1;
    }
    assert(ts@.take(ts.len() as int) =~= ts@);
    n
}

/// Renders a report as text: the channel, system information, the
/// exception, the module list, and a section per shown thread, then a hint
/// about the threads left out when not all threads are shown.
pub fn format_text(report: &CrashReport, include_all_threads: bool, include_registers: bool) -> (r:
    String)
    ensures
        r@ == format_text_spec(*report, include_all_threads, include_registers),
{
    let mut out = String::new();
    out.append("渠道: ");
    out.append(report.channel.debug_name());
    out.append("\n");
    push_system_section(&mut out, &report.system_info);
    push_exception_section(&mut out, &report.exception);
    out.append("\n--- 模块列表 ---\n");
    push_modules(&mut out, &report.modules);
    push_threads(&mut out, &report.threads, include_all_threads, include_registers);
    if !include_all_threads {
        let other = count_other_threads(&report.threads);
        if other > 0 {
            out.append("\n其他 ");
            push_decimal(&mut out, other as u64);
            out.append(" 个线程的调用栈 (使用 --all-threads 查看)\n");
        }
    }
    assert(out@ =~= format_text_spec(*report, include_all_threads, include_registers));
    out
}

// ── laws ──────────────────────────────────────────────────────────────

/// Every kept frame has a known function, no more frames are kept than
/// there are, and keeping the known frames of the kept frames changes
/// nothing.
pub proof fn lemma_known_frames(s: Seq<DumpFrame>)
    ensures
        forall|j: int|
            0 <= j < known_frames(s).len() ==> is_known_frame(#[trigger] known_frames(s)[j]),
        known_frames(s).len() <= s.len(),
        known_frames(known_frames(s)) == known_frames(s),
    decreases s.len(),
{
    if s.len() > 0 {
        let p = s.drop_last();
        lemma_known_frames(p);
        let k = known_frames(p);
        if is_known_frame(s.last()) {
            assert(known_frames(s) == k.push(s.last()));
            assert(k.push(s.last()).drop_last() =~= k);
            assert forall|j: int| 0 <= j < known_frames(s).len() implies is_known_frame(
                #[trigger] known_frames(s)[j],
            ) by {
                if j < k.len() {
                    assert(known_frames(s)[j] == k[j]);
                }
            }
        }
    }
}

/// In a report built from a dump, at most one thread is the crashing
/// thread, only that thread carries registers, and every frame shown has a
/// function name that starts neither with `<unknown` nor with `<未知`.
pub proof fn lemma_report_threads(
    threads: Seq<ThreadOutput>,
    state: DumpState,
    include_all_threads: bool,
    include_registers: bool,
    context: Option<RawContext>,
)
    requires
        threads.len() == state.threads.len(),
        forall|i: int|
            0 <= i < threads.len() ==> thread_output_ok(
                #[trigger] threads[i],
                i,
                state.threads@[i],
                state.requesting_thread,
                include_all_threads,
                include_registers,
                context,
            ),
    ensures
        forall|i: int, j: int|
            0 <= i < threads.len() && 0 <= j < threads.len() && #[trigger] threads[i].is_crash_thread
                && #[trigger] threads[j].is_crash_thread ==> i == j,
        forall|i: int|
            0 <= i < threads.len() && (#[trigger] threads[i]).registers is Some
                ==> threads[i].is_crash_thread,
        forall|i: int, j: int|
            0 <= i < threads.len() && 0 <= j < threads[i].frames@.len() ==> {
                let f = #[trigger] threads[i].frames@[j];
                &&& !has_prefix(f.function@, "<unknown"@)
                &&& !has_prefix(f.function@, "<未知"@)
                &&& f.index == j
            },
{
    assert forall|i: int, j: int|
        0 <= i < threads.len() && 0 <= j < threads[i].frames@.len() implies {
        let f = #[trigger] threads[i].frames@[j];
        &&& !has_prefix(f.function@, "<unknown"@)
        &&& !has_prefix(f.function@, "<未知"@)
        &&& f.index == j
    } by {
        let t = state.threads@[i];
        assert(thread_output_ok(threads[i], i, t, state.requesting_thread, include_all_threads, include_registers, context));
        lemma_known_frames(t.frames@);
        let kept = if state.requesting_thread == Some(i as usize) || include_all_threads {
            known_frames(t.frames@)
        } else {
            Seq::<DumpFrame>::empty()
        };
        assert(frame_output_ok(threads[i].frames@[j], j, kept[j]));
        assert(is_known_frame(kept[j]));
    }
}

/// In a report built from a dump, a module is marked as having symbols
/// only when it has a debug id, and then its Breakpad id is shown.
pub proof fn lemma_report_modules(
    rows: Seq<ModuleOutput>,
    modules: Seq<DumpModule>,
    names: Seq<ModuleFileNames>,
    presence: Seq<bool>,
)
    requires
        rows.len() == modules.len(),
        forall|i: int|
            0 <= i < rows.len() ==> module_output_ok(#[trigger] rows[i], modules[i], names[i], presence[i]),
    ensures
        forall|i: int|
            0 <= i < rows.len() && (#[trigger] rows[i]).has_symbol ==> {
                &&& modules[i].debug_id is Some
                &&& rows[i].debug_id is Some
                &&& presence[i]
            },
{
}

/// A Windows exception code is named `UNKNOWN` exactly when it is none of
/// the nine codes of the table.
pub proof fn lemma_exception_reason_unknown(code: u32)
    ensures
        (exception_reason_spec(code) == "UNKNOWN"@) <==> !(code == 0xC0000005 || code == 0xC0000094
            || code == 0xC00000FD || code == 0xC0000096 || code == 0xC000001D || code == 0xC0000006
            || code == 0xC0000017 || code == 0x80000003 || code == 0x80000004),
{
    reveal_strlit("UNKNOWN");
    reveal_strlit("ACCESS_VIOLATION");
    reveal_strlit("INT_DIVIDE_BY_ZERO");
    reveal_strlit("STACK_OVERFLOW");
    reveal_strlit("PRIV_INSTRUCTION");
    reveal_strlit("ILLEGAL_INSTRUCTION");
    reveal_strlit("IN_PAGE_ERROR");
    reveal_strlit("NO_MEMORY");
    reveal_strlit("BREAKPOINT");
    reveal_strlit("SINGLE_STEP");
    if exception_reason_spec(code) == "UNKNOWN"@ {
        if code == 0xC0000005 { assert("ACCESS_VIOLATION"@[0] != "UNKNOWN"@[0]); }
        if code == 0xC0000094 { assert("INT_DIVIDE_BY_ZERO"@[0] != "UNKNOWN"@[0]); }
        if code == 0xC00000FD { assert("STACK_OVERFLOW"@[0] != "UNKNOWN"@[0]); }
        if code == 0xC0000096 { assert("PRIV_INSTRUCTION"@[0] != "UNKNOWN"@[0]); }
        if code == 0xC000001D { assert("ILLEGAL_INSTRUCTION"@[0] != "UNKNOWN"@[0]); }
        if code == 0xC0000006 { assert("IN_PAGE_ERROR"@[0] != "UNKNOWN"@[0]); }
        if code == 0xC0000017 { assert("NO_MEMORY"@[0] != "UNKNOWN"@[0]); }
        if code == 0x80000003 { assert("BREAKPOINT"@[0] != "UNKNOWN"@[0]); }
        if code == 0x80000004 { assert("SINGLE_STEP"@[0] != "UNKNOWN"@[0]); }
    }
}

/// Without all threads, the text shows no section for a thread that is not
/// the crashing thread, and the closing hint counts exactly those threads.
pub proof fn lemma_text_hides_other_threads(t: ThreadOutput, ts: Seq<ThreadOutput>, include_registers: bool)
    ensures
        !t.is_crash_thread ==> thread_text(t, false, include_registers) == Seq::<char>::empty(),
        other_thread_count(ts) <= ts.len(),
        (other_thread_count(ts) > 0) <==> (exists|i: int| 0 <= i < ts.len() && !(#[trigger] ts[i]).is_crash_thread),
    decreases ts.len(),
{
    lemma_other_thread_count_bound(ts);
    if ts.len() > 0 {
        let p = ts.drop_last();
        lemma_text_hides_other_threads(t, p, include_registers);
        if other_thread_count(p) > 0 {
            let i = choose|i: int| 0 <= i < p.len() && !(#[trigger] p[i]).is_crash_thread;
            assert(ts[i] == p[i]);
        }
        if !ts.last().is_crash_thread {
            assert(ts[ts.len() - 1] == ts.last());
        }
        if exists|i: int| 0 <= i < ts.len() && !(#[trigger] ts[i]).is_crash_thread {
            let i = choose|i: int| 0 <= i < ts.len() && !(#[trigger] ts[i]).is_crash_thread;
            if i < p.len() {
                assert(p[i] == ts[i]);
            }
        }
    }
}


/// Each code of the table is named by its own Windows status name.
pub proof fn lemma_exception_reason_table(code: u32)
    ensures
        code == 0xC0000005 ==> exception_reason_spec(code) == "ACCESS_VIOLATION"@,
        code == 0xC0000094 ==> exception_reason_spec(code) == "INT_DIVIDE_BY_ZERO"@,
        code == 0xC00000FD ==> exception_reason_spec(code) == "STACK_OVERFLOW"@,
        code == 0xC0000096 ==> exception_reason_spec(code) == "PRIV_INSTRUCTION"@,
        code == 0xC000001D ==> exception_reason_spec(code) == "ILLEGAL_INSTRUCTION"@,
        code == 0xC0000006 ==> exception_reason_spec(code) == "IN_PAGE_ERROR"@,
        code == 0xC0000017 ==> exception_reason_spec(code) == "NO_MEMORY"@,
        code == 0x80000003 ==> exception_reason_spec(code) == "BREAKPOINT"@,
        code == 0x80000004 ==> exception_reason_spec(code) == "SINGLE_STEP"@,
{
}

/// A module line with debug information shows the name, the PDB name and
/// the id in their columns, and ends in ` [sym]` exactly when the module's
/// symbols are present; a module without debug information shows its name
/// and `<无调试信息>`, never the tag.
pub proof fn lemma_module_line_tag(m: ModuleOutput)
    ensures
        m.debug_file is Some && m.debug_id is Some ==> {
            let base = "  "@ + pad_right(m.name@, 40) + " "@ + pad_right(m.debug_file->0@, 30) + " "@
                + m.debug_id->0@;
            &&& m.has_symbol ==> module_line(m) == base + " [sym]\n"@
            &&& !m.has_symbol ==> module_line(m) == base + "\n"@
        },
        !(m.debug_file is Some && m.debug_id is Some) ==> module_line(m) == "  "@ + pad_right(
            m.name@,
            40,
        ) + " <无调试信息>\n"@,
{
    if m.debug_file is Some && m.debug_id is Some {
        let base = "  "@ + pad_right(m.name@, 40) + " "@ + pad_right(m.debug_file->0@, 30) + " "@
            + m.debug_id->0@;
        if m.has_symbol {
            reveal_strlit(" [sym]");
            reveal_strlit("\n");
            reveal_strlit(" [sym]\n");
            assert(" [sym]"@ + "\n"@ =~= " [sym]\n"@);
            assert(module_line(m) =~= base + " [sym]\n"@);
        } else {
            assert(module_line(m) =~= base + "\n"@);
        }
    }
}

/// The x86-64 registers are shown in the order `rip`, `rsp`, `rbp`, `rax`,
/// `rbx`, `rcx`, `rdx`, `rsi`, `rdi`, `r8`..`r15`, `eflags`, each name with
/// the sixteen hex digits of the context field of that name.
pub proof fn lemma_amd64_registers_named(c: Amd64Registers)
    ensures
        ({
            let l = register_list(RawContext::Amd64(c));
            &&& l.len() == 18
            &&& l[0] == ("rip"@, hex64_text(c.rip))
            &&& l[1] == ("rsp"@, hex64_text(c.rsp))
            &&& l[2] == ("rbp"@, hex64_text(c.rbp))
            &&& l[3] == ("rax"@, hex64_text(c.rax))
            &&& l[4] == ("rbx"@, hex64_text(c.rbx))
            &&& l[5] == ("rcx"@, hex64_text(c.rcx))
            &&& l[6] == ("rdx"@, hex64_text(c.rdx))
            &&& l[7] == ("rsi"@, hex64_text(c.rsi))
            &&& l[8] == ("rdi"@, hex64_text(c.rdi))
            &&& l[9] == ("r8"@, hex64_text(c.r8))
            &&& l[10] == ("r9"@, hex64_text(c.r9))
            &&& l[11] == ("r10"@, hex64_text(c.r10))
            &&& l[12] == ("r11"@, hex64_text(c.r11))
            &&& l[13] == ("r12"@, hex64_text(c.r12))
            &&& l[14] == ("r13"@, hex64_text(c.r13))
            &&& l[15] == ("r14"@, hex64_text(c.r14))
            &&& l[16] == ("r15"@, hex64_text(c.r15))
            &&& l[17] == ("eflags"@, hex64_text(c.eflags as u64))
        }),
{
}

/// The x86 registers are shown in the order `eip`, `esp`, `ebp`, `eax`,
/// `ebx`, `ecx`, `edx`, `esi`, `edi`, `eflags`, each name with the eight hex
/// digits of the context field of that name.
pub proof fn lemma_x86_registers_named(c: X86Registers)
    ensures
        ({
            let l = register_list(RawContext::X86(c));
            &&& l.len() == 10
            &&& l[0] == ("eip"@, hex32_text(c.eip))
            &&& l[1] == ("esp"@, hex32_text(c.esp))
            &&& l[2] == ("ebp"@, hex32_text(c.ebp))
            &&& l[3] == ("eax"@, hex32_text(c.eax))
            &&& l[4] == ("ebx"@, hex32_text(c.ebx))
            &&& l[5] == ("ecx"@, hex32_text(c.ecx))
            &&& l[6] == ("edx"@, hex32_text(c.edx))
            &&& l[7] == ("esi"@, hex32_text(c.esi))
            &&& l[8] == ("edi"@, hex32_text(c.edi))
            &&& l[9] == ("eflags"@, hex32_text(c.eflags))
        }),
{
}

/// The ARM64 registers (new and old layout) are shown as `x0`..`x28`, `fp`,
/// `lr` with the general registers in order, then `sp`, `pc` and `cpsr`,
/// each with the sixteen hex digits of its value.
pub proof fn lemma_arm64_registers_named(c: Arm64Registers, old_layout: bool)
    ensures
        ({
            let l = register_list(
                if old_layout {
                    RawContext::OldArm64(c)
                } else {
                    RawContext::Arm64(c)
                },
            );
            &&& l.len() == 34
            &&& forall|i: int| 0 <= i < 29 ==> #[trigger] l[i] == ("x"@ + dec_digits(i as nat), hex64_text(c.iregs@[i]))
            &&& l[29] == ("fp"@, hex64_text(c.iregs@[29]))
            &&& l[30] == ("lr"@, hex64_text(c.iregs@[30]))
            &&& l[31] == ("sp"@, hex64_text(c.sp))
            &&& l[32] == ("pc"@, hex64_text(c.pc))
            &&& l[33] == ("cpsr"@, hex64_text(c.cpsr as u64))
        }),
{
}


/// The row of a module in a built report: its name is the file name of its
/// code file (the whole path when none is found); it is marked as having
/// symbols exactly when it has a debug id and its `.sym` file is present;
/// with a debug id it shows the debug file's file name and the Breakpad id,
/// without one its debug file as it is and no id.
pub proof fn lemma_report_row(o: ModuleOutput, m: DumpModule, n: ModuleFileNames, present: bool)
    requires
        module_output_ok(o, m, n, present),
    ensures
        o.name@ == (if n.code_file_name is Some {
            n.code_file_name->0@
        } else {
            m.code_file@
        }),
        o.has_symbol == (m.debug_id is Some && present),
        m.debug_id is Some ==> opt_view(o.debug_id) == Some(breakpad_id(m.debug_id->0@)),
        m.debug_id is Some && m.debug_file is Some ==> opt_view(o.debug_file) == Some(
            if n.debug_file_name is Some {
                n.debug_file_name->0@
            } else {
                m.debug_file->0@
            },
        ),
        m.debug_id is None ==> opt_view(o.debug_file) == opt_view(m.debug_file) && o.debug_id is None,
{
}

/// The system information and exception rows of a built report: present
/// exactly when the dump has them; the operating system and CPU as read;
/// the code as `0x` and eight hex digits, the address as `0x` and sixteen,
/// and the reason named from the code.
pub proof fn lemma_report_header(
    osi: Option<SystemInfoOutput>,
    si: Option<DumpSystemInfo>,
    oe: Option<ExceptionOutput>,
    e: Option<DumpException>,
)
    requires
        system_info_ok(osi, si),
        exception_ok(oe, e),
    ensures
        osi is Some <==> si is Some,
        osi is Some ==> osi->0.os@ == si->0.os@ && osi->0.cpu@ == si->0.cpu@,
        oe is Some <==> e is Some,
        oe is Some ==> {
            &&& oe->0.code@ == "0x"@ + hex_digits(e->0.code as nat, 8)
            &&& oe->0.address@ == "0x"@ + hex_digits(e->0.address as nat, 16)
            &&& opt_view(oe->0.reason) == Some(exception_reason_spec(e->0.code))
        },
{
}

/// The system and exception sections of the text: the operating system
/// line before the CPU line; the code, the address and, when named, the
/// reason, each on its own line; nothing for a missing row.
pub proof fn lemma_text_header_sections(si: Option<SystemInfoOutput>, e: Option<ExceptionOutput>)
    ensures
        si is None ==> system_section(si) == Seq::<char>::empty(),
        si is Some ==> system_section(si) == "--- 系统信息 ---\n"@ + "操作系统: "@ + si->0.os@ + "\n"@
            + "CPU 架构: "@ + si->0.cpu@ + "\n"@,
        e is None ==> exception_section(e) == Seq::<char>::empty(),
        e is Some && e->0.reason is None ==> exception_section(e) == "\n--- 异常信息 ---\n"@
            + "异常码:  "@ + e->0.code@ + "\n"@ + "异常地址: "@ + e->0.address@ + "\n"@,
        e is Some && e->0.reason is Some ==> exception_section(e) == "\n--- 异常信息 ---\n"@
            + "异常码:  "@ + e->0.code@ + "\n"@ + "异常地址: "@ + e->0.address@ + "\n"@
            + "异常原因: "@ + e->0.reason->0@ + "\n"@,
{
    if e is Some && e->0.reason is None {
        assert(exception_section(e) =~= "\n--- 异常信息 ---\n"@ + "异常码:  "@ + e->0.code@ + "\n"@
            + "异常地址: "@ + e->0.address@ + "\n"@);
    }
}

/// A frame line: `#` and the index right-aligned in two columns, the
/// function in a column of 50, and in parentheses `file:line` for a
/// positive line, the file alone otherwise, or `<未知位置>` without a file.
pub proof fn lemma_frame_line(f: FrameOutput)
    ensures
        frame_line(f) == "#"@ + pad_left(dec_digits(f.index as nat), 2) + " "@ + pad_right(
            f.function@,
            50,
        ) + " ("@ + frame_location(f) + ")\n"@,
        f.file is None ==> frame_location(f) == "<未知位置>"@,
        f.file is Some && f.line is Some && f.line->0 > 0 ==> frame_location(f) == f.file->0@ + ":"@
            + dec_digits(f.line->0 as nat),
        f.file is Some && !(f.line is Some && f.line->0 > 0) ==> frame_location(f) == f.file->0@,
{
}

/// A thread's section: nothing for a thread other than the crashing one
/// unless all threads are shown; otherwise its heading (naming the crashing
/// thread as such), its registers when asked for and present, and its
/// frame lines or a placeholder when it has none.
pub proof fn lemma_thread_section(t: ThreadOutput, include_all_threads: bool, include_registers: bool)
    ensures
        !t.is_crash_thread && !include_all_threads ==> thread_text(
            t,
            include_all_threads,
            include_registers,
        ) == Seq::<char>::empty(),
        t.is_crash_thread || include_all_threads ==> thread_text(
            t,
            include_all_threads,
            include_registers,
        ) == (if t.is_crash_thread {
            "\n--- 崩溃调用栈 (线程 #"@ + dec_digits(t.index as nat) + ") ---\n"@
        } else {
            "\n--- 线程 #"@ + dec_digits(t.index as nat) + " ---\n"@
        }) + (if include_registers && t.registers is Some {
            "  寄存器:\n"@ + register_lines(t.registers->0@)
        } else {
            Seq::<char>::empty()
        }) + (if t.frames.len() == 0 {
            "  <无已解析的调用帧>\n"@
        } else {
            frames_text(t.frames@)
        }),
{
}

/// Registers are shown four to a line, each line indented by four blanks,
/// the cells (name in a column of 6, a blank, the value) separated by two
/// blanks.
pub proof fn lemma_register_lines(rs: Seq<RegisterOutput>)
    ensures
        rs.len() == 0 ==> register_lines(rs) == Seq::<char>::empty(),
        0 < rs.len() <= 4 ==> register_lines(rs) == "    "@ + register_cells(rs) + "\n"@,
        rs.len() > 4 ==> register_lines(rs) == "    "@ + register_cells(rs.take(4)) + "\n"@
            + register_lines(rs.skip(4)),
        rs.len() == 1 ==> register_cells(rs) == pad_right(rs[0].register@, 6) + " "@ + rs[0].value@,
        rs.len() > 1 ==> register_cells(rs) == register_cells(rs.drop_last()) + "  "@ + pad_right(
            rs.last().register@,
            6,
        ) + " "@ + rs.last().value@,
{
}

/// The text of a report: the channel line, the system and exception
/// sections, the module list (one line per module, in order), the thread
/// sections in order, and the hint about hidden threads, which counts the
/// threads other than the crashing one and appears only when some are
/// hidden.
pub proof fn lemma_format_text_layout(
    report: CrashReport,
    include_all_threads: bool,
    include_registers: bool,
    ms: Seq<ModuleOutput>,
    m: ModuleOutput,
    ts: Seq<ThreadOutput>,
)
    ensures
        format_text_spec(report, include_all_threads, include_registers) == "渠道: "@ + (match report.channel {
            Channel::Pc => "Pc"@,
            Channel::Android => "Android"@,
            Channel::Ios => "Ios"@,
        }) + "\n"@ + system_section(report.system_info) + exception_section(report.exception)
            + "\n--- 模块列表 ---\n"@ + modules_text(report.modules@) + threads_text(
            report.threads@,
            include_all_threads,
            include_registers,
        ) + footer_text(report.threads@, include_all_threads),
        modules_text(Seq::<ModuleOutput>::empty()) == Seq::<char>::empty(),
        modules_text(ms.push(m)) == modules_text(ms) + module_line(m),
        footer_text(ts, include_all_threads) == (if !include_all_threads && other_thread_count(ts) > 0 {
            "\n其他 "@ + dec_digits(other_thread_count(ts)) + " 个线程的调用栈 (使用 --all-threads 查看)\n"@
        } else {
            Seq::<char>::empty()
        }),
{
    assert(ms.push(m).drop_last() =~= ms);
}


/// A frame is kept exactly when its function has a name that starts
/// neither with `<unknown` nor with `<未知`, and the kept frames are the
/// known frames of the stack in their order: adding a frame at the end
/// adds it to the kept frames exactly when it is known.
pub proof fn lemma_known_frames_order(s: Seq<DumpFrame>, f: DumpFrame)
    ensures
        is_known_frame(f) <==> (f.function_name is Some && !has_prefix(
            f.function_name->0@,
            "<unknown"@,
        ) && !has_prefix(f.function_name->0@, "<未知"@)),
        known_frames(Seq::<DumpFrame>::empty()) == Seq::<DumpFrame>::empty(),
        known_frames(s.push(f)) == (if is_known_frame(f) {
            known_frames(s).push(f)
        } else {
            known_frames(s)
        }),
{
    assert(s.push(f).drop_last() =~= s);
}

/// The row of thread `i` in a built report: numbered `i`, marked as the
/// crashing thread exactly when it requested the dump; it shows the known
/// frames of its stack, numbered from 0, when it is the crashing thread or
/// all threads are asked for, and no frame otherwise; it carries the
/// registers of the context exactly when it is the crashing thread,
/// registers are asked for and the dump has a context.
pub proof fn lemma_report_thread_row(
    o: ThreadOutput,
    i: int,
    t: DumpThread,
    crash: Option<usize>,
    include_all_threads: bool,
    include_registers: bool,
    context: Option<RawContext>,
)
    requires
        thread_output_ok(o, i, t, crash, include_all_threads, include_registers, context),
    ensures
        o.index == i,
        o.is_crash_thread == (crash == Some(i as usize)),
        o.registers is Some <==> (o.is_crash_thread && include_registers && context is Some),
        o.registers is Some ==> regs_view(o.registers->0@) == register_list(context->0),
        !(o.is_crash_thread || include_all_threads) ==> o.frames.len() == 0,
        o.is_crash_thread || include_all_threads ==> {
            let kept = known_frames(t.frames@);
            &&& o.frames.len() == kept.len()
            &&& forall|j: int|
                0 <= j < o.frames.len() ==> {
                    let fo = #[trigger] o.frames@[j];
                    &&& fo.index == j
                    &&& Some(fo.function@) == opt_view(kept[j].function_name)
                    &&& opt_view(fo.file) == opt_view(kept[j].source_file_name)
                    &&& fo.line == kept[j].source_line
                }
        },
{
    if o.is_crash_thread || include_all_threads {
        let kept = known_frames(t.frames@);
        assert forall|j: int| 0 <= j < o.frames.len() implies {
            let fo = #[trigger] o.frames@[j];
            &&& fo.index == j
            &&& Some(fo.function@) == opt_view(kept[j].function_name)
            &&& opt_view(fo.file) == opt_view(kept[j].source_file_name)
            &&& fo.line == kept[j].source_line
        } by {
            assert(frame_output_ok(o.frames@[j], j, kept[j]));
        }
    }
}

/// The key under which the report looks for a module's symbols exists
/// exactly when the module has a debug id; it is the debug file's file
/// name (the whole debug file when none is found, nothing without a debug
/// file) with the Breakpad id of the debug id.
pub proof fn lemma_report_key(m: DumpModule, n: ModuleFileNames)
    ensures
        report_key_spec(m, n) is Some <==> m.debug_id is Some,
        m.debug_id is Some ==> report_key_spec(m, n) == Some(
            (
                if m.debug_file is None {
                    Seq::<char>::empty()
                } else if n.debug_file_name is Some {
                    n.debug_file_name->0@
                } else {
                    m.debug_file->0@
                },
                breakpad_id(m.debug_id->0@),
            ),
        ),
{
}

} // verus!
