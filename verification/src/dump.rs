//! Parsing the bytes of a minidump into the plain values that the report is
//! built from. The parsing itself is the `minidump` crate's; each wrapper
//! below makes one kind of read and hands back plain values, named by a
//! function of the dump's bytes.
use vstd::prelude::*;

use minidump::{
    Minidump, MinidumpException, MinidumpMiscInfo, MinidumpModuleList, MinidumpRawContext,
    MinidumpSystemInfo, Module,
};

use crate::analyzer::{
    Amd64Registers, Arm64Registers, DumpException, DumpModule, DumpSystemInfo, RawContext,
    X86Registers,
};
use crate::channel::AnalysisPlan;
use crate::symbols::opt_view;

verus! {

/// Name for the error message of `Minidump::read` on `bytes`, `None` when
/// the bytes parse as a minidump (header and stream directory).
pub uninterp spec fn minidump_read_error(bytes: Seq<u8>) -> Option<Seq<char>>;

/// Name for what `get_stream::<MinidumpSystemInfo>` gives for the dump: the
/// `{:?}` names of its operating system and CPU, `None` when the dump or
/// the stream cannot be read.
pub uninterp spec fn system_info_of(bytes: Seq<u8>) -> Option<(Seq<char>, Seq<char>)>;

/// Name for what `get_stream::<MinidumpException>` gives for the dump: the
/// code and address of its exception record, `None` when the dump or the
/// stream cannot be read.
pub uninterp spec fn exception_of(bytes: Seq<u8>) -> Option<(u32, u64)>;

/// Name for what `get_stream::<MinidumpModuleList>` gives for the dump: for
/// each module its code file, debug file and debug identifier (in GUID
/// form), `None` when the dump or the module list cannot be read.
pub uninterp spec fn modules_of_dump(bytes: Seq<u8>) -> Option<
    Seq<(Seq<char>, Option<Seq<char>>, Option<Seq<char>>)>,
>;

/// Name for whether `MinidumpException::context` finds a CPU context of the
/// crashing thread (it needs the exception and system information streams).
pub uninterp spec fn context_present_of(bytes: Seq<u8>) -> bool;

/// Name for the x86-64 general registers of that context: `rip`, `rsp`,
/// `rbp`, `rax`, `rbx`, `rcx`, `rdx`, `rsi`, `rdi`, `r8`..`r15`, then
/// `eflags`; `None` unless the context is an x86-64 one.
pub uninterp spec fn amd64_context_of(bytes: Seq<u8>) -> Option<(Seq<u64>, u32)>;

/// Name for the x86 registers of that context: `eip`, `esp`, `ebp`, `eax`,
/// `ebx`, `ecx`, `edx`, `esi`, `edi`, `eflags`; `None` unless x86.
pub uninterp spec fn x86_context_of(bytes: Seq<u8>) -> Option<Seq<u32>>;

/// Name for the ARM64 registers of that context: the 31 general registers,
/// `sp`, `pc`, `cpsr`; `None` unless it is an ARM64 context.
pub uninterp spec fn arm64_context_of(bytes: Seq<u8>) -> Option<(Seq<u64>, u64, u64, u32)>;

/// Name for the same registers of an ARM64 context in the older layout.
pub uninterp spec fn old_arm64_context_of(bytes: Seq<u8>) -> Option<(Seq<u64>, u64, u64, u32)>;

/// Calls `Minidump::read` on `bytes` and turns its error into its message.
#[verifier::external_body]
fn read_error(bytes: &[u8]) -> (r: Option<String>)
    ensures
        opt_view(r) == minidump_read_error(bytes@),
{
    Minidump::read(bytes).err().map(|e| e.to_string())
}

/// Reads the system information stream with `get_stream` and renders its
/// operating system and CPU with `{:?}`.
#[verifier::external_body]
fn read_system_info(bytes: &[u8]) -> (r: Option<DumpSystemInfo>)
    ensures
        match r {
            Some(s) => system_info_of(bytes@) == Some((s.os@, s.cpu@)),
            None => system_info_of(bytes@) is None,
        },
{
    let dump = Minidump::read(bytes).ok()?;
    let s = dump.get_stream::<MinidumpSystemInfo>().ok()?;
    Some(DumpSystemInfo { os: format!("{:?}", s.os), cpu: format!("{:?}", s.cpu) })
}

/// Reads the exception stream with `get_stream` and takes the code and the
/// address of its exception record.
#[verifier::external_body]
fn read_exception(bytes: &[u8]) -> (r: Option<DumpException>)
    ensures
        match r {
            Some(e) => exception_of(bytes@) == Some((e.code, e.address)),
            None => exception_of(bytes@) is None,
        },
{
    let dump = Minidump::read(bytes).ok()?;
    let exc = dump.get_stream::<MinidumpException>().ok()?;
    let record = &exc.raw.exception_record;
    Some(DumpException { code: record.exception_code, address: record.exception_address })
}

/// View of one module as (code file, debug file, debug identifier).
pub open spec fn module_view(m: DumpModule) -> (Seq<char>, Option<Seq<char>>, Option<Seq<char>>) {
    (m.code_file@, opt_view(m.debug_file), opt_view(m.debug_id))
}

/// View of a module list.
pub open spec fn modules_view(v: Option<Vec<DumpModule>>) -> Option<
    Seq<(Seq<char>, Option<Seq<char>>, Option<Seq<char>>)>,
> {
    match v {
        Some(v) => Some(v@.map_values(|m: DumpModule| module_view(m))),
        None => None,
    }
}

/// Reads the module list stream with `get_stream` and takes each module's
/// code file, debug file and debug identifier as strings.
#[verifier::external_body]
fn read_modules(bytes: &[u8]) -> (r: Option<Vec<DumpModule>>)
    ensures
        modules_view(r) == modules_of_dump(bytes@),
{
    let dump = Minidump::read(bytes).ok()?;
    let list = dump.get_stream::<MinidumpModuleList>().ok()?;
    let mut out = Vec::new();
    for m in list.iter() {
        let debug_file = m.debug_file().map(|d| d.to_string());
        let debug_id = m.debug_identifier().map(|id| id.to_string());
        out.push(DumpModule { code_file: m.code_file().to_string(), debug_file, debug_id });
    }
    Some(out)
}

/// Asks `MinidumpException::context` for the CPU context of the crashing
/// thread, given the system information and misc info streams.
#[verifier::external_body]
fn read_context_present(bytes: &[u8]) -> (r: bool)
    ensures
        r == context_present_of(bytes@),
{
    let Ok(dump) = Minidump::read(bytes) else { return false };
    let (Ok(si), Ok(exc)) = (dump.get_stream::<MinidumpSystemInfo>(), dump.get_stream::<MinidumpException>()) else { return false };
    exc.context(&si, dump.get_stream::<MinidumpMiscInfo>().ok().as_ref()).is_some()
}

/// The x86-64 registers of the crashing thread's context, if it is one.
#[verifier::external_body]
fn read_amd64_context(bytes: &[u8]) -> (r: Option<([u64; 17], u32)>)
    ensures
        match r {
            Some((regs, eflags)) => amd64_context_of(bytes@) == Some((regs@, eflags)),
            None => amd64_context_of(bytes@) is None,
        },
{
    let dump = Minidump::read(bytes).ok()?;
    let (si, exc) = (dump.get_stream::<MinidumpSystemInfo>().ok()?, dump.get_stream::<MinidumpException>().ok()?);
    let ctx = exc.context(&si, dump.get_stream::<MinidumpMiscInfo>().ok().as_ref())?;
    match &ctx.raw {
        MinidumpRawContext::Amd64(c) => Some(([c.rip, c.rsp, c.rbp, c.rax, c.rbx, c.rcx, c.rdx, c.rsi, c.rdi, c.r8, c.r9, c.r10, c.r11, c.r12, c.r13, c.r14, c.r15], c.eflags)),
        _ => None,
    }
}

/// The x86 registers of the crashing thread's context, if it is one.
#[verifier::external_body]
fn read_x86_context(bytes: &[u8]) -> (r: Option<[u32; 10]>)
    ensures
        match r {
            Some(regs) => x86_context_of(bytes@) == Some(regs@),
            None => x86_context_of(bytes@) is None,
        },
{
    let dump = Minidump::read(bytes).ok()?;
    let (si, exc) = (dump.get_stream::<MinidumpSystemInfo>().ok()?, dump.get_stream::<MinidumpException>().ok()?);
    let ctx = exc.context(&si, dump.get_stream::<MinidumpMiscInfo>().ok().as_ref())?;
    match &ctx.raw {
        MinidumpRawContext::X86(c) => Some([c.eip, c.esp, c.ebp, c.eax, c.ebx, c.ecx, c.edx, c.esi, c.edi, c.eflags]),
        _ => None,
    }
}

/// The ARM64 registers of the crashing thread's context, if it is one.
#[verifier::external_body]
fn read_arm64_context(bytes: &[u8]) -> (r: Option<([u64; 31], u64, u64, u32)>)
    ensures
        match r {
            Some((iregs, sp, pc, cpsr)) => arm64_context_of(bytes@) == Some((iregs@, sp, pc, cpsr)),
            None => arm64_context_of(bytes@) is None,
        },
{
    let dump = Minidump::read(bytes).ok()?;
    let (si, exc) = (dump.get_stream::<MinidumpSystemInfo>().ok()?, dump.get_stream::<MinidumpException>().ok()?);
    let ctx = exc.context(&si, dump.get_stream::<MinidumpMiscInfo>().ok().as_ref())?;
    match &ctx.raw {
        MinidumpRawContext::Arm64(c) => Some((c.iregs, c.sp, c.pc, c.cpsr)),
        _ => None,
    }
}

/// The registers of the crashing thread's context in the older ARM64
/// layout, if it is one.
#[verifier::external_body]
fn read_old_arm64_context(bytes: &[u8]) -> (r: Option<([u64; 31], u64, u64, u32)>)
    ensures
        match r {
            Some((iregs, sp, pc, cpsr)) => old_arm64_context_of(bytes@) == Some((iregs@, sp, pc, cpsr)),
            None => old_arm64_context_of(bytes@) is None,
        },
{
    let dump = Minidump::read(bytes).ok()?;
    let (si, exc) = (dump.get_stream::<MinidumpSystemInfo>().ok()?, dump.get_stream::<MinidumpException>().ok()?);
    let ctx = exc.context(&si, dump.get_stream::<MinidumpMiscInfo>().ok().as_ref())?;
    match &ctx.raw {
        MinidumpRawContext::OldArm64(c) => Some((c.iregs, c.sp, c.pc, c.cpsr)),
        _ => None,
    }
}

// ── verified assembly ─────────────────────────────────────────────────

/// The streams of a dump that the report is built from.
#[derive(Clone, Debug, PartialEq, Eq)]
pub struct DumpStreams {
    pub system_info: Option<DumpSystemInfo>,
    pub exception: Option<DumpException>,
    pub modules: Option<Vec<DumpModule>>,
    pub context: Option<RawContext>,
}

/// x86-64 registers from their values in context order.
pub open spec fn amd64_from(regs: Seq<u64>, eflags: u32) -> Amd64Registers {
    Amd64Registers {
        rip: regs[0],
        rsp: regs[1],
        rbp: regs[2],
        rax: regs[3],
        rbx: regs[4],
        rcx: regs[5],
        rdx: regs[6],
        rsi: regs[7],
        rdi: regs[8],
        r8: regs[9],
        r9: regs[10],
        r10: regs[11],
        r11: regs[12],
        r12: regs[13],
        r13: regs[14],
        r14: regs[15],
        r15: regs[16],
        eflags,
    }
}

/// x86 registers from their values in context order.
pub open spec fn x86_from(regs: Seq<u32>) -> X86Registers {
    X86Registers {
        eip: regs[0],
        esp: regs[1],
        ebp: regs[2],
        eax: regs[3],
        ebx: regs[4],
        ecx: regs[5],
        edx: regs[6],
        esi: regs[7],
        edi: regs[8],
        eflags: regs[9],
    }
}

/// ARM64 registers `a` hold the values `v`.
pub open spec fn arm64_is(a: Arm64Registers, v: (Seq<u64>, u64, u64, u32)) -> bool {
    (a.iregs@, a.sp, a.pc, a.cpsr) == v
}

/// The context that the dump's bytes give: none without a readable context;
/// the registers of the x86-64, x86 or ARM64 context; `Other` for any other
/// architecture.
pub open spec fn context_ok(c: Option<RawContext>, bytes: Seq<u8>) -> bool {
    if !context_present_of(bytes) {
        c is None
    } else if let Some((regs, eflags)) = amd64_context_of(bytes) {
        c == Some(RawContext::Amd64(amd64_from(regs, eflags)))
    } else if x86_context_of(bytes) is Some {
        c == Some(RawContext::X86(x86_from(x86_context_of(bytes)->0)))
    } else if arm64_context_of(bytes) is Some {
        c matches Some(RawContext::Arm64(a)) && arm64_is(a, arm64_context_of(bytes)->0)
    } else if old_arm64_context_of(bytes) is Some {
        c matches Some(RawContext::OldArm64(a)) && arm64_is(a, old_arm64_context_of(bytes)->0)
    } else {
        c == Some(RawContext::Other)
    }
}

/// View of the system information row.
pub open spec fn system_info_view(s: Option<DumpSystemInfo>) -> Option<(Seq<char>, Seq<char>)> {
    match s {
        Some(s) => Some((s.os@, s.cpu@)),
        None => None,
    }
}

/// View of the exception record.
pub open spec fn exception_view(e: Option<DumpException>) -> Option<(u32, u64)> {
    match e {
        Some(e) => Some((e.code, e.address)),
        None => None,
    }
}

/// The streams are those of the dump's bytes; the context is read only
/// when it is wanted.
pub open spec fn streams_ok(s: DumpStreams, bytes: Seq<u8>, want_context: bool) -> bool {
    &&& system_info_view(s.system_info) == system_info_of(bytes)
    &&& exception_view(s.exception) == exception_of(bytes)
    &&& modules_view(s.modules) == modules_of_dump(bytes)
    &&& if want_context {
        context_ok(s.context, bytes)
    } else {
        s.context is None
    }
}

/// The CPU context of the crashing thread, by architecture.
pub fn read_context(bytes: &[u8]) -> (r: Option<RawContext>)
    ensures
        context_ok(r, bytes@),
{
    if !read_context_present(bytes) {
        return None;
    }
    if let Some((regs, eflags)) = read_amd64_context(bytes) {
        return Some(
            RawContext::Amd64(
                Amd64Registers {
                    rip: regs[0],
                    rsp: regs[1],
                    rbp: regs[2],
                    rax: regs[3],
                    rbx: regs[4],
                    rcx: regs[5],
                    rdx: regs[6],
                    rsi: regs[7],
                    rdi: regs[8],
                    r8: regs[9],
                    r9: regs[10],
                    r10: regs[11],
                    r11: regs[12],
                    r12: regs[13],
                    r13: regs[14],
                    r14: regs[15],
                    r15: regs[16],
                    eflags,
                },
            ),
        );
    }
    if let Some(regs) = read_x86_context(bytes) {
        return Some(
            RawContext::X86(
                X86Registers {
                    eip: regs[0],
                    esp: regs[1],
                    ebp: regs[2],
                    eax: regs[3],
                    ebx: regs[4],
                    ecx: regs[5],
                    edx: regs[6],
                    esi: regs[7],
                    edi: regs[8],
                    eflags: regs[9],
                },
            ),
        );
    }
    if let Some((iregs, sp, pc, cpsr)) = read_arm64_context(bytes) {
        return Some(RawContext::Arm64(Arm64Registers { iregs, sp, pc, cpsr }));
    }
    if let Some((iregs, sp, pc, cpsr)) = read_old_arm64_context(bytes) {
        return Some(RawContext::OldArm64(Arm64Registers { iregs, sp, pc, cpsr }));
    }
    Some(RawContext::Other)
}

/// Reads the streams of a dump; the context only when `want_context`.
pub fn read_dump_streams(bytes: &[u8], want_context: bool) -> (r: DumpStreams)
    ensures
        streams_ok(r, bytes@, want_context),
{
    DumpStreams {
        system_info: read_system_info(bytes),
        exception: read_exception(bytes),
        modules: read_modules(bytes),
        context: if want_context {
            read_context(bytes)
        } else {
            None
        },
    }
}

/// View of the outcome of preparing an analysis.
pub open spec fn prepare_ok(
    r: Result<(DumpStreams, AnalysisPlan), String>,
    bytes: Seq<u8>,
    download_only: bool,
    has_pdb_dir: bool,
    include_registers: bool,
) -> bool {
    match r {
        Ok((s, p)) => {
            &&& minidump_read_error(bytes) is None
            &&& p == AnalysisPlan::spec_new(download_only, has_pdb_dir, include_registers)
            &&& streams_ok(s, bytes, p.want_context)
        },
        Err(e) => minidump_read_error(bytes) == Some(e@),
    }
}

/// The first step of analysing a dump's bytes: the dump must parse (else
/// its parse error is returned); then the plan is made from the options and
/// the streams are read, the context only when registers are asked for.
pub fn prepare_analysis(
    bytes: &[u8],
    download_only: bool,
    has_pdb_dir: bool,
    include_registers: bool,
) -> (r: Result<(DumpStreams, AnalysisPlan), String>)
    ensures
        prepare_ok(r, bytes@, download_only, has_pdb_dir, include_registers),
{
    match read_error(bytes) {
        Some(e) => Err(e),
        None => {
            let plan = AnalysisPlan::new(download_only, has_pdb_dir, include_registers);
            let streams = read_dump_streams(bytes, plan.want_context);
            Ok((streams, plan))
        },
    }
}


/// The context that the dump's bytes give carries the registers of the
/// dump's context field by field, in the order the context names them: no
/// context when none can be read; for an x86-64 context `rip`, `rsp`, `rbp`,
/// `rax`, `rbx`, `rcx`, `rdx`, `rsi`, `rdi`, `r8`..`r15`, then `eflags`; for
/// an x86 context `eip`, `esp`, `ebp`, `eax`, `ebx`, `ecx`, `edx`, `esi`,
/// `edi`, `eflags`; for an ARM64 context its general registers, `sp`, `pc`
/// and `cpsr`.
pub proof fn lemma_context_registers(c: Option<RawContext>, bytes: Seq<u8>)
    requires
        context_ok(c, bytes),
    ensures
        !context_present_of(bytes) ==> c is None,
        context_present_of(bytes) ==> c is Some,
        context_present_of(bytes) ==> (amd64_context_of(bytes) matches Some((v, fl)) ==> c == Some(
            RawContext::Amd64(
                Amd64Registers {
                    rip: v[0],
                    rsp: v[1],
                    rbp: v[2],
                    rax: v[3],
                    rbx: v[4],
                    rcx: v[5],
                    rdx: v[6],
                    rsi: v[7],
                    rdi: v[8],
                    r8: v[9],
                    r9: v[10],
                    r10: v[11],
                    r11: v[12],
                    r12: v[13],
                    r13: v[14],
                    r14: v[15],
                    r15: v[16],
                    eflags: fl,
                },
            ),
        )),
        context_present_of(bytes) && amd64_context_of(bytes) is None ==> (x86_context_of(bytes) matches Some(
            v,
        ) ==> c == Some(
            RawContext::X86(
                X86Registers {
                    eip: v[0],
                    esp: v[1],
                    ebp: v[2],
                    eax: v[3],
                    ebx: v[4],
                    ecx: v[5],
                    edx: v[6],
                    esi: v[7],
                    edi: v[8],
                    eflags: v[9],
                },
            ),
        )),
        context_present_of(bytes) && amd64_context_of(bytes) is None && x86_context_of(bytes) is None
            ==> (arm64_context_of(bytes) matches Some(v) ==> (c matches Some(RawContext::Arm64(a))
            && a.iregs@ == v.0 && a.sp == v.1 && a.pc == v.2 && a.cpsr == v.3)),
        context_present_of(bytes) && amd64_context_of(bytes) is None && x86_context_of(bytes) is None
            && arm64_context_of(bytes) is None ==> (old_arm64_context_of(bytes) matches Some(v) ==> (
        c matches Some(RawContext::OldArm64(a)) && a.iregs@ == v.0 && a.sp == v.1 && a.pc == v.2
            && a.cpsr == v.3)),
        context_present_of(bytes) && amd64_context_of(bytes) is None && x86_context_of(bytes) is None
            && arm64_context_of(bytes) is None && old_arm64_context_of(bytes) is None ==> c == Some(
            RawContext::Other,
        ),
{
}


/// The streams read from a dump are the dump's own: the operating system
/// and CPU as named by the system information stream; the code and address
/// of its exception record; each module's code file, debug file and debug
/// id in the module list's order; and a context only when one is wanted.
pub proof fn lemma_streams(st: DumpStreams, bytes: Seq<u8>, want_context: bool)
    requires
        streams_ok(st, bytes, want_context),
    ensures
        st.system_info is Some <==> system_info_of(bytes) is Some,
        system_info_of(bytes) matches Some((os, cpu)) ==> (st.system_info matches Some(si) && si.os@ == os
            && si.cpu@ == cpu),
        st.exception is Some <==> exception_of(bytes) is Some,
        exception_of(bytes) matches Some((code, address)) ==> (st.exception matches Some(e) && e.code
            == code && e.address == address),
        st.modules is Some <==> modules_of_dump(bytes) is Some,
        st.modules is Some ==> {
            let ms = st.modules->0@;
            let v = modules_of_dump(bytes)->0;
            &&& ms.len() == v.len()
            &&& forall|i: int|
                0 <= i < ms.len() ==> {
                    &&& (#[trigger] ms[i]).code_file@ == v[i].0
                    &&& opt_view(ms[i].debug_file) == v[i].1
                    &&& opt_view(ms[i].debug_id) == v[i].2
                }
        },
        !want_context ==> st.context is None,
{
    if st.modules is Some {
        let ms = st.modules->0@;
        let v = modules_of_dump(bytes)->0;
        assert forall|i: int| 0 <= i < ms.len() implies {
            &&& (#[trigger] ms[i]).code_file@ == v[i].0
            &&& opt_view(ms[i].debug_file) == v[i].1
            &&& opt_view(ms[i].debug_id) == v[i].2
        } by {
            assert(v[i] == module_view(ms[i]));
        }
    }
}

/// Preparing an analysis succeeds exactly when the bytes parse as a
/// minidump, and then the context is read only for registers, symbols are
/// fetched first when only downloading or when a PDB directory is given,
/// downloads are allowed and the run stops after the fetch exactly when
/// only downloading.
pub proof fn lemma_prepare(
    r: Result<(DumpStreams, AnalysisPlan), String>,
    bytes: Seq<u8>,
    download_only: bool,
    has_pdb_dir: bool,
    include_registers: bool,
)
    requires
        prepare_ok(r, bytes, download_only, has_pdb_dir, include_registers),
    ensures
        r is Ok <==> minidump_read_error(bytes) is None,
        r matches Ok((st, p)) ==> {
            &&& p.want_context == include_registers
            &&& p.prefetch_symbols == (download_only || has_pdb_dir)
            &&& p.include_remote == download_only
            &&& p.stop_after_prefetch == download_only
            &&& (!include_registers ==> st.context is None)
            &&& (include_registers ==> context_ok(st.context, bytes))
        },
{
}

} // verus!
