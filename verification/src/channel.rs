//! The decisions of an analysis run: which channels can be analysed, what
//! the options ask for, and the report of a run that only fetches symbols.
use vstd::prelude::*;
use vstd::string::*;

use crate::analyzer::CrashReport;
use crate::symbols::{fetch_action_spec, FetchAction};
use crate::Channel;

verus! {

/// What an analysis run does, decided from its options before any work.
#[derive(Clone, Copy, Debug, PartialEq, Eq)]
pub struct AnalysisPlan {
    /// Read the CPU context of the crashing thread (for registers).
    pub want_context: bool,
    /// Fetch or convert missing symbols before processing the dump.
    pub prefetch_symbols: bool,
    /// Allow the fetch to download from the symbol server.
    pub include_remote: bool,
    /// Stop after the fetch and return the empty report.
    pub stop_after_prefetch: bool,
}

impl AnalysisPlan {
    /// The plan for the given options, as a value.
    pub open spec fn spec_new(download_only: bool, has_pdb_dir: bool, include_registers: bool) -> AnalysisPlan {
        AnalysisPlan {
            want_context: include_registers,
            prefetch_symbols: download_only || has_pdb_dir,
            include_remote: download_only,
            stop_after_prefetch: download_only,
        }
    }

    /// The plan for the given options: the context is read only for
    /// registers; symbols are fetched when only downloading or when a local
    /// PDB directory is given; a download-only run may fetch from the symbol
    /// server (after local PDBs, which the fetch converts first) and stops
    /// after the fetch.
    pub fn new(download_only: bool, has_pdb_dir: bool, include_registers: bool) -> (p: AnalysisPlan)
        ensures
            p.want_context == include_registers,
            p.prefetch_symbols == (download_only || has_pdb_dir),
            p.include_remote == download_only,
            p.stop_after_prefetch == download_only,
            p == AnalysisPlan::spec_new(download_only, has_pdb_dir, include_registers),
    {
        AnalysisPlan {
            want_context: include_registers,
            prefetch_symbols: download_only || has_pdb_dir,
            include_remote: download_only,
            stop_after_prefetch: download_only,
        }
    }
}

/// Whether a channel can be analysed, and the error for one that cannot.
pub open spec fn channel_support_spec(channel: Channel) -> Result<(), Seq<char>> {
    match channel {
        Channel::Pc => Ok(()),
        Channel::Android => Err("Android 渠道解析尚未实现"@),
        Channel::Ios => Err("iOS 渠道解析尚未实现"@),
    }
}

/// Only PC dumps are analysed; the other channels are refused with a
/// message naming the channel.
pub fn channel_support(channel: Channel) -> (r: Result<(), String>)
    ensures
        crate::symbols::result_view(r) == channel_support_spec(channel),
{
    match channel {
        Channel::Pc => Ok(()),
        Channel::Android => Err(String::from_str("Android 渠道解析尚未实现")),
        Channel::Ios => Err(String::from_str("iOS 渠道解析尚未实现")),
    }
}

impl CrashReport {
    /// The report of a run that only fetched symbols: nothing but the channel.
    pub fn download_only(channel: Channel) -> (r: CrashReport)
        ensures
            r.channel == channel,
            r.system_info is None,
            r.exception is None,
            r.modules.len() == 0,
            r.threads.len() == 0,
    {
        CrashReport {
            channel,
            system_info: None,
            exception: None,
            modules: Vec::new(),
            threads: Vec::new(),
        }
    }
}

/// Which sections the output shows, from the command-line flags: `full`
/// stands for both all threads and registers.
pub fn display_options(full: bool, all_threads: bool, registers: bool) -> (r: (bool, bool))
    ensures
        r.0 == (full || all_threads),
        r.1 == (full || registers),
{
    (full || all_threads, full || registers)
}

/// A run that stops after fetching symbols has fetched them, and remote
/// downloads happen only in a fetch.
pub proof fn lemma_plan_consistent(download_only: bool, has_pdb_dir: bool, include_registers: bool)
    ensures
        AnalysisPlan::spec_new(download_only, has_pdb_dir, include_registers).stop_after_prefetch
            ==> AnalysisPlan::spec_new(download_only, has_pdb_dir, include_registers).prefetch_symbols,
        AnalysisPlan::spec_new(download_only, has_pdb_dir, include_registers).include_remote
            ==> AnalysisPlan::spec_new(download_only, has_pdb_dir, include_registers).prefetch_symbols,
{
}

/// In a download-only run every module whose symbols are missing is
/// fetched: from its local PDB when the PDB directory holds one, from the
/// symbol server otherwise; none is left out.
pub proof fn lemma_download_only_fetches_missing(
    has_pdb_dir: bool,
    include_registers: bool,
    local_pdb_exists: bool,
)
    ensures
        ({
            let plan = AnalysisPlan::spec_new(true, has_pdb_dir, include_registers);
            let action = fetch_action_spec(false, local_pdb_exists, has_pdb_dir, plan.include_remote);
            &&& plan.prefetch_symbols
            &&& action != FetchAction::Leave
            &&& (action == FetchAction::ConvertLocal) == (has_pdb_dir && local_pdb_exists)
            &&& (action == FetchAction::Download) == !(has_pdb_dir && local_pdb_exists)
        }),
{
}


/// Only PC dumps are analysed; the other channels are refused with a
/// message that names the channel.
pub proof fn lemma_channel_support(channel: Channel)
    ensures
        channel_support_spec(channel) is Ok <==> channel == Channel::Pc,
        channel == Channel::Android ==> channel_support_spec(channel) == Err::<(), Seq<char>>(
            "Android 渠道解析尚未实现"@,
        ),
        channel == Channel::Ios ==> channel_support_spec(channel) == Err::<(), Seq<char>>(
            "iOS 渠道解析尚未实现"@,
        ),
{
}

} // verus!
