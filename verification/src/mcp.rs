//! The requests of the tool server and the replies it gives.
use vstd::prelude::*;
use vstd::string::*;

verus! {

/// A request to analyse a dump.
#[derive(Clone, Debug, PartialEq, Eq)]
pub struct AnalyzeDumpInput {
    /// Path to the `.dmp` file.
    pub dmp_path: String,
    /// Local Breakpad `.sym` symbols directory.
    pub symbols_dir: String,
    /// Symbol cache directory.
    pub cache_dir: String,
    /// Local PDB directory, converted with `dump_syms`.
    pub pdb_dir: Option<String>,
    /// Include every thread's call stack.
    pub all_threads: bool,
    /// Include the crashing thread's registers.
    pub registers: bool,
}

/// A request to fetch the missing symbols of a dump.
#[derive(Clone, Debug, PartialEq, Eq)]
pub struct DownloadSymbolsInput {
    /// Path to the `.dmp` file.
    pub dmp_path: String,
    /// Local Breakpad `.sym` symbols directory.
    pub symbols_dir: String,
    /// Symbol cache directory.
    pub cache_dir: String,
    /// Local PDB directory, converted with `dump_syms`.
    pub pdb_dir: Option<String>,
}

/// The symbols directory used when a request names none.
pub fn default_symbols_dir() -> (r: String)
    ensures
        r@ == "./symbols"@,
{
    String::from_str("./symbols")
}

/// The cache directory used when a request names none.
pub fn default_cache_dir() -> (r: String)
    ensures
        r@ == "./sym_cache"@,
{
    String::from_str("./sym_cache")
}

impl AnalyzeDumpInput {
    /// A request for `dmp_path` with every other field at its default.
    pub fn new(dmp_path: String) -> (r: AnalyzeDumpInput)
        ensures
            r.dmp_path@ == dmp_path@,
            r.symbols_dir@ == "./symbols"@,
            r.cache_dir@ == "./sym_cache"@,
            r.pdb_dir is None,
            !r.all_threads,
            !r.registers,
    {
        AnalyzeDumpInput {
            dmp_path,
            symbols_dir: default_symbols_dir(),
            cache_dir: default_cache_dir(),
            pdb_dir: None,
            all_threads: false,
            registers: false,
        }
    }
}

impl DownloadSymbolsInput {
    /// A request for `dmp_path` with every other field at its default.
    pub fn new(dmp_path: String) -> (r: DownloadSymbolsInput)
        ensures
            r.dmp_path@ == dmp_path@,
            r.symbols_dir@ == "./symbols"@,
            r.cache_dir@ == "./sym_cache"@,
            r.pdb_dir is None,
    {
        DownloadSymbolsInput {
            dmp_path,
            symbols_dir: default_symbols_dir(),
            cache_dir: default_cache_dir(),
            pdb_dir: None,
        }
    }
}

/// The reply to an analysis request: the report's JSON, or why there is
/// none (the analysis failed, or the report could not be serialized).
pub open spec fn analyze_dump_reply_spec(outcome: Result<Result<Seq<char>, Seq<char>>, Seq<char>>) -> Seq<
    char,
> {
    match outcome {
        Ok(Ok(json)) => json,
        Ok(Err(e)) => "JSON serialization failed: "@ + e,
        Err(e) => "Analysis failed: "@ + e,
    }
}

/// View of an analysis outcome.
pub open spec fn analyze_outcome_view(outcome: Result<Result<String, String>, String>) -> Result<
    Result<Seq<char>, Seq<char>>,
    Seq<char>,
> {
    match outcome {
        Ok(Ok(json)) => Ok(Ok(json@)),
        Ok(Err(e)) => Ok(Err(e@)),
        Err(e) => Err(e@),
    }
}

/// Answers an analysis request. `outcome` is the analysis error, or the
/// result of serializing the report to JSON.
pub fn analyze_dump_reply(outcome: Result<Result<String, String>, String>) -> (r: String)
    ensures
        r@ == analyze_dump_reply_spec(analyze_outcome_view(outcome)),
{
    match outcome {
        Ok(Ok(json)) => json,
        Ok(Err(e)) => {
            let mut r = String::from_str("JSON serialization failed: ");
            r.append(e.as_str());
            r
        },
        Err(e) => {
            let mut r = String::from_str("Analysis failed: ");
            r.append(e.as_str());
            r
        },
    }
}

/// The reply when a PDB directory is given but `dump_syms` cannot be run.
pub fn dump_syms_unavailable_reply(error: &str) -> (r: String)
    ensures
        r@ == "dump_syms not available: "@ + error@ + ". Install with: cargo install dump_syms"@,
{
    let mut r = String::from_str("dump_syms not available: ");
    r.append(error);
    r.append(". Install with: cargo install dump_syms");
    r
}

/// Whether a symbol fetch request is refused before any work: only when a
/// PDB directory is given (its PDBs are converted with `dump_syms`) and
/// `dump_syms` could not be started, with the reply that says so.
/// `dump_syms_check` is the outcome of trying to start it.
pub fn download_symbols_refusal(has_pdb_dir: bool, dump_syms_check: Result<(), String>) -> (r:
    Option<String>)
    ensures
        match r {
            Some(reply) => has_pdb_dir && dump_syms_check is Err && reply@ == "dump_syms not available: "@
                + dump_syms_check->Err_0@ + ". Install with: cargo install dump_syms"@,
            None => !has_pdb_dir || dump_syms_check is Ok,
        },
{
    if has_pdb_dir {
        match dump_syms_check {
            Err(e) => Some(dump_syms_unavailable_reply(e.as_str())),
            Ok(()) => None,
        }
    } else {
        None
    }
}

/// The reply to a symbol fetch request.
pub open spec fn download_symbols_reply_spec(outcome: Result<(), Seq<char>>) -> Seq<char> {
    match outcome {
        Ok(()) => "Symbol download/conversion completed successfully. Run analyze_dump to analyze the crash now."@,
        Err(e) => "Symbol download failed: "@ + e,
    }
}

/// Answers a symbol fetch request from its outcome.
pub fn download_symbols_reply(outcome: Result<(), String>) -> (r: String)
    ensures
        r@ == download_symbols_reply_spec(crate::symbols::result_view(outcome)),
{
    match outcome {
        Ok(()) => String::from_str(
            "Symbol download/conversion completed successfully. Run analyze_dump to analyze the crash now.",
        ),
        Err(e) => {
            let mut r = String::from_str("Symbol download failed: ");
            r.append(e.as_str());
            r
        },
    }
}


/// An analysis request is answered with the report's JSON itself when
/// there is one, and otherwise with the reason prefixed by what failed; a
/// symbol fetch request is answered with the success message or with the
/// error prefixed by `Symbol download failed: `.
pub proof fn lemma_replies(
    outcome: Result<Result<Seq<char>, Seq<char>>, Seq<char>>,
    fetch: Result<(), Seq<char>>,
)
    ensures
        outcome matches Ok(Ok(json)) ==> analyze_dump_reply_spec(outcome) == json,
        outcome matches Ok(Err(e)) ==> analyze_dump_reply_spec(outcome) == "JSON serialization failed: "@
            + e,
        outcome matches Err(e) ==> analyze_dump_reply_spec(outcome) == "Analysis failed: "@ + e,
        fetch is Ok ==> download_symbols_reply_spec(fetch)
            == "Symbol download/conversion completed successfully. Run analyze_dump to analyze the crash now."@,
        fetch matches Err(e) ==> download_symbols_reply_spec(fetch) == "Symbol download failed: "@ + e,
{
}

} // verus!
