//! Symbol naming and the decisions of symbol fetching: Breakpad ids from
//! GUIDs, `.sym` file names, symbol-server URLs, what to do for each module,
//! and the tally that the fetch reports at the end.
use vstd::prelude::*;
use vstd::string::*;

use crate::platform::{char_to_uppercase, unicode_uppercase};
use crate::text::{chars_of, dec_digits, has_prefix, push_decimal, replace_all, replace_all_str};

verus! {

/// The symbol server that missing PDB files are fetched from.
pub const MICROSOFT_SYMBOL_SERVER: &'static str = "https://msdl.microsoft.com/download/symbols";

// ── Breakpad ids ──────────────────────────────────────────────────────

/// `c` is an ASCII character.
pub open spec fn is_ascii_char(c: char) -> bool {
    c <= '\u{7f}'
}

/// ASCII upper-casing of one character: `a`..`z` become `A`..`Z`, every
/// other character is kept.
pub open spec fn ascii_upper(c: char) -> char {
    if 'a' <= c <= 'z' {
        ((c as int) - 32) as char
    } else {
        c
    }
}

/// ASCII lower-casing of one character: `A`..`Z` become `a`..`z`.
pub open spec fn ascii_lower(c: char) -> char {
    if 'A' <= c <= 'Z' {
        ((c as int) + 32) as char
    } else {
        c
    }
}

/// What upper-casing turns one character into: its ASCII upper case for an
/// ASCII character, the Unicode mapping otherwise.
pub open spec fn upper_of(c: char) -> Seq<char> {
    if is_ascii_char(c) {
        seq![ascii_upper(c)]
    } else {
        unicode_uppercase(c)
    }
}

/// The Breakpad id of a GUID: its dashes removed, the rest upper-cased.
pub open spec fn breakpad_id(g: Seq<char>) -> Seq<char>
    decreases g.len(),
{
    if g.len() == 0 {
        seq![]
    } else {
        breakpad_id(g.drop_last()) + if g.last() == '-' {
            Seq::<char>::empty()
        } else {
            upper_of(g.last())
        }
    }
}

/// Upper case of an ASCII letter.
fn ascii_upper_exec(c: char) -> (r: char)
    requires
        is_ascii_char(c),
    ensures
        r == ascii_upper(c),
        is_ascii_char(r),
{
    if 'a' <= c && c <= 'z' {
        let u = c as u32;
        ((u - 32) as u8) as char
    } else {
        c
    }
}

/// Converts a GUID such as `a1b2c3d4-e5f6-...` into the Breakpad id under
/// which its symbols are stored: dashes dropped, letters upper-cased.
pub fn guid_to_breakpad_id(guid: &str) -> (r: String)
    ensures
        r@ == breakpad_id(guid@),
{
    let g = chars_of(guid);
    let mut out = String::new();
    let mut i: usize = 0;
    while i < g.len()
        invariant
            g@ == guid@,
            i <= g.len(),
            out@ == breakpad_id(g@.take(i as int)),
        decreases g.len() - i,
    {
        let c = g[i];
        if c != '-' {
            if c <= '\u{7f}' {
                out.push(ascii_upper_exec(c));
            } else {
                let u = char_to_uppercase(c);
                out.append(u.as_str());
            }
        }
        assert(g@.take(i + 1).drop_last() =~= g@.take(i as int));
        assert(out@ =~= breakpad_id(g@.take(i + 1)));
        i = i + 1;
    }
    assert(g@.take(g.len() as int) =~= guid@);
    out
}

// ── Symbol file locations ─────────────────────────────────────────────

/// Name of the Breakpad symbol file for a PDB: every `.pdb` becomes `.sym`.
pub open spec fn sym_file_name_spec(pdb_name: Seq<char>) -> Seq<char> {
    replace_all(pdb_name, ".pdb"@, ".sym"@)
}

/// The `.sym` file name that belongs to the PDB `pdb_name`.
pub fn sym_file_name(pdb_name: &str) -> (r: String)
    ensures
        r@ == sym_file_name_spec(pdb_name@),
{
    replace_all_str(pdb_name, ".pdb", ".sym")
}

/// Where the symbol file of a PDB lies below a symbol directory: the path
/// components `<pdb_name>/<breakpad_id>/<sym file name>`.
pub fn symbol_file_parts(pdb_name: &str, breakpad_id: &str) -> (r: Vec<String>)
    ensures
        r.len() == 3,
        r[0]@ == pdb_name@,
        r[1]@ == breakpad_id@,
        r[2]@ == sym_file_name_spec(pdb_name@),
{
    let mut r: Vec<String> = Vec::new();
    r.push(pdb_name.to_owned());
    r.push(breakpad_id.to_owned());
    r.push(sym_file_name(pdb_name));
    r
}

/// `pdb_name` with every `.pdb` removed (the stem shown in progress lines).
pub fn pdb_stem(pdb_name: &str) -> (r: String)
    ensures
        r@ == replace_all(pdb_name@, ".pdb"@, ""@),
{
    replace_all_str(pdb_name, ".pdb", "")
}

/// URL of a PDB on the symbol server: `<server>/<pdb>/<id>/<pdb>`.
pub open spec fn symbol_url_spec(pdb_name: Seq<char>, breakpad_id: Seq<char>) -> Seq<char> {
    MICROSOFT_SYMBOL_SERVER@ + "/"@ + pdb_name + "/"@ + breakpad_id + "/"@ + pdb_name
}

/// The download URL of the PDB `pdb_name` with id `breakpad_id`.
pub fn symbol_url(pdb_name: &str, breakpad_id: &str) -> (r: String)
    ensures
        r@ == symbol_url_spec(pdb_name@, breakpad_id@),
{
    let mut r = String::new();
    r.append(MICROSOFT_SYMBOL_SERVER);
    r.append("/");
    r.append(pdb_name);
    r.append("/");
    r.append(breakpad_id);
    r.append("/");
    r.append(pdb_name);
    r
}

/// Where the symbols of one module are looked up: the PDB file name and
/// the Breakpad id, which make the directory `<dir>/<pdb>/<id>/`.
#[derive(Clone, Debug, PartialEq, Eq)]
pub struct SymbolKey {
    pub pdb_name: String,
    pub breakpad_id: String,
}

// ── Fetch decisions ───────────────────────────────────────────────────

/// What the symbol fetch does for one module that has debug information.
#[derive(Clone, Copy, Debug, PartialEq, Eq)]
pub enum FetchAction {
    /// The `.sym` file is already in the symbols or the cache directory.
    AlreadyPresent,
    /// A PDB of that name lies in the local PDB directory: convert it.
    ConvertLocal,
    /// Download the PDB from the symbol server and convert it.
    Download,
    /// Nothing to do: not present, no local PDB, remote fetching is off.
    Leave,
}

/// The action for a module, given what is on disk and the options.
pub open spec fn fetch_action_spec(
    sym_present: bool,
    local_pdb_exists: bool,
    has_pdb_dir: bool,
    include_remote: bool,
) -> FetchAction {
    if sym_present {
        FetchAction::AlreadyPresent
    } else if has_pdb_dir && local_pdb_exists {
        FetchAction::ConvertLocal
    } else if include_remote {
        FetchAction::Download
    } else {
        FetchAction::Leave
    }
}

/// Decides what to do for a module whose symbols are `sym_present` or not,
/// whose PDB `local_pdb_exists` in the local PDB directory (if there is one),
/// with remote downloads allowed or not.
pub fn fetch_action(
    sym_present: bool,
    local_pdb_exists: bool,
    has_pdb_dir: bool,
    include_remote: bool,
) -> (r: FetchAction)
    ensures
        r == fetch_action_spec(sym_present, local_pdb_exists, has_pdb_dir, include_remote),
{
    if sym_present {
        FetchAction::AlreadyPresent
    } else if has_pdb_dir && local_pdb_exists {
        FetchAction::ConvertLocal
    } else if include_remote {
        FetchAction::Download
    } else {
        FetchAction::Leave
    }
}

/// Whether an action starts a conversion task.
pub open spec fn spawns_task(a: FetchAction) -> bool {
    a == FetchAction::ConvertLocal || a == FetchAction::Download
}

/// The fetch key of a module, if it has both a debug file and a debug id:
/// the debug file's file name (`file_name` when the path has one, else the
/// whole debug file) and the Breakpad id of the debug id.
pub open spec fn fetch_key_spec(
    debug_file: Option<Seq<char>>,
    debug_id: Option<Seq<char>>,
    file_name: Option<Seq<char>>,
) -> Option<(Seq<char>, Seq<char>)> {
    match (debug_file, debug_id) {
        (Some(df), Some(id)) => Some(
            (
                match file_name {
                    Some(n) => n,
                    None => df,
                },
                breakpad_id(id),
            ),
        ),
        _ => None,
    }
}

/// View of an optional string.
pub open spec fn opt_view(o: Option<String>) -> Option<Seq<char>> {
    match o {
        Some(s) => Some(s@),
        None => None,
    }
}

/// View of an optional symbol key.
pub open spec fn key_view(k: Option<SymbolKey>) -> Option<(Seq<char>, Seq<char>)> {
    match k {
        Some(k) => Some((k.pdb_name@, k.breakpad_id@)),
        None => None,
    }
}

/// The key under which the fetch looks up a module's symbols; `file_name`
/// is what `Path::file_name` gave for the debug file.
pub fn fetch_key(
    debug_file: &Option<String>,
    debug_id: &Option<String>,
    file_name: Option<String>,
) -> (r: Option<SymbolKey>)
    ensures
        key_view(r) == fetch_key_spec(opt_view(*debug_file), opt_view(*debug_id), opt_view(file_name)),
{
    match (debug_file, debug_id) {
        (Some(df), Some(id)) => {
            let pdb_name = match file_name {
                Some(n) => n,
                None => df.clone(),
            };
            Some(SymbolKey { pdb_name, breakpad_id: guid_to_breakpad_id(id.as_str()) })
        },
        _ => None,
    }
}

/// Counters of a symbol fetch: modules with debug information (`total`),
/// those already present (`skipped`), conversion tasks started
/// (`spawned`), and tasks that finished well (`ok`) or failed (`fail`).
#[derive(Clone, Copy, Debug, PartialEq, Eq)]
pub struct FetchTally {
    pub total: u32,
    pub skipped: u32,
    pub spawned: u32,
    pub ok: u32,
    pub fail: u32,
}

impl FetchTally {
    /// Every skipped module and every task belongs to a counted module, and
    /// every finished task was started.
    pub open spec fn wf(self) -> bool {
        &&& self.skipped + self.spawned <= self.total
        &&& self.ok + self.fail <= self.spawned
    }

    /// All counters at zero.
    pub fn new() -> (t: FetchTally)
        ensures
            t.wf(),
            t.total == 0 && t.skipped == 0 && t.spawned == 0 && t.ok == 0 && t.fail == 0,
    {
        FetchTally { total: 0, skipped: 0, spawned: 0, ok: 0, fail: 0 }
    }

    /// Counts a module with debug information and the action taken for it.
    pub fn record_module(&mut self, action: FetchAction)
        requires
            old(self).wf(),
            old(self).total < u32::MAX,
        ensures
            final(self).wf(),
            final(self).total == old(self).total + 1,
            final(self).skipped == old(self).skipped + if action == FetchAction::AlreadyPresent {
                1int
            } else {
                0int
            },
            final(self).spawned == old(self).spawned + if spawns_task(action) {
                1int
            } else {
                0int
            },
            final(self).ok == old(self).ok,
            final(self).fail == old(self).fail,
    {
        self.total = self.total + 1;
        match action {
            FetchAction::AlreadyPresent => {
                self.skipped = self.skipped + 1;
            },
            FetchAction::ConvertLocal | FetchAction::Download => {
                self.spawned = self.spawned + 1;
            },
            FetchAction::Leave => {},
        }
    }

    /// Counts a finished task, as success or as failure.
    pub fn record_result(&mut self, success: bool)
        requires
            old(self).wf(),
            old(self).ok + old(self).fail < old(self).spawned,
        ensures
            final(self).wf(),
            final(self).ok == old(self).ok + if success {
                1int
            } else {
                0int
            },
            final(self).fail == old(self).fail + if success {
                0int
            } else {
                1int
            },
            final(self).total == old(self).total,
            final(self).skipped == old(self).skipped,
            final(self).spawned == old(self).spawned,
    {
        if success {
            self.ok = self.ok + 1;
        } else {
            self.fail = self.fail + 1;
        }
    }

    /// The closing line of a fetch.
    pub open spec fn summary_spec(self) -> Seq<char> {
        "\n符号获取完成: 总计="@ + dec_digits(self.total as nat) + ", 成功="@ + dec_digits(
            self.ok as nat,
        ) + ", 跳过(已存在)="@ + dec_digits(self.skipped as nat) + ", 失败="@ + dec_digits(
            self.fail as nat,
        )
    }

    /// The closing line of a fetch, with the four counters.
    pub fn summary(&self) -> (r: String)
        ensures
            r@ == self.summary_spec(),
    {
        let mut r = String::new();
        r.append("\n符号获取完成: 总计=");
        push_decimal(&mut r, self.total as u64);
        r.append(", 成功=");
        push_decimal(&mut r, self.ok as u64);
        r.append(", 跳过(已存在)=");
        push_decimal(&mut r, self.skipped as u64);
        r.append(", 失败=");
        push_decimal(&mut r, self.fail as u64);
        r
    }
}

// ── Outcome of one download or conversion ─────────────────────────────

/// The error of a download answered with `status`, or of an empty body.
pub open spec fn download_outcome_spec(status_ok: bool, status: Seq<char>, body_len: nat) -> Result<
    (),
    Seq<char>,
> {
    if !status_ok {
        Err("HTTP "@ + status + ": 符号可能不存在"@)
    } else if body_len == 0 {
        Err("下载的文件为空"@)
    } else {
        Ok(())
    }
}

/// View of a result whose error is a string.
pub open spec fn result_view(r: Result<(), String>) -> Result<(), Seq<char>> {
    match r {
        Ok(()) => Ok(()),
        Err(e) => Err(e@),
    }
}

/// Judges a download: a status outside success, shown as `status`, is an
/// error, and so is an empty body.
pub fn download_outcome(status_ok: bool, status: &str, body_len: usize) -> (r: Result<(), String>)
    ensures
        result_view(r) == download_outcome_spec(status_ok, status@, body_len as nat),
{
    if !status_ok {
        let mut e = String::new();
        e.append("HTTP ");
        e.append(status);
        e.append(": 符号可能不存在");
        Err(e)
    } else if body_len == 0 {
        let mut e = String::new();
        e.append("下载的文件为空");
        Err(e)
    } else {
        Ok(())
    }
}

/// The error of a `dump_syms` run that did not succeed.
pub open spec fn conversion_outcome_spec(success: bool, stderr: Seq<char>) -> Result<(), Seq<char>> {
    if success {
        Ok(())
    } else {
        Err("dump_syms 执行失败: "@ + stderr)
    }
}

/// Judges a `dump_syms` run by its exit status and what it wrote to stderr.
pub fn conversion_outcome(success: bool, stderr: &str) -> (r: Result<(), String>)
    ensures
        result_view(r) == conversion_outcome_spec(success, stderr@),
{
    if success {
        Ok(())
    } else {
        let mut e = String::new();
        e.append("dump_syms 执行失败: ");
        e.append(stderr);
        Err(e)
    }
}

// ── laws ──────────────────────────────────────────────────────────────

/// Every character of `s` is ASCII.
pub open spec fn all_ascii(s: Seq<char>) -> bool {
    forall|i: int| 0 <= i < s.len() ==> is_ascii_char(#[trigger] s[i])
}

/// `s` is in Breakpad form: ASCII, no dash, no lower-case letter.
pub open spec fn is_breakpad_form(s: Seq<char>) -> bool {
    forall|i: int|
        0 <= i < s.len() ==> {
            &&& is_ascii_char(#[trigger] s[i])
            &&& s[i] != '-'
            &&& !('a' <= s[i] <= 'z')
        }
}

/// Whether every character of `v` is ASCII.
pub fn all_ascii_exec(v: &Vec<char>) -> (r: bool)
    ensures
        r == all_ascii(v@),
{
    let mut i: usize = 0;
    while i < v.len()
        invariant
            i <= v.len(),
            forall|k: int| 0 <= k < i ==> is_ascii_char(#[trigger] v@[k]),
        decreases v.len() - i,
    {
        if v[i] > '\u{7f}' {
            return false;
        }
        i = i + 1;
    }
    true
}

/// Upper-casing an ASCII character gives an ASCII character that is no
/// dash (unless it was one) and no lower-case letter.
pub proof fn lemma_ascii_upper(c: char)
    requires
        is_ascii_char(c),
    ensures
        is_ascii_char(ascii_upper(c)),
        !('a' <= ascii_upper(c) <= 'z'),
        (ascii_upper(c) == '-') == (c == '-'),
        !('a' <= c <= 'z') ==> ascii_upper(c) == c,
{
    if 'a' <= c <= 'z' {
        assert('A' <= ascii_upper(c) <= 'Z');
    }
}

/// The Breakpad id of an ASCII GUID is in Breakpad form.
pub proof fn lemma_breakpad_id_form(g: Seq<char>)
    requires
        all_ascii(g),
    ensures
        is_breakpad_form(breakpad_id(g)),
    decreases g.len(),
{
    if g.len() > 0 {
        let p = g.drop_last();
        assert(all_ascii(p)) by {
            assert forall|i: int| 0 <= i < p.len() implies is_ascii_char(#[trigger] p[i]) by {
                assert(p[i] == g[i]);
            }
        }
        lemma_breakpad_id_form(p);
        let c = g.last();
        assert(is_ascii_char(c)) by {
            assert(c == g[g.len() - 1]);
        }
        lemma_ascii_upper(c);
        let tail = if c == '-' { Seq::<char>::empty() } else { upper_of(c) };
        assert(breakpad_id(g) == breakpad_id(p) + tail);
        let r = breakpad_id(g);
        assert forall|i: int| 0 <= i < r.len() implies {
            &&& is_ascii_char(#[trigger] r[i])
            &&& r[i] != '-'
            &&& !('a' <= r[i] <= 'z')
        } by {
            if i < breakpad_id(p).len() {
                assert(r[i] == breakpad_id(p)[i]);
            } else {
                assert(r[i] == tail[i - breakpad_id(p).len()]);
            }
        }
    }
}

/// A string already in Breakpad form is its own Breakpad id.
pub proof fn lemma_breakpad_id_fixed(s: Seq<char>)
    requires
        is_breakpad_form(s),
    ensures
        breakpad_id(s) == s,
    decreases s.len(),
{
    if s.len() > 0 {
        let p = s.drop_last();
        assert(is_breakpad_form(p)) by {
            assert forall|i: int| 0 <= i < p.len() implies {
                &&& is_ascii_char(#[trigger] p[i])
                &&& p[i] != '-'
                &&& !('a' <= p[i] <= 'z')
            } by {
                assert(p[i] == s[i]);
            }
        }
        lemma_breakpad_id_fixed(p);
        let c = s.last();
        assert(c == s[s.len() - 1]);
        lemma_ascii_upper(c);
        assert(breakpad_id(s) =~= p.push(c));
        assert(p.push(c) =~= s);
    }
}

/// Converting twice is converting once: the Breakpad id of an ASCII GUID
/// is already a Breakpad id.
pub proof fn lemma_breakpad_id_idempotent(g: Seq<char>)
    requires
        all_ascii(g),
    ensures
        breakpad_id(breakpad_id(g)) == breakpad_id(g),
{
    lemma_breakpad_id_form(g);
    lemma_breakpad_id_fixed(breakpad_id(g));
}

/// The fetch never touches a module whose symbols are present; a module
/// whose symbols are missing and whose PDB lies in the given PDB directory
/// is converted locally whatever `include_remote` is; the others are
/// downloaded exactly when remote fetching is on, and left otherwise.
pub proof fn lemma_fetch_action(
    sym_present: bool,
    local_pdb_exists: bool,
    has_pdb_dir: bool,
    include_remote: bool,
)
    ensures
        sym_present <==> fetch_action_spec(sym_present, local_pdb_exists, has_pdb_dir, include_remote)
            == FetchAction::AlreadyPresent,
        fetch_action_spec(sym_present, local_pdb_exists, has_pdb_dir, include_remote)
            == FetchAction::Download ==> include_remote && !sym_present,
        fetch_action_spec(sym_present, local_pdb_exists, has_pdb_dir, include_remote)
            == FetchAction::ConvertLocal ==> has_pdb_dir && local_pdb_exists && !sym_present,
        !sym_present && has_pdb_dir && local_pdb_exists ==> fetch_action_spec(
            sym_present,
            local_pdb_exists,
            has_pdb_dir,
            include_remote,
        ) == FetchAction::ConvertLocal,
        !sym_present && !(has_pdb_dir && local_pdb_exists) ==> fetch_action_spec(
            sym_present,
            local_pdb_exists,
            has_pdb_dir,
            include_remote,
        ) == (if include_remote {
            FetchAction::Download
        } else {
            FetchAction::Leave
        }),
{
}

/// In a well-formed tally the modules skipped, converted well and failed
/// never outnumber the modules counted.
pub proof fn lemma_tally_bounded(t: FetchTally)
    requires
        t.wf(),
    ensures
        t.ok + t.fail + t.skipped <= t.total,
{
}

/// `s` holds `pat` starting at no position.
pub open spec fn occurs_nowhere(s: Seq<char>, pat: Seq<char>) -> bool {
    forall|i: int| 0 <= i <= s.len() ==> !has_prefix(#[trigger] s.skip(i), pat)
}

/// The symbol file of `<stem>.pdb` is `<stem>.sym` when the stem itself
/// holds no `.pdb`: the directory layout `<pdb>/<id>/<stem>.sym`.
pub proof fn lemma_sym_file_name_of_pdb(stem: Seq<char>)
    requires
        occurs_nowhere(stem, ".pdb"@),
    ensures
        sym_file_name_spec(stem + ".pdb"@) == stem + ".sym"@,
    decreases stem.len(),
{
    reveal_strlit(".pdb");
    reveal_strlit(".sym");
    let p = ".pdb"@;
    let s = stem + p;
    if stem.len() == 0 {
        assert(s =~= p);
        assert(has_prefix(s, p)) by {
            assert(s.take(4) =~= p);
        }
        assert(s.skip(4) =~= Seq::<char>::empty());
        assert(replace_all(s.skip(4), p, ".sym"@) == Seq::<char>::empty());
        assert(".sym"@ + Seq::<char>::empty() =~= ".sym"@);
        assert(stem + ".sym"@ =~= ".sym"@);
    } else {
        assert(!has_prefix(s, p)) by {
            if stem.len() >= 4 {
                assert(s.take(4) =~= stem.take(4));
                assert(stem.skip(0) =~= stem);
            } else if stem.len() == 1 {
                assert(s[2] == p[1]);
                assert(s.take(4)[2] == s[2]);
            } else if stem.len() == 2 {
                assert(s[2] == p[0]);
                assert(s.take(4)[2] == s[2]);
            } else {
                assert(s[3] == p[0]);
                assert(s.take(4)[3] == s[3]);
            }
        }
        let rest = stem.skip(1);
        assert(occurs_nowhere(rest, p)) by {
            assert forall|i: int| 0 <= i <= rest.len() implies !has_prefix(#[trigger] rest.skip(i), p) by {
                assert(rest.skip(i) =~= stem.skip(i + 1));
            }
        }
        lemma_sym_file_name_of_pdb(rest);
        assert(s.skip(1) =~= rest + p);
        assert(replace_all(s, p, ".sym"@) == seq![s[0]] + replace_all(s.skip(1), p, ".sym"@));
        assert(seq![s[0]] + (rest + ".sym"@) =~= stem + ".sym"@);
    }
}


/// The fetch key of a module exists exactly when it has both a debug file
/// and a debug id; it is the debug file's file name (the whole debug file
/// when none is found) with the Breakpad id of the debug id.
pub proof fn lemma_fetch_key(
    debug_file: Option<Seq<char>>,
    debug_id: Option<Seq<char>>,
    file_name: Option<Seq<char>>,
)
    ensures
        fetch_key_spec(debug_file, debug_id, file_name) is Some <==> (debug_file is Some
            && debug_id is Some),
        debug_file is Some && debug_id is Some ==> fetch_key_spec(debug_file, debug_id, file_name)
            == Some(
            (
                if file_name is Some {
                    file_name->0
                } else {
                    debug_file->0
                },
                breakpad_id(debug_id->0),
            ),
        ),
{
}

/// The download URL of a PDB is the symbol server's address, then the PDB
/// name, the Breakpad id and the PDB name again, separated by `/`.
pub proof fn lemma_symbol_url(pdb_name: Seq<char>, id: Seq<char>)
    ensures
        symbol_url_spec(pdb_name, id) == "https://msdl.microsoft.com/download/symbols"@ + "/"@
            + pdb_name + "/"@ + id + "/"@ + pdb_name,
{
}

/// A download fails exactly when the server does not answer with success,
/// with the status in the message, or when the body is empty; a
/// `dump_syms` run fails exactly when it does not succeed, with what it
/// wrote to stderr in the message.
pub proof fn lemma_outcomes(status_ok: bool, status: Seq<char>, body_len: nat, success: bool, stderr: Seq<char>)
    ensures
        download_outcome_spec(status_ok, status, body_len) is Ok <==> (status_ok && body_len > 0),
        !status_ok ==> download_outcome_spec(status_ok, status, body_len) == Err::<(), Seq<char>>(
            "HTTP "@ + status + ": 符号可能不存在"@,
        ),
        status_ok && body_len == 0 ==> download_outcome_spec(status_ok, status, body_len) == Err::<
            (),
            Seq<char>,
        >("下载的文件为空"@),
        conversion_outcome_spec(success, stderr) is Ok <==> success,
        !success ==> conversion_outcome_spec(success, stderr) == Err::<(), Seq<char>>(
            "dump_syms 执行失败: "@ + stderr,
        ),
{
}

/// The closing line of a fetch shows, in this order, the modules counted,
/// the tasks that finished well, the modules skipped because their symbols
/// were present, and the tasks that failed.
pub proof fn lemma_tally_summary(t: FetchTally)
    ensures
        t.summary_spec() == "\n符号获取完成: 总计="@ + dec_digits(t.total as nat) + ", 成功="@
            + dec_digits(t.ok as nat) + ", 跳过(已存在)="@ + dec_digits(t.skipped as nat) + ", 失败="@
            + dec_digits(t.fail as nat),
{
}


/// The Breakpad id is taken character by character: the id of two strings
/// put together is their ids put together; a dash gives nothing, and any
/// other ASCII character gives its ASCII upper case.
pub proof fn lemma_breakpad_id_chars(a: Seq<char>, b: Seq<char>, c: char)
    ensures
        breakpad_id(a + b) == breakpad_id(a) + breakpad_id(b),
        breakpad_id(seq!['-']) == Seq::<char>::empty(),
        is_ascii_char(c) && c != '-' ==> breakpad_id(seq![c]) == seq![ascii_upper(c)],
    decreases b.len(),
{
    let e = Seq::<char>::empty();
    assert(breakpad_id(e) == e);
    assert(seq!['-'].drop_last() =~= e);
    assert(seq!['-'].last() == '-');
    assert(breakpad_id(seq!['-']) =~= e);
    assert(seq![c].drop_last() =~= e);
    assert(seq![c].last() == c);
    if is_ascii_char(c) && c != '-' {
        assert(breakpad_id(seq![c]) =~= e + upper_of(c));
    }
    if b.len() == 0 {
        assert(a + b =~= a);
    } else {
        lemma_breakpad_id_chars(a, b.drop_last(), c);
        assert((a + b).drop_last() =~= a + b.drop_last());
        assert((a + b).last() == b.last());
    }
}

} // verus!
