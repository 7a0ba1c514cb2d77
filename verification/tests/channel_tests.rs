use minidump_analyzer::channel::{channel_support, display_options, AnalysisPlan};
use minidump_analyzer::analyzer::CrashReport;
use minidump_analyzer::symbols::{fetch_action, FetchAction};
use minidump_analyzer::{Channel, Verbosity};

#[test]
fn channel_parses_aliases_in_any_case() {
    assert_eq!("pc".parse::<Channel>(), Ok(Channel::Pc));
    assert_eq!("Windows".parse::<Channel>(), Ok(Channel::Pc));
    assert_eq!("WIN".parse::<Channel>(), Ok(Channel::Pc));
    assert_eq!("Android".parse::<Channel>(), Ok(Channel::Android));
    assert_eq!("aos".parse::<Channel>(), Ok(Channel::Android));
    assert_eq!("iOS".parse::<Channel>(), Ok(Channel::Ios));
}

#[test]
fn channel_rejects_unknown_names() {
    assert_eq!(
        Channel::parse("mac"),
        Err("不支持的渠道: \"mac\"，可选: pc (windows/win), android (aos), ios".to_string())
    );
    assert!(Channel::parse("ｐｃ").is_err());
    assert!(Channel::parse("").is_err());
}

#[test]
fn channel_names_round_trip() {
    for c in [Channel::Pc, Channel::Android, Channel::Ios] {
        let name = match c {
            Channel::Pc => "pc",
            Channel::Android => "android",
            Channel::Ios => "ios",
        };
        assert_eq!(Channel::parse(name), Ok(c));
    }
    assert_eq!(Channel::Pc.debug_name(), "Pc");
    assert_eq!(Channel::Android.debug_name(), "Android");
}

#[test]
fn verbosity_silence() {
    assert!(Verbosity::Quiet.is_silent());
    assert!(!Verbosity::Normal.is_silent());
    assert!(!Verbosity::Verbose.is_silent());
}

#[test]
fn analysis_plan_follows_options() {
    let p = AnalysisPlan::new(true, false, false);
    assert!(p.prefetch_symbols && p.include_remote && p.stop_after_prefetch && !p.want_context);
    let p = AnalysisPlan::new(true, true, true);
    assert!(p.prefetch_symbols && p.include_remote && p.stop_after_prefetch && p.want_context);
    let p = AnalysisPlan::new(false, true, false);
    assert!(p.prefetch_symbols && !p.include_remote && !p.stop_after_prefetch);
    let p = AnalysisPlan::new(false, false, true);
    assert!(!p.prefetch_symbols && !p.include_remote && !p.stop_after_prefetch && p.want_context);
}

#[test]
fn download_only_fetches_from_server_beside_pdb_dir() {
    let p = AnalysisPlan::new(true, true, false);
    assert_eq!(
        fetch_action(false, false, true, p.include_remote),
        FetchAction::Download
    );
    assert_eq!(
        fetch_action(false, true, true, p.include_remote),
        FetchAction::ConvertLocal
    );
    let p = AnalysisPlan::new(false, true, false);
    assert_eq!(fetch_action(false, false, true, p.include_remote), FetchAction::Leave);
}

#[test]
fn only_pc_is_supported() {
    assert_eq!(channel_support(Channel::Pc), Ok(()));
    assert_eq!(channel_support(Channel::Android), Err("Android 渠道解析尚未实现".to_string()));
    assert!(channel_support(Channel::Ios).is_err());
}

#[test]
fn download_only_report_is_empty() {
    let r = CrashReport::download_only(Channel::Pc);
    assert_eq!(r.channel, Channel::Pc);
    assert!(r.system_info.is_none() && r.exception.is_none());
    assert!(r.modules.is_empty() && r.threads.is_empty());
}

#[test]
fn full_flag_turns_on_both_sections() {
    assert_eq!(display_options(true, false, false), (true, true));
    assert_eq!(display_options(false, true, false), (true, false));
    assert_eq!(display_options(false, false, true), (false, true));
    assert_eq!(display_options(false, false, false), (false, false));
}

#[test]
fn ascii_names_parse_in_upper_and_lower_case() {
    for name in ["Windows", "win", "PC", "Aos", "android", "iOS", "mac"] {
        let upper = name.to_uppercase();
        let lower = name.to_lowercase();
        assert_eq!(Channel::parse(&upper).ok(), Channel::parse(name).ok());
        assert_eq!(Channel::parse(&lower).ok(), Channel::parse(name).ok());
    }
    assert_eq!("WINDOWS".parse::<Channel>(), Ok(Channel::Pc));
}
