use symsrv::{
    download_url, relative_path, two_tier_prefix, Action, ConfigError, DownloadError,
    DownloadStatus, Event, ExeInfo, FetchReply, PdbInfo, Phase, Retrieval, SymFileInfo,
    SymSrvList, SymSrvSpec,
};

#[test]
fn symsrv_spec() {
    assert_eq!(
        SymSrvSpec::from_str("SRV*C:\\Symbols*https://msdl.microsoft.com/download/symbols")
            .unwrap(),
        SymSrvSpec {
            server_url: "https://msdl.microsoft.com/download/symbols".to_string(),
            cache_path: "C:\\Symbols".into(),
        }
    );

    assert_eq!(
        SymSrvSpec::from_str("srv*C:\\Symbols*https://msdl.microsoft.com/download/symbols")
            .unwrap(),
        SymSrvSpec {
            server_url: "https://msdl.microsoft.com/download/symbols".to_string(),
            cache_path: "C:\\Symbols".into(),
        }
    );
}

#[test]
fn test_two_tier_prefix() {
    // Normal filenames
    assert_eq!(two_tier_prefix("ntdll.pdb"), "nt");
    assert_eq!(two_tier_prefix("kernel32.pdb"), "ke");
    assert_eq!(two_tier_prefix("NTDLL.PDB"), "nt"); // Should be lowercase
    assert_eq!(two_tier_prefix("Kernel32.dll"), "ke");

    // Edge cases - first two characters regardless of filename structure
    assert_eq!(two_tier_prefix("a.pdb"), "a."); // Only 1 char before dot, takes 'a.'
    assert_eq!(two_tier_prefix("ab"), "ab");
    assert_eq!(two_tier_prefix("a"), "a");
    assert_eq!(two_tier_prefix(""), "");
}

#[test]
fn two_tier_prefix_short_upper_input_keeps_length() {
    assert_eq!(two_tier_prefix("A"), "a");
    assert_eq!(two_tier_prefix("nt"), "nt");
    assert_eq!(two_tier_prefix(&two_tier_prefix("NTDLL.PDB")), "nt");
}

#[test]
fn exe_hash_pads_timestamp_only() {
    let i = ExeInfo { timestamp: 0x5f4, size: 0x2000 };
    assert_eq!(i.to_string(), "000005f42000");
    let z = ExeInfo { timestamp: 0, size: 0 };
    assert_eq!(z.to_string(), "000000000");
    let m = ExeInfo { timestamp: 0xDEADBEEF, size: 0xABC };
    assert_eq!(m.to_string(), "deadbeefabc");
}

#[test]
fn pdb_hash_uppercase_guid_lowercase_age() {
    let i = PdbInfo { guid: 0x1234_abcd, age: 0x1a };
    assert_eq!(i.to_string(), "0000000000000000000000001234ABCD1a");
    let z = PdbInfo { guid: 0, age: 0 };
    assert_eq!(z.to_string(), "000000000000000000000000000000000");
    let m = PdbInfo { guid: u128::MAX, age: u32::MAX };
    assert_eq!(m.to_string(), "FFFFFFFFFFFFFFFFFFFFFFFFFFFFFFFFffffffff");
}

#[test]
fn sym_file_info_dispatches_on_variant() {
    let e = SymFileInfo::Exe(ExeInfo { timestamp: 0x5f4, size: 0x2000 });
    assert_eq!(e.to_string(), "000005f42000");
    let p = SymFileInfo::Pdb(PdbInfo { guid: 1, age: 2 });
    assert_eq!(p.to_string(), "000000000000000000000000000000012");
    let r = SymFileInfo::RawHash("AbC123".to_string());
    assert_eq!(r.to_string(), "AbC123");
}

#[test]
fn spec_parse_example_and_render() {
    let s = SymSrvSpec::from_str("SRV*C:\\Symbols*https://example.com/syms").unwrap();
    assert_eq!(s.cache_path, "C:\\Symbols");
    assert_eq!(s.server_url, "https://example.com/syms");
    assert_eq!(s.to_string(), "SRV*C:\\Symbols*https://example.com/syms");
    let t = SymSrvSpec::from_str("sRv*C:\\Symbols*https://example.com/syms/").unwrap();
    assert_eq!(t.server_url, "https://example.com/syms/");
    assert_eq!(SymSrvSpec::from_str(&t.to_string()).unwrap(), t);
}

#[test]
fn spec_parse_rejects_malformed() {
    assert_eq!(SymSrvSpec::from_str(""), Err(ConfigError::MalformedSpec));
    assert_eq!(SymSrvSpec::from_str("SRV"), Err(ConfigError::MalformedSpec));
    assert_eq!(SymSrvSpec::from_str("SRV*C:\\s"), Err(ConfigError::MalformedSpec));
    assert_eq!(SymSrvSpec::from_str("SRV*a*b*c"), Err(ConfigError::MalformedSpec));
    assert_eq!(SymSrvSpec::from_str("SYM*a*b"), Err(ConfigError::MalformedSpec));
    assert_eq!(SymSrvSpec::from_str("SRVX*a*b"), Err(ConfigError::MalformedSpec));
    assert_eq!(SymSrvSpec::from_str("cache*a*b"), Err(ConfigError::MalformedSpec));
}

#[test]
fn list_parse_keeps_order() {
    let l = SymSrvList::from_str("SRV*A*urlA;SRV*B*urlB").unwrap();
    assert_eq!(l.0.len(), 2);
    assert_eq!(l.0[0], SymSrvSpec { server_url: "urlA".to_string(), cache_path: "A".into() });
    assert_eq!(l.0[1], SymSrvSpec { server_url: "urlB".to_string(), cache_path: "B".into() });
}

#[test]
fn list_parse_fails_fast() {
    assert_eq!(SymSrvList::from_str("").unwrap_err(), ConfigError::MalformedSpec);
    assert_eq!(SymSrvList::from_str("SRV*A*urlA;").unwrap_err(), ConfigError::MalformedSpec);
    assert_eq!(SymSrvList::from_str("SRV*A*urlA;bad;SRV*B*urlB").unwrap_err(), ConfigError::MalformedSpec);
    let one = SymSrvList::from_str("srv*A*urlA").unwrap();
    assert_eq!(one.0.len(), 1);
}

#[test]
fn paths_single_and_two_tier() {
    let i = SymFileInfo::Pdb(PdbInfo { guid: 0xAB, age: 1 });
    let h = "000000000000000000000000000000AB1";
    assert_eq!(relative_path(&i, "NtDll.pdb", false), format!("NtDll.pdb/{h}/NtDll.pdb"));
    assert_eq!(relative_path(&i, "NtDll.pdb", true), format!("nt/NtDll.pdb/{h}/NtDll.pdb"));
    assert_eq!(relative_path(&i, "a", true), format!("a/a/{h}/a"));
    assert_eq!(
        download_url("https://example.com/syms", &i, "NtDll.pdb"),
        format!("https://example.com/syms/NtDll.pdb/{h}/NtDll.pdb")
    );
}

fn two_servers() -> SymSrvList {
    SymSrvList::from_str("SRV*cache1*https://one.example;SRV*cache2*https://two.example").unwrap()
}

fn exe() -> SymFileInfo {
    SymFileInfo::Exe(ExeInfo { timestamp: 0x5f4, size: 0x2000 })
}

#[test]
fn retrieval_falls_back_to_second_server() {
    let (mut r, a) = Retrieval::new(exe(), "app.exe".to_string(), two_servers());
    assert_eq!(a, Action::DetectLayout { cache_path: "cache1".to_string() });
    let rel = "app.exe/000005f42000/app.exe".to_string();
    assert_eq!(
        r.step(Event::Layout(false)),
        Action::CheckCache { cache_path: "cache1".to_string(), relative: rel.clone() }
    );
    assert_eq!(
        r.step(Event::Cached(false)),
        Action::Fetch {
            url: format!("https://one.example/{rel}"),
            cache_path: "cache1".to_string(),
            relative: rel.clone(),
        }
    );
    assert_eq!(
        r.step(Event::Fetched(FetchReply::NotFound)),
        Action::DetectLayout { cache_path: "cache2".to_string() }
    );
    let rel2 = format!("ap/{rel}");
    assert_eq!(
        r.step(Event::Layout(true)),
        Action::CheckCache { cache_path: "cache2".to_string(), relative: rel2.clone() }
    );
    assert_eq!(
        r.step(Event::Cached(false)),
        Action::Fetch {
            url: format!("https://two.example/{rel}"),
            cache_path: "cache2".to_string(),
            relative: rel2,
        }
    );
    assert_eq!(
        r.step(Event::Fetched(FetchReply::Stored)),
        Action::Finish(Ok(DownloadStatus::DownloadedOk))
    );
    assert_eq!(r.phase, Phase::Done);
}

#[test]
fn retrieval_cache_hit_issues_no_request() {
    let (mut r, _) = Retrieval::new(exe(), "app.exe".to_string(), two_servers());
    let _ = r.step(Event::Layout(false));
    assert_eq!(r.step(Event::Cached(true)), Action::Finish(Ok(DownloadStatus::AlreadyExists)));
    assert!(!r.accepts(&Event::Fetched(FetchReply::Stored)));
}

#[test]
fn retrieval_all_not_found() {
    let (mut r, _) = Retrieval::new(exe(), "app.exe".to_string(), two_servers());
    for _ in 0..2 {
        let _ = r.step(Event::Layout(false));
        let _ = r.step(Event::Cached(false));
        let last = r.step(Event::Fetched(FetchReply::NotFound));
        if r.phase == Phase::Done {
            assert_eq!(last, Action::Finish(Err(DownloadError::FileNotFound)));
        }
    }
    assert_eq!(r.phase, Phase::Done);
    assert_eq!(r.failure, None);
}

#[test]
fn retrieval_reports_last_request_failure() {
    let (mut r, _) = Retrieval::new(exe(), "app.exe".to_string(), two_servers());
    let _ = r.step(Event::Layout(false));
    let _ = r.step(Event::Cached(false));
    let next = r.step(Event::Fetched(FetchReply::RequestFailed("timed out".to_string())));
    assert_eq!(next, Action::DetectLayout { cache_path: "cache2".to_string() });
    let _ = r.step(Event::Layout(false));
    let _ = r.step(Event::Cached(false));
    assert_eq!(
        r.step(Event::Fetched(FetchReply::NotFound)),
        Action::Finish(Err(DownloadError::Request("timed out".to_string())))
    );
}

#[test]
fn retrieval_store_failure_is_reported() {
    let (mut r, _) = Retrieval::new(exe(), "app.exe".to_string(), two_servers());
    let _ = r.step(Event::Layout(false));
    let _ = r.step(Event::Cached(false));
    assert_eq!(
        r.step(Event::Fetched(FetchReply::StoreFailed("disk full".to_string()))),
        Action::Finish(Err(DownloadError::Other("disk full".to_string())))
    );
}

#[test]
fn retrieval_empty_list_is_not_found() {
    let (r, a) = Retrieval::new(exe(), "app.exe".to_string(), SymSrvList(Vec::new().into_boxed_slice()));
    assert_eq!(a, Action::Finish(Err(DownloadError::FileNotFound)));
    assert_eq!(r.phase, Phase::Done);
}

#[test]
fn spec_parse_rejects_empty_url() {
    assert_eq!(SymSrvSpec::from_str("SRV*C:\\Symbols*"), Err(ConfigError::MalformedSpec));
    assert_eq!(SymSrvSpec::from_str("SRV**"), Err(ConfigError::MalformedSpec));
    assert_eq!(SymSrvList::from_str("SRV*a*").unwrap_err(), ConfigError::MalformedSpec);
    let s = SymSrvSpec::from_str("SRV**u").unwrap();
    assert_eq!(s.cache_path, "");
    assert_eq!(s.server_url, "u");
}

#[test]
fn config_error_names_grammar() {
    let m = ConfigError::MalformedSpec.message();
    assert!(m.contains("SRV*<CACHE_PATH>*<SYMBOL_SERVER>"));
}

#[test]
fn list_clone_keeps_order() {
    let l = SymSrvList::from_str("SRV*A*urlA;SRV*B*urlB").unwrap();
    let c = l.clone();
    assert_eq!(c, l);
    assert_eq!(c.0[1].server_url, "urlB");
    assert_eq!(l.0[0].copy(), l.0[0]);
}

#[test]
fn spec_keyword_case_is_ascii_only() {
    assert_eq!(SymSrvSpec::from_str("SrV*c*u").unwrap().server_url, "u");
    assert_eq!(SymSrvSpec::from_str("\u{17f}RV*c*u"), Err(ConfigError::MalformedSpec));
    assert_eq!(SymSrvSpec::from_str("SR*c*u"), Err(ConfigError::MalformedSpec));
}
