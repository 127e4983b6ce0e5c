use std::cell::RefCell;

use rc_discovery::arch::Arch;
use rc_discovery::discovery::{
    find_windows_sdk_tool_impl, get_dirs, try_bin_dir, try_tool, Answer, Discovery, Entry, Progress, Query,
    SdkRoot,
};
use rc_discovery::host::{Probe, RegistryValue};
use rc_discovery::path::{ProbePath, Segment};

/// An in-memory host: paths are written with `/` between segments.
struct FakeHost {
    registry: Vec<(RegistryValue, String)>,
    directories: Vec<String>,
    entries: Vec<String>,
    listings: Vec<(String, Vec<Entry>)>,
    sdk_root: Option<String>,
}

fn empty_host() -> FakeHost {
    FakeHost { registry: vec![], directories: vec![], entries: vec![], listings: vec![], sdk_root: None }
}

fn render(path: &ProbePath) -> String {
    let mut parts: Vec<String> = path.base.split('/').map(|s| s.to_string()).collect();
    let final_name = parts.last().cloned().unwrap_or_default();
    for _ in 0..path.ascend {
        parts.pop();
    }
    for segment in &path.descend {
        match segment {
            Segment::Name(name) => parts.push(name.clone()),
            Segment::FinalNameOfBase => parts.push(final_name.clone()),
        }
    }
    parts.join("/")
}

fn reply(host: &FakeHost, query: &Query) -> Answer {
    match query {
        Query::RegistryValue(value) => {
            Answer::Text(host.registry.iter().find(|(v, _)| v == value).map(|(_, s)| s.clone()))
        }
        Query::AugmentEnvironment => Answer::Done,
        Query::ListDirs(dir) => {
            let at = render(dir);
            Answer::Entries(host.listings.iter().find(|(d, _)| *d == at).map(|(_, n)| n.clone()))
        }
        Query::IsDir(dir) => Answer::Flag(host.directories.contains(&render(dir))),
        Query::Exists(path) => Answer::Flag(host.entries.contains(&render(path))),
        Query::VsSdkRoot => Answer::SdkRoot(host.sdk_root.clone().map(|root| {
            let last = root.split('/').last().unwrap_or("").to_string();
            SdkRoot { root, has_final_name: !last.is_empty() && last != ".." }
        })),
    }
}

/// Runs discovery on the host and returns the result with every query asked.
fn run(host: &FakeHost, target: &str, tool: &str) -> (Option<ProbePath>, Vec<Query>) {
    let asked = RefCell::new(Vec::new());
    let found = find_windows_sdk_tool_impl(target, tool, |query: &Query| {
        asked.borrow_mut().push(query.clone());
        reply(host, query)
    });
    (found, asked.into_inner())
}

/// Drives a machine by hand, one answer at a time.
fn step_by_step(host: &FakeHost, arch: Arch, tool: &str) -> Option<ProbePath> {
    let mut machine = Discovery::start(arch, tool);
    for _ in 0..1000 {
        let answer = reply(host, machine.query());
        match machine.advance(answer) {
            Progress::Pending(next) => machine = next,
            Progress::Found(path) => return Some(path),
            Progress::Exhausted => return None,
        }
    }
    panic!("discovery did not end");
}

fn dir(name: &str) -> Entry {
    Entry { name: Some(name.to_string()), is_dir: Some(true) }
}

/// A plain file, a symbolic link, or anything else that is no directory.
fn file(name: &str) -> Entry {
    Entry { name: Some(name.to_string()), is_dir: Some(false) }
}

fn named(base: &str, ascend: usize, names: &[&str]) -> ProbePath {
    ProbePath {
        base: base.to_string(),
        ascend,
        descend: names.iter().map(|n| Segment::Name(n.to_string())).collect(),
    }
}

#[test]
fn triples_with_the_64_bit_prefix_are_x64() {
    assert_eq!(Arch::for_target("x86_64-pc-windows-msvc"), Arch::X64);
    assert_eq!(Arch::for_target("x86_64-pc-windows-gnu"), Arch::X64);
    assert_eq!(Arch::for_target("x86_64"), Arch::X64);
}

#[test]
fn every_other_triple_is_x86() {
    assert_eq!(Arch::for_target("i686-pc-windows-msvc"), Arch::X86);
    assert_eq!(Arch::for_target("aarch64-pc-windows-msvc"), Arch::X86);
    assert_eq!(Arch::for_target(""), Arch::X86);
    assert_eq!(Arch::for_target("x86_6"), Arch::X86);
    assert_eq!(Arch::for_target("x86-64-pc-windows-msvc"), Arch::X86);
    assert_eq!(Arch::for_target(" x86_64-pc-windows-msvc"), Arch::X86);
    assert_eq!(Arch::for_target("X86_64-pc-windows-msvc"), Arch::X86);
}

#[test]
fn architecture_selects_its_subpath() {
    assert_eq!(Arch::X86.select("Bin", "Bin/x64"), "Bin");
    assert_eq!(Arch::X64.select("Bin", "Bin/x64"), "Bin/x64");
}

#[test]
fn registry_values_name_their_keys() {
    let kits = "SOFTWARE\\Microsoft\\Windows Kits\\Installed Roots";
    assert_eq!(RegistryValue::KitsRoot10.key_path(), kits);
    assert_eq!(RegistryValue::KitsRoot81.key_path(), kits);
    assert_eq!(RegistryValue::KitsRoot.key_path(), kits);
    assert_eq!(RegistryValue::CurrentInstallFolder.key_path(), "SOFTWARE\\Microsoft\\Microsoft SDKs\\Windows");
    assert_eq!(RegistryValue::KitsRoot10.value_name(), "KitsRoot10");
    assert_eq!(RegistryValue::KitsRoot81.value_name(), "KitsRoot81");
    assert_eq!(RegistryValue::KitsRoot.value_name(), "KitsRoot");
    assert_eq!(RegistryValue::CurrentInstallFolder.value_name(), "CurrentInstallFolder");
}

#[test]
fn paths_are_built_segment_by_segment() {
    let path = ProbePath::above("C:/Kits/10/Include/10.0.1".to_string(), 2).push("bin").push_final_name().push("x64");
    assert_eq!(path.base, "C:/Kits/10/Include/10.0.1");
    assert_eq!(path.ascend, 2);
    assert_eq!(
        path.descend,
        vec![Segment::Name("bin".to_string()), Segment::FinalNameOfBase, Segment::Name("x64".to_string())]
    );
    assert_eq!(render(&path), "C:/Kits/10/bin/10.0.1/x64");
    assert_eq!(ProbePath::root("C:/Kits".to_string()), named("C:/Kits", 0, &[]));
}

#[test]
fn discovery_starts_with_the_newest_kit_root() {
    let machine = Discovery::start(Arch::for_target("x86_64-pc-windows-msvc"), "rc.exe");
    assert_eq!(machine.arch, Arch::X64);
    assert_eq!(machine.tool, "rc.exe");
    assert_eq!(machine.probe, Probe::KitsRoot10);
    assert_eq!(*machine.query(), Query::RegistryValue(RegistryValue::KitsRoot10));
    let machine = Discovery::start(Arch::X86, "mt.exe");
    assert_eq!(machine.arch, Arch::X86);
    assert_eq!(machine.tool, "mt.exe");
    assert_eq!(*machine.query(), Query::RegistryValue(RegistryValue::KitsRoot10));
}

#[test]
fn bin_dir_is_taken_only_for_the_architecture_that_has_it() {
    let mut host = empty_host();
    host.registry.push((RegistryValue::KitsRoot10, "C:/Kits/10".to_string()));
    host.directories.push("C:/Kits/10/bin/x64".to_string());
    host.entries.push("C:/Kits/10/bin/x64/rc.exe".to_string());
    host.entries.push("C:/Kits/10/bin/x86/rc.exe".to_string());

    let (found, asked) = run(&host, "x86_64-pc-windows-msvc", "rc.exe");
    assert_eq!(found, Some(named("C:/Kits/10", 0, &["bin/x64", "rc.exe"])));
    assert_eq!(asked[1], Query::IsDir(named("C:/Kits/10", 0, &["bin/x64"])));

    let (found, asked) = run(&host, "i686-pc-windows-msvc", "rc.exe");
    assert_eq!(found, None);
    assert_eq!(asked[1], Query::IsDir(named("C:/Kits/10", 0, &["bin/x86"])));
    assert!(!asked.contains(&Query::Exists(named("C:/Kits/10", 0, &["bin/x86", "rc.exe"]))));

    // asking again changes nothing
    let (again, _) = run(&host, "x86_64-pc-windows-msvc", "rc.exe");
    assert_eq!(again, Some(named("C:/Kits/10", 0, &["bin/x64", "rc.exe"])));
}

#[test]
fn a_directory_without_the_tool_is_no_result() {
    let mut host = empty_host();
    host.registry.push((RegistryValue::KitsRoot81, "C:/Kits/8.1".to_string()));
    host.directories.push("C:/Kits/8.1/bin/x86".to_string());
    let (found, asked) = run(&host, "i686-pc-windows-msvc", "rc.exe");
    assert_eq!(found, None);
    assert!(asked.contains(&Query::Exists(named("C:/Kits/8.1", 0, &["bin/x86", "rc.exe"]))));
}

#[test]
fn installed_roots_come_before_the_legacy_sdk() {
    let mut host = empty_host();
    host.registry.push((RegistryValue::CurrentInstallFolder, "C:/SDKs/v7.1".to_string()));
    host.registry.push((RegistryValue::KitsRoot81, "C:/Kits/8.1".to_string()));
    host.directories.push("C:/SDKs/v7.1/Bin/x64".to_string());
    host.entries.push("C:/SDKs/v7.1/Bin/x64/rc.exe".to_string());
    host.directories.push("C:/Kits/8.1/bin/x64".to_string());
    host.entries.push("C:/Kits/8.1/bin/x64/rc.exe".to_string());
    for _ in 0..3 {
        let (found, asked) = run(&host, "x86_64-pc-windows-msvc", "rc.exe");
        assert_eq!(found, Some(named("C:/Kits/8.1", 0, &["bin/x64", "rc.exe"])));
        assert!(!asked.contains(&Query::RegistryValue(RegistryValue::CurrentInstallFolder)));
    }
}

#[test]
fn the_three_kit_roots_are_tried_in_order() {
    let mut host = empty_host();
    host.registry.push((RegistryValue::KitsRoot, "C:/Kits/8.0".to_string()));
    host.registry.push((RegistryValue::KitsRoot10, "C:/Kits/10".to_string()));
    for root in ["C:/Kits/8.0", "C:/Kits/10"] {
        host.directories.push(format!("{}/bin/x86", root));
        host.entries.push(format!("{}/bin/x86/rc.exe", root));
    }
    let (found, _) = run(&host, "i686-pc-windows-msvc", "rc.exe");
    assert_eq!(found, Some(named("C:/Kits/10", 0, &["bin/x86", "rc.exe"])));
    host.registry.remove(1);
    let (found, asked) = run(&host, "i686-pc-windows-msvc", "rc.exe");
    assert_eq!(found, Some(named("C:/Kits/8.0", 0, &["bin/x86", "rc.exe"])));
    assert_eq!(
        asked[..3],
        [
            Query::RegistryValue(RegistryValue::KitsRoot10),
            Query::RegistryValue(RegistryValue::KitsRoot81),
            Query::RegistryValue(RegistryValue::KitsRoot),
        ]
    );
}

#[test]
fn legacy_sdk_uses_its_own_subpaths() {
    let mut host = empty_host();
    host.registry.push((RegistryValue::CurrentInstallFolder, "C:/SDKs/v7.1".to_string()));
    host.directories.push("C:/SDKs/v7.1/Bin".to_string());
    host.entries.push("C:/SDKs/v7.1/Bin/rc.exe".to_string());
    let (found, _) = run(&host, "i686-pc-windows-msvc", "rc.exe");
    assert_eq!(found, Some(named("C:/SDKs/v7.1", 0, &["Bin", "rc.exe"])));
    let (found, asked) = run(&host, "x86_64-pc-windows-msvc", "rc.exe");
    assert_eq!(found, None);
    assert!(asked.contains(&Query::IsDir(named("C:/SDKs/v7.1", 0, &["Bin/x64"]))));
}

#[test]
fn empty_sources_exhaust_discovery() {
    let host = empty_host();
    let (found, asked) = run(&host, "x86_64-pc-windows-msvc", "rc.exe");
    assert_eq!(found, None);
    assert_eq!(
        asked,
        vec![
            Query::RegistryValue(RegistryValue::KitsRoot10),
            Query::RegistryValue(RegistryValue::KitsRoot81),
            Query::RegistryValue(RegistryValue::KitsRoot),
            Query::RegistryValue(RegistryValue::CurrentInstallFolder),
            Query::RegistryValue(RegistryValue::KitsRoot10),
            Query::VsSdkRoot,
        ]
    );
}

#[test]
fn unreadable_kit_directory_is_no_result() {
    let mut host = empty_host();
    host.registry.push((RegistryValue::KitsRoot10, "C:/Kits/10".to_string()));
    let (found, asked) = run(&host, "x86_64-pc-windows-msvc", "rc.exe");
    assert_eq!(found, None);
    assert_eq!(asked.last(), Some(&Query::VsSdkRoot));
    assert!(asked.contains(&Query::ListDirs(named("C:/Kits/10/bin", 0, &[]))));
}

#[test]
fn scan_takes_the_first_version_that_holds_the_tool() {
    let mut host = empty_host();
    host.registry.push((RegistryValue::KitsRoot10, "C:/Kits/10".to_string()));
    host.listings.push((
        "C:/Kits/10/bin".to_string(),
        vec![file("readme.txt"), dir("arm"), dir("10.0.17763.0"), dir("10.0.19041.0")],
    ));
    for version in ["10.0.17763.0", "10.0.19041.0"] {
        host.directories.push(format!("C:/Kits/10/bin/{}/x64", version));
        host.entries.push(format!("C:/Kits/10/bin/{}/x64/rc.exe", version));
    }
    let (found, asked) = run(&host, "x86_64-pc-windows-msvc", "rc.exe");
    assert_eq!(found, Some(named("C:/Kits/10/bin", 0, &["10.0.17763.0/x64", "rc.exe"])));
    assert!(asked.contains(&Query::IsDir(named("C:/Kits/10/bin", 0, &["arm/x64"]))));
    assert!(!asked.contains(&Query::IsDir(named("C:/Kits/10/bin", 0, &["10.0.19041.0/x64"]))));
    assert!(!asked.contains(&Query::IsDir(named("C:/Kits/10/bin", 0, &["readme.txt/x64"]))));

    // the same versions enumerated the other way round: the other one wins
    host.listings[0].1.reverse();
    let (found, _) = run(&host, "x86_64-pc-windows-msvc", "rc.exe");
    assert_eq!(found, Some(named("C:/Kits/10/bin", 0, &["10.0.19041.0/x64", "rc.exe"])));
    let (again, _) = run(&host, "x86_64-pc-windows-msvc", "rc.exe");
    assert_eq!(again, found);
}

#[test]
fn environment_is_augmented_before_the_kit_is_listed() {
    let mut host = empty_host();
    host.registry.push((RegistryValue::KitsRoot10, "C:/Kits/10".to_string()));
    host.listings.push(("C:/Kits/10/bin".to_string(), vec![]));
    let (found, asked) = run(&host, "i686-pc-windows-msvc", "rc.exe");
    assert_eq!(found, None);
    let augment = asked.iter().position(|q| *q == Query::AugmentEnvironment).unwrap();
    assert_eq!(asked[augment - 1], Query::RegistryValue(RegistryValue::KitsRoot10));
    assert_eq!(asked[augment + 1], Query::ListDirs(named("C:/Kits/10/bin", 0, &[])));
    assert_eq!(asked.iter().filter(|q| **q == Query::AugmentEnvironment).count(), 1);
}

#[test]
fn instance_probe_prefers_the_versioned_directory() {
    let mut host = empty_host();
    host.sdk_root = Some("C:/Kits/10/Include/10.0.19041.0".to_string());
    host.directories.push("C:/Kits/10/bin/10.0.19041.0/x64".to_string());
    host.entries.push("C:/Kits/10/bin/10.0.19041.0/x64/rc.exe".to_string());
    host.directories.push("C:/Kits/10/bin/x64".to_string());
    host.entries.push("C:/Kits/10/bin/x64/rc.exe".to_string());
    let (found, _) = run(&host, "x86_64-pc-windows-msvc", "rc.exe");
    let path = found.unwrap();
    assert_eq!(path.base, "C:/Kits/10/Include/10.0.19041.0");
    assert_eq!(path.ascend, 2);
    assert_eq!(
        path.descend,
        vec![
            Segment::Name("bin".to_string()),
            Segment::FinalNameOfBase,
            Segment::Name("x64".to_string()),
            Segment::Name("rc.exe".to_string()),
        ]
    );
    assert_eq!(render(&path), "C:/Kits/10/bin/10.0.19041.0/x64/rc.exe");
}

#[test]
fn instance_probe_falls_back_to_the_plain_directory() {
    let mut host = empty_host();
    host.sdk_root = Some("C:/Kits/10/Include/10.0.19041.0".to_string());
    host.directories.push("C:/Kits/10/bin/10.0.19041.0/x86".to_string());
    host.directories.push("C:/Kits/10/bin/x86".to_string());
    host.entries.push("C:/Kits/10/bin/x86/rc.exe".to_string());
    let (found, _) = run(&host, "i686-pc-windows-msvc", "rc.exe");
    assert_eq!(found, Some(named("C:/Kits/10/Include/10.0.19041.0", 2, &["bin/x86", "rc.exe"])));
    host.entries.clear();
    let (found, asked) = run(&host, "i686-pc-windows-msvc", "rc.exe");
    assert_eq!(found, None);
    assert_eq!(
        asked.last(),
        Some(&Query::Exists(named("C:/Kits/10/Include/10.0.19041.0", 2, &["bin/x86", "rc.exe"])))
    );
}

#[test]
fn fabricated_kit_root_is_found_end_to_end() {
    let mut host = empty_host();
    host.registry.push((RegistryValue::KitsRoot10, "C:/Program Files (x86)/Windows Kits/10/".to_string()));
    host.directories.push("C:/Program Files (x86)/Windows Kits/10//bin/x64".to_string());
    host.entries.push("C:/Program Files (x86)/Windows Kits/10//bin/x64/rc.exe".to_string());
    let (found, asked) = run(&host, "x86_64-pc-windows-msvc", "rc.exe");
    assert_eq!(found, Some(named("C:/Program Files (x86)/Windows Kits/10/", 0, &["bin/x64", "rc.exe"])));
    assert_eq!(asked.len(), 3);
    assert_eq!(step_by_step(&host, Arch::X64, "rc.exe"), found);
    assert_eq!(step_by_step(&host, Arch::X86, "rc.exe"), None);
}

#[test]
fn answer_of_the_wrong_shape_counts_as_absence() {
    let machine = Discovery::start(Arch::X64, "rc.exe");
    match machine.advance(Answer::Flag(true)) {
        Progress::Pending(next) => {
            assert_eq!(next.probe, Probe::KitsRoot81);
            assert_eq!(*next.query(), Query::RegistryValue(RegistryValue::KitsRoot81));
        }
        other => panic!("unexpected {:?}", other),
    }
    let machine = Discovery::start(Arch::X64, "rc.exe");
    let machine = match machine.advance(Answer::Text(Some("C:/K".to_string()))) {
        Progress::Pending(next) => next,
        other => panic!("unexpected {:?}", other),
    };
    match machine.advance(Answer::Done) {
        Progress::Pending(next) => assert_eq!(*next.query(), Query::RegistryValue(RegistryValue::KitsRoot81)),
        other => panic!("unexpected {:?}", other),
    }
}

#[test]
fn only_directories_with_text_names_are_versions() {
    let entries = vec![
        dir("10.0.19041.0"),
        file("10.0.18362.0"),
        Entry { name: None, is_dir: Some(true) },
        Entry { name: Some("10.0.17763.0".to_string()), is_dir: None },
        dir("x64"),
        Entry { name: None, is_dir: None },
        dir(""),
    ];
    assert_eq!(get_dirs(&entries), vec!["10.0.19041.0", "x64", ""]);
    assert_eq!(get_dirs(&vec![]), Vec::<String>::new());
    assert_eq!(get_dirs(&vec![file("a"), file("b")]), Vec::<String>::new());
}

#[test]
fn probe_halves_ask_for_the_directory_and_then_the_tool() {
    let root = ProbePath::root("C:/SDK".to_string());
    assert_eq!(try_bin_dir(root.clone(), "Bin", "Bin/x64", Arch::X86), Query::IsDir(named("C:/SDK", 0, &["Bin"])));
    assert_eq!(try_bin_dir(root.clone(), "Bin", "Bin/x64", Arch::X64), Query::IsDir(named("C:/SDK", 0, &["Bin/x64"])));
    assert_eq!(try_tool(named("C:/SDK", 0, &["Bin"]), "rc.exe"), Query::Exists(named("C:/SDK", 0, &["Bin", "rc.exe"])));
}

#[test]
fn every_step_is_further_along_than_the_one_before() {
    let mut host = empty_host();
    host.registry.push((RegistryValue::KitsRoot10, "C:/Kits/10".to_string()));
    host.registry.push((RegistryValue::KitsRoot, "C:/Kits/8.0".to_string()));
    host.listings.push(("C:/Kits/10/bin".to_string(), vec![dir("a"), dir("b")]));
    host.directories.push("C:/Kits/10/bin/a/x86".to_string());
    host.sdk_root = Some("C:/Kits/10/Include/10.0.1".to_string());
    let (found, asked) = run(&host, "i686-pc-windows-msvc", "rc.exe");
    assert_eq!(found, None);
    assert_eq!(
        asked,
        vec![
            Query::RegistryValue(RegistryValue::KitsRoot10),
            Query::IsDir(named("C:/Kits/10", 0, &["bin/x86"])),
            Query::RegistryValue(RegistryValue::KitsRoot81),
            Query::RegistryValue(RegistryValue::KitsRoot),
            Query::IsDir(named("C:/Kits/8.0", 0, &["bin/x86"])),
            Query::RegistryValue(RegistryValue::CurrentInstallFolder),
            Query::RegistryValue(RegistryValue::KitsRoot10),
            Query::AugmentEnvironment,
            Query::ListDirs(named("C:/Kits/10/bin", 0, &[])),
            Query::IsDir(named("C:/Kits/10/bin", 0, &["a/x86"])),
            Query::Exists(named("C:/Kits/10/bin", 0, &["a/x86", "rc.exe"])),
            Query::IsDir(named("C:/Kits/10/bin", 0, &["b/x86"])),
            Query::VsSdkRoot,
            Query::IsDir(ProbePath {
                base: "C:/Kits/10/Include/10.0.1".to_string(),
                ascend: 2,
                descend: vec![
                    Segment::Name("bin".to_string()),
                    Segment::FinalNameOfBase,
                    Segment::Name("x86".to_string()),
                ],
            }),
            Query::IsDir(named("C:/Kits/10/Include/10.0.1", 2, &["bin/x86"])),
        ]
    );
}

#[test]
fn scan_skips_an_entry_that_is_no_directory() {
    let mut host = empty_host();
    host.registry.push((RegistryValue::KitsRoot10, "C:/Kits/10".to_string()));
    // a symbolic link whose target holds the tool: neither file nor directory
    host.listings.push(("C:/Kits/10/bin".to_string(), vec![file("link")]));
    host.directories.push("C:/Kits/10/bin/link/x64".to_string());
    host.entries.push("C:/Kits/10/bin/link/x64/rc.exe".to_string());
    let (found, asked) = run(&host, "x86_64-pc-windows-msvc", "rc.exe");
    assert_eq!(found, None);
    assert!(!asked.contains(&Query::IsDir(named("C:/Kits/10/bin", 0, &["link/x64"]))));
    assert_eq!(asked.last(), Some(&Query::VsSdkRoot));

    // the same entry as a directory is a version
    host.listings[0].1 = vec![dir("link")];
    let (found, _) = run(&host, "x86_64-pc-windows-msvc", "rc.exe");
    assert_eq!(found, Some(named("C:/Kits/10/bin", 0, &["link/x64", "rc.exe"])));
}

#[test]
fn sdk_root_without_final_segment_leaves_the_versioned_directory_out() {
    let mut host = empty_host();
    host.sdk_root = Some("C:/Kits/10/..".to_string());
    host.directories.push("C:/Kits/bin/x64".to_string());
    host.entries.push("C:/Kits/bin/x64/rc.exe".to_string());
    let (found, asked) = run(&host, "x86_64-pc-windows-msvc", "rc.exe");
    assert_eq!(found, Some(named("C:/Kits/10/..", 2, &["bin/x64", "rc.exe"])));
    for query in &asked {
        if let Query::IsDir(path) | Query::Exists(path) = query {
            assert!(!path.descend.contains(&Segment::FinalNameOfBase));
        }
    }
    let vs = asked.iter().position(|q| *q == Query::VsSdkRoot).unwrap();
    assert_eq!(asked[vs + 1], Query::IsDir(named("C:/Kits/10/..", 2, &["bin/x64"])));

    host.entries.clear();
    let (found, asked) = run(&host, "x86_64-pc-windows-msvc", "rc.exe");
    assert_eq!(found, None);
    assert_eq!(asked.last(), Some(&Query::Exists(named("C:/Kits/10/..", 2, &["bin/x64", "rc.exe"]))));
}

#[test]
fn text_is_no_answer_to_the_instance_locator() {
    let mut machine = Discovery::start(Arch::X64, "rc.exe");
    for _ in 0..5 {
        machine = match machine.advance(Answer::Text(None)) {
            Progress::Pending(next) => next,
            other => panic!("unexpected {:?}", other),
        };
    }
    assert_eq!(*machine.query(), Query::VsSdkRoot);
    assert_eq!(machine.advance(Answer::Text(Some("C:/Kits/10/Include/10.0.1".to_string()))), Progress::Exhausted);
}
