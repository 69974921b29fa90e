use tendril_core::deps::update_check::apply_update_checks;
use tendril_core::deps::update_check::pypi_latest_version;
use tendril_core::deps::{update_target, updating_message, UpdateTarget};
use tendril_core::deps::status::pipeline_ffmpeg;
use tendril_core::deps::demucs_bundle::{
    install_plan, last_word, pip_failure_message, pip_progress_line, python_download_message,
    python_download_url, python_triple, python_version_code, site_packages_dir, torch_install_args,
    InstallPlan, TORCH_CUDA_INDEX,
};
use tendril_core::deps::ffmpeg::{
    ffmpeg_source, ffprobe_binary_name, has_shared_libs, is_install_complete, static_asset_name,
    zip_bin_entry, FfmpegSource,
};
use tendril_core::deps::github_release::{find_asset_named, find_shared_build_asset, Asset, Release};
use tendril_core::deps::status::{
    all_installed, any_update_available, check_all, dep_state_label, updatable_names,
    version_token, DepProbe, DepState, DependencyStatus,
};
use tendril_core::deps::update_check::check_ffmpeg_latest;
use tendril_core::deps::versions::InstalledVersions;
use tendril_core::deps::ytdlp::{check_download_size, check_failed_message, ytdlp_asset_name, MIN_YTDLP_BYTES};
use tendril_core::deps::{apply_latest, demucs_ready, ffmpeg_binary_name, ffmpeg_needs_check, ytdlp_binary_name};
use tendril_core::dirs::AppDirs;
use tendril_core::platform::{TargetArch, TargetOs};

fn dirs() -> AppDirs {
    AppDirs {
        config_dir: "/cfg".to_string(),
        data_dir: "/data".to_string(),
        cache_dir: "/cache".to_string(),
    }
}

fn win_dirs() -> AppDirs {
    AppDirs {
        config_dir: "C:\\cfg".to_string(),
        data_dir: "C:\\data".to_string(),
        cache_dir: "C:\\cache".to_string(),
    }
}

fn versions(python: Option<&str>, torch: Option<&str>, demucs: Option<&str>, ytdlp: Option<&str>) -> InstalledVersions {
    InstalledVersions {
        python: python.map(str::to_string),
        torch: torch.map(str::to_string),
        demucs: demucs.map(str::to_string),
        ytdlp: ytdlp.map(str::to_string),
    }
}

#[test]
fn binary_names_depend_on_the_platform() {
    assert_eq!(ytdlp_binary_name(TargetOs::Windows), "yt-dlp.exe");
    assert_eq!(ytdlp_binary_name(TargetOs::Linux), "yt-dlp");
    assert_eq!(ffmpeg_binary_name(TargetOs::Windows), "ffmpeg.exe");
    assert_eq!(ffmpeg_binary_name(TargetOs::MacOs), "ffmpeg");
    assert_eq!(ffprobe_binary_name(TargetOs::Windows), "ffprobe.exe");
    assert_eq!(ffprobe_binary_name(TargetOs::Linux), "ffprobe");
    assert_eq!(ytdlp_asset_name(TargetOs::MacOs), "yt-dlp_macos");
    assert_eq!(ytdlp_asset_name(TargetOs::Windows), "yt-dlp.exe");
    assert_eq!(ytdlp_asset_name(TargetOs::Linux), "yt-dlp_linux");
}

#[test]
fn app_dirs_paths() {
    let d = dirs();
    assert_eq!(d.bin_dir(TargetOs::Linux), "/data/bin");
    assert_eq!(d.models_dir(TargetOs::Linux), "/data/models");
    assert_eq!(d.demucs_dir(TargetOs::Linux), "/data/demucs");
    assert_eq!(d.python_bin(TargetOs::Linux), "/data/demucs/python/bin/python3");
    assert_eq!(win_dirs().python_bin(TargetOs::Windows), "C:\\data\\demucs\\python\\python.exe");
    assert_eq!(win_dirs().bin_dir(TargetOs::Windows), "C:\\data\\bin");
}

#[test]
fn check_all_reports_five_entries_in_order() {
    let probe = DepProbe {
        versions: versions(Some("3.13.12"), Some("2.7.1"), None, Some("2025.01.15")),
        python_exists: true,
        torch_dir_exists: true,
        demucs_dir_exists: false,
        ytdlp_exists: true,
        ffmpeg_managed_exists: true,
        ffmpeg_system: None,
        ffmpeg_version: Some("6.1.1".to_string()),
    };
    let s = check_all(&dirs(), TargetOs::Linux, &probe);
    let names: Vec<&str> = s.iter().map(|d| d.name.as_str()).collect();
    assert_eq!(names, vec!["Python", "PyTorch", "demucs", "yt-dlp", "ffmpeg"]);
    assert_eq!(s[0].state, DepState::Installed);
    assert!(!s[0].updatable);
    assert_eq!(s[0].location.as_deref(), Some("/data/demucs/python/bin/python3"));
    assert_eq!(s[1].state, DepState::Installed);
    assert_eq!(s[1].location.as_deref(), Some("/data/demucs/python/lib/python3.13/site-packages/torch"));
    assert_eq!(s[2].state, DepState::Missing);
    assert!(s[2].updatable);
    assert_eq!(s[2].location, None);
    assert_eq!(s[3].version.as_deref(), Some("2025.01.15"));
    assert_eq!(s[3].location.as_deref(), Some("/data/bin/yt-dlp"));
    assert_eq!(s[4].state, DepState::Installed);
    assert_eq!(s[4].version.as_deref(), Some("6.1.1"));
    assert_eq!(s[4].location.as_deref(), Some("/data/bin/ffmpeg"));
    assert!(s[4].updatable);
    assert!(!all_installed(&s));
    assert!(!any_update_available(&s));
}

#[test]
fn system_ffmpeg_wins_off_windows_and_managed_wins_on_windows() {
    let mut probe = DepProbe {
        versions: InstalledVersions::default(),
        python_exists: false,
        torch_dir_exists: false,
        demucs_dir_exists: false,
        ytdlp_exists: false,
        ffmpeg_managed_exists: true,
        ffmpeg_system: Some("/usr/bin/ffmpeg".to_string()),
        ffmpeg_version: Some("7.1".to_string()),
    };
    let s = check_all(&dirs(), TargetOs::MacOs, &probe);
    assert_eq!(s[4].state, DepState::System);
    assert_eq!(s[4].location.as_deref(), Some("/usr/bin/ffmpeg"));
    assert!(!s[4].updatable);
    let s = check_all(&win_dirs(), TargetOs::Windows, &probe);
    assert_eq!(s[4].state, DepState::Installed);
    assert_eq!(s[4].location.as_deref(), Some("C:\\data\\bin\\ffmpeg.exe"));
    probe.ffmpeg_managed_exists = false;
    probe.ffmpeg_system = None;
    let s = check_all(&dirs(), TargetOs::Linux, &probe);
    assert_eq!(s[4].state, DepState::Missing);
    assert_eq!(s[4].version, None);
    // Torch counts as missing without Python.
    assert_eq!(s[1].state, DepState::Missing);
}

fn status(name: &str, state: DepState, version: Option<&str>, updatable: bool) -> DependencyStatus {
    DependencyStatus {
        name: name.to_string(),
        state,
        version: version.map(str::to_string),
        updatable,
        update_available: false,
        latest_version: None,
        location: None,
    }
}

#[test]
fn apply_latest_marks_only_the_named_entry() {
    let mut s = vec![
        status("demucs", DepState::Installed, Some("4.0.1+cpu"), true),
        status("yt-dlp", DepState::Installed, Some("2024.05.27"), true),
    ];
    apply_latest(&mut s, "yt-dlp", "2025.01.15");
    assert!(!s[0].update_available);
    assert_eq!(s[0].latest_version, None);
    assert!(s[1].update_available);
    assert_eq!(s[1].latest_version.as_deref(), Some("2025.01.15"));
    apply_latest(&mut s, "demucs", "4.0.1");
    assert!(!s[0].update_available);
    assert_eq!(s[0].latest_version.as_deref(), Some("4.0.1"));
    assert!(any_update_available(&s));
    assert_eq!(updatable_names(&s), vec!["yt-dlp".to_string()]);
    apply_latest(&mut s, "nothing", "1.0");
    assert_eq!(s.len(), 2);
}

#[test]
fn ffmpeg_check_needs_a_managed_install() {
    let s = vec![status("ffmpeg", DepState::Installed, Some("6.1.1"), true)];
    assert!(ffmpeg_needs_check(&s));
    let s = vec![status("ffmpeg", DepState::System, Some("7.1"), false)];
    assert!(!ffmpeg_needs_check(&s));
    assert!(!ffmpeg_needs_check(&vec![]));
}

#[test]
fn demucs_readiness_needs_python_torch_and_demucs() {
    assert!(demucs_ready(true, &versions(Some("3"), Some("2.7.1"), Some("4.0.1"), None)));
    assert!(!demucs_ready(false, &versions(Some("3"), Some("2.7.1"), Some("4.0.1"), None)));
    assert!(!demucs_ready(true, &versions(Some("3"), None, Some("4.0.1"), None)));
    assert!(!demucs_ready(true, &versions(Some("3"), Some("2.7.1"), None, None)));
    assert!(matches!(install_plan(false, false), InstallPlan::Full));
    assert!(matches!(install_plan(true, true), InstallPlan::Ready));
    assert!(matches!(install_plan(true, false), InstallPlan::DemucsOnly));
}

#[test]
fn dep_state_labels() {
    assert_eq!(dep_state_label(DepState::Installed), "installed");
    assert_eq!(dep_state_label(DepState::System), "system");
    assert_eq!(dep_state_label(DepState::Missing), "missing");
}

#[test]
fn version_token_is_the_third_word() {
    assert_eq!(version_token("ffmpeg version 6.1.1 Copyright (c) 2000-2023").as_deref(), Some("6.1.1"));
    assert_eq!(version_token("ffmpeg version").as_deref(), None);
}

#[test]
fn python_bundle_urls_and_paths() {
    assert_eq!(python_triple(TargetOs::MacOs, TargetArch::Aarch64), Some("aarch64-apple-darwin"));
    assert_eq!(python_triple(TargetOs::Windows, TargetArch::Aarch64), None);
    assert_eq!(
        python_download_url(TargetOs::Linux, TargetArch::X86_64).as_deref(),
        Some("https://github.com/astral-sh/python-build-standalone/releases/download/20260203/cpython-3.13.12+20260203-x86_64-unknown-linux-gnu-install_only_stripped.tar.gz")
    );
    assert_eq!(python_download_url(TargetOs::Windows, TargetArch::Aarch64), None);
    assert_eq!(site_packages_dir(&win_dirs(), TargetOs::Windows), "C:\\data\\demucs\\python\\Lib\\site-packages");
    assert_eq!(site_packages_dir(&dirs(), TargetOs::Linux), "/data/demucs/python/lib/python3.13/site-packages");
    assert_eq!(torch_install_args(TargetOs::MacOs), vec!["torch==2.7.1", "torchaudio==2.7.1"]);
    assert_eq!(
        torch_install_args(TargetOs::Linux),
        vec!["torch==2.7.1", "torchaudio==2.7.1", "--index-url", TORCH_CUDA_INDEX]
    );
    assert_eq!(python_version_code("demucs"), "import demucs; print(demucs.__version__)");
}

#[test]
fn pip_output_and_messages() {
    assert_eq!(pip_progress_line("  Collecting demucs  ").as_deref(), Some("Collecting demucs"));
    assert_eq!(pip_progress_line("Requirement already satisfied"), None);
    assert_eq!(last_word("Python 3.13.12\n").as_deref(), Some("3.13.12"));
    assert_eq!(last_word("   "), None);
    assert_eq!(python_download_message(3 * 1024 * 1024 + 5, 40 * 1024 * 1024), "Downloading Python (3/40 MB)...");
    assert_eq!(
        pip_failure_message(&vec!["demucs", "-q"], "  error: no space \n"),
        "pip install demucs -q failed: error: no space"
    );
}

#[test]
fn ffmpeg_install_decisions() {
    assert_eq!(static_asset_name(TargetOs::MacOs, TargetArch::Aarch64), Some(("ffmpeg-darwin-arm64", "ffprobe-darwin-arm64")));
    assert_eq!(static_asset_name(TargetOs::Windows, TargetArch::X86_64), None);
    assert!(is_install_complete(TargetOs::Linux, true, true, false));
    assert!(!is_install_complete(TargetOs::Linux, true, false, true));
    assert!(!is_install_complete(TargetOs::Windows, true, true, false));
    assert!(is_install_complete(TargetOs::Windows, true, true, true));
    assert!(has_shared_libs(&vec!["ffmpeg.exe".to_string(), "avutil-59.dll".to_string()]));
    assert!(!has_shared_libs(&vec!["avutil-59.so".to_string()]));
    assert_eq!(zip_bin_entry("ffmpeg-n7.1-win64-lgpl-shared/bin/ffmpeg.exe").as_deref(), Some("ffmpeg.exe"));
    assert_eq!(zip_bin_entry("ffmpeg-n7.1-win64-lgpl-shared/bin/"), None);
    assert_eq!(zip_bin_entry("ffmpeg/doc/readme.txt"), None);
    assert_eq!(zip_bin_entry("a/bin/sub/x.dll"), None);
    assert!(matches!(ffmpeg_source(true, Some("/usr/bin/ffmpeg".to_string())), FfmpegSource::Managed));
    match ffmpeg_source(false, Some("/usr/bin/ffmpeg".to_string())) {
        FfmpegSource::System(p) => assert_eq!(p, "/usr/bin/ffmpeg"),
        _ => panic!("expected the system ffmpeg"),
    }
    assert!(matches!(ffmpeg_source(false, None), FfmpegSource::Download));
    assert_eq!(check_ffmpeg_latest(TargetOs::Linux).as_deref(), Some("6.1.1"));
    assert_eq!(check_ffmpeg_latest(TargetOs::Windows), None);
}

#[test]
fn release_asset_lookup() {
    let asset = |n: &str| Asset { name: n.to_string(), browser_download_url: format!("https://x/{n}") };
    let r = Release {
        tag_name: "latest".to_string(),
        assets: vec![
            asset("ffmpeg-master-latest-win64-gpl.zip"),
            asset("ffmpeg-n7.1-latest-win64-lgpl-shared-7.1.zip"),
            asset("ffmpeg-n7.1-latest-win64-lgpl-shared-7.1.tar.xz"),
        ],
    };
    assert_eq!(find_shared_build_asset(&r).unwrap().name, "ffmpeg-n7.1-latest-win64-lgpl-shared-7.1.zip");
    assert_eq!(
        find_asset_named(&r, "ffmpeg-master-latest-win64-gpl.zip").unwrap().browser_download_url,
        "https://x/ffmpeg-master-latest-win64-gpl.zip"
    );
    assert!(find_asset_named(&r, "missing").is_none());
}

#[test]
fn download_size_and_check_messages() {
    assert!(check_download_size("yt-dlp", MIN_YTDLP_BYTES, MIN_YTDLP_BYTES).is_ok());
    assert_eq!(
        check_download_size("yt-dlp", 512, MIN_YTDLP_BYTES),
        Err("yt-dlp download too small (512 bytes); aborting update".to_string())
    );
    assert_eq!(
        check_failed_message("ffmpeg", "-version", "bad cpu type"),
        "downloaded ffmpeg failed -version check: bad cpu type"
    );
}

#[test]
fn pipeline_runs_the_ffmpeg_the_status_shows() {
    let sys = Some("/usr/bin/ffmpeg".to_string());
    assert_eq!(pipeline_ffmpeg(&dirs(), TargetOs::Linux, true, sys.clone()), "/usr/bin/ffmpeg");
    assert_eq!(pipeline_ffmpeg(&win_dirs(), TargetOs::Windows, true, sys.clone()), "C:\\data\\bin\\ffmpeg.exe");
    assert_eq!(pipeline_ffmpeg(&dirs(), TargetOs::Windows, false, sys.clone()), "/usr/bin/ffmpeg");
    assert_eq!(pipeline_ffmpeg(&dirs(), TargetOs::MacOs, true, None), "/data/bin/ffmpeg");
    assert_eq!(pipeline_ffmpeg(&dirs(), TargetOs::Linux, false, None), "ffmpeg");
    for os in [TargetOs::Linux, TargetOs::MacOs, TargetOs::Windows] {
        for managed in [false, true] {
            for system in [None, sys.clone()] {
                let probe = DepProbe {
                    versions: InstalledVersions::default(),
                    python_exists: false,
                    torch_dir_exists: false,
                    demucs_dir_exists: false,
                    ytdlp_exists: false,
                    ffmpeg_managed_exists: managed,
                    ffmpeg_system: system.clone(),
                    ffmpeg_version: None,
                };
                let shown = check_all(&dirs(), os, &probe).remove(4);
                if let Some(loc) = shown.location {
                    assert_eq!(loc, pipeline_ffmpeg(&dirs(), os, managed, system.clone()));
                }
            }
        }
    }
}

#[test]
fn update_targets_by_name() {
    assert_eq!(update_target("demucs"), Some(UpdateTarget::Demucs));
    assert_eq!(update_target("yt-dlp"), Some(UpdateTarget::YtDlp));
    assert_eq!(update_target("ffmpeg"), Some(UpdateTarget::Ffmpeg));
    assert_eq!(update_target("Python"), None);
    assert_eq!(updating_message("yt-dlp"), "Updating yt-dlp...");
}

#[test]
fn pypi_version_is_read_from_the_project_document() {
    let body = br#"{"info": {"name": "demucs", "version": "4.0.1"}, "releases": {}}"#;
    assert_eq!(pypi_latest_version(body).as_deref(), Some("4.0.1"));
    assert_eq!(pypi_latest_version(br#"{"info": {"version": 4}}"#), None);
    assert_eq!(pypi_latest_version(br#"{"info": {}}"#), None);
    assert_eq!(pypi_latest_version(b"not json"), None);
}

#[test]
fn update_checks_apply_each_latest_version() {
    let base = || {
        vec![
            status("demucs", DepState::Installed, Some("4.0.0"), true),
            status("yt-dlp", DepState::Installed, Some("2025.01.15"), true),
            status("ffmpeg", DepState::Installed, Some("6.1.1"), true),
        ]
    };
    let mut s = base();
    apply_update_checks(&mut s, Some("4.0.1".to_string()), None, TargetOs::Linux);
    assert!(s[0].update_available);
    assert_eq!(s[0].latest_version.as_deref(), Some("4.0.1"));
    assert_eq!(s[1].latest_version, None);
    assert_eq!(s[2].latest_version.as_deref(), Some("6.1.1"));
    assert!(!s[2].update_available);

    let mut s = base();
    apply_update_checks(&mut s, None, Some("2025.01.15".to_string()), TargetOs::Windows);
    assert!(!s[1].update_available);
    assert_eq!(s[1].latest_version.as_deref(), Some("2025.01.15"));
    assert_eq!(s[2].latest_version, None);

    // A system ffmpeg is not checked.
    let mut s = base();
    s[2].state = DepState::System;
    apply_update_checks(&mut s, None, None, TargetOs::Linux);
    assert_eq!(s[2].latest_version, None);
}
