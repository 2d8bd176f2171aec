use setup_my_mac::command::CommandOutput;
use setup_my_mac::config::{
    Config, DotfileEntry, GitConfig, GitInit, GitMerge, GitPull, GitPush, HomebrewConfig,
    SshConfig, SystemConfig, TrackpadConfig, UserConfig,
};
use setup_my_mac::error::SetupError;
use setup_my_mac::runner::{Runner, StepPlan};
use setup_my_mac::steps::dotfiles::{self, EntryFacts, SyncAction, SyncPlan};
use setup_my_mac::steps::git;
use setup_my_mac::steps::homebrew;
use setup_my_mac::steps::ssh;
use setup_my_mac::steps::system::{self, FileRead, SystemTask};
use setup_my_mac::steps::{StepContext, StepKind};
use setup_my_mac::sudo::SudoHelper;

fn bare_config() -> Config {
    Config {
        system: SystemConfig {
            home_directory: "/Users/me".to_string(),
            primary_user: "me".to_string(),
            timezone: None,
            touch_id_sudo: false,
            trackpad: TrackpadConfig::default(),
        },
        homebrew: HomebrewConfig::default(),
        user: UserConfig { ssh: None, dotfiles: Vec::new(), git: None },
    }
}

fn empty_git(enable: bool) -> GitConfig {
    GitConfig {
        enable,
        user_email: None,
        user_name: None,
        credential_helper: None,
        ignores: Vec::new(),
        init: None,
        merge: None,
        pull: None,
        push: None,
    }
}

fn output(success: bool, code: Option<i32>, stdout: &str, stderr: &str) -> CommandOutput {
    CommandOutput { success, code, stdout: stdout.to_string(), stderr: stderr.to_string() }
}

fn argv(spec: &setup_my_mac::command::CommandSpec) -> Vec<String> {
    let mut all = vec![spec.program.clone()];
    all.extend(spec.args.iter().cloned());
    all
}

#[test]
fn git_step_skips_with_a_reason() {
    let mut sudo = SudoHelper::default();
    let cfg = bare_config();
    let mut ctx = StepContext::new(&cfg, ".", &mut sudo);
    assert!(git::run(&mut ctx).is_none());
    assert_eq!(ctx.progress.message, "No git settings configured, skipping");

    let mut cfg = bare_config();
    let mut disabled = empty_git(false);
    disabled.user_name = Some("Me".to_string());
    cfg.user.git = Some(disabled);
    let mut sudo = SudoHelper::default();
    let mut ctx = StepContext::new(&cfg, ".", &mut sudo);
    assert!(git::run(&mut ctx).is_none());
    assert_eq!(ctx.progress.message, "user.git.enable is false, skipping git module");

    let mut cfg = bare_config();
    cfg.user.git = Some(empty_git(true));
    let mut sudo = SudoHelper::default();
    let mut ctx = StepContext::new(&cfg, ".", &mut sudo);
    assert!(git::run(&mut ctx).is_none());
    assert_eq!(ctx.progress.message, "No git preferences provided, skipping");
    assert!(ctx.progress.lines.is_empty());
}

#[test]
fn git_step_lists_settings_in_order() {
    let mut cfg = bare_config();
    cfg.user.git = Some(GitConfig {
        enable: true,
        user_email: Some("you@example.com".to_string()),
        user_name: Some("Your Name".to_string()),
        credential_helper: Some("osxkeychain".to_string()),
        ignores: vec!["target/".to_string(), ".DS_Store".to_string()],
        init: Some(GitInit { default_branch: Some("main".to_string()) }),
        merge: Some(GitMerge { conflictstyle: Some("zdiff3".to_string()) }),
        pull: Some(GitPull { rebase: Some(true) }),
        push: Some(GitPush { auto_setup_remote: Some(false) }),
    });
    let mut sudo = SudoHelper::default();
    let mut ctx = StepContext::new(&cfg, ".", &mut sudo);
    let work = git::run(&mut ctx).expect("work to do");
    assert!(ctx.progress.message == "🌿 applying git config"
        || ctx.progress.message == "git applying git config");
    let pairs: Vec<(&str, &str)> =
        work.settings.iter().map(|s| (s.key.as_str(), s.value.as_str())).collect();
    assert_eq!(
        pairs,
        vec![
            ("user.name", "Your Name"),
            ("user.email", "you@example.com"),
            ("credential.helper", "osxkeychain"),
            ("init.defaultBranch", "main"),
            ("merge.conflictStyle", "zdiff3"),
            ("pull.rebase", "true"),
            ("push.autoSetupRemote", "false"),
        ]
    );
    assert_eq!(work.ignores, vec!["target/".to_string(), ".DS_Store".to_string()]);
    let file = git::ensure_global_ignore(&ctx, &work.ignores);
    assert_eq!(file.body, "target/\n.DS_Store\n");
    assert!(file.path.ends_with("/.config/git/ignore"));
}

#[test]
fn git_work_is_any_single_preference() {
    assert!(!git::has_git_work(&empty_git(true)));
    let mut cfg = empty_git(true);
    cfg.ignores.push("x".to_string());
    assert!(git::has_git_work(&cfg));
    let mut cfg = empty_git(false);
    cfg.pull = Some(GitPull { rebase: Some(false) });
    assert!(git::has_git_work(&cfg));
    let mut cfg = empty_git(true);
    cfg.pull = Some(GitPull { rebase: None });
    cfg.push = Some(GitPush { auto_setup_remote: None });
    cfg.init = Some(GitInit { default_branch: None });
    cfg.merge = Some(GitMerge { conflictstyle: None });
    assert!(!git::has_git_work(&cfg));
    assert!(git::settings_of(&cfg).is_empty());
    cfg.merge = Some(GitMerge { conflictstyle: Some("diff3".to_string()) });
    assert!(git::has_git_work(&cfg));
    assert_eq!(git::settings_of(&cfg).len(), 1);
}

#[test]
fn git_reads_and_writes_one_setting() {
    assert_eq!(argv(&git::get_command("user.name")), ["git", "config", "--global", "--get", "user.name"]);
    assert_eq!(
        argv(&git::set_command("user.name", "Me")),
        ["git", "config", "--global", "user.name", "Me"]
    );
    let got = git::git_get("user.name", &output(true, Some(0), " Me \n", "")).unwrap();
    assert_eq!(got.as_deref(), Some("Me"));
    let unset = git::git_get("user.name", &output(false, Some(1), "", "")).unwrap();
    assert!(unset.is_none());
    let err = git::git_get("user.name", &output(false, Some(128), "", "bad file")).unwrap_err();
    assert_eq!(err.message(), "git config --get user.name failed: bad file");
    let err = git::git_get("user.name", &output(false, None, "", "killed")).unwrap_err();
    assert!(matches!(err, SetupError::Command { exit_code: None, .. }));

    assert!(git::ensure_git_config("user.name", "Me", &Some("Me".to_string())).is_none());
    let cmd = git::ensure_git_config("user.name", "Me", &Some("You".to_string())).unwrap();
    assert_eq!(argv(&cmd), ["git", "config", "--global", "user.name", "Me"]);
    assert!(git::ensure_git_config("user.name", "Me", &None).is_some());

    assert!(git::set_finished("user.name", true, Some(0)).is_ok());
    let err = git::set_finished("user.name", false, Some(5)).unwrap_err();
    assert_eq!(err.message(), "git config for user.name failed");
}

#[test]
fn brewfile_lists_formulas_then_casks() {
    let cfg = HomebrewConfig {
        enable: true,
        brews: vec!["git".to_string(), "ripgrep".to_string()],
        casks: vec!["iterm2".to_string()],
    };
    assert_eq!(
        homebrew::render_brewfile(&cfg),
        "brew \"git\"\nbrew \"ripgrep\"\ncask \"iterm2\"\n"
    );
    assert_eq!(homebrew::render_brewfile(&HomebrewConfig::default()), "");
}

#[test]
fn homebrew_step_decides_in_two_stages() {
    let cfg = bare_config();
    let mut sudo = SudoHelper::default();
    let mut ctx = StepContext::new(&cfg, ".", &mut sudo);
    assert!(homebrew::run(&mut ctx).is_none());
    assert_eq!(ctx.progress.message, "Homebrew disabled in config, skipping");

    let mut cfg = bare_config();
    cfg.homebrew.enable = true;
    let mut sudo = SudoHelper::default();
    let mut ctx = StepContext::new(&cfg, ".", &mut sudo);
    let check = homebrew::run(&mut ctx).expect("a check to run");
    assert_eq!(argv(&check), ["brew", "--version"]);
    assert!(ctx.progress.message.is_empty());
    assert!(homebrew::ensure_bundle(&mut ctx).is_none());
    assert_eq!(ctx.progress.message, "No Homebrew packages configured, skipping");

    cfg.homebrew.casks.push("iterm2".to_string());
    let mut sudo = SudoHelper::default();
    let mut ctx = StepContext::new(&cfg, ".", &mut sudo);
    let contents = homebrew::ensure_bundle(&mut ctx).expect("a Brewfile");
    assert_eq!(contents, "cask \"iterm2\"\n");
    assert!(ctx.progress.message == "📦 brew bundle" || ctx.progress.message == "[pkg] brew bundle");

    assert_eq!(argv(&homebrew::bundle_command("/tmp/Brewfile")), ["brew", "bundle", "--file", "/tmp/Brewfile"]);
    assert!(homebrew::ensure_brew_available(true, Some(0)).is_ok());
    assert_eq!(
        homebrew::ensure_brew_available(false, Some(1)).unwrap_err().message(),
        "brew is not available"
    );
    assert!(homebrew::bundle_finished(true, Some(0)).is_ok());
    assert_eq!(
        homebrew::bundle_finished(false, Some(1)).unwrap_err().message(),
        "brew bundle failed"
    );
}

#[test]
fn system_step_lists_its_tasks() {
    let cfg = bare_config();
    assert!(!system::has_system_tasks(&cfg.system));
    let mut sudo = SudoHelper::default();
    let mut ctx = StepContext::new(&cfg, ".", &mut sudo);
    assert!(system::run(&mut ctx).is_empty());
    assert_eq!(ctx.progress.message, "No system settings configured, skipping");

    let mut cfg = bare_config();
    cfg.system.timezone = Some("America/Los_Angeles".to_string());
    cfg.system.touch_id_sudo = true;
    cfg.system.trackpad = TrackpadConfig { clicking: Some(true), three_finger_drag: Some(false) };
    assert!(system::has_system_tasks(&cfg.system));
    let mut sudo = SudoHelper::default();
    let mut ctx = StepContext::new(&cfg, ".", &mut sudo);
    let tasks = system::run(&mut ctx);
    assert_eq!(
        tasks,
        vec![
            SystemTask::Timezone,
            SystemTask::TouchId,
            SystemTask::Clicking(true),
            SystemTask::ThreeFingerDrag(false)
        ]
    );
    assert!(ctx.progress.message.is_empty());
    for task in &tasks {
        system::announce(&mut ctx, *task);
    }
    let ends = [
        " Setting timezone to America/Los_Angeles",
        " Enabling Touch ID for sudo",
        " Trackpad clicking -> true",
        " Trackpad three finger drag -> false",
    ];
    assert_eq!(ctx.progress.lines.len(), 4);
    for (line, end) in ctx.progress.lines.iter().zip(ends) {
        assert!(line.contains("[info]"));
        assert!(line.ends_with(&format!("✨{}", end)) || line.ends_with(&format!("*{}", end)));
    }

    let mut cfg = bare_config();
    cfg.system.trackpad.three_finger_drag = Some(true);
    let mut sudo = SudoHelper::default();
    let mut ctx = StepContext::new(&cfg, ".", &mut sudo);
    assert_eq!(system::run(&mut ctx), vec![SystemTask::ThreeFingerDrag(true)]);
}

#[test]
fn timezone_is_set_only_where_it_differs() {
    assert_eq!(argv(&system::timezone_query()), ["/usr/sbin/systemsetup", "-gettimezone"]);
    let current: Result<String, SetupError> = Ok("Time Zone: Europe/Berlin\n".to_string());
    assert!(system::ensure_timezone(&current, "Europe/Berlin").is_none());
    let cmd = system::ensure_timezone(&current, "America/Los_Angeles").unwrap();
    assert_eq!(argv(&cmd), ["/usr/sbin/systemsetup", "-settimezone", "America/Los_Angeles"]);
    assert!(system::timezone_command("Time Zone: Europe/Berlin", "Europe/Berlin").is_none());
    let cmd = system::timezone_command("Time Zone: Europe/Berlin ", "Europe/Berlin").unwrap();
    assert_eq!(argv(&cmd), ["/usr/sbin/systemsetup", "-settimezone", "Europe/Berlin"]);
    let unknown: Result<String, SetupError> = Err(SetupError::Authentication);
    assert!(system::ensure_timezone(&unknown, "Europe/Berlin").is_some());
    assert!(system::ensure_timezone(&unknown, "").is_none());
}

#[test]
fn touch_id_line_goes_first() {
    assert!(system::enable_touch_id("auth sufficient pam_tid.so\n").is_none());
    assert_eq!(
        system::enable_touch_id("auth required pam_opendirectory.so\n").unwrap(),
        "auth       sufficient     pam_tid.so\nauth required pam_opendirectory.so\n"
    );
    assert_eq!(system::enable_touch_id("").unwrap(), "auth       sufficient     pam_tid.so\n");
    let (copy, chmod) = system::touch_id_commands("/tmp/staged");
    assert_eq!(argv(&copy), ["/bin/cp", "/tmp/staged", "/etc/pam.d/sudo_local"]);
    assert_eq!(argv(&chmod), ["/bin/chmod", "644", "/etc/pam.d/sudo_local"]);

    let found = system::touch_id_source(FileRead::Found("x".to_string())).unwrap();
    assert_eq!(found.as_deref(), Some("x"));
    assert!(system::touch_id_source(FileRead::Missing).unwrap().is_none());
    let err = system::touch_id_source(FileRead::Failed("permission denied".to_string())).unwrap_err();
    assert_eq!(err.message(), "reading /etc/pam.d/sudo_local: permission denied");
}

#[test]
fn trackpad_preferences_are_read_and_written() {
    assert_eq!(
        system::trackpad_domains(),
        vec!["com.apple.AppleMultitouchTrackpad", "com.apple.driver.AppleBluetoothMultitouch.trackpad"]
    );
    assert_eq!(SystemTask::Clicking(true).trackpad_key(), Some("Clicking"));
    assert_eq!(SystemTask::ThreeFingerDrag(true).trackpad_key(), Some("TrackpadThreeFingerDrag"));
    assert_eq!(SystemTask::Timezone.trackpad_key(), None);
    assert_eq!(SystemTask::TouchId.trackpad_key(), None);
    assert_eq!(argv(&system::defaults_query("d", "k")), ["/usr/bin/defaults", "read", "d", "k"]);

    for yes in ["1", "YES", "TRUE", "true", " 1\n"] {
        assert_eq!(system::read_defaults_bool(Some(&output(true, Some(0), yes, ""))), Some(true));
    }
    for no in ["0", "NO", "FALSE", "false", "0\n"] {
        assert_eq!(system::read_defaults_bool(Some(&output(true, Some(0), no, ""))), Some(false));
    }
    for other in ["", "yes", "2", "True", "1 0"] {
        assert_eq!(system::read_defaults_bool(Some(&output(true, Some(0), other, ""))), None);
    }
    assert_eq!(system::read_defaults_bool(Some(&output(false, Some(1), "1", ""))), None);
    assert_eq!(system::read_defaults_bool(None), None);
    assert_eq!(system::parse_switch("YES"), Some(true));
    assert_eq!(system::parse_switch("NO"), Some(false));
    assert_eq!(system::parse_switch(" YES"), None);

    assert!(system::ensure_trackpad_bool("d", "k", true, Some(true)).is_none());
    assert!(system::ensure_trackpad_bool("d", "k", false, Some(false)).is_none());
    let cmd = system::ensure_trackpad_bool("d", "k", true, Some(false)).unwrap();
    assert_eq!(argv(&cmd), ["/usr/bin/defaults", "write", "d", "k", "-bool", "TRUE"]);
    let cmd = system::ensure_trackpad_bool("d", "k", false, None).unwrap();
    assert_eq!(argv(&cmd), ["/usr/bin/defaults", "write", "d", "k", "-bool", "FALSE"]);
    assert!(system::defaults_write_finished("d", "k", true, Some(0)).is_ok());
    assert_eq!(
        system::defaults_write_finished("d", "k", false, Some(1)).unwrap_err().message(),
        "defaults write d k failed"
    );
}

#[test]
fn ssh_step_normalizes_the_configuration() {
    let cfg = bare_config();
    let mut sudo = SudoHelper::default();
    let mut ctx = StepContext::new(&cfg, ".", &mut sudo);
    assert!(ssh::run(&mut ctx).is_none());
    assert_eq!(ctx.progress.message, "No SSH config provided, skipping");

    let mut cfg = bare_config();
    cfg.user.ssh = Some(SshConfig { config: "Host github.com\r\n    User git\n\n\n".to_string() });
    let mut sudo = SudoHelper::default();
    let mut ctx = StepContext::new(&cfg, ".", &mut sudo);
    let work = ssh::run(&mut ctx).expect("work to do");
    assert!(ctx.progress.message == "🗝 syncing ~/.ssh/config"
        || ctx.progress.message == "ssh syncing ~/.ssh/config");
    assert_eq!(work.content, "Host github.com\n    User git\n");
    assert!(work.dir.ends_with("/.ssh"));
    assert_eq!(work.config_path, format!("{}/config", work.dir));
    assert_eq!(ctx.progress.lines.len(), 1);
    assert!(ctx.progress.lines[0].ends_with(&format!(
        " updating \n------\n{}\n------\n{}",
        work.content, work.config_path
    )));
    ssh::report(&mut ctx, &work.config_path, true);
    ssh::report(&mut ctx, &work.config_path, false);
    assert!(ctx.progress.lines[1].ends_with(&format!(" updated {}", work.config_path)));
    assert!(ctx.progress.lines[2].ends_with(&format!(" {} already up to date", work.config_path)));
    assert_eq!(ssh::SSH_DIR_MODE, 0o700);
    assert_eq!(ssh::SSH_CONFIG_MODE, 0o600);
}

#[test]
fn dotfiles_step_plans_each_mapping() {
    let cfg = bare_config();
    let mut sudo = SudoHelper::default();
    let mut ctx = StepContext::new(&cfg, "/etc/setup", &mut sudo);
    assert!(!dotfiles::run(&mut ctx));
    assert_eq!(ctx.progress.message, "No dotfiles requested, skipping module");

    let mut cfg = bare_config();
    cfg.user.dotfiles.push((
        "zshrc".to_string(),
        DotfileEntry { source: "dotfiles/zshrc".to_string(), target: "/home/me/.zshrc".to_string() },
    ));
    let mut sudo = SudoHelper::default();
    let mut ctx = StepContext::new(&cfg, "/etc/setup", &mut sudo);
    assert!(dotfiles::run(&mut ctx));
    assert!(ctx.progress.message.is_empty());
    dotfiles::announce(&mut ctx, "zshrc");
    assert!(ctx.progress.lines[0].ends_with("🔗 syncing dotfile zshrc")
        || ctx.progress.lines[0].ends_with("link syncing dotfile zshrc"));
    let (source, target) = dotfiles::resolve_entry(&ctx, &cfg.user.dotfiles[0].1);
    assert_eq!(source, "/etc/setup/dotfiles/zshrc");
    assert_eq!(target, "/home/me/.zshrc");
}

#[test]
fn sync_plans_by_what_is_on_disk() {
    let facts = |source_exists, source_is_dir, target_exists, differs| EntryFacts {
        source_exists,
        source_is_dir,
        target_exists,
        differs,
    };
    let err = dotfiles::sync_entry("/src/zshrc", facts(false, false, true, true)).unwrap_err();
    assert_eq!(err.message(), "source /src/zshrc does not exist");
    assert!(matches!(err, SetupError::PathResolution { .. }));
    assert_eq!(
        dotfiles::sync_entry("s", facts(true, true, true, false)).unwrap(),
        SyncPlan { backup: true, action: SyncAction::CopyTree }
    );
    assert_eq!(
        dotfiles::sync_entry("s", facts(true, true, false, false)).unwrap(),
        SyncPlan { backup: false, action: SyncAction::CopyTree }
    );
    assert_eq!(
        dotfiles::sync_entry("s", facts(true, false, false, true)).unwrap(),
        SyncPlan { backup: false, action: SyncAction::CopyFile }
    );
    assert_eq!(
        dotfiles::sync_entry("s", facts(true, false, true, true)).unwrap(),
        SyncPlan { backup: true, action: SyncAction::CopyFile }
    );
    assert_eq!(
        dotfiles::sync_entry("s", facts(true, false, true, false)).unwrap(),
        SyncPlan { backup: false, action: SyncAction::Nothing }
    );
}

#[test]
fn files_differ_by_their_bytes() {
    let a = vec![1u8, 2, 3];
    assert!(dotfiles::files_differ(&a, None));
    assert!(!dotfiles::files_differ(&a, Some(&vec![1, 2, 3])));
    assert!(dotfiles::files_differ(&a, Some(&vec![1, 2, 4])));
    assert!(dotfiles::files_differ(&a, Some(&vec![1, 2])));
    assert!(!dotfiles::files_differ(&Vec::new(), Some(&Vec::new())));
    assert!(dotfiles::copy_file(false, false));
    assert!(dotfiles::copy_file(false, true));
    assert!(dotfiles::copy_file(true, true));
    assert!(!dotfiles::copy_file(true, false));
}

#[test]
fn backup_names_count_up() {
    assert_eq!(dotfiles::backup_name(".zshrc", 0), ".zshrc.bak");
    assert_eq!(dotfiles::backup_name(".zshrc", 1), ".zshrc.bak.1");
    assert_eq!(dotfiles::backup_name(".zshrc", 12), ".zshrc.bak.12");
    let none: Vec<String> = Vec::new();
    assert_eq!(dotfiles::next_backup_path("/h/.zshrc", Some(".zshrc"), &none).unwrap(), ".zshrc.bak");
    let taken = vec![".zshrc".to_string(), ".zshrc.bak".to_string(), ".zshrc.bak.2".to_string()];
    assert_eq!(
        dotfiles::next_backup_path("/h/.zshrc", Some(".zshrc"), &taken).unwrap(),
        ".zshrc.bak.1"
    );
    let taken = vec![".zshrc.bak.1".to_string(), ".zshrc.bak".to_string(), ".zshrc.bak.2".to_string()];
    assert_eq!(
        dotfiles::next_backup_path("/h/.zshrc", Some(".zshrc"), &taken).unwrap(),
        ".zshrc.bak.3"
    );
    let err = dotfiles::next_backup_path("/", None, &none).unwrap_err();
    assert_eq!(err.message(), "/ has no file name");
}

#[test]
fn runner_dispatches_by_kind() {
    let mut cfg = bare_config();
    cfg.homebrew.enable = true;
    cfg.user.ssh = Some(SshConfig { config: "Host *".to_string() });
    let runner = Runner::new(setup_my_mac::config::ConfigBundle {
        config: cfg,
        path: "/etc/setup/config.toml".to_string(),
        root: "/etc/setup".to_string(),
    });
    let mut sudo = SudoHelper::default();
    for kind in [StepKind::System, StepKind::Homebrew, StepKind::Dotfiles, StepKind::Ssh, StepKind::Git] {
        let mut ctx = runner.context(&mut sudo);
        assert_eq!(ctx.root, "/etc/setup");
        let plan = Runner::run_step(kind, &mut ctx);
        match (kind, plan) {
            (StepKind::System, StepPlan::System(tasks)) => assert!(tasks.is_empty()),
            (StepKind::Homebrew, StepPlan::Homebrew(check)) => assert!(check.is_some()),
            (StepKind::Dotfiles, StepPlan::Dotfiles(work)) => assert!(!work),
            (StepKind::Ssh, StepPlan::Ssh(work)) => assert_eq!(work.unwrap().content, "Host *\n"),
            (StepKind::Git, StepPlan::Git(work)) => assert!(work.is_none()),
            (kind, plan) => panic!("{:?} decided {:?}", kind, plan),
        }
    }
}
