use setup_my_mac::config::{
    Config, ConfigBundle, DotfileEntry, GitConfig, HomebrewConfig, SshConfig, SystemConfig,
    TrackpadConfig, UserConfig,
};
use setup_my_mac::runner::Runner;
use setup_my_mac::steps::StepKind;

fn bare_config() -> Config {
    Config {
        system: SystemConfig {
            home_directory: "/Users/me".to_string(),
            primary_user: "me".to_string(),
            timezone: None,
            touch_id_sudo: false,
            trackpad: TrackpadConfig::default(),
        },
        homebrew: HomebrewConfig::default(),
        user: UserConfig { ssh: None, dotfiles: Vec::new(), git: None },
    }
}

fn git_config(enable: bool) -> GitConfig {
    GitConfig {
        enable,
        user_email: None,
        user_name: None,
        credential_helper: None,
        ignores: Vec::new(),
        init: None,
        merge: None,
        pull: None,
        push: None,
    }
}

fn runner_for(config: Config) -> Runner {
    Runner::new(ConfigBundle { config, path: "config.toml".to_string(), root: ".".to_string() })
}

#[test]
fn display_names_are_fixed() {
    assert_eq!(StepKind::System.display_name(), "System");
    assert_eq!(StepKind::Homebrew.display_name(), "Homebrew");
    assert_eq!(StepKind::Dotfiles.display_name(), "Dotfiles");
    assert_eq!(StepKind::Ssh.display_name(), "SSH");
    assert_eq!(StepKind::Git.display_name(), "Git");
}

#[test]
fn bare_configuration_runs_system_only() {
    let runner = runner_for(bare_config());
    assert_eq!(runner.default_steps(), vec![StepKind::System]);
}

#[test]
fn disabled_git_block_adds_no_step() {
    let mut config = bare_config();
    config.user.git = Some(git_config(false));
    assert_eq!(runner_for(config).default_steps(), vec![StepKind::System]);
}

#[test]
fn full_configuration_runs_all_steps_in_fixed_order() {
    let mut config = bare_config();
    config.homebrew.enable = true;
    config.user.dotfiles.push((
        "zshrc".to_string(),
        DotfileEntry { source: "dotfiles/zshrc".to_string(), target: "~/.zshrc".to_string() },
    ));
    config.user.ssh = Some(SshConfig { config: "Host *\n".to_string() });
    config.user.git = Some(git_config(true));
    assert_eq!(
        runner_for(config).default_steps(),
        vec![
            StepKind::System,
            StepKind::Homebrew,
            StepKind::Dotfiles,
            StepKind::Ssh,
            StepKind::Git
        ]
    );
}

#[test]
fn each_optional_step_follows_its_own_flag() {
    let mut config = bare_config();
    config.user.ssh = Some(SshConfig { config: String::new() });
    assert_eq!(runner_for(config).default_steps(), vec![StepKind::System, StepKind::Ssh]);

    let mut config = bare_config();
    config.homebrew.enable = true;
    config.user.git = Some(git_config(true));
    assert_eq!(
        runner_for(config).default_steps(),
        vec![StepKind::System, StepKind::Homebrew, StepKind::Git]
    );
}

#[test]
fn runner_keeps_configuration_and_root() {
    let mut config = bare_config();
    config.homebrew.enable = true;
    let runner = Runner::new(ConfigBundle {
        config,
        path: "/etc/setup/config.toml".to_string(),
        root: "/etc/setup".to_string(),
    });
    assert!(runner.config().homebrew.enable);
    assert_eq!(runner.root().as_str(), "/etc/setup");
}

#[test]
fn progress_messages_name_the_step() {
    let running = StepKind::Ssh.running_message();
    assert!(running.contains("›") && running.ends_with("SSH") || running.contains("SSH"));
    assert!(running.contains(' '));
    let done = StepKind::Git.completed_message();
    assert!(done.contains("✔") && done.contains("Git"));
    let failed = StepKind::Homebrew.failed_message();
    assert!(failed.contains("✖") && failed.contains("Homebrew"));
}

#[test]
fn confirmation_prompt_lists_the_steps() {
    let prompt = Runner::confirm_steps(&vec![StepKind::System, StepKind::Ssh, StepKind::System]);
    let prompt = prompt.expect("a prompt for a list that is not empty");
    assert!(prompt.starts_with("Run all steps ("));
    assert!(prompt.ends_with(")?"));
    assert!(prompt.contains("System, SSH, System"));
    assert!(Runner::confirm_steps(&Vec::new()).is_none());
}

#[test]
fn notices_say_what_happened() {
    let nothing = Runner::nothing_to_do_notice();
    assert!(nothing.contains("↷"));
    assert!(nothing.ends_with(" No steps to run"));
    let stop = Runner::stop_notice();
    assert!(stop.contains("↷") && stop.contains("Stop all steps"));
}

#[test]
fn dotfile_names_are_checked_for_repeats() {
    let entry = |s: &str| DotfileEntry { source: s.to_string(), target: format!("~/{}", s) };
    let mut config = bare_config();
    assert!(config.user.has_distinct_names());
    config.user.dotfiles.push(("zshrc".to_string(), entry("a")));
    config.user.dotfiles.push(("nvim".to_string(), entry("b")));
    assert!(config.user.has_distinct_names());
    config.user.dotfiles.push(("zshrc".to_string(), entry("c")));
    assert!(!config.user.has_distinct_names());
}
