use setup_my_mac::config::{
    Config, HomebrewConfig, SystemConfig, TrackpadConfig, UserConfig,
};
use setup_my_mac::steps::{
    log_line, spawn_stream_logger, StepContext, StepLogLevel, StreamKind, StreamLogger,
};
use setup_my_mac::sudo::{SudoHelper, SudoStep};

fn config() -> Config {
    Config {
        system: SystemConfig {
            home_directory: "/Users/me".to_string(),
            primary_user: "me".to_string(),
            timezone: None,
            touch_id_sudo: false,
            trackpad: TrackpadConfig::default(),
        },
        homebrew: HomebrewConfig::default(),
        user: UserConfig { ssh: None, dotfiles: Vec::new(), git: None },
    }
}

/// Feeds `reads` to `logger` as a reader of the stream would.
fn drain(logger: &StreamLogger, reads: &[Result<String, String>]) -> Vec<String> {
    let mut shown = Vec::new();
    for read in reads {
        let (line, go_on) = logger.forward(read);
        shown.push(line);
        if !go_on {
            break;
        }
    }
    shown
}

#[test]
fn log_line_is_indent_label_space_message() {
    assert_eq!(log_line("[info]", "hello"), "  [info] hello");
    assert_eq!(log_line("", ""), "   ");
}

#[test]
fn forwarder_puts_each_read_behind_its_prefix() {
    let logger = StreamLogger::with_prefixes("[tool]".to_string(), "[tool:stdout]".to_string());
    assert_eq!(logger.forward(&Ok("line one".to_string())), ("  [tool] line one".to_string(), true));
    assert_eq!(logger.forward(&Ok(String::new())), ("  [tool] ".to_string(), true));
    assert_eq!(
        logger.forward(&Err("broken pipe".to_string())),
        ("  [tool:stdout] stream read error: broken pipe".to_string(), false)
    );
}

#[test]
fn stream_names_are_fixed() {
    assert_eq!(StreamKind::Stdout.as_str(), "stdout");
    assert_eq!(StreamKind::Stderr.as_str(), "stderr");
}

#[test]
fn every_line_is_forwarded_in_order() {
    let out = spawn_stream_logger("brew bundle", StreamKind::Stdout);
    let err = spawn_stream_logger("brew bundle", StreamKind::Stderr);
    let out_reads: Vec<Result<String, String>> =
        vec![Ok("one".to_string()), Ok("two".to_string()), Ok("three".to_string())];
    let err_reads: Vec<Result<String, String>> =
        vec![Ok("warn a".to_string()), Ok("warn b".to_string())];
    let shown_out = drain(&out, &out_reads);
    let shown_err = drain(&err, &err_reads);
    assert_eq!(shown_out.len() + shown_err.len(), 5);
    for (line, text) in shown_out.iter().zip(["one", "two", "three"]) {
        assert!(line.starts_with("  "));
        assert!(line.contains("[brew bundle]"));
        assert!(line.ends_with(&format!(" {}", text)));
    }
    for (line, text) in shown_err.iter().zip(["warn a", "warn b"]) {
        assert!(line.contains("[brew bundle:stderr]"));
        assert!(line.ends_with(&format!(" {}", text)));
    }
}

#[test]
fn failed_read_is_shown_once_and_ends_the_stream() {
    let logger = spawn_stream_logger("git", StreamKind::Stdout);
    let reads: Vec<Result<String, String>> = vec![
        Ok("first".to_string()),
        Err("broken pipe".to_string()),
        Ok("never shown".to_string()),
    ];
    let shown = drain(&logger, &reads);
    assert_eq!(shown.len(), 2);
    assert!(shown[0].ends_with(" first"));
    assert!(shown[1].contains("[git:stdout]"));
    assert!(shown[1].ends_with(" stream read error: broken pipe"));
    let (_, go_on) = logger.forward(&Err("again".to_string()));
    assert!(!go_on);
    let (_, go_on) = logger.forward(&Ok("line".to_string()));
    assert!(go_on);
}

#[test]
fn context_hands_out_both_forwarders() {
    let cfg = config();
    let mut sudo = SudoHelper::default();
    let ctx = StepContext::new(&cfg, "/root/dir", &mut sudo);
    let (out, err) = ctx.stream_command("tool");
    let (line, _) = out.forward(&Ok("x".to_string()));
    assert!(line.contains("[tool]") && !line.contains("[tool:"));
    let (line, _) = err.forward(&Ok("y".to_string()));
    assert!(line.contains("[tool:stderr]"));
}

#[test]
fn context_records_status_and_log_lines() {
    let cfg = config();
    let mut sudo = SudoHelper::default();
    let mut ctx = StepContext::new(&cfg, "/root/dir", &mut sudo);
    assert_eq!(ctx.root, "/root/dir");
    assert!(ctx.progress.message.is_empty());
    assert!(ctx.progress.lines.is_empty());
    ctx.status("working");
    assert_eq!(ctx.progress.message, "working");
    ctx.info("first");
    ctx.warn("second");
    ctx.error("third");
    ctx.log(StepLogLevel::Info, "fourth");
    ctx.status("done");
    assert_eq!(ctx.progress.message, "done");
    assert_eq!(ctx.progress.lines.len(), 4);
    let tags = ["[info]", "[warn]", "[error]", "[info]"];
    let messages = ["first", "second", "third", "fourth"];
    for i in 0..4 {
        let line = &ctx.progress.lines[i];
        assert!(line.starts_with("  "));
        assert!(line.contains(tags[i]));
        assert!(line.ends_with(&format!(" {}", messages[i])));
    }
}

#[test]
fn context_shares_the_ticket_manager_of_the_run() {
    let cfg = config();
    let mut sudo = SudoHelper::default();
    {
        let mut ctx = StepContext::new(&cfg, ".", &mut sudo);
        ctx.info("about to elevate");
        assert_eq!(ctx.sudo.ensure_ticket(7), SudoStep::Probe);
        assert_eq!(ctx.sudo.probe_finished(Some(true), 7), SudoStep::Execute);
    }
    assert_eq!(sudo.ensure_ticket(8), SudoStep::Execute);
}

#[test]
fn level_labels_carry_their_tags() {
    assert!(StepLogLevel::Info.label().contains("[info]"));
    assert!(StepLogLevel::Warn.label().contains("[warn]"));
    assert!(StepLogLevel::Error.label().contains("[error]"));
}
