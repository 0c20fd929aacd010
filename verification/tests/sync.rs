use perforce_cli::cmd::sync::{ParallelConfig, StreamSpecVersion};
use perforce_cli::cmd::{Sync, SubCommand};
use perforce_cli::command::CommandLine;
use perforce_cli::global::GlobalOpts;

fn args_of(command: &CommandLine) -> Vec<String> {
    command.get_args().to_vec()
}


#[test]
fn sync_without_options() {
    let sync = Sync::new("p4", GlobalOpts::new());

    assert_eq!(args_of(&sync.setup_command("p4")), ["sync"]);
}

#[test]
fn sync_time_mode() {
    let sync = Sync::new("p4", GlobalOpts::new()).sync_time("2024/01/01");

    assert_eq!(
        args_of(&sync.setup_command("p4")),
        ["sync", "-k", "--sync-time=2024/01/01"]
    );
}

#[test]
fn sync_time_mode_epoch() {
    let sync = Sync::new("p4", GlobalOpts::new()).sync_time("1700000000");

    assert_eq!(
        args_of(&sync.setup_command("p4")),
        ["sync", "-k", "--sync-time=1700000000"]
    );
}

#[test]
fn sync_time_set_style() {
    let mut sync = Sync::new("p4", GlobalOpts::new()).sync_time("2024/01/01");
    sync.set_sync_time("2024/06/01");

    assert_eq!(sync.get_sync_time(), "2024/06/01");
    assert_eq!(
        args_of(&sync.setup_command("p4")),
        ["sync", "-k", "--sync-time=2024/06/01"]
    );
}

#[test]
fn regular_mode_common_options() {
    let sync = Sync::new("p4", GlobalOpts::new())
        .script_list_mode(true)
        .quiet_mode(true)
        .limit(5);

    {
        let sync = sync.verify_edge_replication(true);
        assert_eq!(
            args_of(&sync.setup_command("p4")),
            ["sync", "-E", "-L", "-q", "-m", "5"]
        );
    }
}

#[test]
fn regular_mode_force_options() {
    let sync = Sync::new("p4", GlobalOpts::new())
        .force(true)
        .metadata_only(true);

    let sync = sync.reopen_moved_files(true);

    let expected = vec!["sync", "-f", "-k", "-r"];

    assert_eq!(args_of(&sync.setup_command("p4")), expected);
}

#[test]
fn regular_mode_combined() {
    let sync = Sync::new("p4", GlobalOpts::new())
        .quiet_mode(true)
        .force(true)
        .limit(10);

    assert_eq!(
        args_of(&sync.setup_command("p4")),
        ["sync", "-q", "-f", "-m", "10"]
    );
}

#[test]
fn regular_mode_preview_result() {
    let sync = Sync::new("p4", GlobalOpts::new()).preview_result();

    assert_eq!(args_of(&sync.setup_command("p4")), ["sync", "-n"]);
}

#[test]
fn regular_mode_preview_network_traffic() {
    let sync = Sync::new("p4", GlobalOpts::new()).preview_network_traffic();

    assert_eq!(args_of(&sync.setup_command("p4")), ["sync", "-N"]);
}

#[test]
fn regular_mode_preview_with_options() {
    let sync = Sync::new("p4", GlobalOpts::new())
        .quiet_mode(true)
        .preview_result()
        .limit(3);

    assert_eq!(
        args_of(&sync.setup_command("p4")),
        ["sync", "-q", "-n", "-m", "3"]
    );
}

#[test]
fn regular_mode_parallel() {
    let sync = Sync::new("p4", GlobalOpts::new()).parallel(ParallelConfig {
        threads: 4,
        batch_files: Some(8),
        batch_size_bytes: None,
        min_files: Some(9),
        min_size_bytes: None,
    });

    assert_eq!(
        args_of(&sync.setup_command("p4")),
        ["sync", "--parallel=threads=4,batch=8,min=9"]
    );
}

#[test]
fn regular_mode_stream_spec_auto() {
    let sync = Sync::new("p4", GlobalOpts::new())
        .stream_spec_version(StreamSpecVersion::MaxInFilelists);

    assert_eq!(
        args_of(&sync.setup_command("p4")),
        ["sync", "--use-stream-change"]
    );
}

#[test]
fn regular_mode_stream_spec_current() {
    let sync =
        Sync::new("p4", GlobalOpts::new()).stream_spec_version(StreamSpecVersion::Current);

    assert_eq!(
        args_of(&sync.setup_command("p4")),
        ["sync", "--use-stream-change=0"]
    );
}

#[test]
fn regular_mode_stream_spec_specific() {
    let sync = Sync::new("p4", GlobalOpts::new())
        .stream_spec_version(StreamSpecVersion::ChangeNumber(123));

    assert_eq!(
        args_of(&sync.setup_command("p4")),
        ["sync", "--use-stream-change=123"]
    );
}

#[test]
fn safe_check_mode() {
    let sync = Sync::new("p4", GlobalOpts::new()).enable_safe_check();

    assert_eq!(args_of(&sync.setup_command("p4")), ["sync", "-s"]);
}

#[test]
fn safe_check_mode_with_options() {
    let sync = Sync::new("p4", GlobalOpts::new())
        .enable_safe_check()
        .quiet_mode(true)
        .limit(5);

    assert_eq!(
        args_of(&sync.setup_command("p4")),
        ["sync", "-q", "-s", "-m", "5"]
    );
}

#[test]
fn populate_mode() {
    let sync = Sync::new("p4", GlobalOpts::new()).populate_client_workspace();

    assert_eq!(args_of(&sync.setup_command("p4")), ["sync", "-p"]);
}

#[test]
fn populate_mode_with_options() {
    let sync = Sync::new("p4", GlobalOpts::new())
        .populate_client_workspace()
        .quiet_mode(true)
        .limit(5);

    assert_eq!(
        args_of(&sync.setup_command("p4")),
        ["sync", "-q", "-p", "-m", "5"]
    );
}

#[test]
fn transition_to_safe_check_from_regular() {
    let sync = Sync::new("p4", GlobalOpts::new())
        .quiet_mode(true)
        .limit(5)
        .safe_check();

    assert_eq!(
        args_of(&sync.setup_command("p4")),
        ["sync", "-q", "-s", "-m", "5"]
    );
}

#[test]
fn transition_to_populate_from_regular() {
    let sync = Sync::new("p4", GlobalOpts::new())
        .quiet_mode(true)
        .limit(5)
        .populate();

    assert_eq!(
        args_of(&sync.setup_command("p4")),
        ["sync", "-q", "-p", "-m", "5"]
    );
}

#[test]
fn transition_preserves_preview() {
    let sync = Sync::new("p4", GlobalOpts::new())
        .preview_result()
        .quiet_mode(true)
        .safe_check();

    assert_eq!(
        args_of(&sync.setup_command("p4")),
        ["sync", "-q", "-s", "-n"]
    );
}

#[test]
fn force_mode_blocks_safe_check() {
    // Once in ForceRegularMode, safe_check/populate are unavailable at
    // compile time. This test just exercises force mode injection.
    let sync = Sync::new("p4", GlobalOpts::new())
        .force(true)
        .quiet_mode(true);

    assert_eq!(args_of(&sync.setup_command("p4")), ["sync", "-q", "-f"]);
}

#[test]
fn all_regular_options_order() {
    let sync = Sync::new("p4", GlobalOpts::new())
        .script_list_mode(true)
        .quiet_mode(true)
        .force(true)
        .metadata_only(true)
        .limit(5)
        .parallel(ParallelConfig {
            threads: 2,
            batch_files: None,
            batch_size_bytes: None,
            min_files: None,
            min_size_bytes: None,
        });

    let sync = sync.verify_edge_replication(true);
    let sync = sync.suppress_keyword_expansion(true);
    let sync = sync.reopen_moved_files(true);
    let sync = sync.stream_spec_version(StreamSpecVersion::Current);

    let mut expected: Vec<&str> = vec!["sync", "-L", "-q", "-f", "-k"];
    expected.insert(1, "-E");
    {
        let k = expected.iter().position(|&a| a == "-L").unwrap() + 1;
        expected.insert(k, "-K");
    }
    expected.push("-r");
    expected.extend(["-m", "5", "--parallel=threads=2"]);
    expected.push("--use-stream-change=0");

    assert_eq!(args_of(&sync.setup_command("p4")), expected);
}
