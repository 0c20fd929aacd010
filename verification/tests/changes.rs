use perforce_cli::cmd::changes::Status;
use perforce_cli::cmd::{Changes, SubCommand};
use perforce_cli::command::CommandLine;
use perforce_cli::global::GlobalOpts;

fn args_of(command: &CommandLine) -> Vec<String> {
    command.get_args().to_vec()
}


#[test]
fn changes_without_options() {
    let changes = Changes::new("p4", GlobalOpts::default());
    let cmd = changes.setup_command("p4");
    assert_eq!(args_of(&cmd), vec!["changes"]);
}

#[test]
fn changes_with_files() {
    let changes = Changes::new("p4", GlobalOpts::default());
    let mut cmd = changes.setup_command("p4");
    cmd.arg("//depot/project/...");
    assert_eq!(args_of(&cmd), vec!["changes", "//depot/project/..."]);
}

#[test]
fn client() {
    let changes = Changes::new("p4", GlobalOpts::default()).client("eds_elm");
    let cmd = changes.setup_command("p4");
    assert_eq!(args_of(&cmd), vec!["changes", "-c", "eds_elm"]);
}

#[test]
fn multiple_clients() {
    let changes = Changes::new("p4", GlobalOpts::default())
        .client("eds_elm")
        .client("build_ws");
    let cmd = changes.setup_command("p4");
    assert_eq!(
        args_of(&cmd),
        vec!["changes", "-c", "eds_elm", "-c", "build_ws"]
    );
}

#[test]
fn min_change_list() {
    let changes = Changes::new("p4", GlobalOpts::default()).min_change_list("800");
    let cmd = changes.setup_command("p4");
    assert_eq!(args_of(&cmd), vec!["changes", "-e", "800"]);
}

#[test]
fn include_restricted() {
    let changes = Changes::new("p4", GlobalOpts::default()).include_restricted(true);
    let cmd = changes.setup_command("p4");
    assert_eq!(args_of(&cmd), vec!["changes", "-f"]);
}

#[test]
fn include_integrated() {
    let changes = Changes::new("p4", GlobalOpts::default()).include_integrated(true);
    let cmd = changes.setup_command("p4");
    assert_eq!(args_of(&cmd), vec!["changes", "-i"]);
}

#[test]
fn long_output_full() {
    let changes = Changes::new("p4", GlobalOpts::default()).long_output_full();
    let cmd = changes.setup_command("p4");
    assert_eq!(args_of(&cmd), vec!["changes", "-l"]);
}

#[test]
fn long_output_truncated() {
    let changes = Changes::new("p4", GlobalOpts::default()).long_output_truncated();
    let cmd = changes.setup_command("p4");
    assert_eq!(args_of(&cmd), vec!["changes", "-L"]);
}

#[test]
fn changes_limit() {
    let changes = Changes::new("p4", GlobalOpts::default()).limit(5);
    let cmd = changes.setup_command("p4");
    assert_eq!(args_of(&cmd), vec!["changes", "-m", "5"]);
}

#[test]
fn reverse_order() {
    let changes = Changes::new("p4", GlobalOpts::default()).reverse_order(true);
    let cmd = changes.setup_command("p4");
    assert_eq!(args_of(&cmd), vec!["changes", "-r"]);
}

#[test]
fn status_pending() {
    let changes = Changes::new("p4", GlobalOpts::default()).status(Status::Pending);
    let cmd = changes.setup_command("p4");
    assert_eq!(args_of(&cmd), vec!["changes", "-s", "pending"]);
}

#[test]
fn status_submitted() {
    let changes = Changes::new("p4", GlobalOpts::default()).status(Status::Submitted);
    let cmd = changes.setup_command("p4");
    assert_eq!(args_of(&cmd), vec!["changes", "-s", "submitted"]);
}

#[test]
fn status_shelved() {
    let changes = Changes::new("p4", GlobalOpts::default()).status(Status::Shelved);
    let cmd = changes.setup_command("p4");
    assert_eq!(args_of(&cmd), vec!["changes", "-s", "shelved"]);
}

#[test]
fn changes_include_time() {
    let changes = Changes::new("p4", GlobalOpts::default()).include_time(true);
    let cmd = changes.setup_command("p4");
    assert_eq!(args_of(&cmd), vec!["changes", "-t"]);
}

#[test]
fn user_name() {
    let changes = Changes::new("p4", GlobalOpts::default()).user_name("edk");
    let cmd = changes.setup_command("p4");
    assert_eq!(args_of(&cmd), vec!["changes", "-u", "edk"]);
}

#[test]
fn multiple_users() {
    let changes = Changes::new("p4", GlobalOpts::default())
        .user_name("maria")
        .user_name("edk");
    let cmd = changes.setup_command("p4");
    assert_eq!(args_of(&cmd), vec!["changes", "-u", "maria", "-u", "edk"]);
}

#[test]
fn user_me() {
    let changes = Changes::new("p4", GlobalOpts::default()).me();
    let cmd = changes.setup_command("p4");
    assert_eq!(args_of(&cmd), vec!["changes", "--me"]);
}

#[test]
fn multiple_users_with_me() {
    let changes = Changes::new("p4", GlobalOpts::default())
        .user_name("maria")
        .me();
    let cmd = changes.setup_command("p4");
    assert_eq!(args_of(&cmd), vec!["changes", "-u", "maria", "--me"]);
}

#[test]
fn client_case_insensitive() {
    let changes = Changes::new("p4", GlobalOpts::default())
        .client("eds_elm")
        .client_case_insensitive(true);
    let cmd = changes.setup_command("p4");
    assert_eq!(
        args_of(&cmd),
        vec!["changes", "-c", "eds_elm", "--client-case-insensitive"]
    );
}

#[test]
fn changes_stream_spec() {
    let changes = Changes::new("p4", GlobalOpts::default()).stream(Some(true));
    let cmd = changes.setup_command("p4");
    assert_eq!(args_of(&cmd), vec!["changes", "--stream"]);
}

#[test]
fn no_stream_spec() {
    let changes = Changes::new("p4", GlobalOpts::default()).stream(Some(false));
    let cmd = changes.setup_command("p4");
    assert_eq!(args_of(&cmd), vec!["changes", "--nostream"]);
}

#[test]
fn changes_all_options_order() {
    let changes = Changes::new("p4", GlobalOpts::default())
        .client("eds_elm")
        .include_restricted(true)
        .include_integrated(true)
        .long_output_full()
        .limit(5)
        .status(Status::Submitted)
        .include_time(true)
        .user_name("edk");
    let changes = changes.min_change_list("800");
    let changes = changes.reverse_order(true);
    let changes = changes.stream(Some(true));
    let cmd = changes.setup_command("p4");
    let mut expected = vec!["changes", "-c", "eds_elm"];
    expected.extend(["-e", "800"]);
    expected.extend(["-f", "-i", "-l", "-m", "5"]);
    expected.push("-r");
    expected.extend(["-s", "submitted", "-t", "-u", "edk"]);
    expected.push("--stream");
    assert_eq!(args_of(&cmd), expected);
}

#[test]
fn long_output_full_preserves_other_options() {
    let changes = Changes::new("p4", GlobalOpts::default())
        .include_restricted(true)
        .include_time(true)
        .long_output_full();
    let cmd = changes.setup_command("p4");
    assert_eq!(args_of(&cmd), vec!["changes", "-f", "-l", "-t"]);
}
