use perforce_cli::cmd::{FileLog, SubCommand};
use perforce_cli::command::CommandLine;
use perforce_cli::global::GlobalOpts;

fn args_of(command: &CommandLine) -> Vec<String> {
    command.get_args().to_vec()
}


#[test]
fn filelog_with_files() {
    let filelog = FileLog::new("p4", GlobalOpts::default());
    let mut cmd = filelog.setup_command("p4");
    cmd.arg("//depot/project/...");
    assert_eq!(args_of(&cmd), vec!["filelog", "//depot/project/..."]);
}

#[test]
fn changelist() {
    let filelog = FileLog::new("p4", GlobalOpts::default()).changelist("100");
    let cmd = filelog.setup_command("p4");
    assert_eq!(args_of(&cmd), vec!["filelog", "-c", "100"]);
}

#[test]
fn content_history() {
    let filelog = FileLog::new("p4", GlobalOpts::default()).content_history();
    let cmd = filelog.setup_command("p4");
    assert_eq!(args_of(&cmd), vec!["filelog", "-h"]);
}

#[test]
fn follow_branches() {
    let filelog = FileLog::new("p4", GlobalOpts::default()).follow_branches(true);
    let cmd = filelog.setup_command("p4");
    assert_eq!(args_of(&cmd), vec!["filelog", "-i"]);
}

#[test]
fn full_description() {
    let filelog = FileLog::new("p4", GlobalOpts::default()).full_description();
    let cmd = filelog.setup_command("p4");
    assert_eq!(args_of(&cmd), vec!["filelog", "-l"]);
}

#[test]
fn truncated_description() {
    let filelog = FileLog::new("p4", GlobalOpts::default()).truncated_description();
    let cmd = filelog.setup_command("p4");
    assert_eq!(args_of(&cmd), vec!["filelog", "-L"]);
}

#[test]
fn filelog_limit() {
    let filelog = FileLog::new("p4", GlobalOpts::default()).limit(5);
    let cmd = filelog.setup_command("p4");
    assert_eq!(args_of(&cmd), vec!["filelog", "-m", "5"]);
}

#[test]
fn skip_promoted_tasks() {
    let filelog = FileLog::new("p4", GlobalOpts::default())
        .content_history()
        .skip_promoted_tasks(true);
    let cmd = filelog.setup_command("p4");
    assert_eq!(args_of(&cmd), vec!["filelog", "-h", "-p"]);
}

#[test]
fn skip_promoted_tasks_accessors() {
    let mut filelog = FileLog::new("p4", GlobalOpts::default())
        .full_description()
        .content_history();
    filelog.set_skip_promoted_tasks(true);

    assert!(filelog.get_skip_promoted_tasks());
    assert_eq!(
        args_of(&filelog.setup_command("p4")),
        ["filelog", "-h", "-p", "-l"]
    );
}

#[test]
fn ignore_non_contributory() {
    let filelog = FileLog::new("p4", GlobalOpts::default()).ignore_non_contributory(true);
    let cmd = filelog.setup_command("p4");
    assert_eq!(args_of(&cmd), vec!["filelog", "-s"]);
}

#[test]
fn filelog_include_time() {
    let filelog = FileLog::new("p4", GlobalOpts::default()).include_time(true);
    let cmd = filelog.setup_command("p4");
    assert_eq!(args_of(&cmd), vec!["filelog", "-t"]);
}

#[test]
fn filelog_all_options_order() {
    let filelog = FileLog::new("p4", GlobalOpts::default())
        .changelist("100")
        .content_history()
        .follow_branches(true)
        .full_description()
        .limit(5)
        .skip_promoted_tasks(true)
        .ignore_non_contributory(true)
        .include_time(true);
    let cmd = filelog.setup_command("p4");
    assert_eq!(
        args_of(&cmd),
        vec![
            "filelog", "-c", "100", "-h", "-p", "-i", "-l", "-m", "5", "-s", "-t",
        ]
    );
}
