use perforce_cli::cmd::{Edit, SubCommand};
use perforce_cli::command::CommandLine;
use perforce_cli::global::GlobalOpts;

fn args_of(command: &CommandLine) -> Vec<String> {
    command.get_args().to_vec()
}


#[test]
fn edit_without_options() {
    let edit = Edit::new("p4", GlobalOpts::default());
    let mut cmd = edit.setup_command("p4");
    cmd.arg("//depot/file.txt");
    assert_eq!(args_of(&cmd), vec!["edit", "//depot/file.txt"]);
}

#[test]
fn change_list() {
    let edit = Edit::new("p4", GlobalOpts::default()).change_list("14");
    let mut cmd = edit.setup_command("p4");
    cmd.arg("//depot/file.txt");
    assert_eq!(args_of(&cmd), vec!["edit", "-c", "14", "//depot/file.txt"]);
}

#[test]
fn keep_workspace_and_preview() {
    let edit = Edit::new("p4", GlobalOpts::default())
        .keep_workspace(true)
        .preview(true);
    let mut cmd = edit.setup_command("p4");
    cmd.arg("//depot/file.txt");
    assert_eq!(args_of(&cmd), vec!["edit", "-k", "-n", "//depot/file.txt"]);
}

#[test]
fn remote_option_uses_equals_sign() {
    let edit = Edit::new("p4", GlobalOpts::default()).remote_server("origin");
    let mut cmd = edit.setup_command("p4");
    cmd.arg("//depot/file.txt");
    assert_eq!(
        args_of(&cmd),
        vec!["edit", "--remote=origin", "//depot/file.txt"]
    );
}

#[test]
fn filetype() {
    let edit = Edit::new("p4", GlobalOpts::default()).filetype("text+k");
    let mut cmd = edit.setup_command("p4");
    cmd.arg("//depot/file.txt");
    assert_eq!(
        args_of(&cmd),
        vec!["edit", "-t", "text+k", "//depot/file.txt"]
    );
}

#[test]
fn file_mode_transition_preserves_change_list() {
    let edit = Edit::new("p4", GlobalOpts::default())
        .change_list("14")
        .keep_workspace(true);
    let mut cmd = edit.setup_command("p4");
    cmd.arg("//depot/file.txt");
    assert_eq!(
        args_of(&cmd),
        vec!["edit", "-c", "14", "-k", "//depot/file.txt"]
    );
}

#[test]
fn file_mode_accessors() {
    let mut edit = Edit::new("p4", GlobalOpts::default()).keep_workspace(true);
    edit.set_remote_server("origin").set_preview(true);
    assert!(edit.get_keep_workspace());
    assert!(edit.get_preview());
    assert_eq!(edit.get_remote_server(), Some(&"origin".to_string()));
    assert_eq!(edit.get_filetype(), None);

    let mut cmd = edit.setup_command("p4");
    cmd.arg("//depot/file.txt");
    assert_eq!(
        args_of(&cmd),
        vec!["edit", "-k", "-n", "--remote=origin", "//depot/file.txt"]
    );
}

#[test]
fn edit_stream_spec() {
    let edit = Edit::new("p4", GlobalOpts::default()).edit_stream_spec();
    let cmd = edit.setup_command("p4");
    assert_eq!(args_of(&cmd), vec!["edit", "-So"]);
}

#[test]
fn stream_spec_with_change_list() {
    let edit = Edit::new("p4", GlobalOpts::default())
        .change_list("14")
        .edit_stream_spec();
    let cmd = edit.setup_command("p4");
    assert_eq!(args_of(&cmd), vec!["edit", "-c", "14", "-So"]);
}

#[test]
fn stream_spec_change_list_after_transition() {
    let edit = Edit::new("p4", GlobalOpts::default())
        .edit_stream_spec()
        .change_list("14");
    let cmd = edit.setup_command("p4");
    assert_eq!(args_of(&cmd), vec!["edit", "-c", "14", "-So"]);
}

#[test]
fn edit_all_options_order() {
    let edit = Edit::new("p4", GlobalOpts::default())
        .change_list("14")
        .keep_workspace(true)
        .preview(true)
        .remote_server("origin")
        .filetype("binary");
    let mut cmd = edit.setup_command("p4");
    cmd.arg("//depot/file.txt");
    assert_eq!(
        args_of(&cmd),
        vec![
            "edit",
            "-c",
            "14",
            "-k",
            "-n",
            "--remote=origin",
            "-t",
            "binary",
            "//depot/file.txt"
        ]
    );
}

#[test]
fn edit_set_style_with_global_opts() {
    let mut edit = Edit::new("p4", GlobalOpts::default());
    edit.set_change_list("14");
    let mut edit = edit.filetype("binary");
    edit.set_preview(true);
    let mut cmd = edit.setup_command("p4");
    cmd.arg("//depot/file.txt");
    assert_eq!(
        args_of(&cmd),
        vec!["edit", "-c", "14", "-n", "-t", "binary", "//depot/file.txt"]
    );
}
