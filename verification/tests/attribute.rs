use std::path::Path;

use perforce_cli::cmd::{Attribute, SubCommand};
use perforce_cli::command::CommandLine;
use perforce_cli::global::GlobalOpts;

fn args_of(command: &CommandLine) -> Vec<String> {
    command.get_args().to_vec()
}


/// Dry-run checks of the assembled `p4 attribute` command line; no
/// process is spawned.
#[test]
fn attribute_without_options() {
    let attr = Attribute::new("p4", GlobalOpts::new());

    assert_eq!(args_of(&attr.setup_command("p4")), ["attribute"]);
}

#[test]
fn set_attribute_with_value() {
    let mut attr = Attribute::new("p4", GlobalOpts::new());
    attr.set("status", "approved");

    assert_eq!(
        args_of(&attr.setup_command("p4")),
        ["attribute", "-n", "status", "-v", "approved"]
    );
}

#[test]
fn clear_attribute_omits_value() {
    let mut attr = Attribute::new("p4", GlobalOpts::new());
    attr.clear("status");

    assert_eq!(
        args_of(&attr.setup_command("p4")),
        ["attribute", "-n", "status"]
    );
}

#[test]
fn multiple_set_and_clear_pairs_keep_order() {
    let mut attr = Attribute::new("p4", GlobalOpts::new());
    attr.set("color", "red")
        .clear("status")
        .set("owner", "alice");

    assert_eq!(
        args_of(&attr.setup_command("p4")),
        [
            "attribute",
            "-n",
            "color",
            "-v",
            "red",
            "-n",
            "status",
            "-n",
            "owner",
            "-v",
            "alice"
        ]
    );
}

#[test]
fn hex_submitted_propagating() {
    let mut attr = Attribute::new("p4", GlobalOpts::new());
    attr.set_hex(true)
        .set_on_submitted_files(true)
        .set_propagating(true)
        .set("thumb", "deadbeef");

    assert_eq!(
        args_of(&attr.setup_command("p4")),
        [
            "attribute",
            "-f",
            "-p",
            "-e",
            "-n",
            "thumb",
            "-v",
            "deadbeef"
        ]
    );
}

#[test]
fn read_from_stdin_state() {
    let attr = Attribute::new("p4", GlobalOpts::new()).read_from_stdin("thumb".to_string());

    assert_eq!(attr.get_name(), "thumb");
    assert_eq!(
        args_of(&attr.setup_command("p4")),
        ["attribute", "-i", "-n", "thumb"]
    );
}

#[test]
fn stdin_name_can_be_replaced() {
    let mut attr = Attribute::new("p4", GlobalOpts::new()).read_from_stdin("old".to_string());
    attr.set_name("thumb");

    assert_eq!(attr.get_name(), "thumb");

    let attr = attr.name("icon");
    assert_eq!(attr.get_name(), "icon");
    assert_eq!(
        args_of(&attr.setup_command("p4")),
        ["attribute", "-i", "-n", "icon"]
    );
}

#[test]
fn stdin_preserves_flags_and_hex() {
    let mut attr = Attribute::new("p4", GlobalOpts::new());
    attr.set_hex(true)
        .set_on_submitted_files(true)
        .set_propagating(true)
        .set("discarded", "value");

    let attr = attr.read_from_stdin("thumb".to_string());

    assert!(attr.get_hex());
    assert_eq!(
        args_of(&attr.setup_command("p4")),
        ["attribute", "-f", "-p", "-e", "-i", "-n", "thumb"]
    );
}

#[test]
fn store_in_database_traits() {
    let mut attr = Attribute::new("p4", GlobalOpts::new());
    attr.set("thumb", "data");

    let attr = attr.store_in_database_traits();

    assert_eq!(
        args_of(&attr.setup_command("p4")),
        ["attribute", "-T0", "-n", "thumb", "-v", "data"]
    );
}

#[test]
fn store_in_trait_depot() {
    let mut attr = Attribute::new("p4", GlobalOpts::new());
    attr.set("thumb", "data");

    let attr = attr.store_in_trait_depot();

    assert_eq!(
        args_of(&attr.setup_command("p4")),
        ["attribute", "-T1", "-n", "thumb", "-v", "data"]
    );
}

#[test]
fn stdin_with_trait_depot() {
    let attr = Attribute::new("p4", GlobalOpts::new())
        .read_from_stdin("thumb".to_string())
        .store_in_trait_depot();

    assert_eq!(
        args_of(&attr.setup_command("p4")),
        ["attribute", "-T1", "-i", "-n", "thumb"]
    );
}

#[test]
fn read_from_file_state() {
    let attr = Attribute::new("p4", GlobalOpts::new())
        .read_from_file("thumb".to_string(), "/tmp/thumb.bin");

    assert_eq!(attr.get_name(), "thumb");
    assert_eq!(Path::new(attr.get_file()), Path::new("/tmp/thumb.bin"));
    assert_eq!(
        args_of(&attr.setup_command("p4")),
        ["attribute", "-I", "/tmp/thumb.bin", "-n", "thumb"]
    );
}

#[test]
fn all_modern_options() {
    let mut attr = Attribute::new("p4", GlobalOpts::new());
    attr.set_on_submitted_files(true).set_propagating(true);

    let attr = attr
        .store_in_trait_depot()
        .read_from_file("thumb".to_string(), "/tmp/data.bin");

    assert_eq!(
        args_of(&attr.setup_command("p4")),
        [
            "attribute",
            "-f",
            "-p",
            "-T1",
            "-I",
            "/tmp/data.bin",
            "-n",
            "thumb"
        ]
    );
}

#[test]
fn attribute_set_style_with_global_opts() {
    let mut attr = Attribute::new("p4", GlobalOpts::new().port("localhost:1666"));
    attr.set("status", "approved");

    assert_eq!(
        args_of(&attr.setup_command("p4")),
        [
            "-p",
            "localhost:1666",
            "attribute",
            "-n",
            "status",
            "-v",
            "approved"
        ]
    );
}
