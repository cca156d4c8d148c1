use rootfs_pipeline::tool::{copy_texts, push_text, spaced_string, ToolCall};

fn texts(words: &[&str]) -> Vec<String> {
    words.iter().map(|w| w.to_string()).collect()
}

#[test]
fn new_call_is_bare() {
    let call = ToolCall::new("gcc");
    assert_eq!(call.program, "gcc");
    assert!(call.args.is_empty());
    assert!(call.envs.is_empty());
    assert_eq!(call.dir, None);
}

#[test]
fn builders_add_in_order() {
    let call = ToolCall::new("make")
        .arg("-j")
        .env("ARCH", "riscv64")
        .arg("all")
        .env("CROSS_COMPILE", "riscv64-linux-musl-")
        .current_dir("a")
        .current_dir("b");
    assert_eq!(call.program, "make");
    assert_eq!(call.args, texts(&["-j", "all"]));
    assert_eq!(
        call.envs,
        vec![
            ("ARCH".to_string(), "riscv64".to_string()),
            ("CROSS_COMPILE".to_string(), "riscv64-linux-musl-".to_string()),
        ]
    );
    assert_eq!(call.dir, Some("b".to_string()));
}

#[test]
fn make_without_a_count_runs_unbounded() {
    let call = ToolCall::make(None);
    assert_eq!(call.program, "make");
    assert_eq!(call.args, texts(&["-j"]));
    assert!(call.envs.is_empty());
    assert_eq!(call.dir, None);
}

#[test]
fn make_with_zero_has_no_flag() {
    let call = ToolCall::make(Some(0));
    assert_eq!(call.program, "make");
    assert!(call.args.is_empty());
}

#[test]
fn make_with_a_count_names_it() {
    assert_eq!(ToolCall::make(Some(1)).args, texts(&["-j1"]));
    assert_eq!(ToolCall::make(Some(8)).args, texts(&["-j8"]));
    assert_eq!(ToolCall::make(Some(128)).args, texts(&["-j128"]));
}

#[test]
fn tar_xf_with_and_without_destination() {
    let into = ToolCall::tar_xf("a.tar.xz", Some("out"));
    assert_eq!(into.program, "tar");
    assert_eq!(into.args, texts(&["xf", "a.tar.xz", "-C", "out"]));
    let here = ToolCall::tar_xf("a.tar.xz", None);
    assert_eq!(here.program, "tar");
    assert_eq!(here.args, texts(&["xf", "a.tar.xz"]));
}

#[test]
fn command_line_is_program_and_arguments() {
    let call = ToolCall::new("ln").arg("-s").arg("busybox").arg("riscv_rootfs/bin/ls");
    assert_eq!(call.command_line(), "ln -s busybox riscv_rootfs/bin/ls");
    assert_eq!(ToolCall::new("make").command_line(), "make");
    assert_eq!(spaced_string("a", &texts(&["b", "", "c"])), "a b  c");
}

#[test]
fn duplicate_is_equal() {
    let call = ToolCall::make(Some(3)).env("PATH", "/bin").env("A", "b").current_dir("x");
    assert_eq!(call.duplicate(), call);
    let bare = ToolCall::new("true");
    assert_eq!(bare.duplicate(), bare);
}

#[test]
fn text_lists_are_copied_and_extended() {
    let mut list = texts(&["a", "b"]);
    let copy = copy_texts(&list);
    assert_eq!(copy, list);
    push_text(&mut list, "c".to_string());
    assert_eq!(list, texts(&["a", "b", "c"]));
    assert_eq!(copy, texts(&["a", "b"]));
}
