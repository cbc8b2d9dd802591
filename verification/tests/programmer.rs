use cargo_flash::PipelineError;
use cargo_flash::ProcessOutcome;
use cargo_flash::flash_tool_args;
use cargo_flash::program_device_command;
use cargo_flash::program_device_proc;

#[test]
fn command_embeds_quoted_path() {
    let c = program_device_command("/tmp/fw.elf");
    assert_eq!(c, "program_device \"/tmp/fw.elf\"");
}

#[test]
fn command_embeds_empty_path() {
    let c = program_device_command("");
    assert_eq!(c, "program_device \"\"");
}

#[test]
fn procedure_holds_the_programming_steps() {
    let p = program_device_proc();
    assert!(p.contains("proc program_device {binary}"));
    assert!(p.contains("halt"));
    assert!(p.contains("flash write_image erase unlock $binary"));
    assert!(p.contains("reset run"));
    assert!(p.contains("sleep 10"));
    assert!(p.contains("shutdown"));
}

#[test]
fn flash_args_in_fixed_order() {
    let args = flash_tool_args("/tmp/fw.elf");
    assert_eq!(args.len(), 6);
    assert_eq!(args[0], "-fopenocd.cfg");
    assert_eq!(args[1], "-cinit");
    assert_eq!(args[2], "-c");
    assert_eq!(args[3], program_device_proc());
    assert_eq!(args[4], "-c");
    assert_eq!(args[5], "program_device \"/tmp/fw.elf\"");
}

#[test]
fn flash_args_embed_the_literal_path() {
    let path = "/some dir/with spaces/fw.elf";
    let args = flash_tool_args(path);
    assert!(args[5].contains(path));
}

#[test]
fn zero_exit_classifies_as_success() {
    assert!(ProcessOutcome::Success.classify().is_ok());
}

#[test]
fn nonzero_exit_classifies_as_subprocess_failure() {
    let r = ProcessOutcome::Failure(1).classify();
    assert!(matches!(r, Err(PipelineError::SubprocessFailed(1))));
}

#[test]
fn signal_termination_carries_the_sentinel() {
    let r = ProcessOutcome::Failure(-1).classify();
    assert!(matches!(r, Err(PipelineError::SubprocessFailed(-1))));
}
