//! The device programmer's scripted command sequence: a fixed programming
//! procedure, parameterized only by the artifact's filesystem path, and the
//! argument list that hands it to the external flashing tool.

use vstd::prelude::*;
use vstd::string::StringExecFns;

verus! {

/// The text of the fixed device-programming procedure.
pub open spec fn program_device_proc_text() -> Seq<char> {
    "
proc program_device {binary} {
    # halt the processor
    halt

    # write file to flash memory
    poll
    flash probe 0
    flash write_image erase unlock $binary

    # start execution of the program
    reset run
    sleep 10

    # exit ocd
    shutdown
}
"@
}

/// The fixed device-programming procedure handed to the flashing tool: halt
/// the target, probe the flash controller, erase, unlock and write the image
/// file, reset the target into running execution, sleep while it settles,
/// then shut the debug session down. Its one parameter is the image path.
pub fn program_device_proc() -> (r: &'static str)
    ensures
        r@ == program_device_proc_text(),
{
    "
proc program_device {binary} {
    # halt the processor
    halt

    # write file to flash memory
    poll
    flash probe 0
    flash write_image erase unlock $binary

    # start execution of the program
    reset run
    sleep 10

    # exit ocd
    shutdown
}
"
}

/// The command that calls the programming procedure on one image path,
/// embedded as a quoted string argument. Paths containing the quote character
/// are out of scope.
pub open spec fn program_device_command_text(path: Seq<char>) -> Seq<char> {
    "program_device \""@ + path + "\""@
}

/// Builds the procedure call for one image path: the path stands between the
/// fixed prefix and the closing quote, unmodified.
pub fn program_device_command(binary_path: &str) -> (r: String)
    ensures
        r@ == program_device_command_text(binary_path@),
{
    let mut s = String::from_str("program_device \"");
    s.append(binary_path);
    s.append("\"");
    s
}

/// The procedure call embeds the literal image path unmodified: the
/// characters after the 16-character prefix and before the closing quote are
/// exactly the path.
pub proof fn lemma_command_embeds_path(path: Seq<char>)
    ensures
        program_device_command_text(path).len() == 17 + path.len(),
        program_device_command_text(path).subrange(16, 16 + path.len() as int) == path,
{
    reveal_strlit("program_device \"");
    reveal_strlit("\"");
    assert(program_device_command_text(path).subrange(16, 16 + path.len() as int) =~= path);
}

/// The argument list handed to the flashing tool: the fixed local
/// configuration file reference, the initialization directive, the fixed
/// programming procedure as an inline command, and the call of that procedure
/// on the image path.
pub open spec fn flash_tool_args_model(path: Seq<char>) -> Seq<Seq<char>> {
    seq![
        "-fopenocd.cfg"@,
        "-cinit"@,
        "-c"@,
        program_device_proc_text(),
        "-c"@,
        program_device_command_text(path),
    ]
}

/// Builds the flashing tool's argument list for one image path.
pub fn flash_tool_args(binary_path: &str) -> (r: Vec<String>)
    ensures
        r.deep_view() == flash_tool_args_model(binary_path@),
{
    let mut v: Vec<String> = Vec::new();
    v.push(String::from_str("-fopenocd.cfg"));
    v.push(String::from_str("-cinit"));
    v.push(String::from_str("-c"));
    v.push(String::from_str(program_device_proc()));
    v.push(String::from_str("-c"));
    v.push(program_device_command(binary_path));
    proof {
        assert(v.deep_view() =~= flash_tool_args_model(binary_path@));
    }
    v
}

} // verus!
