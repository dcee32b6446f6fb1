//! Running an external program: how its command line is shown and how its
//! outcome is judged. Spawning and waiting are done by the runtime.

use vstd::prelude::*;
use vstd::string::*;
use vstd::utf8::{decode_utf8, valid_utf8};

use crate::convert::views;

verus! {

/// Name for what `shlex::join` returns: the words quoted for a POSIX shell
/// where needed, separated by single spaces.
pub uninterp spec fn shell_join_of(words: Seq<Seq<char>>) -> Seq<char>;

/// Relies on `shlex::join`, whose result depends on the words alone and which
/// accepts every word.
#[verifier::external_body]
#[allow(deprecated)]
fn shell_join(words: &Vec<String>) -> (r: String)
    ensures
        r@ == shell_join_of(views(words@)),
{
    shlex::join(words.iter().map(|w| w.as_str()))
}

/// Relies on `String::from_utf8`, which accepts exactly the valid UTF-8 byte
/// strings and decodes them; otherwise it hands the bytes back.
#[verifier::external_body]
fn string_from_utf8(bytes: Vec<u8>) -> (r: Result<String, Vec<u8>>)
    ensures
        r is Ok <==> valid_utf8(bytes@),
        r matches Ok(s) ==> s@ == decode_utf8(bytes@),
        r matches Err(b) ==> b@ == bytes@,
{
    String::from_utf8(bytes).map_err(|e| e.into_bytes())
}

/// The command line as shown in logs and errors: the program, then its
/// arguments quoted for a shell.
pub fn display_command(program: &str, args: &Vec<String>) -> (r: String)
    ensures
        r@ == program@ + " "@ + shell_join_of(views(args@)),
{
    let mut r = String::from_str(program);
    r.append(" ");
    r.append(shell_join(args).as_str());
    r
}

/// A program's output as text, when it is valid UTF-8; the bytes otherwise.
pub fn output_text(bytes: Vec<u8>) -> (r: Result<String, Vec<u8>>)
    ensures
        r is Ok <==> valid_utf8(bytes@),
        r matches Ok(s) ==> s@ == decode_utf8(bytes@),
        r matches Err(b) ==> b@ == bytes@,
{
    string_from_utf8(bytes)
}

/// The error reported when a program exits unsuccessfully.
pub open spec fn failure_message_of(
    program: Seq<char>,
    status: Seq<char>,
    command: Seq<char>,
    stderr: Seq<char>,
) -> Seq<char> {
    program + " invocation failed with status "@ + status + ". Command:\n"@ + command + "\nStderr:\n"@
        + stderr
}

/// The outcome of a finished program: success when it exited successfully,
/// otherwise an error naming the program, its exit status, its command line
/// and what it wrote to stderr.
pub fn check_exit(success: bool, program: &str, status: &str, command: &str, stderr: &str) -> (r: Result<
    (),
    String,
>)
    ensures
        r is Ok <==> success,
        r matches Err(m) ==> m@ == failure_message_of(program@, status@, command@, stderr@),
{
    if success {
        return Ok(());
    }
    let mut m = String::from_str(program);
    m.append(" invocation failed with status ");
    m.append(status);
    m.append(". Command:\n");
    m.append(command);
    m.append("\nStderr:\n");
    m.append(stderr);
    Err(m)
}

} // verus!
