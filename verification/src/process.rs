//! Command lines to run and what comes back from running them.

use vstd::prelude::*;

use crate::split;

verus! {

/// A program and the arguments to run it with.
#[derive(Clone, Debug)]
pub struct CommandLine {
    /// Path or name of the program.
    pub program: String,
    /// Arguments, in order.
    pub args: Vec<String>,
}

/// The mathematical value of a [`CommandLine`].
#[verifier::ext_equal]
pub struct CommandLineView {
    pub program: Seq<char>,
    pub args: Seq<Seq<char>>,
}

impl View for CommandLine {
    type V = CommandLineView;

    open spec fn view(&self) -> CommandLineView {
        CommandLineView { program: self.program@, args: split::views(self.args@) }
    }
}

/// What a finished process left behind.
#[derive(Clone, Debug)]
pub struct CommandOutput {
    /// Exit code, absent when a signal ended the process.
    pub exit_code: Option<i32>,
    /// Captured standard output.
    pub stdout: Vec<u8>,
    /// Captured standard error.
    pub stderr: Vec<u8>,
}

/// Why a process could not be started.
#[derive(Clone, Copy, Debug, PartialEq, Eq, Structural)]
pub enum SpawnFailureKind {
    /// The program does not exist.
    NotFound,
    /// Anything else.
    Other,
}

/// A process that could not be started.
#[derive(Clone, Debug)]
pub struct SpawnFailure {
    /// Reason, as far as it is told apart.
    pub kind: SpawnFailureKind,
    /// Message of the operating system.
    pub message: String,
}

/// The text that `String::from_utf8_lossy` makes of `bytes`.
pub uninterp spec fn utf8_lossy(bytes: Seq<u8>) -> Seq<char>;

/// The text that captured bytes stand for: what they encode if they are valid
/// UTF-8, else what a lossy decoding makes of them.
pub open spec fn decoded(bytes: Seq<u8>) -> Seq<char> {
    if vstd::utf8::valid_utf8(bytes) {
        vstd::utf8::decode_utf8(bytes)
    } else {
        utf8_lossy(bytes)
    }
}

/// Calls `String::from_utf8_lossy`.
///
/// Trusted: the text depends on the bytes alone, and valid UTF-8 is decoded
/// as it stands. Which replacement characters take the place of invalid bytes
/// is left unsaid.
#[verifier::external_body]
fn from_utf8_lossy(bytes: &Vec<u8>) -> (res: String)
    ensures
        res@ == utf8_lossy(bytes@),
        vstd::utf8::valid_utf8(bytes@) ==> res@ == vstd::utf8::decode_utf8(bytes@),
{
    String::from_utf8_lossy(bytes).into_owned()
}

/// The text that captured bytes stand for.
pub fn decode(bytes: &Vec<u8>) -> (res: String)
    ensures
        res@ == decoded(bytes@),
{
    from_utf8_lossy(bytes)
}

/// The bytes that encode a text are decoded to just this text, and bytes that
/// encode no text are decoded by what a lossy decoding makes of them.
pub proof fn law_encoded_text_is_decoded(text: Seq<char>, bytes: Seq<u8>)
    ensures
        decoded(vstd::utf8::encode_utf8(text)) == text,
        !vstd::utf8::valid_utf8(bytes) ==> decoded(bytes) == utf8_lossy(bytes),
{
    vstd::utf8::encode_utf8_valid_utf8(text);
    vstd::utf8::encode_utf8_decode_utf8(text);
}

/// The value of a command line is its program and its arguments, one by one.
pub proof fn law_command_line_value(line: CommandLine)
    ensures
        line@.program == line.program@,
        line@.args.len() == line.args@.len(),
        forall|i: int| 0 <= i < line.args@.len() ==> #[trigger] line@.args[i] == line.args@[i]@,
{
}

} // verus!
