//! What an operation's result looks like to the operator.

use crate::input::HandlerResult;
use crate::secrets::ZeroizedByteVec;
use vstd::prelude::*;
use vstd::string::StringSliceAdditionalSpecFns;
use vstd::utf8::*;

verus! {

/// What the operator is shown for `result`.
pub open spec fn result_text(result: HandlerResult) -> Seq<char> {
    match result {
        HandlerResult::Initialize => "Store initialized."@,
        HandlerResult::Insert(_) => "Secret saved."@,
        HandlerResult::Retrieve(value) => value@,
    }
}

/// The bytes on their way to the terminal. A secret may be among them, so the
/// storage is scrubbed when the value is released.
pub struct TerminalOutput {
    writer: ZeroizedByteVec,
}

impl View for TerminalOutput {
    type V = Seq<u8>;

    closed spec fn view(&self) -> Seq<u8> {
        self.writer@
    }
}

impl TerminalOutput {
    /// An output that goes on after what `writer` holds.
    pub fn new(writer: Vec<u8>) -> (r: Self)
        ensures
            r@ == writer@,
    {
        Self { writer: ZeroizedByteVec::new(writer) }
    }

    /// Adds `message`, as UTF-8, to what was written.
    pub fn write(&mut self, message: &str)
        ensures
            final(self)@ == old(self)@ + encode_utf8(message@),
    {
        self.writer.extend_from_slice(message.as_bytes());
    }

    /// All that was written, in order.
    pub fn as_bytes(&self) -> (r: &[u8])
        ensures
            r@ == self@,
    {
        self.writer.as_bytes()
    }
}

/// Writes to `output` what the operator is shown for `result`.
pub fn write_result(result: HandlerResult, output: &mut TerminalOutput)
    ensures
        final(output)@ == old(output)@ + encode_utf8(result_text(result)),
{
    match result {
        HandlerResult::Initialize => output.write("Store initialized."),
        HandlerResult::Insert(_) => output.write("Secret saved."),
        HandlerResult::Retrieve(value) => output.write(value.as_str()),
    }
}

} // verus!
