use vstd::prelude::*;
use vstd::string::StringExecFns;
use crate::envelope::{
    decoded_info, decoded_request, decoded_response, encoded_info, encoded_response, DecodeError,
    InfoView, PluginInfo, PluginRequest, PluginResponse, RequestView, ResponseView,
};
use crate::guest::{serve_execute, serve_init, ResultSlot};
use crate::text::{push_char, to_uppercase, uppercase_of};

verus! {

/// The commands the fixture understands, and one variant for every other name.
#[derive(Debug, Clone, Copy, PartialEq, Eq, Structural)]
pub enum Command {
    Greet,
    Reverse,
    Uppercase,
    Unknown,
}

/// The command a name stands for.
pub open spec fn command_of(name: Seq<char>) -> Command {
    if name == "greet"@ {
        Command::Greet
    } else if name == "reverse"@ {
        Command::Reverse
    } else if name == "uppercase"@ {
        Command::Uppercase
    } else {
        Command::Unknown
    }
}

/// Whether `name` is one of the three commands the fixture carries out.
pub open spec fn is_known_command(name: Seq<char>) -> bool {
    name == "greet"@ || name == "reverse"@ || name == "uppercase"@
}

/// The descriptor the fixture reports.
pub open spec fn fixture_info() -> InfoView {
    InfoView { name: "Example Plugin"@, version: "1.0.0"@, author: "Suspect"@ }
}

/// The answer the fixture owes to a request.
pub open spec fn fixture_response(request: RequestView) -> ResponseView {
    match command_of(request.command) {
        Command::Greet => ResponseView {
            success: true,
            data: "Hello, "@ + request.data + "!"@,
        },
        Command::Reverse => ResponseView { success: true, data: request.data.reverse() },
        Command::Uppercase => ResponseView { success: true, data: uppercase_of(request.data) },
        Command::Unknown => ResponseView {
            success: false,
            data: "Unknown Command: "@ + request.command,
        },
    }
}

/// Reads a command name.
pub fn parse_command(name: &str) -> (command: Command)
    ensures
        command == command_of(name@),
        command != Command::Unknown <==> is_known_command(name@),
{
    if name.eq("greet") {
        Command::Greet
    } else if name.eq("reverse") {
        Command::Reverse
    } else if name.eq("uppercase") {
        Command::Uppercase
    } else {
        Command::Unknown
    }
}

/// The characters of `text`, last one first.
pub fn reversed(text: &str) -> (out: String)
    ensures
        out@ == text@.reverse(),
{
    let mut chars: Vec<char> = Vec::new();
    for c in it: text.chars()
        invariant
            it.seq() == text@,
            chars@ == it.history(),
    {
        chars.push(c);
    }
    let mut out = String::new();
    let mut left: usize = chars.len();
    while left > 0
        invariant
            left <= chars.len(),
            chars@ == text@,
            out@ == text@.reverse().take(chars.len() - left),
        decreases left,
    {
        left = left - 1;
        push_char(&mut out, chars[left]);
    }
    out
}

/// The fixture's descriptor.
pub fn init() -> (info: PluginInfo)
    ensures
        info@ == fixture_info(),
{
    PluginInfo {
        name: String::from_str("Example Plugin"),
        version: String::from_str("1.0.0"),
        author: String::from_str("Suspect"),
    }
}

/// Carries out one request: a greeting, a reversal or an upper-casing of the
/// data, and a failure that names the command for every other command.
pub fn execute(request: PluginRequest) -> (response: PluginResponse)
    ensures
        response@ == fixture_response(request@),
        response.success <==> is_known_command(request.command@),
{
    match parse_command(request.command.as_str()) {
        Command::Greet => {
            let mut message = String::from_str("Hello, ");
            message.append(request.data.as_str());
            message.append("!");
            PluginResponse::succeeded(message)
        },
        Command::Reverse => PluginResponse::succeeded(reversed(request.data.as_str())),
        Command::Uppercase => PluginResponse::succeeded(to_uppercase(request.data.as_str())),
        Command::Unknown => {
            let mut message = String::from_str("Unknown Command: ");
            message.append(request.command.as_str());
            PluginResponse::failed(message)
        },
    }
}

/// The fixture's `init` entry point: produces the envelope of the fixture's
/// descriptor and sets the slot to its length.
pub fn plugin_init(slot: &mut ResultSlot) -> (envelope: Vec<u8>)
    ensures
        envelope@ == encoded_info(fixture_info()),
        decoded_info(envelope@) == Ok::<InfoView, DecodeError>(fixture_info()),
        *final(slot) == old(slot).after(envelope@),
        final(slot).length() == envelope@.len(),
{
    let info = init();
    serve_init(slot, &info)
}

/// The fixture's `execute` entry point. On the envelope of a request it
/// produces the envelope of the answer the fixture owes to that request, and
/// sets the slot to its length; on all other bytes it gives the decode error
/// and leaves the slot as it was.
pub fn plugin_execute(slot: &mut ResultSlot, bytes: &[u8]) -> (served: Result<
    Vec<u8>,
    DecodeError,
>)
    ensures
        served matches Ok(envelope) ==> decoded_request(bytes@) matches Ok(request) && envelope@
            == encoded_response(fixture_response(request)) && decoded_response(envelope@) == Ok::<
            ResponseView,
            DecodeError,
        >(fixture_response(request)),
        served matches Ok(envelope) ==> *final(slot) == old(slot).after(envelope@),
        served matches Ok(envelope) ==> final(slot).length() == envelope@.len(),
        served matches Err(error) ==> decoded_request(bytes@) == Err::<RequestView, DecodeError>(
            error,
        ),
        served is Err ==> *final(slot) == *old(slot),
{
    serve_execute(slot, bytes, execute)
}

/// A request succeeds exactly when its command is one the fixture knows.
pub proof fn lemma_success_iff_known(request: RequestView)
    ensures
        fixture_response(request).success <==> is_known_command(request.command),
{
}

} // verus!
