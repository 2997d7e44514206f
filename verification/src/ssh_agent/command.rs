//! What the agent was started for.

use crate::ids::{is_nonce, random_nonce};
use crate::text::{joined, same_text};
use vstd::prelude::*;

verus! {

/// What the agent is to do.
#[derive(Debug)]
pub enum AgentCommand {
    /// Print the version.
    Version,
    /// Print the version and the state of the directories.
    Status,
    /// Print the status, and whether this target works.
    Doctor,
    /// Serve the bridge protocol on standard input and output.
    Bridge { nonce: String },
}

/// The index of the first of `options` that reads `name`.
pub open spec fn first_option(options: Seq<String>, name: Seq<char>) -> Option<int>
    decreases options.len(),
{
    if options.len() == 0 {
        None
    } else if options[0]@ == name {
        Some(0)
    } else {
        match first_option(options.drop_first(), name) {
            Some(i) => Some(i + 1),
            None => None,
        }
    }
}

/// The protocol that `options` name: what follows the first `--protocol`.
pub open spec fn named_protocol(options: Seq<String>) -> Option<Seq<char>> {
    match first_option(options, "--protocol"@) {
        Some(i) => if i + 1 < options.len() {
            Some(options[i + 1]@)
        } else {
            None
        },
        None => None,
    }
}

/// What is wrong with the options of the bridge, if anything.
pub open spec fn bridge_refusal(options: Seq<String>) -> Option<Seq<char>> {
    if first_option(options, "--stdio"@) is None {
        Some("bridge_stdio_required"@)
    } else {
        match named_protocol(options) {
            None => Some("bridge_protocol_required"@),
            Some(protocol) => if protocol == "1"@ {
                None
            } else {
                Some("bridge_protocol_incompatible"@)
            },
        }
    }
}

/// The command word of `args`.
pub open spec fn command_word(args: Seq<String>) -> Seq<char> {
    if args.len() == 0 {
        "version"@
    } else {
        args[0]@
    }
}

fn find_option(options: &[String], name: &str) -> (r: Option<usize>)
    ensures
        r is Some <==> first_option(options@, name@) is Some,
        r matches Some(i) ==> first_option(options@, name@) == Some(i as int) && i < options@.len(),
{
    let mut i: usize = 0;
    assert(options@.skip(0) =~= options@);
    while i < options.len()
        invariant
            i <= options@.len(),
            first_option(options@, name@) == (match first_option(options@.skip(i as int), name@) {
                Some(k) => Some(k + i),
                None => None,
            }),
        decreases options@.len() - i,
    {
        assert(options@.skip(i as int)[0] == options@[i as int]);
        if same_text(options[i].as_str(), name) {
            return Some(i);
        }
        assert(options@.skip(i as int).drop_first() =~= options@.skip(i + 1));
        i = i + 1;
    }
    None
}

/// The protocol that `options` name.
pub fn bridge_protocol(options: &[String]) -> (result: Result<&str, String>)
    ensures
        match named_protocol(options@) {
            Some(protocol) => result matches Ok(p) && p@ == protocol,
            None => result matches Err(e) && e@ == "bridge_protocol_required"@,
        },
{
    match find_option(options, "--protocol") {
        Some(i) => {
            if i < options.len() - 1 {
                Ok(options[i + 1].as_str())
            } else {
                Err("bridge_protocol_required".to_owned())
            }
        },
        None => Err("bridge_protocol_required".to_owned()),
    }
}

/// What the agent is to do when it is started with these arguments. A bridge gets a
/// nonce: the 32 hexadecimal digits of a random UUID.
pub fn run(args: &[String]) -> (result: Result<AgentCommand, String>)
    ensures
        ({
            let word = command_word(args@);
            if word == "version"@ {
                result == Ok::<AgentCommand, String>(AgentCommand::Version)
            } else if word == "status"@ {
                result == Ok::<AgentCommand, String>(AgentCommand::Status)
            } else if word == "doctor"@ {
                result == Ok::<AgentCommand, String>(AgentCommand::Doctor)
            } else if word == "bridge"@ {
                match bridge_refusal(args@.skip(1)) {
                    Some(error) => result matches Err(e) && e@ == error,
                    None => result matches Ok(AgentCommand::Bridge { nonce }) && is_nonce(nonce@),
                }
            } else {
                result matches Err(e) && e@ == "unknown_command:"@ + word
            }
        }),
{
    proof {
        lemma_command_words();
    }
    if args.len() == 0 {
        return Ok(AgentCommand::Version);
    }
    let word = args[0].as_str();
    if same_text(word, "version") {
        Ok(AgentCommand::Version)
    } else if same_text(word, "status") {
        Ok(AgentCommand::Status)
    } else if same_text(word, "doctor") {
        Ok(AgentCommand::Doctor)
    } else if same_text(word, "bridge") {
        let options = vstd::slice::slice_subrange(args, 1, args.len());
        assert(options@ =~= args@.skip(1));
        if find_option(options, "--stdio").is_none() {
            return Err("bridge_stdio_required".to_owned());
        }
        match bridge_protocol(options) {
            Err(error) => Err(error),
            Ok(protocol) => {
                if same_text(protocol, "1") {
                    let nonce = random_nonce();
                    Ok(AgentCommand::Bridge { nonce })
                } else {
                    Err("bridge_protocol_incompatible".to_owned())
                }
            },
        }
    } else {
        Err(joined("unknown_command:", word))
    }
}

proof fn lemma_command_words()
    ensures
        "version"@ != "status"@,
        "version"@ != "doctor"@,
        "version"@ != "bridge"@,
        "status"@ != "doctor"@,
        "status"@ != "bridge"@,
        "doctor"@ != "bridge"@,
{
    reveal_strlit("version");
    reveal_strlit("status");
    reveal_strlit("doctor");
    reveal_strlit("bridge");
    assert("version"@[0] == 'v');
    assert("status"@[0] == 's');
    assert("doctor"@[0] == 'd');
    assert("bridge"@[0] == 'b');
}

/// The first word decides what the agent does, and without one it prints its version; a
/// word that is none of the commands is an error that names it.
pub proof fn law_first_word_is_the_command(args: &[String], result: Result<AgentCommand, String>)
    requires
        call_ensures(run, (args,), result),
    ensures
        args@.len() == 0 ==> result == Ok::<AgentCommand, String>(AgentCommand::Version),
        args@.len() > 0 ==> {
            let word = args@[0]@;
            &&& (result matches Ok(AgentCommand::Version)) <==> word == "version"@
            &&& (result matches Ok(AgentCommand::Status)) <==> word == "status"@
            &&& (result matches Ok(AgentCommand::Doctor)) <==> word == "doctor"@
            &&& (result matches Ok(AgentCommand::Bridge { .. })) ==> word == "bridge"@
            &&& word != "version"@ && word != "status"@ && word != "doctor"@ && word != "bridge"@
                ==> (result matches Err(e) && e@ == "unknown_command:"@ + word)
        },
{
    lemma_command_words();
}

proof fn lemma_first_option(options: Seq<String>, name: Seq<char>)
    ensures
        match first_option(options, name) {
            Some(i) => 0 <= i < options.len() && options[i]@ == name && forall|j: int|
                0 <= j < i ==> (#[trigger] options[j])@ != name,
            None => forall|j: int| 0 <= j < options.len() ==> (#[trigger] options[j])@ != name,
        },
    decreases options.len(),
{
    if options.len() > 0 && options[0]@ != name {
        let rest = options.drop_first();
        lemma_first_option(rest, name);
        match first_option(rest, name) {
            Some(i) => {
                assert(options[i + 1] == rest[i]);
                assert forall|j: int| 0 <= j < i + 1 implies (#[trigger] options[j])@ != name by {
                    if j > 0 {
                        assert(options[j] == rest[j - 1]);
                    }
                }
            },
            None => {
                assert forall|j: int| 0 <= j < options.len() implies (
                #[trigger] options[j])@ != name by {
                    if j > 0 {
                        assert(options[j] == rest[j - 1]);
                    }
                }
            },
        }
    }
}

/// Whether some word of `options` is `name`.
pub open spec fn has_option(options: Seq<String>, name: Seq<char>) -> bool {
    exists|j: int| 0 <= j < options.len() && (#[trigger] options[j])@ == name
}

/// The protocol is the word behind the first `--protocol`, and is missing where there is no
/// such word.
pub proof fn law_protocol_follows_its_option(options: &[String], i: int, result: Result<&str, String>)
    requires
        call_ensures(bridge_protocol, (options,), result),
        0 <= i < options@.len(),
        options@[i]@ == "--protocol"@,
        forall|j: int| 0 <= j < i ==> (#[trigger] options@[j])@ != "--protocol"@,
    ensures
        i + 1 < options@.len() ==> (result matches Ok(p) && p@ == options@[i + 1]@),
        i + 1 == options@.len() ==> (result matches Err(e) && e@ == "bridge_protocol_required"@),
{
    lemma_first_option(options@, "--protocol"@);
}

/// Without `--protocol` the protocol is missing.
pub proof fn law_protocol_is_required(options: &[String], result: Result<&str, String>)
    requires
        call_ensures(bridge_protocol, (options,), result),
        !has_option(options@, "--protocol"@),
    ensures
        result matches Err(e) && e@ == "bridge_protocol_required"@,
{
    lemma_first_option(options@, "--protocol"@);
}

/// The bridge runs exactly where it is asked for standard input and output and for protocol
/// 1, and then with a nonce; else the first of these that is missing is the error.
pub proof fn law_bridge_needs_its_options(
    args: &[String],
    options: &[String],
    protocol: Result<&str, String>,
    result: Result<AgentCommand, String>,
)
    requires
        call_ensures(run, (args,), result),
        call_ensures(bridge_protocol, (options,), protocol),
        args@.len() > 0,
        args@[0]@ == "bridge"@,
        options@ == args@.skip(1),
    ensures
        ({
            let stdio = has_option(options@, "--stdio"@);
            &&& result is Ok <==> stdio && (protocol matches Ok(p) && p@ == "1"@)
            &&& result matches Ok(command) ==> (command matches AgentCommand::Bridge { nonce }
                && is_nonce(nonce@))
            &&& !stdio ==> (result matches Err(e) && e@ == "bridge_stdio_required"@)
            &&& stdio && protocol is Err ==> (result matches Err(e) && e@
                == "bridge_protocol_required"@)
            &&& stdio ==> (protocol matches Ok(p) ==> (p@ != "1"@ ==> (result matches Err(e) && e@
                == "bridge_protocol_incompatible"@)))
        }),
{
    lemma_command_words();
    lemma_first_option(options@, "--stdio"@);
}

} // verus!
