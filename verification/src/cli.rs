//! The command line: what the arguments ask for.
use vstd::prelude::*;
use vstd::string::*;
use crate::port::{parse_port, port_of};

verus! {

/// What the program says of itself when asked, or when the arguments do
/// not fit.
pub const HELP: &'static str =
    "This is a debug proxy, which dumps all messages passing through specified port.\n\
    \nSyntax: ws-debug <server-url> <proxy-port> [--pretty-jsons]\n\
    \nThe only two parameters are a port number to listen and a websocket url\
    \nto redirect messages to. If a message comes from the <server-url>, it is directed\
    \nto the last client connected to the debug proxy. Looping is forbidden.\n\
    \nYou can provide --pretty-jsons flag to pretty print jsons when they are encountered.\
    \nThe program will create a separate file for server and client.";

/// The flag that asks for the help text.
pub open spec fn help_flag() -> Seq<char> {
    "--help"@
}

/// The flag that asks for indented documents in the transcript.
pub open spec fn pretty_flag() -> Seq<char> {
    "--pretty-jsons"@
}

/// Tells the arguments that are not the flag for indented documents.
pub open spec fn is_positional() -> spec_fn(Seq<char>) -> bool {
    |argument: Seq<char>| argument != pretty_flag()
}

/// The text that `url` writes for the address it reads from a text, if it
/// reads one.
pub uninterp spec fn url_serialization(input: Seq<char>) -> Option<Seq<char>>;

/// What to relay, and how.
#[derive(Clone, Debug, PartialEq, Eq)]
pub struct Config {
    /// The address of the server, as `url` writes it.
    pub server_url: String,
    /// The port to listen on.
    pub proxy_port: u16,
    /// Whether documents in the transcript are indented.
    pub prettify_json: bool,
}

/// What the arguments ask for.
#[derive(Clone, Debug, PartialEq, Eq)]
pub enum Command {
    /// The help text was asked for.
    Help,
    /// The arguments are too few or too many.
    Usage,
    /// The first argument is no address.
    InvalidUrl { given: String },
    /// The second argument is no port number.
    InvalidPort { given: String },
    /// Relay.
    Run(Config),
}

/// A command as a mathematical value.
pub enum CommandView {
    Help,
    Usage,
    InvalidUrl { given: Seq<char> },
    InvalidPort { given: Seq<char> },
    Run { server_url: Seq<char>, proxy_port: u16, prettify_json: bool },
}

impl View for Command {
    type V = CommandView;

    open spec fn view(&self) -> CommandView {
        match self {
            Command::Help => CommandView::Help,
            Command::Usage => CommandView::Usage,
            Command::InvalidUrl { given } => CommandView::InvalidUrl { given: given@ },
            Command::InvalidPort { given } => CommandView::InvalidPort { given: given@ },
            Command::Run(config) => CommandView::Run {
                server_url: config.server_url@,
                proxy_port: config.proxy_port,
                prettify_json: config.prettify_json,
            },
        }
    }
}

/// The texts of a list of arguments.
pub open spec fn texts(arguments: Seq<String>) -> Seq<Seq<char>> {
    arguments.map_values(|argument: String| argument@)
}

/// What two arguments ask for, once the first has been read as an address:
/// the address is looked at first, the port second.
pub open spec fn command_for(
    url_given: Seq<char>,
    port_given: Seq<char>,
    prettify_json: bool,
    server_url: Option<Seq<char>>,
) -> CommandView {
    match server_url {
        None => CommandView::InvalidUrl { given: url_given },
        Some(server_url) => match port_of(port_given) {
            None => CommandView::InvalidPort { given: port_given },
            Some(proxy_port) => CommandView::Run { server_url, proxy_port, prettify_json },
        },
    }
}

/// What a list of arguments asks for. A call for help, wherever it stands,
/// goes before everything else. The flag for indented documents may stand
/// anywhere, and as often as one likes. Exactly two arguments must remain:
/// the address of the server and the port to listen on.
pub open spec fn command_of(arguments: Seq<Seq<char>>) -> CommandView {
    let positional = arguments.filter(is_positional());
    if arguments.contains(help_flag()) {
        CommandView::Help
    } else if positional.len() != 2 {
        CommandView::Usage
    } else {
        command_for(
            positional[0],
            positional[1],
            arguments.contains(pretty_flag()),
            url_serialization(positional[0]),
        )
    }
}

/// The status that the program ends with at once, for the commands that
/// end it: zero where the help text is shown, another number where an
/// argument is refused.
pub open spec fn exit_status_of(command: CommandView) -> Option<i32> {
    match command {
        CommandView::Help => Some(0i32),
        CommandView::Usage => Some(0i32),
        CommandView::InvalidUrl { .. } => Some(-1i32),
        CommandView::InvalidPort { .. } => Some(-1i32),
        CommandView::Run { .. } => None,
    }
}

/// What the program prints for the commands that end it at once.
pub open spec fn console_text_of(command: CommandView) -> Option<Seq<char>> {
    match command {
        CommandView::Help => Some(HELP@),
        CommandView::Usage => Some(HELP@),
        CommandView::InvalidUrl { given } => Some("Websocket URL "@ + given + " is invalid"@),
        CommandView::InvalidPort { given } => Some("Port number "@ + given + " is invalid"@),
        CommandView::Run { .. } => None,
    }
}

/// Calls `url::Url::parse` and hands back the text that `url` keeps for
/// the address. The contract claims that the outcome depends on the input
/// alone: whether it is an address, and the text written for it.
#[verifier::external_body]
pub(crate) fn parse_url(input: &str) -> (parsed: Option<String>)
    ensures
        match parsed {
            Some(serialization) => url_serialization(input@) == Some(serialization@),
            None => url_serialization(input@) is None,
        },
{
    match url::Url::parse(input) {
        Ok(address) => Some(String::from(address)),
        Err(_) => None,
    }
}

impl Command {
    /// The status that the program ends with at once, if the command ends it.
    pub fn exit_status(&self) -> (status: Option<i32>)
        ensures
            status == exit_status_of(self@),
    {
        match self {
            Command::Help => Some(0i32),
            Command::Usage => Some(0i32),
            Command::InvalidUrl { .. } => Some(-1i32),
            Command::InvalidPort { .. } => Some(-1i32),
            Command::Run(_) => None,
        }
    }

    /// What the program prints, if the command ends it.
    pub fn console_text(&self) -> (text: Option<String>)
        ensures
            match text {
                Some(text) => console_text_of(self@) == Some(text@),
                None => console_text_of(self@) is None,
            },
    {
        match self {
            Command::Help => Some(String::from_str(HELP)),
            Command::Usage => Some(String::from_str(HELP)),
            Command::InvalidUrl { given } => {
                let mut text = String::from_str("Websocket URL ");
                text.append(given.as_str());
                text.append(" is invalid");
                Some(text)
            },
            Command::InvalidPort { given } => {
                let mut text = String::from_str("Port number ");
                text.append(given.as_str());
                text.append(" is invalid");
                Some(text)
            },
            Command::Run(_) => None,
        }
    }
}

/// Decides on two arguments once the first has been read as an address.
pub fn decide(url_given: &String, port_given: &String, prettify_json: bool, server_url: Option<
    String,
>) -> (command: Command)
    ensures
        command@ == command_for(
            url_given@,
            port_given@,
            prettify_json,
            match server_url {
                Some(serialization) => Some(serialization@),
                None => None,
            },
        ),
{
    match server_url {
        None => Command::InvalidUrl { given: url_given.clone() },
        Some(server_url) => match parse_port(port_given.as_str()) {
            None => Command::InvalidPort { given: port_given.clone() },
            Some(proxy_port) => Command::Run(Config { server_url, proxy_port, prettify_json }),
        },
    }
}

/// Whether `wanted` is among the arguments.
pub fn has_argument(arguments: &Vec<String>, wanted: &str) -> (found: bool)
    ensures
        found == texts(arguments@).contains(wanted@),
{
    let needle = String::from_str(wanted);
    let mut at: usize = 0;
    while at < arguments.len()
        invariant
            at <= arguments.len(),
            needle@ == wanted@,
            forall|seen: int| 0 <= seen < at ==> texts(arguments@)[seen] != wanted@,
        decreases arguments.len() - at,
    {
        if arguments[at] == needle {
            assert(texts(arguments@)[at as int] == wanted@);
            return true;
        }
        at = at + 1;
    }
    false
}

/// The arguments that are not the flag for indented documents, in order.
pub fn positional_arguments(arguments: &Vec<String>) -> (positional: Vec<String>)
    ensures
        texts(positional@) == texts(arguments@).filter(is_positional()),
{
    let flag = String::from_str("--pretty-jsons");
    let mut positional: Vec<String> = Vec::new();
    let mut at: usize = 0;
    proof {
        reveal(Seq::filter);
        assert(texts(arguments@).take(0).filter(is_positional()) =~= texts(positional@));
    }
    while at < arguments.len()
        invariant
            at <= arguments.len(),
            flag@ == pretty_flag(),
            texts(positional@) == texts(arguments@).take(at as int).filter(is_positional()),
        decreases arguments.len() - at,
    {
        let ghost before = texts(positional@);
        if arguments[at] != flag {
            positional.push(arguments[at].clone());
        }
        proof {
            reveal(Seq::filter);
            let done = texts(arguments@).take(at as int);
            let next = texts(arguments@).take(at + 1);
            assert(next.drop_last() =~= done);
            assert(next.last() == arguments@[at as int]@);
            if arguments@[at as int]@ != pretty_flag() {
                assert(texts(positional@) =~= before.push(arguments@[at as int]@));
            }
        }
        at = at + 1;
    }
    assert(texts(arguments@).take(at as int) =~= texts(arguments@));
    positional
}

/// Reads the arguments that follow the program's name.
pub fn parse_args(arguments: &Vec<String>) -> (command: Command)
    ensures
        command@ == command_of(texts(arguments@)),
{
    if has_argument(arguments, "--help") {
        return Command::Help;
    }
    let prettify_json = has_argument(arguments, "--pretty-jsons");
    let positional = positional_arguments(arguments);
    if positional.len() != 2 {
        assert(texts(positional@).len() == positional@.len());
        return Command::Usage;
    }
    assert(texts(positional@)[0] == positional@[0]@);
    assert(texts(positional@)[1] == positional@[1]@);
    let server_url = parse_url(positional[0].as_str());
    decide(&positional[0], &positional[1], prettify_json, server_url)
}

} // verus!
