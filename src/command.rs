use vstd::prelude::*;

use crate::text::same_text;

verus! {

/// A command line, as values.
pub enum CommandView {
    Welcome,
    Logout,
    Whoami,
    Download(Seq<char>),
    Zip(Seq<char>),
    Upload(Seq<char>),
    ViewLink(Seq<char>),
    Private(Seq<char>),
    Folder(Seq<char>),
    MissingArgument(Seq<char>),
    Unknown(Seq<char>),
}

/// What a command line asks for.
pub enum Command {
    /// No verb was given: greet the user.
    Welcome,
    /// Sign out.
    Logout,
    /// Show the signed-in account.
    Whoami,
    /// Download a remote file.
    Download(String),
    /// Download a remote folder as an archive.
    Zip(String),
    /// Upload a local file.
    Upload(String),
    /// Find or create a public view link.
    ViewLink(String),
    /// Revoke every link of a remote path.
    Private(String),
    /// Download a remote folder and unpack it.
    Folder(String),
    /// The verb needs a path and none was given: print this hint, do nothing.
    MissingArgument(String),
    /// The verb is not known: print this message.
    Unknown(String),
}

impl View for Command {
    type V = CommandView;

    open spec fn view(&self) -> CommandView {
        match self {
            Command::Welcome => CommandView::Welcome,
            Command::Logout => CommandView::Logout,
            Command::Whoami => CommandView::Whoami,
            Command::Download(p) => CommandView::Download(p@),
            Command::Zip(p) => CommandView::Zip(p@),
            Command::Upload(p) => CommandView::Upload(p@),
            Command::ViewLink(p) => CommandView::ViewLink(p@),
            Command::Private(p) => CommandView::Private(p@),
            Command::Folder(p) => CommandView::Folder(p@),
            Command::MissingArgument(m) => CommandView::MissingArgument(m@),
            Command::Unknown(m) => CommandView::Unknown(m@),
        }
    }
}

/// The command for a verb that takes a path: the path where one follows,
/// else the hint.
pub open spec fn with_path(
    args: Seq<Seq<char>>,
    hint: Seq<char>,
    make: spec_fn(Seq<char>) -> CommandView,
) -> CommandView {
    if args.len() < 2 {
        CommandView::MissingArgument(hint)
    } else {
        make(args[1])
    }
}

/// The command that the words after the program name ask for.
pub open spec fn command_of(args: Seq<Seq<char>>) -> CommandView {
    if args.len() == 0 {
        CommandView::Welcome
    } else if args[0] == "logout"@ {
        CommandView::Logout
    } else if args[0] == "whoami"@ {
        CommandView::Whoami
    } else if args[0] == "dl"@ {
        with_path(args, "dl requires an argument (file path)."@, |p| CommandView::Download(p))
    } else if args[0] == "zip"@ {
        with_path(args, "zip requires an argument (file path)."@, |p| CommandView::Zip(p))
    } else if args[0] == "up"@ {
        with_path(args, "upload requires an argument (local file)."@, |p| CommandView::Upload(p))
    } else if args[0] == "vl"@ {
        with_path(args, "vl requires an argument (Dropbox file)."@, |p| CommandView::ViewLink(p))
    } else if args[0] == "private"@ {
        with_path(
            args,
            "private requires an argument (Dropbox file)."@,
            |p| CommandView::Private(p),
        )
    } else if args[0] == "folder"@ {
        with_path(args, "folder requires an argument (file path)."@, |p| CommandView::Folder(p))
    } else {
        CommandView::Unknown("Unknown command "@ + args[0] + "!\n"@)
    }
}

/// The words of a command line as text.
pub open spec fn words(args: Seq<String>) -> Seq<Seq<char>> {
    args.map_values(|a: String| a@)
}

/// Reads the words after the program name.
pub fn parse_command(args: &Vec<String>) -> (r: Command)
    ensures
        r@ == command_of(words(args@)),
{
    let ghost w = words(args@);
    if args.len() == 0 {
        return Command::Welcome;
    }
    let verb = args[0].as_str();
    assert(w[0] == args@[0]@);
    assert(args.len() >= 2 ==> w[1] == args@[1]@);
    let path = if args.len() >= 2 {
        Some(args[1].clone())
    } else {
        None
    };
    if same_text(verb, "logout") {
        Command::Logout
    } else if same_text(verb, "whoami") {
        Command::Whoami
    } else if same_text(verb, "dl") {
        match path {
            Some(p) => Command::Download(p),
            None => Command::MissingArgument(String::from_str("dl requires an argument (file path).")),
        }
    } else if same_text(verb, "zip") {
        match path {
            Some(p) => Command::Zip(p),
            None => Command::MissingArgument(String::from_str("zip requires an argument (file path).")),
        }
    } else if same_text(verb, "up") {
        match path {
            Some(p) => Command::Upload(p),
            None => Command::MissingArgument(
                String::from_str("upload requires an argument (local file)."),
            ),
        }
    } else if same_text(verb, "vl") {
        match path {
            Some(p) => Command::ViewLink(p),
            None => Command::MissingArgument(
                String::from_str("vl requires an argument (Dropbox file)."),
            ),
        }
    } else if same_text(verb, "private") {
        match path {
            Some(p) => Command::Private(p),
            None => Command::MissingArgument(
                String::from_str("private requires an argument (Dropbox file)."),
            ),
        }
    } else if same_text(verb, "folder") {
        match path {
            Some(p) => Command::Folder(p),
            None => Command::MissingArgument(
                String::from_str("folder requires an argument (file path)."),
            ),
        }
    } else {
        let mut m = String::from_str("Unknown command ");
        m.append(verb);
        m.append("!\n");
        Command::Unknown(m)
    }
}

/// The line printed after an upload to `path`.
pub fn uploaded_message(path: &str) -> (r: String)
    ensures
        r@ == "Uploaded to "@ + path@,
{
    let mut m = String::from_str("Uploaded to ");
    m.append(path);
    m
}

/// The line printed with a public view link.
pub fn view_link_message(url: &str) -> (r: String)
    ensures
        r@ == "View-only link: "@ + url@,
{
    let mut m = String::from_str("View-only link: ");
    m.append(url);
    m
}

/// The prompt that asks the user to open the authorization page.
pub fn login_prompt(url: &str) -> (r: String)
    ensures
        r@ == "Open this URL and paste the code: "@ + url@ + "\n\nCode: "@,
{
    let mut m = String::from_str("Open this URL and paste the code: ");
    m.append(url);
    m.append("\n\nCode: ");
    m
}

} // verus!
