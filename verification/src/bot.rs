use vstd::prelude::*;

verus! {

/// The per-chat dialogue state: free text is a link submission while `Start`,
/// and a candidate credential token while `ReceiveAuthToken`.
#[derive(Clone, Copy, Debug, PartialEq, Eq, Structural, Default)]
pub enum CommandState {
    #[default]
    Start,
    ReceiveAuthToken,
}

/// The commands every user may send.
#[derive(Clone, Copy, Debug, PartialEq, Eq, Structural)]
pub enum Commands {
    Start,
    Id,
    Auth,
    Clear,
    Cancel,
}

/// The commands reserved for administrators.
#[derive(Clone, Copy, Debug, PartialEq, Eq, Structural)]
pub enum AdminCommands {
    SetCommands,
    DeleteCache,
}

/// True when the two strings hold the same characters.
pub fn str_eq(a: &str, b: &str) -> (r: bool)
    ensures
        r == (a@ == b@),
{
    let n = a.unicode_len();
    let m = b.unicode_len();
    if n != m {
        return false;
    }
    let mut i: usize = 0;
    while i < n
        invariant
            0 <= i <= n,
            n == a@.len(),
            n == b@.len(),
            forall|k: int| 0 <= k < i ==> a@[k] == b@[k],
        decreases n - i,
    {
        if a.get_char(i) != b.get_char(i) {
            assert(a@[i as int] != b@[i as int]);
            return false;
        }
        i += 1;
    }
    assert(a@ =~= b@);
    true
}

/// The command, if any, that a message text names.
pub open spec fn parse_command(s: Seq<char>) -> Option<Commands> {
    if s == "/start"@ {
        Some(Commands::Start)
    } else if s == "/id"@ {
        Some(Commands::Id)
    } else if s == "/auth"@ {
        Some(Commands::Auth)
    } else if s == "/clear"@ {
        Some(Commands::Clear)
    } else if s == "/cancel"@ {
        Some(Commands::Cancel)
    } else {
        None
    }
}

/// The administrator command, if any, that a message text names.
pub open spec fn parse_admin_command(s: Seq<char>) -> Option<AdminCommands> {
    if s == "/setcommands"@ {
        Some(AdminCommands::SetCommands)
    } else if s == "/deletecache"@ {
        Some(AdminCommands::DeleteCache)
    } else {
        None
    }
}

impl Commands {
    /// Recognises a user command in a message text.
    pub fn parse(text: &str) -> (r: Option<Commands>)
        ensures
            r == parse_command(text@),
    {
        if str_eq(text, "/start") {
            Some(Commands::Start)
        } else if str_eq(text, "/id") {
            Some(Commands::Id)
        } else if str_eq(text, "/auth") {
            Some(Commands::Auth)
        } else if str_eq(text, "/clear") {
            Some(Commands::Clear)
        } else if str_eq(text, "/cancel") {
            Some(Commands::Cancel)
        } else {
            None
        }
    }
}

impl AdminCommands {
    /// Recognises an administrator command in a message text.
    pub fn parse(text: &str) -> (r: Option<AdminCommands>)
        ensures
            r == parse_admin_command(text@),
    {
        if str_eq(text, "/setcommands") {
            Some(AdminCommands::SetCommands)
        } else if str_eq(text, "/deletecache") {
            Some(AdminCommands::DeleteCache)
        } else {
            None
        }
    }
}

} // verus!
