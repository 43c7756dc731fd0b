//! The commands that a control client sends to the running daemon.

use vstd::prelude::*;
use vstd::string::StringExecFns;

verus! {

/// An administrative command. It carries nothing beyond its kind.
#[derive(Clone, Copy, Debug, PartialEq, Eq, Structural)]
pub enum Cmd {
    /// Stop dimming, and restore every window.
    Disable,
    /// Start dimming.
    Enable,
    /// Start dimming if it is stopped, stop it if it is started.
    Toggle,
    /// Exempt the focused window from dimming.
    FocusBlacklist,
    /// Lift the exemption of the focused window.
    FocusBlacklistRemove,
}

impl Cmd {
    /// The name under which the command travels.
    pub open spec fn spec_name(self) -> Seq<char> {
        match self {
            Cmd::Disable => seq!['D', 'i', 's', 'a', 'b', 'l', 'e'],
            Cmd::Enable => seq!['E', 'n', 'a', 'b', 'l', 'e'],
            Cmd::Toggle => seq!['T', 'o', 'g', 'g', 'l', 'e'],
            Cmd::FocusBlacklist => seq![
                'F', 'o', 'c', 'u', 's', 'B', 'l', 'a', 'c', 'k', 'l', 'i', 's', 't',
            ],
            Cmd::FocusBlacklistRemove => seq![
                'F', 'o', 'c', 'u', 's', 'B', 'l', 'a', 'c', 'k', 'l', 'i', 's', 't', 'R', 'e', 'm',
                'o', 'v', 'e',
            ],
        }
    }

    /// The command that travels under a name, if the name is that of a
    /// command.
    pub open spec fn named(text: Seq<char>) -> Option<Cmd> {
        if text == Cmd::Disable.spec_name() {
            Some(Cmd::Disable)
        } else if text == Cmd::Enable.spec_name() {
            Some(Cmd::Enable)
        } else if text == Cmd::Toggle.spec_name() {
            Some(Cmd::Toggle)
        } else if text == Cmd::FocusBlacklist.spec_name() {
            Some(Cmd::FocusBlacklist)
        } else if text == Cmd::FocusBlacklistRemove.spec_name() {
            Some(Cmd::FocusBlacklistRemove)
        } else {
            None
        }
    }

    /// The name under which the command travels.
    pub fn name(self) -> (r: &'static str)
        ensures
            r@ == self.spec_name(),
    {
        proof {
            lemma_name_literals();
        }
        match self {
            Cmd::Disable => "Disable",
            Cmd::Enable => "Enable",
            Cmd::Toggle => "Toggle",
            Cmd::FocusBlacklist => "FocusBlacklist",
            Cmd::FocusBlacklistRemove => "FocusBlacklistRemove",
        }
    }

    /// The command that travels under `text`, if there is one. Names are
    /// matched letter for letter.
    pub fn from_name(text: &str) -> (r: Option<Cmd>)
        ensures
            r == Self::named(text@),
    {
        proof {
            lemma_name_literals();
        }
        let given = String::from_str(text);
        if given == String::from_str("Disable") {
            Some(Cmd::Disable)
        } else if given == String::from_str("Enable") {
            Some(Cmd::Enable)
        } else if given == String::from_str("Toggle") {
            Some(Cmd::Toggle)
        } else if given == String::from_str("FocusBlacklist") {
            Some(Cmd::FocusBlacklist)
        } else if given == String::from_str("FocusBlacklistRemove") {
            Some(Cmd::FocusBlacklistRemove)
        } else {
            None
        }
    }
}

/// The name literals spell the names letter by letter.
proof fn lemma_name_literals()
    ensures
        "Disable"@ == Cmd::Disable.spec_name(),
        "Enable"@ == Cmd::Enable.spec_name(),
        "Toggle"@ == Cmd::Toggle.spec_name(),
        "FocusBlacklist"@ == Cmd::FocusBlacklist.spec_name(),
        "FocusBlacklistRemove"@ == Cmd::FocusBlacklistRemove.spec_name(),
{
    reveal_strlit("Disable");
    reveal_strlit("Enable");
    reveal_strlit("Toggle");
    reveal_strlit("FocusBlacklist");
    reveal_strlit("FocusBlacklistRemove");
}

/// No two commands share a name: a command's name leads back to it.
pub proof fn lemma_name_round_trip(cmd: Cmd)
    ensures
        Cmd::named(cmd.spec_name()) == Some(cmd),
{
    assert(Cmd::FocusBlacklist.spec_name().len() == 14);
}

/// Every command name is short and made of ASCII letters.
pub proof fn lemma_names_are_short_ascii(cmd: Cmd)
    ensures
        0 < cmd.spec_name().len() <= 20,
        vstd::utf8::is_ascii_chars(cmd.spec_name()),
{
}

} // verus!
