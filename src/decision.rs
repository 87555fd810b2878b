//! Status reports and the ordered rules that turn one into a command.
use vstd::prelude::*;

use crate::text::text_equals;

verus! {

/// Where the server says the account is. Each field is absent when the
/// report leaves it out.
#[derive(Clone, Debug, PartialEq, Eq)]
pub struct LocationStatus {
    pub mode: Option<String>,
    pub server: Option<String>,
    pub gametype: Option<String>,
}

/// The characters of an optional text.
pub open spec fn opt_text(o: Option<String>) -> Option<Seq<char>> {
    match o {
        Some(s) => Some(s@),
        None => None,
    }
}

/// The four outcomes of a status report, in the order they are tried.
#[derive(Clone, Copy, Debug, PartialEq, Eq, Structural)]
pub enum Rule {
    /// The account sits in limbo: go back to the lobby.
    EscapeLimbo,
    /// The account is in some other game: join skyblock.
    JoinSkyblock,
    /// The account is in skyblock and has an island to visit.
    VisitTarget,
    /// The account is in skyblock and is itself the destination: go home.
    WarpHome,
}

/// An outbound instruction for the server.
#[derive(Clone, Debug, PartialEq, Eq)]
pub enum Command {
    Lobby,
    Skyblock,
    Visit(String),
    WarpIsland,
    Locraw,
}

impl Command {
    /// The text sent to the server for this command.
    pub open spec fn text_spec(&self) -> Seq<char> {
        match self {
            Command::Lobby => "lobby"@,
            Command::Skyblock => "skyblock"@,
            Command::Visit(name) => "visit "@ + name@,
            Command::WarpIsland => "warp island"@,
            Command::Locraw => "locraw"@,
        }
    }

    /// The text sent to the server for this command.
    pub fn text(&self) -> (r: String)
        ensures
            r@ == self.text_spec(),
    {
        match self {
            Command::Lobby => String::from_str("lobby"),
            Command::Skyblock => String::from_str("skyblock"),
            Command::Visit(name) => String::from_str("visit ").concat(name.as_str()),
            Command::WarpIsland => String::from_str("warp island"),
            Command::Locraw => String::from_str("locraw"),
        }
    }
}

impl Rule {
    /// Whether acting on this rule starts the status-check cooldown.
    pub open spec fn starts_cooldown_spec(self) -> bool {
        self != Rule::VisitTarget
    }

    /// Whether acting on this rule starts the status-check cooldown: every
    /// rule but a visit does.
    pub fn starts_cooldown(self) -> (r: bool)
        ensures
            r == self.starts_cooldown_spec(),
    {
        match self {
            Rule::VisitTarget => false,
            _ => true,
        }
    }
}

/// The first rule that applies to a report with these fields, for an
/// account with or without a visit target.
pub open spec fn rule_for(server: Option<Seq<char>>, gametype: Option<Seq<char>>, has_target: bool) -> Rule {
    if server == Some("limbo"@) {
        Rule::EscapeLimbo
    } else if gametype != Some("SKYBLOCK"@) {
        Rule::JoinSkyblock
    } else if has_target {
        Rule::VisitTarget
    } else {
        Rule::WarpHome
    }
}

/// `c` is the command that carries out `rule` for an account whose visit
/// target is `target`.
pub open spec fn command_for(rule: Rule, target: Option<Seq<char>>, c: Command) -> bool {
    match rule {
        Rule::EscapeLimbo => c == Command::Lobby,
        Rule::JoinSkyblock => c == Command::Skyblock,
        Rule::VisitTarget => match c {
            Command::Visit(name) => target == Some(name@),
            _ => false,
        },
        Rule::WarpHome => c == Command::WarpIsland,
    }
}

/// A rule together with the command that carries it out.
#[derive(Clone, Debug, PartialEq, Eq)]
pub struct Decision {
    pub rule: Rule,
    pub command: Command,
}

fn is_some_text(o: &Option<String>, expected: &str) -> (r: bool)
    ensures
        r == (opt_text(*o) == Some(expected@)),
{
    match o {
        Some(s) => text_equals(s.as_str(), expected),
        None => false,
    }
}

/// Picks the first applicable rule for a status report: limbo first, then
/// any game other than skyblock, then a visit when a target is set, and
/// otherwise the home island.
pub fn decide(status: &LocationStatus, target: &Option<String>) -> (r: Decision)
    ensures
        r.rule == rule_for(opt_text(status.server), opt_text(status.gametype), target.is_some()),
        command_for(r.rule, opt_text(*target), r.command),
{
    if is_some_text(&status.server, "limbo") {
        Decision { rule: Rule::EscapeLimbo, command: Command::Lobby }
    } else if !is_some_text(&status.gametype, "SKYBLOCK") {
        Decision { rule: Rule::JoinSkyblock, command: Command::Skyblock }
    } else {
        match target {
            Some(name) => Decision { rule: Rule::VisitTarget, command: Command::Visit(name.clone()) },
            None => Decision { rule: Rule::WarpHome, command: Command::WarpIsland },
        }
    }
}

} // verus!
