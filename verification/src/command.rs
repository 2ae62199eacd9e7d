//! CLI command registry: plugins register subcommands; the command line is
//! built from them and a subcommand name is routed to the command that runs it.
//!
//! The registry keeps the most recently registered command first. The CLI
//! lists subcommands in registration order; dispatch picks the most recently
//! registered command of the given name.

use vstd::prelude::*;

use crate::text::{push_str, str_eq, to_owned};

verus! {

/// Capability tag for the CLI command registry.
pub struct CommandTag;

/// Tag of the built-in migrate command.
pub struct MigrateCommandTag;

/// Tag of the built-in seed command.
pub struct SeedCommandTag;

/// Tag of the built-in mark-migrations command.
pub struct MarkMigrationsCommandTag;

/// Tag of the built-in serve command.
pub struct ServeCommandTag;

/// Run database migrations (`lariv migrate`).
#[derive(Debug, Clone, Copy, Default)]
pub struct MigrateCommand;

/// Arguments of the migrate command (none).
#[derive(Debug, Clone, Default)]
pub struct MigrateArgs {}

/// Mark every registered migration applied without running DDL.
#[derive(Debug, Clone, Copy, Default)]
pub struct MarkMigrationsCommand;

/// Arguments of the mark-migrations command (none).
#[derive(Debug, Clone, Default)]
pub struct MarkMigrationsArgs {}

/// Run the registered seed hooks.
#[derive(Debug, Clone, Copy, Default)]
pub struct SeedCommand;

/// Arguments of the seed command (none).
#[derive(Debug, Clone, Default)]
pub struct SeedArgs {}

/// Start the HTTP server.
#[derive(Debug, Clone, Copy, Default)]
pub struct ServeCommand;

/// Arguments of the serve command (none).
#[derive(Debug, Clone, Default)]
pub struct ServeArgs {}

/// A registered subcommand: its name and one-line description.
#[derive(Debug, Clone, PartialEq, Eq)]
pub struct CommandInfo {
    pub name: String,
    pub about: String,
}

/// The command registry (most recently registered first).
pub struct CommandCapability {
    pub commands: Vec<CommandInfo>,
}

/// A plugin hook that adds commands to the registry.
pub trait CommandRegistrar: Sized {
    fn register_commands(self, cap: CommandCapability) -> CommandCapability;
}

/// The registry as `(name, about)` values.
pub open spec fn commands_view(cs: Seq<CommandInfo>) -> Seq<(Seq<char>, Seq<char>)> {
    cs.map_values(|c: CommandInfo| (c.name@, c.about@))
}

/// Index of the first command named `name`, or `-1`.
pub open spec fn command_index(cs: Seq<(Seq<char>, Seq<char>)>, name: Seq<char>) -> int
    decreases cs.len(),
{
    if cs.len() == 0 {
        -1
    } else if cs[0].0 == name {
        0
    } else {
        let r = command_index(cs.drop_first(), name);
        if r < 0 { -1 } else { r + 1 }
    }
}

/// `command_index` finds the first command with the name.
pub proof fn lemma_command_index(cs: Seq<(Seq<char>, Seq<char>)>, name: Seq<char>)
    ensures
        -1 <= command_index(cs, name) < cs.len(),
        command_index(cs, name) >= 0 ==> cs[command_index(cs, name)].0 == name,
        forall|j: int| 0 <= j < cs.len() && (command_index(cs, name) < 0 || j < command_index(cs, name)) ==> (#[trigger] cs[j]).0 != name,
    decreases cs.len(),
{
    if cs.len() > 0 && cs[0].0 != name {
        lemma_command_index(cs.drop_first(), name);
        assert forall|j: int| 0 < j < cs.len() implies cs[j] == cs.drop_first()[j - 1] by {}
    }
}

/// `unknown command: {name}`.
pub open spec fn unknown_command_message(name: Seq<char>) -> Seq<char> {
    "unknown command: "@ + name
}

impl CommandCapability {
    /// An empty registry.
    pub fn new() -> (r: Self)
        ensures
            commands_view(r.commands@) == Seq::<(Seq<char>, Seq<char>)>::empty(),
    {
        let r = CommandCapability { commands: Vec::new() };
        assert(commands_view(r.commands@) =~= Seq::<(Seq<char>, Seq<char>)>::empty());
        r
    }

    /// Register a command (it goes first).
    pub fn prepend(self, name: &str, about: &str) -> (r: Self)
        ensures
            commands_view(r.commands@) == seq![(name@, about@)] + commands_view(self.commands@),
    {
        let mut commands = self.commands;
        let ghost before = commands_view(commands@);
        commands.insert(0, CommandInfo { name: to_owned(name), about: to_owned(about) });
        assert(commands_view(commands@) =~= seq![(name@, about@)] + before);
        CommandCapability { commands }
    }

    /// The subcommands of the command line, in registration order (oldest first).
    pub fn subcommands(&self) -> (r: Vec<CommandInfo>)
        ensures
            commands_view(r@) == commands_view(self.commands@).reverse(),
    {
        let ghost cs = commands_view(self.commands@);
        let mut out: Vec<CommandInfo> = Vec::new();
        let n = self.commands.len();
        let mut k: usize = 0;
        while k < n
            invariant
                k <= n,
                n == self.commands.len(),
                cs == commands_view(self.commands@),
                commands_view(out@) == cs.reverse().take(k as int),
            decreases n - k,
        {
            let c = &self.commands[n - 1 - k];
            let ghost before = commands_view(out@);
            out.push(CommandInfo { name: c.name.clone(), about: c.about.clone() });
            assert(commands_view(out@) == before.push(cs[n - 1 - k]));
            assert(cs.reverse().take(k + 1) == cs.reverse().take(k as int).push(cs.reverse()[k as int]));
            k = k + 1;
        }
        assert(cs.reverse().take(n as int) == cs.reverse());
        out
    }

    /// Route a subcommand name: the index (in the registry) of the most
    /// recently registered command of that name, or the error message.
    pub fn dispatch(&self, name: &str) -> (r: Result<usize, String>)
        ensures
            match r {
                Ok(i) => command_index(commands_view(self.commands@), name@) == i,
                Err(m) => command_index(commands_view(self.commands@), name@) < 0 && m@ == unknown_command_message(name@),
            },
    {
        let ghost cs = commands_view(self.commands@);
        proof {
            lemma_command_index(cs, name@);
        }
        let mut i: usize = 0;
        while i < self.commands.len()
            invariant
                i <= self.commands.len(),
                cs == commands_view(self.commands@),
                forall|j: int| 0 <= j < i ==> (#[trigger] cs[j]).0 != name@,
                -1 <= command_index(cs, name@) < cs.len(),
                command_index(cs, name@) >= 0 ==> cs[command_index(cs, name@)].0 == name@,
                forall|j: int| 0 <= j < cs.len() && (command_index(cs, name@) < 0 || j < command_index(cs, name@)) ==> (#[trigger] cs[j]).0 != name@,
            decreases self.commands.len() - i,
        {
            if str_eq(self.commands[i].name.as_str(), name) {
                assert(cs[i as int].0 == name@);
                return Ok(i);
            }
            i = i + 1;
        }
        let mut m = to_owned("unknown command: ");
        push_str(&mut m, name);
        Err(m)
    }
}

/// Name of the migrate command.
pub const MIGRATE_NAME: &'static str = "migrate";
/// Description of the migrate command.
pub const MIGRATE_ABOUT: &'static str = "Run database migrations";
/// Name of the mark-migrations command.
pub const MARK_MIGRATIONS_NAME: &'static str = "mark-migrations";
/// Description of the mark-migrations command.
pub const MARK_MIGRATIONS_ABOUT: &'static str = "Mark all registered migrations as applied without running them";
/// Name of the seed command.
pub const SEED_NAME: &'static str = "seed";
/// Description of the seed command.
pub const SEED_ABOUT: &'static str = "Run database seed hooks";
/// Name of the serve command.
pub const SERVE_NAME: &'static str = "serve";
/// Description of the serve command.
pub const SERVE_ABOUT: &'static str = "Start the HTTP server";

/// The registry with the built-in commands: migrate, mark-migrations, seed
/// and serve registered in that order (serve first in the registry).
pub fn with_commands() -> (r: CommandCapability)
    ensures
        commands_view(r.commands@) == seq![
            (SERVE_NAME@, SERVE_ABOUT@),
            (SEED_NAME@, SEED_ABOUT@),
            (MARK_MIGRATIONS_NAME@, MARK_MIGRATIONS_ABOUT@),
            (MIGRATE_NAME@, MIGRATE_ABOUT@),
        ],
{
    let r = CommandCapability::new()
        .prepend(MIGRATE_NAME, MIGRATE_ABOUT)
        .prepend(MARK_MIGRATIONS_NAME, MARK_MIGRATIONS_ABOUT)
        .prepend(SEED_NAME, SEED_ABOUT)
        .prepend(SERVE_NAME, SERVE_ABOUT);
    assert(commands_view(r.commands@) =~= seq![
        (SERVE_NAME@, SERVE_ABOUT@),
        (SEED_NAME@, SEED_ABOUT@),
        (MARK_MIGRATIONS_NAME@, MARK_MIGRATIONS_ABOUT@),
        (MIGRATE_NAME@, MIGRATE_ABOUT@),
    ]);
    r
}

} // verus!
