use vstd::prelude::*;

verus! {

/// The subcommands of the command-line client, each with its own copies of
/// the global flags.
pub enum Commands {
    /// Fetches a challenge for an endpoint.
    Fetch { endpoint: String, verbose: bool, config_path: Option<String> },
    /// Fetches and solves a challenge for an endpoint.
    Solve { endpoint: String, single_threaded: bool, verbose: bool, config_path: Option<String> },
    /// Fetches, solves and submits a challenge for an endpoint.
    Validate {
        endpoint: String,
        single_threaded: bool,
        verbose: bool,
        config_path: Option<String>,
    },
}

/// The parsed command line.
pub struct CliArgs {
    /// Global verbose flag.
    pub verbose: bool,
    /// Global configuration file.
    pub config_path: Option<String>,
    pub command: Commands,
}

/// The subcommand's `verbose` flag.
pub open spec fn command_verbose(c: Commands) -> bool {
    match c {
        Commands::Fetch { verbose, .. } => verbose,
        Commands::Solve { verbose, .. } => verbose,
        Commands::Validate { verbose, .. } => verbose,
    }
}

/// The subcommand's configuration file.
pub open spec fn command_config_path(c: Commands) -> Option<String> {
    match c {
        Commands::Fetch { config_path, .. } => config_path,
        Commands::Solve { config_path, .. } => config_path,
        Commands::Validate { config_path, .. } => config_path,
    }
}

/// The subcommand's endpoint.
pub open spec fn command_endpoint(c: Commands) -> String {
    match c {
        Commands::Fetch { endpoint, .. } => endpoint,
        Commands::Solve { endpoint, .. } => endpoint,
        Commands::Validate { endpoint, .. } => endpoint,
    }
}

fn clone_path(p: &Option<String>) -> (r: Option<String>)
    ensures
        r is Some <==> p is Some,
        r is Some ==> r->Some_0@ == p->Some_0@,
{
    match p {
        Some(s) => Some(s.clone()),
        None => None,
    }
}

impl CliArgs {
    /// The configuration file to load: the subcommand's if it names one,
    /// else the global one.
    pub fn config_file(&self) -> (r: Option<String>)
        ensures
            command_config_path(self.command) is Some ==> r is Some && r->Some_0@
                == command_config_path(self.command)->Some_0@,
            command_config_path(self.command) is None ==> (r is Some <==> self.config_path is Some),
            command_config_path(self.command) is None && r is Some ==> r->Some_0@
                == self.config_path->Some_0@,
    {
        let sub = match &self.command {
            Commands::Fetch { config_path, .. } => config_path,
            Commands::Solve { config_path, .. } => config_path,
            Commands::Validate { config_path, .. } => config_path,
        };
        match sub {
            Some(p) => Some(p.clone()),
            None => clone_path(&self.config_path),
        }
    }

    /// The verbose setting that overrides the configuration file: set when
    /// either the global or the subcommand's flag is.
    pub fn verbose_override(&self) -> (r: Option<bool>)
        ensures
            r == Some(self.verbose || command_verbose(self.command)),
    {
        let sub = match &self.command {
            Commands::Fetch { verbose, .. } => *verbose,
            Commands::Solve { verbose, .. } => *verbose,
            Commands::Validate { verbose, .. } => *verbose,
        };
        Some(sub || self.verbose)
    }

    /// Whether the subcommand asks for multithreaded solving: all do unless
    /// they were given the single-threaded flag.
    pub fn use_multithreaded(&self) -> (r: bool)
        ensures
            r == match self.command {
                Commands::Fetch { .. } => true,
                Commands::Solve { single_threaded, .. } => !single_threaded,
                Commands::Validate { single_threaded, .. } => !single_threaded,
            },
    {
        match &self.command {
            Commands::Fetch { .. } => true,
            Commands::Solve { single_threaded, .. } => !*single_threaded,
            Commands::Validate { single_threaded, .. } => !*single_threaded,
        }
    }
}

} // verus!
