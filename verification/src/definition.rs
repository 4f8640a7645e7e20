use vstd::prelude::*;
use vstd::string::*;

verus! {

/// One configured game server: how to launch it, and the guild that owns
/// it. A server is known by its position in the catalog, not by its name:
/// two servers may share a name.
#[derive(Clone, Debug, PartialEq, Eq)]
pub enum ServerConfig {
    /// A server that runs as a jar under a Java runtime.
    JavaConfig {
        name: String,
        /// The directory the server runs in.
        dir: String,
        server_jar: String,
        max_mem: String,
        min_mem: String,
        /// The Java runtime to run; see [`default_java`].
        java: String,
        /// Further options for the runtime, separated by whitespace.
        extra_opts: String,
        guild_id: u64,
    },
    /// A server that is a native executable inside its directory.
    BedrockConfig { name: String, dir: String, exe: String, guild_id: u64 },
}

impl ServerConfig {
    /// The guild that owns the server.
    pub open spec fn owner(&self) -> u64 {
        match self {
            ServerConfig::JavaConfig { guild_id, .. } => *guild_id,
            ServerConfig::BedrockConfig { guild_id, .. } => *guild_id,
        }
    }

    /// The server's name, as text.
    pub open spec fn label(&self) -> Seq<char> {
        match self {
            ServerConfig::JavaConfig { name, .. } => name@,
            ServerConfig::BedrockConfig { name, .. } => name@,
        }
    }

    /// The directory the server runs in, as text.
    pub open spec fn working_dir(&self) -> Seq<char> {
        match self {
            ServerConfig::JavaConfig { dir, .. } => dir@,
            ServerConfig::BedrockConfig { dir, .. } => dir@,
        }
    }

    pub fn guild_id(&self) -> (id: u64)
        ensures
            id == self.owner(),
    {
        match self {
            ServerConfig::JavaConfig { guild_id, .. } => *guild_id,
            ServerConfig::BedrockConfig { guild_id, .. } => *guild_id,
        }
    }

    pub fn name(&self) -> (name: &String)
        ensures
            name@ == self.label(),
    {
        match self {
            ServerConfig::JavaConfig { name, .. } => name,
            ServerConfig::BedrockConfig { name, .. } => name,
        }
    }

    pub fn dir(&self) -> (dir: &String)
        ensures
            dir@ == self.working_dir(),
    {
        match self {
            ServerConfig::JavaConfig { dir, .. } => dir,
            ServerConfig::BedrockConfig { dir, .. } => dir,
        }
    }
}

/// The Java runtime of a server whose configuration names none.
pub fn default_java() -> (java: String)
    ensures
        java@ == "java"@,
{
    String::from_str("java")
}

} // verus!
