use crate::definition::ServerConfig;
use crate::text::{split_whitespace, words};
use vstd::prelude::*;
use vstd::string::*;

verus! {

/// What it takes to launch a server: the program, its arguments, the
/// directory to run it in, and what becomes of its standard input.
#[derive(Clone, Debug, PartialEq, Eq)]
pub struct LaunchRecipe {
    pub program: String,
    pub args: Vec<String>,
    pub dir: String,
    /// Whether the standard input of the process is a pipe that whoever
    /// spawns it keeps open and can write to. A server is told to stop
    /// through that pipe.
    pub piped_stdin: bool,
}

/// A [`LaunchRecipe`] as text.
pub struct RecipeView {
    pub program: Seq<char>,
    pub args: Seq<Seq<char>>,
    pub dir: Seq<char>,
    pub piped_stdin: bool,
}

impl View for LaunchRecipe {
    type V = RecipeView;

    open spec fn view(&self) -> RecipeView {
        RecipeView {
            program: self.program@,
            args: self.args.deep_view(),
            dir: self.dir@,
            piped_stdin: self.piped_stdin,
        }
    }
}

/// The arguments of a Java server: the two memory limits, the extra
/// options word by word, then the jar and `nogui`.
pub open spec fn java_args(
    max_mem: Seq<char>,
    min_mem: Seq<char>,
    extra_opts: Seq<char>,
    server_jar: Seq<char>,
) -> Seq<Seq<char>> {
    seq!["-Xmx"@ + max_mem, "-Xms"@ + min_mem] + words(extra_opts) + seq![
        "-jar"@,
        server_jar,
        "nogui"@,
    ]
}

/// How `config` is launched. A Java server runs its runtime on the jar; a
/// native server runs the executable inside its directory, without
/// arguments. Both run in the server's directory, with a pipe for their
/// standard input.
pub open spec fn recipe_of(config: ServerConfig) -> RecipeView {
    match config {
        ServerConfig::JavaConfig { dir, server_jar, max_mem, min_mem, java, extra_opts, .. } => {
            RecipeView {
                program: java@,
                args: java_args(max_mem@, min_mem@, extra_opts@, server_jar@),
                dir: dir@,
                piped_stdin: true,
            }
        },
        ServerConfig::BedrockConfig { dir, exe, .. } => RecipeView {
            program: dir@ + "/"@ + exe@,
            args: Seq::empty(),
            dir: dir@,
            piped_stdin: true,
        },
    }
}

/// Works out how to launch `config`.
pub fn launch_recipe(config: &ServerConfig) -> (recipe: LaunchRecipe)
    ensures
        recipe@ == recipe_of(*config),
{
    match config {
        ServerConfig::JavaConfig { dir, server_jar, max_mem, min_mem, java, extra_opts, .. } => {
            let mut args: Vec<String> = Vec::new();
            args.push(String::from_str("-Xmx").concat(max_mem.as_str()));
            args.push(String::from_str("-Xms").concat(min_mem.as_str()));
            let mut extra = split_whitespace(extra_opts.as_str());
            let ghost head = args.deep_view();
            assert(head =~= seq!["-Xmx"@ + max_mem@, "-Xms"@ + min_mem@]);
            args.append(&mut extra);
            assert(args.deep_view() =~= head + words(extra_opts@));
            args.push(String::from_str("-jar"));
            args.push(server_jar.clone());
            args.push(String::from_str("nogui"));
            assert(args.deep_view() =~= java_args(max_mem@, min_mem@, extra_opts@, server_jar@));
            LaunchRecipe { program: java.clone(), args, dir: dir.clone(), piped_stdin: true }
        },
        ServerConfig::BedrockConfig { dir, exe, .. } => {
            let program = dir.clone().concat("/").concat(exe.as_str());
            let args: Vec<String> = Vec::new();
            assert(args.deep_view() =~= Seq::<Seq<char>>::empty());
            LaunchRecipe { program, args, dir: dir.clone(), piped_stdin: true }
        },
    }
}

} // verus!
