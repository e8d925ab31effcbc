//! Command-line selection of the guest artifact: its family and load mode.
use vstd::prelude::*;
use vstd::string::StringExecFns;

verus! {

/// The two families of guest artifacts the host knows how to locate.
#[derive(Clone, Copy, Debug, PartialEq, Eq, Structural)]
pub enum Family {
    Rs,
    Js,
}

/// How the artifact becomes executable code.
#[derive(Clone, Copy, Debug, PartialEq, Eq, Structural)]
pub enum LoadMode {
    /// Validated and compiled from the portable module form.
    Compile,
    /// Deserialized from a native image whose provenance the caller vouches for.
    Precompiled,
}

/// What the command line selected.
#[derive(Clone, Copy, Debug, PartialEq, Eq, Structural)]
pub struct RunConfig {
    pub family: Family,
    pub mode: LoadMode,
}

/// Why the command line could not be used.
#[derive(Debug)]
pub enum UsageError {
    /// No family selector was given.
    Missing,
    /// The selector names no known family.
    Unknown(String),
}

/// The family a selector names, if any.
pub open spec fn family_of(s: Seq<char>) -> Option<Family> {
    if s == "rs"@ {
        Some(Family::Rs)
    } else if s == "js"@ {
        Some(Family::Js)
    } else {
        None
    }
}

/// Whether any argument asks for the precompiled image.
pub open spec fn asks_precompiled(args: Seq<String>) -> bool {
    exists|i: int| 0 <= i < args.len() && args[i]@ == "--aot"@
}

pub open spec fn mode_of(args: Seq<String>) -> LoadMode {
    if asks_precompiled(args) {
        LoadMode::Precompiled
    } else {
        LoadMode::Compile
    }
}

/// The text of a family's selector.
pub open spec fn spec_family_name(f: Family) -> Seq<char> {
    match f {
        Family::Rs => "rs"@,
        Family::Js => "js"@,
    }
}

/// The file extension of an artifact loaded in the given mode.
pub open spec fn spec_extension(m: LoadMode) -> Seq<char> {
    match m {
        LoadMode::Compile => "wasm"@,
        LoadMode::Precompiled => "cwasm"@,
    }
}

/// Where a family's artifact lies, relative to the host's manifest directory.
pub open spec fn spec_family_dir(f: Family) -> Seq<char> {
    match f {
        Family::Js => "/../component/js/handler."@,
        Family::Rs => "/../component/rust/target/wasm32-wasip1/release/handler_rs."@,
    }
}

pub open spec fn spec_artifact_path(manifest: Seq<char>, c: RunConfig) -> Seq<char> {
    manifest + spec_family_dir(c.family) + spec_extension(c.mode)
}

fn text_is(s: &String, lit: &str) -> (r: bool)
    ensures
        r == (s@ == lit@),
{
    let t = lit.to_owned();
    *s == t
}

/// Reads a family selector.
pub fn parse_family(s: &String) -> (r: Option<Family>)
    ensures
        r == family_of(s@),
{
    if text_is(s, "rs") {
        Some(Family::Rs)
    } else if text_is(s, "js") {
        Some(Family::Js)
    } else {
        None
    }
}

/// Reads the command line: the program name, a family selector, and
/// anywhere a `--aot` flag that selects the precompiled image.
pub fn parse_args(args: &Vec<String>) -> (r: Result<RunConfig, UsageError>)
    ensures
        args@.len() < 2 ==> r matches Err(UsageError::Missing),
        args@.len() >= 2 ==> match family_of(args@[1]@) {
            Some(f) => r == Ok::<RunConfig, UsageError>(RunConfig { family: f, mode: mode_of(args@) }),
            None => r matches Err(UsageError::Unknown(s)) && s@ == args@[1]@,
        },
{
    if args.len() < 2 {
        return Err(UsageError::Missing);
    }
    let family = match parse_family(&args[1]) {
        Some(f) => f,
        None => return Err(UsageError::Unknown(args[1].clone())),
    };
    let mut aot = false;
    let mut i: usize = 0;
    while i < args.len()
        invariant
            0 <= i <= args@.len(),
            aot == exists|j: int| 0 <= j < i && args@[j]@ == "--aot"@,
        decreases args@.len() - i,
    {
        if text_is(&args[i], "--aot") {
            aot = true;
        }
        i = i + 1;
    }
    let mode = if aot {
        LoadMode::Precompiled
    } else {
        LoadMode::Compile
    };
    Ok(RunConfig { family, mode })
}

/// The selector text of a family.
pub fn family_name(f: Family) -> (r: String)
    ensures
        r@ == spec_family_name(f),
{
    match f {
        Family::Rs => String::from_str("rs"),
        Family::Js => String::from_str("js"),
    }
}

/// The path of the artifact that a run loads, under the host's manifest directory.
pub fn artifact_path(manifest: &String, c: RunConfig) -> (r: String)
    ensures
        r@ == spec_artifact_path(manifest@, c),
{
    let mut p = manifest.clone();
    match c.family {
        Family::Js => p.append("/../component/js/handler."),
        Family::Rs => p.append("/../component/rust/target/wasm32-wasip1/release/handler_rs."),
    }
    match c.mode {
        LoadMode::Compile => p.append("wasm"),
        LoadMode::Precompiled => p.append("cwasm"),
    }
    p
}

} // verus!
