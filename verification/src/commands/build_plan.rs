use crate::config::FuzixConfig;
use vstd::prelude::*;

verus! {

/// What `fuzix build` does.
#[derive(Debug, Clone)]
pub enum BuildRequest {
    /// Run `make` with these targets; `artifact` names what it builds.
    Make { targets: Vec<String>, artifact: String },
    /// Compile one C source file, to `output` when one is given.
    Compile { source: String, output: Option<String> },
}

/// `fuzix build`: run `make` when make targets are given (the build is named
/// after the first target, or `app`), otherwise compile `source`, or the
/// project's source file when none is given.
pub fn execute(
    source: Option<String>,
    output: Option<String>,
    make_targets: Option<Vec<String>>,
    config: &FuzixConfig,
) -> (r: BuildRequest)
    ensures
        match make_targets {
            Some(t) => match r {
                BuildRequest::Make { targets, artifact } => targets@ == t@ && artifact@ == if t@.len()
                    > 0 {
                    t@[0]@
                } else {
                    "app"@
                },
                _ => false,
            },
            None => match r {
                BuildRequest::Compile { source: s, output: o } => s@ == match source {
                    Some(x) => x@,
                    None => config.project.source@,
                } && o == output,
                _ => false,
            },
        },
{
    match make_targets {
        Some(targets) => {
            let artifact = if targets.len() > 0 {
                targets[0].clone()
            } else {
                String::from_str("app")
            };
            BuildRequest::Make { targets, artifact }
        },
        None => {
            let s = match source {
                Some(x) => x,
                None => config.project.source.clone(),
            };
            BuildRequest::Compile { source: s, output }
        },
    }
}

} // verus!
