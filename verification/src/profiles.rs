//! Project profiles that plans and artifacts are judged against.
use crate::text::{lower, lower_str, str_eq, trim, trim_str};
use vstd::prelude::*;

verus! {

/// A project profile.
#[derive(Debug, Clone, Copy, PartialEq, Eq, Structural)]
pub enum ProfileId {
    NextJs,
    Python,
    Rust,
    Docs,
    DataAnalysis,
    DataPipeline,
    Generic,
    Investigation,
}

/// The profile a trimmed, ASCII-lower-cased name denotes, if any.
pub open spec fn profile_named(n: Seq<char>) -> Option<ProfileId> {
    if n == "nextjs"@ {
        Some(ProfileId::NextJs)
    } else if n == "python"@ {
        Some(ProfileId::Python)
    } else if n == "rust"@ {
        Some(ProfileId::Rust)
    } else if n == "docs"@ {
        Some(ProfileId::Docs)
    } else if n == "data-analysis"@ {
        Some(ProfileId::DataAnalysis)
    } else if n == "data-pipeline"@ {
        Some(ProfileId::DataPipeline)
    } else if n == "generic"@ {
        Some(ProfileId::Generic)
    } else if n == "investigation"@ {
        Some(ProfileId::Investigation)
    } else {
        None
    }
}

/// The canonical name of a profile.
pub open spec fn profile_name(p: ProfileId) -> Seq<char> {
    match p {
        ProfileId::NextJs => "nextjs"@,
        ProfileId::Python => "python"@,
        ProfileId::Rust => "rust"@,
        ProfileId::Docs => "docs"@,
        ProfileId::DataAnalysis => "data-analysis"@,
        ProfileId::DataPipeline => "data-pipeline"@,
        ProfileId::Generic => "generic"@,
        ProfileId::Investigation => "investigation"@,
    }
}

impl ProfileId {
    /// The profile of a name, in any ASCII case and surrounding whitespace;
    /// `Err(())` for an unknown name.
    pub fn parse(value: &str) -> (r: Result<Self, ()>)
        ensures
            match profile_named(lower(trim(value@))) {
                Some(p) => r == Ok::<ProfileId, ()>(p),
                None => r is Err,
            },
    {
        let t = trim_str(value);
        let n = lower_str(t.as_str());
        let s = n.as_str();
        if str_eq(s, "nextjs") {
            Ok(ProfileId::NextJs)
        } else if str_eq(s, "python") {
            Ok(ProfileId::Python)
        } else if str_eq(s, "rust") {
            Ok(ProfileId::Rust)
        } else if str_eq(s, "docs") {
            Ok(ProfileId::Docs)
        } else if str_eq(s, "data-analysis") {
            Ok(ProfileId::DataAnalysis)
        } else if str_eq(s, "data-pipeline") {
            Ok(ProfileId::DataPipeline)
        } else if str_eq(s, "generic") {
            Ok(ProfileId::Generic)
        } else if str_eq(s, "investigation") {
            Ok(ProfileId::Investigation)
        } else {
            Err(())
        }
    }

    /// The canonical name.
    pub fn as_str(self) -> (r: &'static str)
        ensures
            r@ == profile_name(self),
    {
        match self {
            ProfileId::NextJs => "nextjs",
            ProfileId::Python => "python",
            ProfileId::Rust => "rust",
            ProfileId::Docs => "docs",
            ProfileId::DataAnalysis => "data-analysis",
            ProfileId::DataPipeline => "data-pipeline",
            ProfileId::Generic => "generic",
            ProfileId::Investigation => "investigation",
        }
    }
}

} // verus!
