//! Deliverable obligations: what a deliverable must show, distinguishing a
//! missing deliverable from missing evidence for an existing one.
use crate::text::{contains, ends_with, join, owned, push_str, str_contains, str_ends_with, str_eq, views};
use vstd::prelude::*;

verus! {

/// What a deliverable is.
#[derive(Debug, Clone, Copy, PartialEq, Eq, Structural)]
pub enum DeliverableKind {
    Source,
    SetupManifest,
    Test,
    Docs,
    StructuredData,
    Report,
}

/// The name of a deliverable kind.
pub open spec fn deliverable_kind_name(k: DeliverableKind) -> Seq<char> {
    match k {
        DeliverableKind::Source => "source"@,
        DeliverableKind::SetupManifest => "setup_manifest"@,
        DeliverableKind::Test => "test"@,
        DeliverableKind::Docs => "docs"@,
        DeliverableKind::StructuredData => "structured_data"@,
        DeliverableKind::Report => "report"@,
    }
}

impl DeliverableKind {
    /// The name of the kind.
    pub fn as_str(self) -> (r: &'static str)
        ensures
            r@ == deliverable_kind_name(self),
    {
        match self {
            DeliverableKind::Source => "source",
            DeliverableKind::SetupManifest => "setup_manifest",
            DeliverableKind::Test => "test",
            DeliverableKind::Docs => "docs",
            DeliverableKind::StructuredData => "structured_data",
            DeliverableKind::Report => "report",
        }
    }
}

/// How fresh a deliverable must be.
#[derive(Debug, Clone, Copy, PartialEq, Eq, Structural)]
pub enum FreshnessRule {
    MustExist,
    MustBeEditedThisSession,
    MustMatchCurrentPlan,
    MustHaveVerifierEvidence,
}

/// The name of a freshness rule.
pub open spec fn freshness_name(f: FreshnessRule) -> Seq<char> {
    match f {
        FreshnessRule::MustExist => "must_exist"@,
        FreshnessRule::MustBeEditedThisSession => "must_be_edited_this_session"@,
        FreshnessRule::MustMatchCurrentPlan => "must_match_current_plan"@,
        FreshnessRule::MustHaveVerifierEvidence => "must_have_verifier_evidence"@,
    }
}

impl FreshnessRule {
    /// The name of the rule.
    pub fn as_str(self) -> (r: &'static str)
        ensures
            r@ == freshness_name(self),
    {
        match self {
            FreshnessRule::MustExist => "must_exist",
            FreshnessRule::MustBeEditedThisSession => "must_be_edited_this_session",
            FreshnessRule::MustMatchCurrentPlan => "must_match_current_plan",
            FreshnessRule::MustHaveVerifierEvidence => "must_have_verifier_evidence",
        }
    }
}

/// What a deliverable must show to count as delivered.
#[derive(Debug, Clone, PartialEq, Eq)]
pub struct DeliverableObligation {
    pub kind: DeliverableKind,
    pub path: String,
    pub required_evidence: Vec<String>,
    pub freshness: Vec<FreshnessRule>,
}

/// The rendered line of an obligation.
pub open spec fn obligation_line(o: DeliverableObligation) -> Seq<char> {
    "kind="@ + deliverable_kind_name(o.kind) + " path="@ + o.path@ + " evidence="@ + (if o.required_evidence@.len()
        == 0 {
        "none"@
    } else {
        join(views(o.required_evidence@), "|"@)
    }) + " freshness="@ + join(o.freshness@.map_values(|f: FreshnessRule| freshness_name(f)), "|"@)
}

impl DeliverableObligation {
    /// An obligation that the deliverable must exist.
    pub fn new(kind: DeliverableKind, path: &str) -> (r: Self)
        ensures
            r.kind == kind,
            r.path@ == path@,
            r.required_evidence@.len() == 0,
            r.freshness@ == seq![FreshnessRule::MustExist],
    {
        let mut freshness: Vec<FreshnessRule> = Vec::new();
        freshness.push(FreshnessRule::MustExist);
        DeliverableObligation { kind, path: owned(path), required_evidence: Vec::new(), freshness }
    }

    /// The obligation with one more required piece of evidence.
    pub fn with_required_evidence(self, evidence: &str) -> (r: Self)
        ensures
            views(r.required_evidence@) == views(self.required_evidence@).push(evidence@),
            r.kind == self.kind,
            r.path == self.path,
            r.freshness == self.freshness,
    {
        let mut required = self.required_evidence;
        let ghost before = required@;
        required.push(owned(evidence));
        assert(views(required@) =~= views(before).push(evidence@));
        DeliverableObligation { required_evidence: required, ..self }
    }

    /// The obligation with a freshness rule, added once.
    pub fn with_freshness(self, freshness: FreshnessRule) -> (r: Self)
        ensures
            r.freshness@ == (if self.freshness@.contains(freshness) {
                self.freshness@
            } else {
                self.freshness@.push(freshness)
            }),
            r.kind == self.kind,
            r.path == self.path,
            r.required_evidence == self.required_evidence,
    {
        let mut rules = self.freshness;
        let mut i: usize = 0;
        let mut found = false;
        while i < rules.len()
            invariant
                i <= rules@.len(),
                found == (exists|k: int| 0 <= k < i && rules@[k] == freshness),
            decreases rules.len() - i,
        {
            if rules[i] == freshness {
                found = true;
            }
            i = i + 1;
        }
        if !found {
            rules.push(freshness);
        }
        DeliverableObligation { freshness: rules, ..self }
    }

    /// `kind=... path=... evidence=... freshness=...`; evidence is `none`
    /// when no evidence is required.
    pub fn render_line(&self) -> (r: String)
        ensures
            r@ == obligation_line(*self),
    {
        let mut s = owned("kind=");
        push_str(&mut s, self.kind.as_str());
        push_str(&mut s, " path=");
        push_str(&mut s, self.path.as_str());
        push_str(&mut s, " evidence=");
        if self.required_evidence.len() == 0 {
            push_str(&mut s, "none");
        } else {
            let e = crate::text::join_strings(&self.required_evidence, "|");
            push_str(&mut s, e.as_str());
        }
        push_str(&mut s, " freshness=");
        let ghost fs = self.freshness@.map_values(|f: FreshnessRule| freshness_name(f));
        let mut names: Vec<String> = Vec::new();
        let mut i: usize = 0;
        while i < self.freshness.len()
            invariant
                i <= self.freshness@.len(),
                fs == self.freshness@.map_values(|f: FreshnessRule| freshness_name(f)),
                views(names@) == fs.take(i as int),
            decreases self.freshness.len() - i,
        {
            let ghost before = names@;
            names.push(owned(self.freshness[i].as_str()));
            assert(views(names@) =~= views(before).push(freshness_name(self.freshness@[i as int])));
            i = i + 1;
            assert(fs.take(i as int) =~= fs.take(i - 1).push(fs[i - 1]));
        }
        assert(fs.take(self.freshness@.len() as int) == fs);
        let f = crate::text::join_strings(&names, "|");
        push_str(&mut s, f.as_str());
        s
    }
}

/// The deliverable kind a path suggests.
pub open spec fn kind_for_path(p: Seq<char>) -> DeliverableKind {
    if p == "package.json"@ || ends_with(p, "/package.json"@) || ends_with(p, "Cargo.toml"@) {
        DeliverableKind::SetupManifest
    } else if contains(p, "/test"@) || ends_with(p, "_test.rs"@) || ends_with(p, ".test.ts"@) {
        DeliverableKind::Test
    } else if ends_with(p, ".md"@) {
        DeliverableKind::Docs
    } else if ends_with(p, ".json"@) || ends_with(p, ".csv"@) || ends_with(p, ".yaml"@) {
        DeliverableKind::StructuredData
    } else {
        DeliverableKind::Source
    }
}

/// The deliverable kind a path suggests.
pub fn obligation_kind_for_path(path: &str) -> (r: DeliverableKind)
    ensures
        r == kind_for_path(path@),
{
    if str_eq(path, "package.json") || str_ends_with(path, "/package.json") || str_ends_with(path, "Cargo.toml") {
        DeliverableKind::SetupManifest
    } else if str_contains(path, "/test") || str_ends_with(path, "_test.rs") || str_ends_with(path, ".test.ts") {
        DeliverableKind::Test
    } else if str_ends_with(path, ".md") {
        DeliverableKind::Docs
    } else if str_ends_with(path, ".json") || str_ends_with(path, ".csv") || str_ends_with(path, ".yaml") {
        DeliverableKind::StructuredData
    } else {
        DeliverableKind::Source
    }
}

} // verus!
