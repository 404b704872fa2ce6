use commandagent::profile_artifact::{
    artifact_kind_label, classify_data_artifact, classify_docs_artifact, classify_nextjs_artifact,
    classify_profile_artifact, classify_python_artifact, classify_rust_artifact,
    is_generated_declaration, setup_step_may_own_artifact, ArtifactKind, ArtifactProvenance,
};
use commandagent::profiles::ProfileId;


#[test]
fn detects_generated_declarations_before_source_extensions() {
    assert!(is_generated_declaration("next-env.d.ts"));
    assert!(is_generated_declaration("types/foo.d.ts"));
    assert_eq!(
        classify_nextjs_artifact("next-env.d.ts", ArtifactProvenance::StepExpectedPath).kind,
        ArtifactKind::GeneratedDeclaration
    );
}

#[test]
fn nextjs_generated_declaration_is_not_route_integration_eligible() {
    let artifact =
        classify_nextjs_artifact("next-env.d.ts", ArtifactProvenance::StepExpectedPath);

    assert_eq!(artifact.kind, ArtifactKind::GeneratedDeclaration);
    assert!(!artifact.eligibility.route_integration);
}

#[test]
fn nextjs_component_required_artifact_is_route_integration_eligible() {
    let artifact = classify_nextjs_artifact(
        "components/Game.tsx",
        ArtifactProvenance::PhaseRequiredArtifact,
    );

    assert_eq!(artifact.kind, ArtifactKind::UiSource);
    assert!(artifact.eligibility.route_integration);
}

#[test]
fn nextjs_component_workspace_observation_is_not_route_integration_eligible() {
    let artifact = classify_nextjs_artifact(
        "components/Game.tsx",
        ArtifactProvenance::WorkspaceObservation,
    );

    assert_eq!(artifact.kind, ArtifactKind::UiSource);
    assert!(!artifact.eligibility.route_integration);
}

#[test]
fn nextjs_global_css_is_style_source_not_route_integration_artifact() {
    for path in ["app/globals.css", "src/app/globals.css"] {
        let artifact = classify_nextjs_artifact(path, ArtifactProvenance::StepExpectedPath);

        assert_eq!(artifact.kind, ArtifactKind::StyleSource, "{path}");
        assert_eq!(artifact_kind_label(artifact.kind), "source/style");
        assert!(!artifact.eligibility.route_integration, "{path}");
        assert!(!setup_step_may_own_artifact(artifact.kind), "{path}");
    }
}

#[test]
fn nextjs_setup_files_are_setup_owned() {
    for path in ["package.json", "tailwind.config.js", "postcss.config.js"] {
        let artifact = classify_nextjs_artifact(path, ArtifactProvenance::StepExpectedPath);

        assert!(
            setup_step_may_own_artifact(artifact.kind),
            "{path} classified as {:?}",
            artifact.kind
        );
    }
}

#[test]
fn classifies_dependency_and_build_outputs() {
    assert_eq!(
        classify_nextjs_artifact(
            "node_modules/react/index.js",
            ArtifactProvenance::WorkspaceObservation
        )
        .kind,
        ArtifactKind::DependencyCache
    );
    assert_eq!(
        classify_nextjs_artifact(
            ".next/types/routes.d.ts",
            ArtifactProvenance::WorkspaceObservation
        )
        .kind,
        ArtifactKind::BuildOutput
    );
    assert_eq!(
        classify_rust_artifact("target/debug/app", ArtifactProvenance::VerifierEvidence).kind,
        ArtifactKind::BuildOutput
    );
}

#[test]
fn classifies_python_cache_and_sources() {
    assert_eq!(
        classify_python_artifact(".venv/lib/python/site.py", ArtifactProvenance::ProfileFact)
            .kind,
        ArtifactKind::DependencyCache
    );
    assert_eq!(
        classify_python_artifact("__pycache__/main.pyc", ArtifactProvenance::ProfileFact).kind,
        ArtifactKind::BuildOutput
    );
    assert_eq!(
        classify_python_artifact("tests/test_app.py", ArtifactProvenance::StepExpectedPath)
            .kind,
        ArtifactKind::TestSource
    );
}

#[test]
fn classifies_rust_sources_without_target_output() {
    assert_eq!(
        classify_rust_artifact("src/main.rs", ArtifactProvenance::StepExpectedPath).kind,
        ArtifactKind::RuntimeSource
    );
    assert_eq!(
        classify_rust_artifact("tests/cli.rs", ArtifactProvenance::StepExpectedPath).kind,
        ArtifactKind::TestSource
    );
    assert!(
        !classify_rust_artifact(
            "target/debug/build.rs",
            ArtifactProvenance::StepExpectedPath
        )
        .eligibility
        .recovery_target
    );
}

#[test]
fn classifies_docs_and_data_paths() {
    assert_eq!(
        classify_docs_artifact("docs/profiles.md", ArtifactProvenance::StepExpectedPath).kind,
        ArtifactKind::Documentation
    );
    assert_eq!(
        classify_docs_artifact("dist/index.html", ArtifactProvenance::WorkspaceObservation)
            .kind,
        ArtifactKind::BuildOutput
    );
    let raw = classify_data_artifact(
        "data/raw/source.csv",
        ArtifactProvenance::UserRequiredArtifact,
    );
    assert_eq!(raw.kind, ArtifactKind::RawInput);
    assert!(raw.eligibility.protected_input);
    assert!(!raw.eligibility.recovery_target);
}

#[test]
fn dispatches_by_profile() {
    assert_eq!(
        classify_profile_artifact(
            ProfileId::NextJs,
            "components/Game.tsx",
            ArtifactProvenance::StepExpectedPath
        )
        .kind,
        ArtifactKind::UiSource
    );
    assert_eq!(
        classify_profile_artifact(
            ProfileId::Generic,
            "components/Game.tsx",
            ArtifactProvenance::StepExpectedPath
        )
        .kind,
        ArtifactKind::Unknown
    );
}

#[test]
fn paths_are_normalized_before_classification() {
    let artifact = classify_rust_artifact("  ./src\\main.rs ", ArtifactProvenance::StepExpectedPath);
    assert_eq!(artifact.path, "src/main.rs");
    assert_eq!(artifact.kind, ArtifactKind::RuntimeSource);
    assert!(artifact.eligibility.source_integration);
    assert_eq!(
        classify_python_artifact("requirements-dev.txt", ArtifactProvenance::ProfileFact).kind,
        ArtifactKind::Manifest
    );
    assert_eq!(ProfileId::parse(" NextJS "), Ok(ProfileId::NextJs));
    assert!(ProfileId::parse("cobol").is_err());
}
