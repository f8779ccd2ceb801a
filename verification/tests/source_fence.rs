use tool_runtime::json::Json;
use tool_runtime::observation::MAX_PENDING_JOBS_PER_PROJECT;
use tool_runtime::registry_moves::MAX_TRACKED_PROJECTS;
use tool_runtime::source_fence::{
    ObservedMutationFence, ValidationFreshness, ValidationSourceFence, ValidationSourceState,
};
use tool_runtime::tool_result::ToolResult;
use tool_runtime::validation_source::ValidationSourceRegistry;

const MAX_SOURCE_GENERATION: u64 = 9_007_199_254_740_991;

fn registry() -> ValidationSourceRegistry {
    ValidationSourceRegistry::new(MAX_SOURCE_GENERATION)
}

fn is_safe_job_id(id: &str) -> bool {
    !id.is_empty()
        && id
            .chars()
            .all(|c| c.is_ascii_alphanumeric() || c == '-' || c == '_')
}

fn object(members: Vec<(&str, Json)>) -> Json {
    let mut value = Json::object();
    for (name, member) in members {
        value = value.with(name, member);
    }
    value
}

fn noop() -> ToolResult {
    ToolResult::ok(object(vec![("state_changed", Json::Bool(false))]))
}

fn run(registry: &mut ValidationSourceRegistry, project: &str, result: &ToolResult) {
    let guard = registry.begin(project).unwrap();
    assert!(registry.tracks(&guard));
    guard.finish(registry, result, is_safe_job_id);
}

#[test]
fn source_fence_multiple_writers_remain_active_until_every_known_completion() {
    let mut registry = registry();
    let first = registry.begin("p").unwrap();
    let second = registry.begin("p").unwrap();
    assert_eq!(registry.active_writers("p"), 2);
    first.finish(&mut registry, &noop(), is_safe_job_id);
    let during = registry.capture("p").unwrap();
    assert!(!during.quiescent);
    assert_eq!(
        registry.observe("p", Some(&during)).observed_mutation_fence,
        ObservedMutationFence::Unknown
    );
    second.finish(&mut registry, &noop(), is_safe_job_id);
    assert!(registry.capture("p").unwrap().quiescent);
    assert_eq!(
        registry.observe("p", Some(&during)).observed_mutation_fence,
        ObservedMutationFence::Crossed
    );
}

#[test]
fn source_fence_handoff_and_generation_exhaustion_cannot_manufacture_quiescence() {
    let mut registry = registry();
    run(
        &mut registry,
        "job",
        &ToolResult::ok(object(vec![
            ("job_id", Json::text("existing-job")),
            ("state_changed", Json::Bool(false)),
        ])),
    );
    let pending = registry.capture("job").unwrap();
    assert!(!pending.quiescent);
    assert_eq!(
        registry.pending_jobs("job"),
        vec!["existing-job".to_string()]
    );
    registry.complete_pending_job("job", "existing-job");
    let settled = registry.capture("job").unwrap();
    assert!(settled.quiescent);
    assert!(settled.generation > pending.generation);
    assert_eq!(
        registry.observe("job", Some(&settled)).freshness,
        ValidationFreshness::Unproven
    );
    let mut exhausted = ValidationSourceRegistry::new(0);
    let before = exhausted.capture("exhausted").unwrap();
    assert_eq!(before.generation, 0);
    assert!(before.quiescent);
    run(&mut exhausted, "exhausted", &noop());
    let after = exhausted.capture("exhausted").unwrap();
    assert_eq!(after.generation, 0);
    assert!(!after.quiescent);
    assert_eq!(
        exhausted
            .observe("exhausted", Some(&before))
            .observed_mutation_fence,
        ObservedMutationFence::Unknown
    );
}

#[test]
fn source_fence_sync_completion_does_not_require_state_changed() {
    let mut registry = registry();
    run(
        &mut registry,
        "p",
        &ToolResult::ok(object(vec![("command_completed", Json::Bool(true))])),
    );
    assert!(registry.capture("p").unwrap().quiescent);
}

#[test]
fn source_fence_pending_jobs_are_bounded_and_overflow_fails_closed() {
    let mut registry = registry();
    for index in 0..MAX_PENDING_JOBS_PER_PROJECT {
        run(
            &mut registry,
            "p",
            &ToolResult::ok(object(vec![(
                "job_id",
                Json::text(&format!("job-{index}")),
            )])),
        );
    }
    assert_eq!(
        registry.pending_jobs("p").len(),
        MAX_PENDING_JOBS_PER_PROJECT
    );
    run(
        &mut registry,
        "p",
        &ToolResult::ok(object(vec![("job_id", Json::text("job-overflow"))])),
    );
    for job_id in registry.pending_jobs("p") {
        registry.complete_pending_job("p", &job_id);
    }
    assert!(registry.pending_jobs("p").is_empty());
    assert!(!registry.capture("p").unwrap().quiescent);
}

#[test]
fn source_fence_lost_and_outcome_unknown_jobs_remain_uncertain() {
    for (project, output) in [
        (
            "lost",
            object(vec![
                ("job_id", Json::text("lost-job")),
                ("execution_state", Json::text("lost")),
            ]),
        ),
        (
            "unknown",
            object(vec![
                ("job_id", Json::text("unknown-job")),
                ("command_execution_state", Json::text("outcome_unknown")),
            ]),
        ),
        (
            "invalid-job-id",
            object(vec![
                ("job_id", Json::text("../invalid")),
                ("state_changed", Json::Bool(false)),
            ]),
        ),
        (
            "non-string-job-id",
            object(vec![
                ("job_id", Json::Unsigned(42)),
                ("state_changed", Json::Bool(false)),
            ]),
        ),
    ] {
        let mut registry = registry();
        run(&mut registry, project, &ToolResult::ok(output));
        assert!(registry.pending_jobs(project).is_empty());
        assert!(!registry.capture(project).unwrap().quiescent);
    }
}

#[test]
fn source_fence_tracks_inflight_completed_and_noop_attempts_not_content_equality() {
    let mut registry = registry();
    let before = registry.capture("p").unwrap();
    let writer = registry.begin("p").unwrap();
    let during = registry.capture("p").unwrap();
    assert!(!during.quiescent);
    assert_eq!(
        registry.observe("p", Some(&before)).freshness,
        ValidationFreshness::Stale
    );
    writer.finish(&mut registry, &noop(), is_safe_job_id);
    assert_eq!(
        registry.observe("p", Some(&during)).freshness,
        ValidationFreshness::Stale
    );
    let after = registry.capture("p").unwrap();
    assert!(after.quiescent);
    assert_eq!(
        registry.observe("p", Some(&after)).observed_mutation_fence,
        ObservedMutationFence::Uncrossed
    );
    assert_eq!(
        registry.observe("p", Some(&after)).freshness,
        ValidationFreshness::Unproven
    );
}

#[test]
fn source_fence_cancellation_and_unknown_writers_never_reopen_clean_epoch() {
    let mut registry = registry();
    let cancelled = registry.begin("p").unwrap();
    cancelled.drop(&mut registry);
    let after = registry.capture("p").unwrap();
    assert!(!after.quiescent);
    run(&mut registry, "p", &noop());
    let now = registry.capture("p").unwrap();
    assert!(!now.quiescent);
    assert_eq!(
        registry.observe("p", Some(&now)).observed_mutation_fence,
        ObservedMutationFence::Unknown
    );
}

#[test]
fn source_fence_project_and_restart_epochs_are_not_interchangeable() {
    let mut first = registry();
    let start = first.capture("one").unwrap();
    run(&mut first, "two", &noop());
    assert_eq!(
        first.observe("one", Some(&start)).observed_mutation_fence,
        ObservedMutationFence::Uncrossed
    );
    assert_eq!(
        first.observe("two", Some(&start)).observed_mutation_fence,
        ObservedMutationFence::Unknown
    );
    assert_eq!(
        registry()
            .observe("one", Some(&start))
            .observed_mutation_fence,
        ObservedMutationFence::Unknown
    );
}

#[test]
fn source_fence_capacity_does_not_evict_active_writers() {
    let mut registry = registry();
    let writer = registry.begin("p").unwrap();
    for i in 1..MAX_TRACKED_PROJECTS {
        assert!(registry.capture(&i.to_string()).is_some());
    }
    assert!(registry.capture("overflow").is_none());
    assert!(registry.begin("overflow").is_none());
    assert_eq!(
        registry.observe("overflow", None),
        ValidationSourceState {
            observed_mutation_fence: ObservedMutationFence::Unknown,
            freshness: ValidationFreshness::Unproven,
        }
    );
    assert!(!registry.capture("p").unwrap().quiescent);
    writer.finish(&mut registry, &noop(), is_safe_job_id);
    assert!(registry.capture("p").unwrap().quiescent);
}

#[test]
fn epochs_are_random_simple_uuids() {
    let mut registry = registry();
    let one = registry.capture("one").unwrap().epoch;
    let two = registry.capture("two").unwrap().epoch;
    for epoch in [&one, &two] {
        assert_eq!(epoch.len(), 32);
        assert!(epoch
            .chars()
            .all(|c| c.is_ascii_digit() || ('a'..='f').contains(&c)));
        assert_eq!(&epoch[12..13], "4");
        assert!(["8", "9", "a", "b"].contains(&&epoch[16..17]));
    }
    assert_ne!(one, two);
    assert_eq!(registry.capture("one").unwrap().epoch, one);
}

#[test]
fn a_project_is_tracked_once_in_the_given_epoch() {
    let mut registry = registry();
    assert!(registry.fence("p").is_none());
    assert!(registry.track("p", "epoch".to_string()));
    assert!(!registry.track("p", "other".to_string()));
    assert_eq!(
        registry.fence("p"),
        Some(ValidationSourceFence {
            epoch: "epoch".to_string(),
            generation: 0,
            quiescent: true,
        })
    );
    assert!(registry.pending_jobs("q").is_empty());
    assert_eq!(registry.active_writers("q"), 0);
}

#[test]
fn each_begin_and_each_end_is_one_generation() {
    let mut registry = registry();
    assert_eq!(registry.capture("p").unwrap().generation, 0);
    let writer = registry.begin("p").unwrap();
    assert_eq!(registry.capture("p").unwrap().generation, 1);
    writer.finish(&mut registry, &noop(), is_safe_job_id);
    assert_eq!(registry.capture("p").unwrap().generation, 2);
    registry.complete_pending_job("p", "never-heard-of");
    assert_eq!(registry.capture("p").unwrap().generation, 2);
}

#[test]
fn pending_jobs_come_in_order_and_once() {
    let mut registry = registry();
    for job in ["b", "a", "c", "b", "B"] {
        run(
            &mut registry,
            "p",
            &ToolResult::ok(object(vec![("job_id", Json::text(job))])),
        );
    }
    assert_eq!(registry.pending_jobs("p"), vec!["B", "a", "b", "c"]);
    registry.complete_pending_job("p", "b");
    assert_eq!(registry.pending_jobs("p"), vec!["B", "a", "c"]);
    assert!(!registry.capture("p").unwrap().quiescent);
}

#[test]
fn a_guard_belongs_to_its_registry() {
    let mut first = registry();
    let mut second = registry();
    let guard = first.begin("p").unwrap();
    assert!(first.tracks(&guard));
    assert!(!second.tracks(&guard));
    second.capture("p");
    assert!(!second.tracks(&guard));
}

#[test]
fn the_end_that_a_result_reports() {
    // Each output, and whether the project is quiescent afterwards, and its pending jobs.
    let cases: Vec<(Json, bool, Vec<&str>)> = vec![
        (Json::object(), false, vec![]),
        (Json::Null, false, vec![]),
        (
            object(vec![("command_started", Json::Bool(false))]),
            true,
            vec![],
        ),
        (
            object(vec![("command_started", Json::Bool(true))]),
            false,
            vec![],
        ),
        (
            object(vec![("command_completed", Json::Bool(false))]),
            false,
            vec![],
        ),
        (object(vec![("state_changed", Json::Bool(true))]), true, vec![]),
        (
            object(vec![("state_changed", Json::text("yes"))]),
            false,
            vec![],
        ),
        (
            object(vec![
                ("job_id", Json::Null),
                ("state_changed", Json::Bool(false)),
            ]),
            true,
            vec![],
        ),
        (
            object(vec![
                ("job_id", Json::text("j")),
                ("command_completed", Json::Bool(true)),
            ]),
            true,
            vec![],
        ),
        (
            object(vec![
                ("job_id", Json::text("j")),
                ("command_started", Json::Bool(false)),
            ]),
            true,
            vec![],
        ),
        (
            object(vec![
                ("job_id", Json::text("j")),
                ("state_changed", Json::Bool(false)),
            ]),
            false,
            vec!["j"],
        ),
        (
            object(vec![
                ("execution_state", Json::text("outcome_unknown")),
                ("command_completed", Json::Bool(true)),
            ]),
            false,
            vec![],
        ),
        (
            object(vec![
                ("failure_kind", Json::text("lost")),
                ("command_completed", Json::Bool(true)),
            ]),
            false,
            vec![],
        ),
        (
            object(vec![
                ("failure_kind", Json::text("outcome_unknown")),
                ("command_completed", Json::Bool(true)),
            ]),
            false,
            vec![],
        ),
        (
            object(vec![
                ("command_execution_state", Json::text("lost")),
                ("command_completed", Json::Bool(true)),
            ]),
            true,
            vec![],
        ),
    ];
    for (output, quiescent, pending) in cases {
        let shown = format!("{output:?}");
        let mut registry = registry();
        run(&mut registry, "p", &ToolResult::ok(output));
        assert_eq!(registry.capture("p").unwrap().quiescent, quiescent, "{shown}");
        assert_eq!(registry.pending_jobs("p"), pending, "{shown}");
    }
}

#[test]
fn what_two_fences_say() {
    let fence = |epoch: &str, generation: u64, quiescent: bool| ValidationSourceFence {
        epoch: epoch.to_string(),
        generation,
        quiescent,
    };
    let between = |a: Option<&ValidationSourceFence>, b: Option<&ValidationSourceFence>| {
        let state = ValidationSourceState::observe(a, b);
        (state.observed_mutation_fence, state.freshness)
    };
    let a = fence("e", 1, true);
    let unknown = (ObservedMutationFence::Unknown, ValidationFreshness::Unproven);
    assert_eq!(between(None, None), unknown);
    assert_eq!(between(Some(&a), None), unknown);
    assert_eq!(between(None, Some(&a)), unknown);
    assert_eq!(between(Some(&a), Some(&fence("f", 2, true))), unknown);
    assert_eq!(between(Some(&a), Some(&fence("e", 1, false))), unknown);
    assert_eq!(
        between(Some(&a), Some(&fence("e", 2, false))),
        (ObservedMutationFence::Crossed, ValidationFreshness::Stale)
    );
    assert_eq!(
        between(Some(&a), Some(&a)),
        (
            ObservedMutationFence::Uncrossed,
            ValidationFreshness::Unproven
        )
    );
}
