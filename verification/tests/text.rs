use tool_runtime::digest::{hex_text, sha256};
use tool_runtime::git_fixture::{init_repo, isolate_git_environment, EnvChange};
use tool_runtime::json::Json;
use tool_runtime::process_cleanup::{
    taskkill_args, terminate_process_tree, wait_for_child, Cleanup, CleanupStep, Poll,
};
use tool_runtime::text::{
    chars_of, comes_before, decimal_text, find, split, split_at_most, starts_with, string_of,
    trim_text, Margin,
};
use tool_runtime::tool_effects::{
    observes_potential_mutation, observes_with_metadata, ToolCall, ToolCallKind, ToolEffect,
    ToolMetadata, ToolRisk,
};

#[test]
fn white_space_is_that_of_unicode() {
    for code in 0..=0x10_ffffu32 {
        if let Some(c) = char::from_u32(code) {
            assert_eq!(Margin::WhiteSpace.contains(c), c.is_whitespace(), "{code:x}");
            assert_eq!(Margin::LineBreaks.contains(c), c == '\n' || c == '\r');
        }
    }
}

#[test]
fn texts_are_handled_as_the_standard_library_does() {
    let samples = [
        "", " ", "a", " a b ", "a,b", ",", ",,", "a,,b,", "\u{3000}x\u{85}", "x -> y -> z",
        " -> ", "tag: t", "\u{1f600},\u{e9}",
    ];
    for s in samples {
        let chars = chars_of(s);
        assert_eq!(string_of(&chars), s);
        assert_eq!(trim_text(s), s.trim());
        let pieces: Vec<String> = split(&chars, ',').iter().map(string_of).collect();
        assert_eq!(pieces, s.split(',').collect::<Vec<_>>());
        for n in 0..4 {
            let pieces: Vec<String> = split_at_most(&chars, n, ',').iter().map(string_of).collect();
            assert_eq!(pieces, s.splitn(n, ',').collect::<Vec<_>>());
        }
        for t in samples {
            assert_eq!(comes_before(s, t), s < t, "{s:?} {t:?}");
            assert_eq!(starts_with(&chars, &chars_of(t)), s.starts_with(t));
            let at = s.find(t).map(|byte| s[..byte].chars().count());
            assert_eq!(find(&chars, &chars_of(t)), at);
        }
    }
}

#[test]
fn decimal_notation() {
    for n in [0, 9, 10, 101, 4096, 9_999_999, usize::MAX] {
        assert_eq!(decimal_text(n), n.to_string());
    }
}

#[test]
fn json_members() {
    let value = Json::object()
        .with("a", Json::Unsigned(1))
        .with("b", Json::Bool(true))
        .with("a", Json::text("later"));
    assert_eq!(value.text_member("a"), Some("later"));
    assert_eq!(value.bool_member("b"), Some(true));
    assert_eq!(value.bool_member("a"), None);
    assert_eq!(value.get("c"), None);
    assert_eq!(Json::Null.get("a"), None);
    assert_eq!(Json::Null.with("a", Json::Null), Json::Null);
    assert!(Json::Null.is_null());
    assert_eq!(Json::Unsigned(u64::MAX).as_i64(), None);
    assert_eq!(Json::Unsigned(5).as_i64(), Some(5));
    assert_eq!(Json::Negative(-5).as_i64(), Some(-5));
    assert_eq!(Json::signed(-5), Json::Negative(-5));
    assert_eq!(Json::optional_count(None), Json::Null);
}

#[test]
fn sha256_digests() {
    assert_eq!(
        sha256(b""),
        "e3b0c44298fc1c149afbf4c8996fb92427ae41e4649b934ca495991b7852b855"
    );
    assert_eq!(
        sha256(b"abc"),
        "ba7816bf8f01cfea414140de5dae2223b00361a396177a9cb410ff61f20015ad"
    );
    assert_eq!(hex_text(&vec![0x0a, 0x14, 0xff]), "0a14ff");
}

#[test]
fn fixture_environment() {
    let changes = isolate_git_environment(false);
    assert_eq!(changes.len(), 10);
    assert_eq!(
        changes[1],
        EnvChange::Assign("GIT_CONFIG_GLOBAL".to_string(), "/dev/null".to_string())
    );
    assert_eq!(
        changes[6],
        EnvChange::AssignBelowRoot(
            "GIT_CONFIG_VALUE_1".to_string(),
            ".webcodex-disabled-hooks".to_string()
        )
    );
    assert_eq!(changes[9], EnvChange::Remove("GIT_TEMPLATE_DIR".to_string()));
    assert_eq!(
        isolate_git_environment(true)[1],
        EnvChange::Assign("GIT_CONFIG_GLOBAL".to_string(), "NUL".to_string())
    );
    assert_eq!(
        init_repo(true),
        vec![
            vec!["init", "--initial-branch=main"],
            vec!["config", "core.autocrlf", "true"],
            vec!["config", "user.name", "WebCodex Test"],
            vec!["config", "user.email", "webcodex@example.invalid"],
        ]
    );
    assert_eq!(init_repo(false)[1][2], "false");
}

#[test]
fn process_cleanup_steps() {
    assert_eq!(wait_for_child(true, true), Poll::Ended);
    assert_eq!(wait_for_child(false, true), Poll::TimedOut);
    assert_eq!(wait_for_child(false, false), Poll::Again);
    assert_eq!(taskkill_args(4711), vec!["/PID", "4711", "/T", "/F"]);

    let path = |exits: &[Option<bool>]| {
        let mut done = Cleanup::Taskkill;
        for exit in exits {
            let step = terminate_process_tree(done, *exit);
            match step.taken() {
                Some(next) => done = next,
                None => return step,
            }
        }
        panic!("not at the end")
    };
    assert_eq!(path(&[Some(true), Some(true)]), CleanupStep::Ended);
    assert_eq!(path(&[Some(false), Some(false)]), CleanupStep::Ended);
    assert_eq!(path(&[None, None]), CleanupStep::TaskkillStuck);
    assert_eq!(path(&[None, Some(true), Some(true)]), CleanupStep::Ended);
    assert_eq!(
        path(&[None, Some(true), None, Some(true)]),
        CleanupStep::TaskkillFailed
    );
    assert_eq!(
        path(&[Some(false), None, Some(true)]),
        CleanupStep::TaskkillFailed
    );
    assert_eq!(path(&[Some(true), None, Some(true)]), CleanupStep::Ended);
    assert_eq!(path(&[Some(true), None, None]), CleanupStep::ChildStuck);
}

#[test]
fn potential_mutations() {
    let writes = ToolMetadata {
        requires_project: true,
        effect: ToolEffect::Other,
        shell_like: false,
        risk: ToolRisk::ProjectWrite,
    };
    let call = |name: &str, kind: ToolCallKind| ToolCall {
        name: name.to_string(),
        kind,
    };
    for name in [
        "code_mode_exec",
        "code_mode_exec_effectful",
        "code_mode_exec_mutating",
        "cargo_check",
        "cargo_test",
        "go_test",
    ] {
        assert!(!observes_potential_mutation(
            &call(name, ToolCallKind::Other),
            |_| panic!("not asked")
        ));
    }
    for (check, observed) in [(Some(true), false), (Some(false), true), (None, true)] {
        assert_eq!(
            observes_with_metadata(&call("fmt", ToolCallKind::CargoFmt { check }), &writes),
            observed
        );
    }
    let write_file = call("write_file", ToolCallKind::Other);
    assert!(observes_potential_mutation(&write_file, |name| {
        assert_eq!(name, "write_file");
        writes
    }));
    let cases = [
        (ToolMetadata { requires_project: false, ..writes }, false),
        (ToolMetadata { effect: ToolEffect::Observe, ..writes }, false),
        (ToolMetadata { risk: ToolRisk::JobRun, ..writes }, true),
        (ToolMetadata { risk: ToolRisk::CheckpointManage, ..writes }, true),
        (ToolMetadata { risk: ToolRisk::Other, ..writes }, false),
        (ToolMetadata { risk: ToolRisk::Other, shell_like: true, ..writes }, true),
    ];
    for (metadata, observed) in cases {
        assert_eq!(observes_with_metadata(&write_file, &metadata), observed);
    }
}
