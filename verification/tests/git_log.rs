use tool_runtime::git_log::{
    git_log_args, git_log_next_skip, normalize_git_log_limit, normalize_git_log_skip,
    parse_git_log_commits, parse_git_log_refs, GitCommit,
};
use tool_runtime::git_log_session::{
    git_log, git_log_suggested_call, GitLogRequest, ProcessRequest, Question, Reply, Step,
};
use tool_runtime::git_process::{completed_git_process, GitProcessOutput};
use tool_runtime::json::Json;
use tool_runtime::tool_result::{SuggestedToolCall, ToolResult};

const HASH: &str = "0123456789abcdef0123456789abcdef01234567";
const OTHER: &str = "89abcdef0123456789abcdef0123456789abcdef";

fn is_object_id(text: &str) -> bool {
    text.len() == 40 && text.chars().all(|c| c.is_ascii_hexdigit())
}

fn normalize(text: &str) -> Result<String, String> {
    if is_object_id(text) {
        Ok(text.to_ascii_lowercase())
    } else {
        Err("invalid_commit_id".to_string())
    }
}

fn object(members: Vec<(&str, Json)>) -> Json {
    let mut value = Json::object();
    for (name, member) in members {
        value = value.with(name, member);
    }
    value
}

fn member<'a>(value: &'a Json, name: &str) -> &'a Json {
    value.get(name).unwrap()
}

fn record(hash: &str, refs: &str, subject: &str) -> String {
    format!("{hash}\u{1f}{}\u{1f}{refs}\u{1f}Ann\u{1f}ann@example.org\u{1f}2024-01-02T03:04:05+00:00\u{1f}{subject}\u{1e}", &hash[..7])
}

fn process(exit_code: u64, stdout: &str, truncated: bool) -> ToolResult {
    ToolResult::ok(object(vec![
        ("execution_state", Json::text("completed")),
        ("exit_code", Json::Unsigned(exit_code)),
        ("stdout_tail", Json::text(stdout)),
        ("stderr_tail", Json::text("oops")),
        ("stdout_truncated", Json::Bool(truncated)),
    ]))
}

fn request(head_commit: Option<&str>, limit: Option<usize>, skip: Option<usize>) -> GitLogRequest {
    GitLogRequest {
        project: "demo".to_string(),
        head_commit: head_commit.map(|h| h.to_string()),
        limit,
        skip,
        session_id: Some("s-1".to_string()),
    }
}

/// Runs a session: `git` answers each command line, by its first argument.
fn answer(request: GitLogRequest, git: impl Fn(&ProcessRequest) -> ToolResult) -> ToolResult {
    let mut step = git_log(request);
    for _ in 0..7 {
        match step {
            Step::Answer(result) => return result,
            Step::Unresolved(error) => panic!("{error}"),
            Step::Ask(session, question) => {
                let reply = match question {
                    Question::CommitId(text) => Reply::CommitId(normalize(&text)),
                    Question::Project(name) => Reply::Project(Ok(format!("id-of-{name}"))),
                    Question::Process(request) => {
                        assert_eq!(request.project, "id-of-demo");
                        assert_eq!(request.program, "git");
                        assert_eq!(request.timeout_secs, 30);
                        Reply::Process(git(&request))
                    }
                    Question::SuggestedCall(call) => Reply::SuggestedCall(object(vec![
                        ("tool", Json::text(&call.tool)),
                        ("arguments", call.arguments),
                    ])),
                };
                assert!(session.takes(&reply));
                step = session.advance(reply, is_object_id);
            }
        }
    }
    panic!("too many questions");
}

#[test]
fn completed_git_process_rejects_malformed_success() {
    let result = completed_git_process(ToolResult::ok(Json::object()));
    let error = match result {
        Ok(_) => panic!("malformed successful process result must fail closed"),
        Err(error) => error,
    };

    assert!(!error.success);
    assert_eq!(
        error.output.get("error_kind"),
        Some(&Json::text("source_incomplete"))
    );
    assert_eq!(error.output.get("state_changed"), Some(&Json::Bool(false)));
}

#[test]
fn a_completed_process_is_read() {
    assert_eq!(
        completed_git_process(process(3, "out", true)),
        Ok(GitProcessOutput {
            exit_code: 3,
            stdout: "out".to_string(),
            stderr: "oops".to_string(),
            stdout_truncated: true,
        })
    );
    let bare = ToolResult {
        success: false,
        output: object(vec![
            ("execution_state", Json::text("completed")),
            ("exit_code", Json::Negative(-1)),
            ("stdout_tail", Json::text("")),
        ]),
        error: Some("exit".to_string()),
    };
    assert_eq!(
        completed_git_process(bare),
        Ok(GitProcessOutput {
            exit_code: -1,
            stdout: String::new(),
            stderr: String::new(),
            stdout_truncated: false,
        })
    );
}

#[test]
fn an_incomplete_process_fails() {
    let outputs = || {
        vec![
            object(vec![("execution_state", Json::text("lost"))]),
            object(vec![
                ("execution_state", Json::text("completed")),
                ("exit_code", Json::Unsigned(2_147_483_648)),
                ("stdout_tail", Json::text("")),
            ]),
            object(vec![
                ("execution_state", Json::text("completed")),
                ("exit_code", Json::Fraction("0.5".to_string())),
                ("stdout_tail", Json::text("")),
            ]),
            object(vec![
                ("execution_state", Json::text("completed")),
                ("exit_code", Json::Unsigned(0)),
                ("stdout_tail", Json::Null),
            ]),
            Json::Array(Vec::new()),
        ]
    };
    for output in outputs() {
        let failed = completed_git_process(ToolResult::ok(output)).unwrap_err();
        assert_eq!(
            failed.error.as_deref(),
            Some("git process result is incomplete or malformed")
        );
    }
    for (output, same) in outputs().into_iter().zip(outputs()) {
        let result = ToolResult::err_with_output("no", output);
        assert_eq!(
            completed_git_process(result),
            Err(ToolResult::err_with_output("no", same))
        );
    }
}

#[test]
fn page_bounds() {
    assert_eq!(normalize_git_log_limit(None), 20);
    assert_eq!(normalize_git_log_limit(Some(0)), 20);
    assert_eq!(normalize_git_log_limit(Some(1)), 1);
    assert_eq!(normalize_git_log_limit(Some(100)), 100);
    assert_eq!(normalize_git_log_limit(Some(101)), 100);
    assert_eq!(normalize_git_log_skip(None), 0);
    assert_eq!(normalize_git_log_skip(Some(7)), 7);
    assert_eq!(normalize_git_log_skip(Some(10_001)), 10_000);
    assert_eq!(git_log_next_skip(40, 20, true), Some(60));
    assert_eq!(git_log_next_skip(40, 20, false), None);
    assert_eq!(git_log_next_skip(40, 0, true), None);
    assert_eq!(git_log_next_skip(9_980, 20, true), Some(10_000));
    assert_eq!(git_log_next_skip(9_981, 20, true), None);
    assert_eq!(git_log_next_skip(usize::MAX, 1, true), None);
}

#[test]
fn command_line() {
    assert_eq!(
        git_log_args(HASH, 20, 105),
        vec![
            "log",
            "--decorate=short",
            "--date=iso-strict",
            "--pretty=format:%H%x1f%h%x1f%D%x1f%an%x1f%ae%x1f%aI%x1f%s%x1e",
            "-n",
            "21",
            "--skip",
            "105",
            HASH,
        ]
    );
    assert_eq!(
        git_log_args(HASH, usize::MAX, 0)[5],
        usize::MAX.to_string()
    );
    assert_eq!(git_log_args(HASH, 0, 0)[7], "0");
}

#[test]
fn refs_in_a_decoration() {
    assert_eq!(
        parse_git_log_refs("HEAD -> main, tag: v1.0, origin/main,,  "),
        vec!["HEAD", "main", "v1.0", "origin/main"]
    );
    assert_eq!(
        parse_git_log_refs("a -> b -> c"),
        vec!["a".to_string(), "b -> c".to_string()]
    );
    assert_eq!(parse_git_log_refs("tag:  x "), vec!["x"]);
    assert_eq!(parse_git_log_refs("tag:"), vec!["tag:"]);
    assert!(parse_git_log_refs("").is_empty());
    assert_eq!(parse_git_log_refs("\u{a0}caf\u{e9}\u{3000}"), vec!["caf\u{e9}"]);
}

#[test]
fn commits_of_a_page() {
    let stdout = format!(
        "{}\n{}\n{}\n",
        record(HASH, "HEAD -> main", "first \u{1f} with a separator"),
        record(OTHER, "", ""),
        record(HASH, "tag: t", "third")
    );
    let (commits, truncated) = parse_git_log_commits(&stdout, 2, is_object_id).unwrap();
    assert!(truncated);
    assert_eq!(
        commits[0],
        GitCommit {
            hash: HASH.to_string(),
            short_hash: "0123456".to_string(),
            subject: "first \u{1f} with a separator".to_string(),
            author_name: "Ann".to_string(),
            author_email: "ann@example.org".to_string(),
            author_date: "2024-01-02T03:04:05+00:00".to_string(),
            refs: vec!["HEAD".to_string(), "main".to_string()],
        }
    );
    assert_eq!(commits[1].hash, OTHER);
    assert_eq!(commits.len(), 2);
    let (commits, truncated) = parse_git_log_commits(&stdout, 3, is_object_id).unwrap();
    assert_eq!(commits.len(), 3);
    assert!(!truncated);
    let (commits, truncated) = parse_git_log_commits(&stdout, 0, is_object_id).unwrap();
    assert!(commits.is_empty());
    assert!(truncated);
    assert_eq!(
        parse_git_log_commits("\r\n", 5, is_object_id),
        Ok((Vec::new(), false))
    );
}

#[test]
fn malformed_pages() {
    let cut_off = Err("git log source ended inside a record; retry with a smaller limit");
    let malformed =
        Err("git log source is incomplete or malformed; retry with a smaller limit");
    let good = record(HASH, "", "s");
    assert_eq!(
        parse_git_log_commits(&format!("{good}\nabc"), 5, is_object_id),
        cut_off
    );
    assert_eq!(
        parse_git_log_commits("abc\u{1e}", 5, is_object_id),
        malformed
    );
    let foreign = record("zzzzzzzzzz", "", "s");
    assert_eq!(parse_git_log_commits(&foreign, 5, is_object_id), malformed);
    // The record behind the page counts, those further on do not.
    assert_eq!(
        parse_git_log_commits(&format!("{good}{foreign}"), 1, is_object_id),
        malformed
    );
    assert!(parse_git_log_commits(&format!("{good}{good}{foreign}"), 1, is_object_id).is_ok());
}

#[test]
fn a_page_from_head() {
    let result = answer(request(None, Some(1), Some(4)), |request| {
        match request.args[0].as_str() {
            "rev-parse" => {
                assert_eq!(request.args, vec!["rev-parse", "--verify", "HEAD^{commit}"]);
                process(0, &format!(" {}\n", HASH.to_uppercase()), false)
            }
            "log" => {
                assert_eq!(request.args, git_log_args(HASH, 1, 4));
                process(
                    0,
                    &format!("{}\n{}", record(HASH, "main", "s"), record(OTHER, "", "t")),
                    false,
                )
            }
            other => panic!("{other}"),
        }
    });
    assert!(result.success);
    assert_eq!(result.error, None);
    let output = &result.output;
    assert_eq!(member(output, "project"), &Json::text("demo"));
    assert_eq!(member(output, "head_commit"), &Json::text(HASH));
    assert_eq!(member(output, "limit"), &Json::Unsigned(1));
    assert_eq!(member(output, "skip"), &Json::Unsigned(4));
    assert_eq!(member(output, "count"), &Json::Unsigned(1));
    assert_eq!(member(output, "truncated"), &Json::Bool(true));
    assert_eq!(member(output, "next_skip"), &Json::Unsigned(5));
    assert_eq!(
        member(output, "commits"),
        &Json::Array(vec![object(vec![
            ("hash", Json::text(HASH)),
            ("short_hash", Json::text("0123456")),
            ("subject", Json::text("s")),
            ("author_name", Json::text("Ann")),
            ("author_email", Json::text("ann@example.org")),
            ("author_date", Json::text("2024-01-02T03:04:05+00:00")),
            ("refs", Json::Array(vec![Json::text("main")])),
        ])])
    );
    let call = member(output, "suggested_call");
    assert_eq!(member(call, "tool"), &Json::text("git_log"));
    let arguments = member(call, "arguments");
    assert_eq!(member(arguments, "project"), &Json::text("id-of-demo"));
    assert_eq!(member(arguments, "head_commit"), &Json::text(HASH));
    assert_eq!(member(arguments, "limit"), &Json::Unsigned(1));
    assert_eq!(member(arguments, "skip"), &Json::Unsigned(5));
    assert_eq!(member(arguments, "session_id"), &Json::text("s-1"));
}

#[test]
fn a_page_from_a_requested_head() {
    let git = |request: &ProcessRequest| match request.args[0].as_str() {
        "cat-file" => {
            assert_eq!(request.args, vec!["cat-file", "-t", OTHER]);
            process(0, "commit\n", false)
        }
        "log" => process(0, &record(OTHER, "", "s"), false),
        other => panic!("{other}"),
    };
    let result = answer(request(Some(OTHER), None, None), git);
    assert!(result.success);
    assert_eq!(member(&result.output, "limit"), &Json::Unsigned(20));
    assert_eq!(member(&result.output, "next_skip"), &Json::Null);
    assert_eq!(result.output.get("suggested_call"), None);
}

#[test]
fn a_requested_head_that_is_no_commit_id() {
    let result = answer(request(Some("HEAD~1"), None, None), |_| panic!("no process"));
    assert_eq!(
        result,
        ToolResult::err_with_output(
            "git_log failed: invalid_commit_id",
            object(vec![
                ("project", Json::text("demo")),
                ("error_kind", Json::text("invalid_commit_id")),
                ("state_changed", Json::Bool(false)),
            ])
        )
    );
}

#[test]
fn an_unknown_project() {
    let step = match git_log(request(None, None, None)) {
        Step::Ask(session, Question::Project(name)) => {
            assert_eq!(name, "demo");
            assert!(!session.takes(&Reply::CommitId(Ok(HASH.to_string()))));
            session.advance(Reply::Project(Err("no such project".to_string())), is_object_id)
        }
        other => panic!("{other:?}"),
    };
    assert_eq!(step, Step::Unresolved("no such project".to_string()));
}

fn unavailable(head: Json) -> ToolResult {
    ToolResult::err_with_output(
        "git log snapshot is unavailable",
        object(vec![
            ("project", Json::text("demo")),
            ("head_commit", head),
            ("error_kind", Json::text("snapshot_unavailable")),
            ("state_changed", Json::Bool(false)),
        ]),
    )
}

#[test]
fn no_snapshot() {
    let result = answer(request(Some(HASH), None, None), |_| process(0, "tree", false));
    assert_eq!(result, unavailable(Json::text(HASH)));
    let result = answer(request(Some(HASH), None, None), |_| process(128, "commit", false));
    assert_eq!(result, unavailable(Json::text(HASH)));
    let result = answer(request(None, None, None), |_| process(0, "not an id", false));
    assert_eq!(result, unavailable(Json::Null));
    // HEAD names no branch.
    let result = answer(request(None, None, None), |_| process(1, "", false));
    assert_eq!(result, unavailable(Json::Null));
    // HEAD names a branch that exists.
    let result = answer(request(None, None, None), |request| {
        match request.args[0].as_str() {
            "rev-parse" => process(128, "", false),
            _ => process(0, "refs/heads/main\n", false),
        }
    });
    assert_eq!(result, unavailable(Json::Null));
}

#[test]
fn a_project_without_commits() {
    let result = answer(request(None, None, Some(3)), |request| {
        match request.args[0].as_str() {
            "rev-parse" => process(128, "", false),
            "symbolic-ref" => {
                assert_eq!(request.args, vec!["symbolic-ref", "-q", "HEAD"]);
                process(0, "refs/heads/main\n", false)
            }
            "show-ref" => {
                assert_eq!(
                    request.args,
                    vec!["show-ref", "--verify", "--quiet", "refs/heads/main"]
                );
                process(1, "", false)
            }
            other => panic!("{other}"),
        }
    });
    assert_eq!(
        result,
        ToolResult::ok(object(vec![
            ("project", Json::text("demo")),
            ("head_commit", Json::Null),
            ("limit", Json::Unsigned(20)),
            ("skip", Json::Unsigned(3)),
            ("count", Json::Unsigned(0)),
            ("truncated", Json::Bool(false)),
            ("next_skip", Json::Null),
            ("commits", Json::Array(Vec::new())),
        ]))
    );
}

fn incomplete(message: &str) -> ToolResult {
    ToolResult::err_with_output(
        message,
        object(vec![
            ("project", Json::text("demo")),
            ("error_kind", Json::text("source_incomplete")),
            ("state_changed", Json::Bool(false)),
        ]),
    )
}

#[test]
fn sources_that_were_cut_off() {
    let cut = |at: &'static str| {
        move |request: &ProcessRequest| {
            let command = request.args[0].as_str();
            let truncated = command == at;
            match command {
                "rev-parse" if at != "log" => process(128, "", truncated),
                "rev-parse" => process(0, HASH, truncated),
                "symbolic-ref" => process(0, "refs/heads/main", truncated),
                "show-ref" => process(1, "", truncated),
                "cat-file" => process(0, "commit", truncated),
                _ => process(0, &record(HASH, "", "s"), truncated),
            }
        }
    };
    for (at, head, message) in [
        ("cat-file", Some(HASH), "git object type result is incomplete"),
        ("rev-parse", None, "git HEAD result is incomplete"),
        ("symbolic-ref", None, "git symbolic HEAD result is incomplete"),
        ("show-ref", None, "git ref verification result is incomplete"),
        (
            "log",
            None,
            "git log source is incomplete; retry with a smaller limit",
        ),
    ] {
        assert_eq!(
            answer(request(head, None, None), cut(at)),
            incomplete(message),
            "{at}"
        );
    }
    let result = answer(request(Some(HASH), None, None), |request| {
        match request.args[0].as_str() {
            "cat-file" => process(0, "commit", false),
            _ => process(0, "half a record", false),
        }
    });
    assert_eq!(
        result,
        incomplete("git log source ended inside a record; retry with a smaller limit")
    );
}

#[test]
fn processes_that_failed() {
    let result = answer(request(Some(HASH), None, None), |request| {
        match request.args[0].as_str() {
            "cat-file" => process(0, "commit", false),
            _ => process(7, "", true),
        }
    });
    assert_eq!(
        result,
        ToolResult::err_with_output(
            "git log failed",
            object(vec![
                ("project", Json::text("demo")),
                ("head_commit", Json::text(HASH)),
                ("limit", Json::Unsigned(20)),
                ("skip", Json::Unsigned(0)),
                ("exit_code", Json::Unsigned(7)),
                ("stderr", Json::text("oops")),
            ])
        )
    );
    for head in [None, Some(HASH)] {
        let result = answer(request(head, None, None), |_| {
            ToolResult::err_with_output("agent is away", Json::text("x"))
        });
        assert_eq!(
            result,
            ToolResult::err_with_output("agent is away", Json::text("x"))
        );
    }
}

#[test]
fn proposed_call_without_a_session() {
    assert_eq!(
        git_log_suggested_call("p", HASH, 5, 10, None),
        SuggestedToolCall {
            tool: "git_log".to_string(),
            arguments: object(vec![
                ("project", Json::text("p")),
                ("head_commit", Json::text(HASH)),
                ("limit", Json::Unsigned(5)),
                ("skip", Json::Unsigned(10)),
            ]),
        }
    );
}

#[test]
fn following_the_pages_reads_every_commit_once() {
    let hash = |n: usize| format!("{n:040x}");
    let history: Vec<String> = (0..25).map(|n| record(&hash(n), "", &format!("s{n}"))).collect();
    let mut read = Vec::new();
    let mut skip = Some(0);
    while let Some(from) = skip {
        let shown: Vec<String> = history.iter().skip(from).take(8).cloned().collect();
        let (commits, truncated) =
            parse_git_log_commits(&shown.join("\n"), 7, is_object_id).unwrap();
        skip = git_log_next_skip(from, commits.len(), truncated);
        read.extend(commits.into_iter().map(|c| c.hash));
    }
    assert_eq!(read, (0..25).map(hash).collect::<Vec<_>>());
}
