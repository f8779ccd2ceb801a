//! Throw-away repositories for tests of workspace checkpoints: the environment in which
//! `git` runs there, and the commands that set one up.

use vstd::prelude::*;

use crate::text::strings;

verus! {

/// A change to the environment of a process.
#[derive(Debug, PartialEq, Eq)]
pub enum EnvChange {
    /// The variable is set to this text.
    Assign(String, String),
    /// The variable is set to the path of this name below the root of the repository.
    AssignBelowRoot(String, String),
    /// The variable is taken out.
    Remove(String),
}

/// What a change holds.
#[verifier::ext_equal]
pub enum EnvChangeModel {
    Assign(Seq<char>, Seq<char>),
    AssignBelowRoot(Seq<char>, Seq<char>),
    Remove(Seq<char>),
}

impl View for EnvChange {
    type V = EnvChangeModel;

    open spec fn view(&self) -> EnvChangeModel {
        match *self {
            EnvChange::Assign(name, value) => EnvChangeModel::Assign(name@, value@),
            EnvChange::AssignBelowRoot(name, value) => EnvChangeModel::AssignBelowRoot(name@, value@),
            EnvChange::Remove(name) => EnvChangeModel::Remove(name@),
        }
    }
}

/// What the changes hold.
pub open spec fn changes(v: Seq<EnvChange>) -> Seq<EnvChangeModel> {
    v.map_values(|c: EnvChange| c@)
}

/// The environment that keeps `git` from the configuration, the hooks, the templates and
/// the prompts of the machine it runs on.
pub open spec fn isolation(windows: bool) -> Seq<EnvChangeModel> {
    seq![
        EnvChangeModel::Assign("GIT_CONFIG_NOSYSTEM"@, "1"@),
        EnvChangeModel::Assign(
            "GIT_CONFIG_GLOBAL"@,
            if windows {
                "NUL"@
            } else {
                "/dev/null"@
            },
        ),
        EnvChangeModel::Assign("GIT_CONFIG_COUNT"@, "2"@),
        EnvChangeModel::Assign("GIT_CONFIG_KEY_0"@, "commit.gpgSign"@),
        EnvChangeModel::Assign("GIT_CONFIG_VALUE_0"@, "false"@),
        EnvChangeModel::Assign("GIT_CONFIG_KEY_1"@, "core.hooksPath"@),
        EnvChangeModel::AssignBelowRoot("GIT_CONFIG_VALUE_1"@, ".webcodex-disabled-hooks"@),
        EnvChangeModel::Assign("GIT_TERMINAL_PROMPT"@, "0"@),
        EnvChangeModel::Assign("GCM_INTERACTIVE"@, "Never"@),
        EnvChangeModel::Remove("GIT_TEMPLATE_DIR"@),
    ]
}

/// The change that sets the variable to that text.
fn assign(name: &str, value: &str) -> (r: EnvChange)
    ensures
        r@ == EnvChangeModel::Assign(name@, value@),
{
    EnvChange::Assign(name.to_owned(), value.to_owned())
}

/// The environment that keeps `git` from the configuration of the machine it runs on.
pub fn isolate_git_environment(windows: bool) -> (r: Vec<EnvChange>)
    ensures
        changes(r@) == isolation(windows),
{
    let r = vec![
        assign("GIT_CONFIG_NOSYSTEM", "1"),
        assign("GIT_CONFIG_GLOBAL", if windows { "NUL" } else { "/dev/null" }),
        assign("GIT_CONFIG_COUNT", "2"),
        assign("GIT_CONFIG_KEY_0", "commit.gpgSign"),
        assign("GIT_CONFIG_VALUE_0", "false"),
        assign("GIT_CONFIG_KEY_1", "core.hooksPath"),
        EnvChange::AssignBelowRoot(
            "GIT_CONFIG_VALUE_1".to_owned(),
            ".webcodex-disabled-hooks".to_owned(),
        ),
        assign("GIT_TERMINAL_PROMPT", "0"),
        assign("GCM_INTERACTIVE", "Never"),
        EnvChange::Remove("GIT_TEMPLATE_DIR".to_owned()),
    ];
    assert(changes(r@) == isolation(windows));
    r
}

/// The commands, each by its arguments.
pub open spec fn commands(v: Seq<Vec<String>>) -> Seq<Seq<Seq<char>>> {
    v.map_values(|c: Vec<String>| strings(c@))
}

/// The commands that set up an empty repository with one branch and an author.
pub open spec fn init_commands(autocrlf: bool) -> Seq<Seq<Seq<char>>> {
    seq![
        seq!["init"@, "--initial-branch=main"@],
        seq![
            "config"@,
            "core.autocrlf"@,
            if autocrlf {
                "true"@
            } else {
                "false"@
            },
        ],
        seq!["config"@, "user.name"@, "WebCodex Test"@],
        seq!["config"@, "user.email"@, "webcodex@example.invalid"@],
    ]
}

/// The command that configures the name to be that value.
fn config(name: &str, value: &str) -> (r: Vec<String>)
    ensures
        strings(r@) == seq!["config"@, name@, value@],
{
    let r = vec!["config".to_owned(), name.to_owned(), value.to_owned()];
    assert(strings(r@) == seq!["config"@, name@, value@]);
    r
}

/// The commands that set up an empty repository with one branch and an author.
pub fn init_repo(autocrlf: bool) -> (r: Vec<Vec<String>>)
    ensures
        commands(r@) == init_commands(autocrlf),
{
    let first = vec!["init".to_owned(), "--initial-branch=main".to_owned()];
    assert(strings(first@) == seq!["init"@, "--initial-branch=main"@]);
    let r = vec![
        first,
        config("core.autocrlf", if autocrlf { "true" } else { "false" }),
        config("user.name", "WebCodex Test"),
        config("user.email", "webcodex@example.invalid"),
    ];
    assert(commands(r@) =~= init_commands(autocrlf));
    r
}

/// An environment after the changes, one after the other; `below_root` gives the path of a
/// name below the root of the repository.
pub open spec fn changed(
    env: Map<Seq<char>, Seq<char>>,
    all: Seq<EnvChangeModel>,
    below_root: spec_fn(Seq<char>) -> Seq<char>,
) -> Map<Seq<char>, Seq<char>>
    decreases all.len(),
{
    if all.len() == 0 {
        env
    } else {
        let before = changed(env, all.drop_last(), below_root);
        match all.last() {
            EnvChangeModel::Assign(name, value) => before.insert(name, value),
            EnvChangeModel::AssignBelowRoot(name, value) => before.insert(name, below_root(value)),
            EnvChangeModel::Remove(name) => before.remove(name),
        }
    }
}

/// The names of the variables are different.
proof fn lemma_variable_names()
    ensures
        "GIT_CONFIG_NOSYSTEM"@.len() == 19 && "GIT_CONFIG_NOSYSTEM"@[4] == 'C',
        "GIT_CONFIG_GLOBAL"@.len() == 17,
        "GIT_CONFIG_COUNT"@.len() == 16 && "GIT_CONFIG_COUNT"@[4] == 'C' && "GIT_CONFIG_COUNT"@[11]
            == 'C',
        "GIT_CONFIG_KEY_0"@.len() == 16 && "GIT_CONFIG_KEY_0"@[4] == 'C' && "GIT_CONFIG_KEY_0"@[11]
            == 'K' && "GIT_CONFIG_KEY_0"@[15] == '0',
        "GIT_CONFIG_VALUE_0"@.len() == 18 && "GIT_CONFIG_VALUE_0"@[17] == '0',
        "GIT_CONFIG_KEY_1"@.len() == 16 && "GIT_CONFIG_KEY_1"@[4] == 'C' && "GIT_CONFIG_KEY_1"@[11]
            == 'K' && "GIT_CONFIG_KEY_1"@[15] == '1',
        "GIT_CONFIG_VALUE_1"@.len() == 18 && "GIT_CONFIG_VALUE_1"@[17] == '1',
        "GIT_TERMINAL_PROMPT"@.len() == 19 && "GIT_TERMINAL_PROMPT"@[4] == 'T',
        "GCM_INTERACTIVE"@.len() == 15,
        "GIT_TEMPLATE_DIR"@.len() == 16 && "GIT_TEMPLATE_DIR"@[4] == 'T',
{
    reveal_strlit("GIT_CONFIG_NOSYSTEM");
    reveal_strlit("GIT_CONFIG_GLOBAL");
    reveal_strlit("GIT_CONFIG_COUNT");
    reveal_strlit("GIT_CONFIG_KEY_0");
    reveal_strlit("GIT_CONFIG_VALUE_0");
    reveal_strlit("GIT_CONFIG_KEY_1");
    reveal_strlit("GIT_CONFIG_VALUE_1");
    reveal_strlit("GIT_TERMINAL_PROMPT");
    reveal_strlit("GCM_INTERACTIVE");
    reveal_strlit("GIT_TEMPLATE_DIR");
}

/// One change more.
proof fn lemma_one_change_more(
    env: Map<Seq<char>, Seq<char>>,
    all: Seq<EnvChangeModel>,
    n: int,
    below_root: spec_fn(Seq<char>) -> Seq<char>,
)
    requires
        0 <= n < all.len(),
    ensures
        ({
            let before = changed(env, all.take(n), below_root);
            changed(env, all.take(n + 1), below_root) == match all[n] {
                EnvChangeModel::Assign(name, value) => before.insert(name, value),
                EnvChangeModel::AssignBelowRoot(name, value) => before.insert(
                    name,
                    below_root(value),
                ),
                EnvChangeModel::Remove(name) => before.remove(name),
            }
        }),
{
    assert(all.take(n + 1).drop_last() == all.take(n));
    assert(all.take(n + 1).last() == all[n]);
}

/// Whatever the environment was: `git` reads no configuration of the machine and no
/// templates of it, signs nothing, runs no hooks but those in a directory below the root,
/// asks nothing; and every other variable is as it was.
pub proof fn law_git_is_isolated(
    env: Map<Seq<char>, Seq<char>>,
    windows: bool,
    below_root: spec_fn(Seq<char>) -> Seq<char>,
    other: Seq<char>,
)
    ensures
        ({
            let after = changed(env, isolation(windows), below_root);
            let has = |name: Seq<char>, value: Seq<char>|
                after.contains_key(name) && after[name] == value;
            &&& has("GIT_CONFIG_NOSYSTEM"@, "1"@)
            &&& windows ==> has("GIT_CONFIG_GLOBAL"@, "NUL"@)
            &&& !windows ==> has("GIT_CONFIG_GLOBAL"@, "/dev/null"@)
            &&& has("GIT_CONFIG_COUNT"@, "2"@)
            &&& has("GIT_CONFIG_KEY_0"@, "commit.gpgSign"@)
            &&& has("GIT_CONFIG_VALUE_0"@, "false"@)
            &&& has("GIT_CONFIG_KEY_1"@, "core.hooksPath"@)
            &&& has("GIT_CONFIG_VALUE_1"@, below_root(".webcodex-disabled-hooks"@))
            &&& has("GIT_TERMINAL_PROMPT"@, "0"@)
            &&& has("GCM_INTERACTIVE"@, "Never"@)
            &&& !after.contains_key("GIT_TEMPLATE_DIR"@)
            &&& other != "GIT_CONFIG_NOSYSTEM"@ && other != "GIT_CONFIG_GLOBAL"@ && other
                != "GIT_CONFIG_COUNT"@ && other != "GIT_CONFIG_KEY_0"@ && other
                != "GIT_CONFIG_VALUE_0"@ && other != "GIT_CONFIG_KEY_1"@ && other
                != "GIT_CONFIG_VALUE_1"@ && other != "GIT_TERMINAL_PROMPT"@ && other
                != "GCM_INTERACTIVE"@ && other != "GIT_TEMPLATE_DIR"@ ==> after.contains_key(other)
                == env.contains_key(other) && after[other] == env[other]
        }),
{
    lemma_variable_names();
    let all = isolation(windows);
    assert(all.take(0) == Seq::<EnvChangeModel>::empty());
    lemma_one_change_more(env, all, 0, below_root);
    lemma_one_change_more(env, all, 1, below_root);
    lemma_one_change_more(env, all, 2, below_root);
    lemma_one_change_more(env, all, 3, below_root);
    lemma_one_change_more(env, all, 4, below_root);
    lemma_one_change_more(env, all, 5, below_root);
    lemma_one_change_more(env, all, 6, below_root);
    lemma_one_change_more(env, all, 7, below_root);
    lemma_one_change_more(env, all, 8, below_root);
    lemma_one_change_more(env, all, 9, below_root);
    assert(all.take(10) == all);
}

/// A repository is set up with the branch `main` and an author in any case; only how line
/// ends are converted depends on the choice.
pub proof fn law_repository_is_set_up(autocrlf: bool)
    ensures
        init_commands(autocrlf).len() == 4,
        init_commands(autocrlf)[0] == seq!["init"@, "--initial-branch=main"@],
        init_commands(true)[1] == seq!["config"@, "core.autocrlf"@, "true"@],
        init_commands(false)[1] == seq!["config"@, "core.autocrlf"@, "false"@],
        init_commands(autocrlf)[2] == seq!["config"@, "user.name"@, "WebCodex Test"@],
        init_commands(autocrlf)[3] == seq!["config"@, "user.email"@, "webcodex@example.invalid"@],
{
}

/// A change holds its own name and value, and lists hold each change and each command in
/// its place.
pub proof fn law_change_holds_its_texts(change: EnvChange, v: Seq<EnvChange>, w: Seq<Vec<String>>)
    ensures
        changes(v).len() == v.len(),
        forall|i: int| 0 <= i < v.len() ==> changes(v)[i] == (#[trigger] v[i])@,
        commands(w).len() == w.len(),
        forall|i: int| 0 <= i < w.len() ==> commands(w)[i] == strings((#[trigger] w[i])@),
        match change {
            EnvChange::Assign(name, value) => change@ == EnvChangeModel::Assign(name@, value@),
            EnvChange::AssignBelowRoot(name, value) => change@ == EnvChangeModel::AssignBelowRoot(
                name@,
                value@,
            ),
            EnvChange::Remove(name) => change@ == EnvChangeModel::Remove(name@),
        },
{
}

} // verus!
