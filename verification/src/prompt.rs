//! System prompts: instructions, and what is known of the environment.

use vstd::prelude::*;

use crate::text;

verus! {

/// Environment details rendered into the system prompt.
#[derive(Debug, PartialEq, Default)]
pub struct EnvironmentInfo {
    pub pwd: Option<String>,
    pub home: Option<String>,
    pub shell: Option<String>,
    pub operating_system: Option<String>,
    pub git_branch: Option<String>,
    pub git_repository: Option<String>,
    pub current_time: Option<String>,
    /// Contents of active project rule files, included verbatim.
    pub project_rules: Vec<String>,
}

#[verifier::ext_equal]
pub struct EnvironmentInfoView {
    pub pwd: Option<Seq<char>>,
    pub home: Option<Seq<char>>,
    pub shell: Option<Seq<char>>,
    pub operating_system: Option<Seq<char>>,
    pub git_branch: Option<Seq<char>>,
    pub git_repository: Option<Seq<char>>,
    pub current_time: Option<Seq<char>>,
    pub project_rules: Seq<Seq<char>>,
}

impl DeepView for EnvironmentInfo {
    type V = EnvironmentInfoView;

    open spec fn deep_view(&self) -> EnvironmentInfoView {
        EnvironmentInfoView {
            pwd: self.pwd.deep_view(),
            home: self.home.deep_view(),
            shell: self.shell.deep_view(),
            operating_system: self.operating_system.deep_view(),
            git_branch: self.git_branch.deep_view(),
            git_repository: self.git_repository.deep_view(),
            current_time: self.current_time.deep_view(),
            project_rules: self.project_rules.deep_view(),
        }
    }
}

impl Clone for EnvironmentInfo {
    fn clone(&self) -> (copy: Self)
        ensures
            copy.deep_view() == self.deep_view(),
    {
        let copy = EnvironmentInfo {
            pwd: self.pwd.clone(),
            home: self.home.clone(),
            shell: self.shell.clone(),
            operating_system: self.operating_system.clone(),
            git_branch: self.git_branch.clone(),
            git_repository: self.git_repository.clone(),
            current_time: self.current_time.clone(),
            project_rules: self.project_rules.clone(),
        };
        assert(copy.project_rules.deep_view() =~= self.project_rules.deep_view());
        copy
    }
}

pub const STATIC_INSTRUCTIONS: &'static str = "\
You are a coding agent running inside Warp, an agentic terminal, on the user's computer. \
You help with software engineering tasks: answering questions about code, fixing bugs, \
writing features, running commands, and operating developer tools on the user's behalf.

## How to work

- Gather context before acting: read the relevant files and search the codebase instead of guessing.
- Use the provided tools to inspect and modify the system; do not claim to have run a command or made an edit unless a tool call actually did it.
- Prefer targeted, minimal changes that match the style of the surrounding code.
- When a task requires several steps, keep going until it is done or you are blocked on input only the user can provide.
- If a command or edit fails, read the error, adjust, and retry rather than giving up.

## Tool usage

- Run shell commands with the shell tool; prefer non-interactive flags since there is no TTY for prompts.
- Read files with the file-reading tool rather than `cat`, and search with the grep/glob tools rather than spawning search commands, when those tools are available.
- Edit files through the editing tool with exact search/replace blocks; never rewrite a whole file when a targeted replacement will do.
- Treat destructive commands (deleting files, force-pushing, resetting git state) as off-limits unless the user explicitly asked for them.

## Output

- Be concise and direct; lead with the outcome.
- Reference files by path (with line numbers where useful) instead of pasting large file contents.
- If you could not complete something, say so plainly and explain what is missing.";

pub const SUGGESTION_INSTRUCTIONS: &'static str = "\
You generate a single passive prompt suggestion inside Warp, an agentic terminal. \
Given what just happened in the user's terminal (a completed command or a finished \
agent conversation), propose the one most useful next prompt the user could send to \
Warp's AI agent.

## How to work

- If a genuinely useful follow-up exists, call the `suggest_prompt` tool exactly once. \
Otherwise do not call it (reply with a brief note instead).
- Keep the `prompt` short and directly actionable — a single concrete step the agent can \
carry out immediately. When a command failed, the prompt should simply be to run the \
corrected command and show its output (include the exact corrected command).
- Do NOT ask the agent to explain, teach, summarize, or explore beyond that one step. No \
\"and explain why\", no extra investigation, no running searches or tests that were not \
requested. The fewer steps the accepted suggestion takes, the better.
- Ground the prompt in the actual context (use the real command, error text, and paths), \
never generic advice. Never suggest destructive actions.
- `label` is a short human-facing summary of the suggestion (a few words).

## Output

- At most one `suggest_prompt` call; no other tools exist in this mode.
- Any plain text you produce is not shown to the user, so do not put the suggestion there.";

/// The line for one detail of the environment; nothing where the detail is absent or empty.
pub open spec fn environment_line(label: Seq<char>, value: Option<Seq<char>>) -> Seq<char> {
    match value {
        Some(value) => if value.len() == 0 {
            Seq::empty()
        } else {
            "- "@ + label + ": "@ + value + "\n"@
        },
        None => Seq::empty(),
    }
}

/// The first `count` rules, each on lines of its own.
pub open spec fn rule_lines(rules: Seq<Seq<char>>, count: nat) -> Seq<char>
    decreases count,
{
    if count == 0 {
        Seq::empty()
    } else {
        rule_lines(rules, (count - 1) as nat) + "\n"@ + rules[count - 1] + "\n"@
    }
}

/// The block of the project rules; nothing where there are none.
pub open spec fn rules_block(rules: Seq<Seq<char>>) -> Seq<char> {
    if rules.len() == 0 {
        Seq::empty()
    } else {
        "\n## Project rules\n\nThe user has configured the following rules for this project. \
         Follow them:\n"@ + rule_lines(rules, rules.len())
    }
}

/// The details of the environment, each with its label, in the order in which a prompt gives them.
pub open spec fn environment_details(env: EnvironmentInfoView) -> Seq<
    (Seq<char>, Option<Seq<char>>),
> {
    seq![
        ("Working directory"@, env.pwd),
        ("Home directory"@, env.home),
        ("Shell"@, env.shell),
        ("Operating system"@, env.operating_system),
        ("Git branch"@, env.git_branch),
        ("Git repository"@, env.git_repository),
        ("Current time"@, env.current_time),
    ]
}

/// The lines of the first `count` details.
pub open spec fn detail_lines(env: EnvironmentInfoView, count: nat) -> Seq<char>
    decreases count,
{
    if count == 0 {
        Seq::empty()
    } else {
        detail_lines(env, (count - 1) as nat) + environment_line(
            environment_details(env)[count - 1].0,
            environment_details(env)[count - 1].1,
        )
    }
}

/// The system prompt of a turn: instructions, then what is known of the environment.
pub open spec fn prompt_text(instructions: Seq<char>, env: EnvironmentInfoView) -> Seq<char> {
    instructions + "\n\n## Environment\n"@ + detail_lines(env, environment_details(env).len())
        + rules_block(env.project_rules)
}

fn make_environment_line(label: &str, value: &Option<String>) -> (line: String)
    ensures
        line@ == environment_line(label@, value.deep_view()),
{
    match value {
        Some(value) => {
            if text::is_empty_text(value.as_str()) {
                return String::new();
            }
            let mut line = "- ".to_string();
            line.append(label);
            line.append(": ");
            line.append(value.as_str());
            line.append("\n");
            line
        },
        None => String::new(),
    }
}

fn make_rules_block(rules: &Vec<String>) -> (block: String)
    ensures
        block@ == rules_block(rules.deep_view()),
{
    if rules.len() == 0 {
        return String::new();
    }
    let mut lines = String::new();
    for i in 0..rules.len()
        invariant
            lines@ == rule_lines(rules.deep_view(), i as nat),
    {
        lines.append("\n");
        lines.append(rules[i].as_str());
        lines.append("\n");
    }
    let mut block =
        "\n## Project rules\n\nThe user has configured the following rules for this project. \
         Follow them:\n".to_string();
    block.append(lines.as_str());
    block
}

/// Composes a system prompt out of instructions and the environment.
pub fn compose_prompt(instructions: &str, env: &EnvironmentInfo) -> (prompt: String)
    ensures
        prompt@ == prompt_text(instructions@, env.deep_view()),
{
    let ghost view = env.deep_view();
    let mut lines = make_environment_line("Working directory", &env.pwd);
    assert(lines@ =~= detail_lines(view, 1)) by {
        assert(detail_lines(view, 0) == Seq::<char>::empty());
    }
    lines.append(make_environment_line("Home directory", &env.home).as_str());
    assert(lines@ == detail_lines(view, 2));
    lines.append(make_environment_line("Shell", &env.shell).as_str());
    assert(lines@ == detail_lines(view, 3));
    lines.append(make_environment_line("Operating system", &env.operating_system).as_str());
    assert(lines@ == detail_lines(view, 4));
    lines.append(make_environment_line("Git branch", &env.git_branch).as_str());
    assert(lines@ == detail_lines(view, 5));
    lines.append(make_environment_line("Git repository", &env.git_repository).as_str());
    assert(lines@ == detail_lines(view, 6));
    lines.append(make_environment_line("Current time", &env.current_time).as_str());
    assert(lines@ == detail_lines(view, 7));
    let mut prompt = instructions.to_string();
    prompt.append("\n\n## Environment\n");
    prompt.append(lines.as_str());
    prompt.append(make_rules_block(&env.project_rules).as_str());
    prompt
}

/// Composes the system prompt for an agent turn: the agent instructions plus an environment
/// block rendered from `env`.
pub fn build_system_prompt(env: &EnvironmentInfo) -> (prompt: String)
    ensures
        prompt@ == prompt_text(STATIC_INSTRUCTIONS@, env.deep_view()),
{
    compose_prompt(STATIC_INSTRUCTIONS, env)
}

/// Like [`build_system_prompt`], but for passive prompt suggestion turns: a one-shot, read-only
/// mode whose only tool is `suggest_prompt`.
pub fn build_suggestion_system_prompt(env: &EnvironmentInfo) -> (prompt: String)
    ensures
        prompt@ == prompt_text(SUGGESTION_INSTRUCTIONS@, env.deep_view()),
{
    compose_prompt(SUGGESTION_INSTRUCTIONS, env)
}

proof fn rule_in_lines(rules: Seq<Seq<char>>, at: int, count: nat)
    requires
        0 <= at < count <= rules.len(),
    ensures
        text::occurs_in(rule_lines(rules, count), rules[at]),
    decreases count,
{
    let before = rule_lines(rules, (count - 1) as nat);
    if at == count - 1 {
        text::part_of_middle(before + "\n"@, rules[at], "\n"@);
    } else {
        rule_in_lines(rules, at, (count - 1) as nat);
        text::part_of_middle(Seq::empty(), before, "\n"@ + rules[count - 1] + "\n"@);
        assert(Seq::<char>::empty() + before + ("\n"@ + rules[count - 1] + "\n"@) =~= rule_lines(
            rules,
            count,
        ));
        text::part_of_part(rule_lines(rules, count), before, rules[at]);
    }
}

/// A prompt begins with its instructions and holds every project rule verbatim.
pub proof fn prompt_holds_instructions_and_rules(
    instructions: Seq<char>,
    env: EnvironmentInfoView,
    at: int,
)
    requires
        0 <= at < env.project_rules.len(),
    ensures
        text::starts_with(prompt_text(instructions, env), instructions),
        text::occurs_in(prompt_text(instructions, env), env.project_rules[at]),
{
    let prompt = prompt_text(instructions, env);
    prompt_begins(instructions, env);
    let rules = env.project_rules;
    rule_in_lines(rules, at, rules.len());
    let lines = rule_lines(rules, rules.len());
    let head = prompt.take(prompt.len() - lines.len());
    assert(head + lines + Seq::empty() =~= prompt) by {
        assert(rules_block(rules).len() >= lines.len());
        assert(prompt.skip(prompt.len() - lines.len()) =~= lines);
    }
    text::part_of_middle(head, lines, Seq::empty());
    text::part_of_part(prompt, lines, rules[at]);
}

/// A prompt begins with its instructions, whatever the environment.
pub proof fn prompt_begins(instructions: Seq<char>, env: EnvironmentInfoView)
    ensures
        text::starts_with(prompt_text(instructions, env), instructions),
{
    let prompt = prompt_text(instructions, env);
    assert(prompt.subrange(0, instructions.len() as int) =~= instructions);
}

proof fn line_in_details(env: EnvironmentInfoView, at: int, count: nat)
    requires
        0 <= at < count <= 7,
    ensures
        text::occurs_in(
            detail_lines(env, count),
            environment_line(environment_details(env)[at].0, environment_details(env)[at].1),
        ),
    decreases count,
{
    let line = environment_line(environment_details(env)[at].0, environment_details(env)[at].1);
    let before = detail_lines(env, (count - 1) as nat);
    let last = environment_line(
        environment_details(env)[count - 1].0,
        environment_details(env)[count - 1].1,
    );
    if at == count - 1 {
        text::part_of_middle(before, line, Seq::empty());
        assert(before + line + Seq::empty() =~= detail_lines(env, count));
    } else {
        line_in_details(env, at, (count - 1) as nat);
        text::part_of_middle(Seq::empty(), before, last);
        assert(Seq::<char>::empty() + before + last =~= detail_lines(env, count));
        text::part_of_part(detail_lines(env, count), before, line);
    }
}

/// A prompt gives every detail of the environment that is known and not empty on a line of its
/// own, with its label.
pub proof fn prompt_holds_environment(instructions: Seq<char>, env: EnvironmentInfoView, at: int)
    requires
        0 <= at < environment_details(env).len(),
        environment_details(env)[at].1 is Some,
        environment_details(env)[at].1->0.len() > 0,
    ensures
        text::occurs_in(
            prompt_text(instructions, env),
            "- "@ + environment_details(env)[at].0 + ": "@ + environment_details(env)[at].1->0
                + "\n"@,
        ),
{
    let line = environment_line(environment_details(env)[at].0, environment_details(env)[at].1);
    let lines = detail_lines(env, 7);
    line_in_details(env, at, 7);
    let head = instructions + "\n\n## Environment\n"@;
    let tail = rules_block(env.project_rules);
    assert(head + lines + tail =~= prompt_text(instructions, env));
    text::part_of_middle(head, lines, tail);
    text::part_of_part(prompt_text(instructions, env), lines, line);
}

} // verus!
