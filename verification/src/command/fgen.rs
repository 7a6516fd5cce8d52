//! SSH config template generation: the default template, the placeholder
//! substitutions, where the generated file goes, and the decisions of the
//! interactive prompts.

use vstd::prelude::*;

use crate::text::{
    concat2, chars_of, eq_ignore_ascii_case, eq_ignore_ascii_case_exec, lines, lines_str, owned, push_chars, push_str,
    replace_str, replace_str_of, string_from, trim, trim_chars, trim_str, vviews,
};
use crate::error::Error;
use crate::runner::is_err_with;
use crate::util::path::{join_path, path_join};

verus! {

/// Default template content created when no template exists.
pub const DEFAULT_TEMPLATE: &'static str = "# SSH config template for fterm\n\
# Placeholders: org.dev, org.env, org_dev, org_env\n\
#\n\
# Usage: fterm fgen\n\
#\n\
Host org.dev-*\n\
\x20 User deploy\n\
\x20 IdentityFile ~/.ssh/keys/org_dev/id_ed25519\n\
\x20 ProxyJump org.dev-bastion\n\
\x20 StrictHostKeyChecking yes\n\
\x20 IdentitiesOnly yes\n";

/// The template with its placeholders filled in: `org.dev` and `org.env`
/// become `<org>.<env>`, then `org_dev` and `org_env` become
/// `<org>_<env>`.
pub open spec fn substituted(template: Seq<char>, org: Seq<char>, env: Seq<char>) -> Seq<char> {
    let dotted = org + seq!['.'] + env;
    let underscored = org + seq!['_'] + env;
    replace_str(
        replace_str(replace_str(replace_str(template, "org.dev"@, dotted), "org.env"@, dotted), "org_dev"@, underscored),
        "org_env"@,
        underscored,
    )
}

fn replace_all(s: &str, pat: &str, rep: &str) -> (r: String)
    requires
        pat@.len() > 0,
    ensures
        r@ == replace_str(s@, pat@, rep@),
{
    let v = chars_of(s);
    let p = chars_of(pat);
    let q = chars_of(rep);
    let out = replace_str_of(v.as_slice(), p.as_slice(), q.as_slice());
    string_from(out.as_slice())
}

/// Apply the four placeholder substitutions to the template.
pub fn apply_substitutions(template: &str, org: &str, env: &str) -> (r: String)
    ensures
        r@ == substituted(template@, org@, env@),
{
    proof {
        reveal_strlit("org.dev");
        reveal_strlit("org.env");
        reveal_strlit("org_dev");
        reveal_strlit("org_env");
    }
    let mut dotted = owned(org);
    crate::text::push_char(&mut dotted, '.');
    push_str(&mut dotted, env);
    let mut underscored = owned(org);
    crate::text::push_char(&mut underscored, '_');
    push_str(&mut underscored, env);
    assert(dotted@ =~= org@ + seq!['.'] + env@);
    assert(underscored@ =~= org@ + seq!['_'] + env@);
    let a = replace_all(template, "org.dev", dotted.as_str());
    let b = replace_all(a.as_str(), "org.env", dotted.as_str());
    let c = replace_all(b.as_str(), "org_dev", underscored.as_str());
    replace_all(c.as_str(), "org_env", underscored.as_str())
}

/// `<ssh_home>/conf.d/envs/<org>/<env>.conf`.
pub open spec fn output_path(ssh_home: Seq<char>, org: Seq<char>, env: Seq<char>) -> Seq<char> {
    path_join(path_join(path_join(path_join(ssh_home, "conf.d"@), "envs"@), org), env + ".conf"@)
}

/// Get the output path for a generated config file.
pub fn get_output_path(ssh_home: &str, org: &str, env: &str) -> (r: String)
    ensures
        r@ == output_path(ssh_home@, org@, env@),
{
    let a = join_path(ssh_home, "conf.d");
    let b = join_path(a.as_str(), "envs");
    let c = join_path(b.as_str(), org);
    let mut name = owned(env);
    push_str(&mut name, ".conf");
    join_path(c.as_str(), name.as_str())
}

/// The template file inside the SSH directory.
pub fn template_path(ssh_home: &str) -> (r: String)
    ensures
        r@ == path_join(ssh_home@, "template.conf"@),
{
    join_path(ssh_home, "template.conf")
}

/// The directory the generated file goes into.
pub fn output_dir(ssh_home: &str, org: &str) -> (r: String)
    ensures
        r@ == path_join(path_join(path_join(ssh_home@, "conf.d"@), "envs"@), org@),
{
    let a = join_path(ssh_home, "conf.d");
    let b = join_path(a.as_str(), "envs");
    join_path(b.as_str(), org)
}

/// The preview lines of `ls`: each line indented by two spaces, at most
/// twenty, then `"  ..."` when more remain; every line ends with a newline.
pub open spec fn preview_lines(ls: Seq<Seq<char>>, shown: nat) -> Seq<char>
    decreases ls.len(),
{
    if ls.len() == 0 {
        Seq::empty()
    } else if shown >= 20 {
        "  ...\n"@
    } else {
        "  "@ + ls[0] + seq!['\n'] + preview_lines(ls.drop_first(), shown + 1)
    }
}

/// The preview of the generated config (see [`preview_lines`]).
pub fn show_preview(content: &str) -> (r: String)
    ensures
        r@ == preview_lines(lines(content@), 0),
{
    let ls = lines_str(content);
    let ghost all = vviews(ls@);
    let mut out = String::new();
    let mut i: usize = 0;
    assert(all.skip(0) =~= all);
    while i < ls.len()
        invariant
            i <= ls.len(),
            all == vviews(ls@),
            all == lines(content@),
            i <= 20,
            out@ + preview_lines(all.skip(i as int), i as nat) == preview_lines(all, 0),
        decreases ls.len() - i,
    {
        let ghost rest = all.skip(i as int);
        assert(rest.drop_first() =~= all.skip(i + 1));
        assert(rest[0] == ls@[i as int]@);
        if i >= 20 {
            push_str(&mut out, "  ...\n");
            assert(out@ =~= preview_lines(all, 0));
            return out;
        }
        push_str(&mut out, "  ");
        push_chars(&mut out, ls[i].as_slice());
        crate::text::push_char(&mut out, '\n');
        i = i + 1;
        assert(out@ + preview_lines(all.skip(i as int), i as nat) =~= preview_lines(all, 0));
    }
    assert(all.skip(i as int) =~= Seq::<Seq<char>>::empty());
    assert(out@ =~= preview_lines(all, 0));
    out
}

/// What to do after reading a required value on attempt `attempt`
/// (counting from 0).
#[derive(Debug, Clone, Copy, PartialEq, Eq, Structural)]
pub enum PromptStep {
    /// Take the value.
    Accept,
    /// Say that the input cannot be empty and ask again.
    Retry,
    /// Give up with an empty value.
    GiveUp,
}

/// The number of times a required value is asked for.
pub const PROMPT_ATTEMPTS: u8 = 3;

/// Decide after reading `value` (already trimmed) on attempt `attempt`:
/// a non-empty value is taken; an empty one is asked again, with a warning
/// before the last attempt, until the attempts run out.
pub fn prompt_step(attempt: u8, value: &str) -> (r: PromptStep)
    requires
        attempt < PROMPT_ATTEMPTS,
    ensures
        value@.len() > 0 ==> r == PromptStep::Accept,
        value@.len() == 0 && attempt < 2 ==> r == PromptStep::Retry,
        value@.len() == 0 && attempt == 2 ==> r == PromptStep::GiveUp,
{
    if !value.is_empty() {
        PromptStep::Accept
    } else if attempt < 2 {
        PromptStep::Retry
    } else {
        PromptStep::GiveUp
    }
}

/// The answer to the overwrite question is yes (`y`, any case, around
/// whitespace).
pub fn overwrite_confirmed(answer: &str) -> (r: bool)
    ensures
        r == eq_ignore_ascii_case(trim(answer@), "y"@),
{
    let t = trim_chars(chars_of(answer).as_slice());
    eq_ignore_ascii_case_exec(t.as_slice(), chars_of("y").as_slice())
}

/// A typed value as the prompt keeps it: without surrounding whitespace.
pub fn prompt_value(input: &str) -> (r: String)
    ensures
        r@ == trim(input@),
{
    trim_str(input)
}

/// Where the generator's dialogue stands, and what answer it awaits.
#[derive(Debug)]
pub enum FgenState {
    /// Nothing done yet (awaits `Start`).
    Begin,
    /// The template file is being created (awaits `Opened`).
    TemplateOpening,
    /// The creation of the default template is announced (awaits `Finished`).
    TemplateAnnounced,
    /// The default template's text is written (awaits `Finished`).
    TemplateWriting,
    /// Asking for the organization on attempt `attempt` (awaits `Line`).
    AskingOrg { attempt: u8 },
    /// Asking for the environment on attempt `attempt` (awaits `Line`).
    AskingEnv { org: String, attempt: u8 },
    /// Saying that the input cannot be empty before asking again for the
    /// organization (`env_of` is `None`) or the environment of the
    /// organization `env_of` (awaits `Finished`).
    Retrying { env_of: Option<String>, attempt: u8 },
    /// Reading the template (awaits `Text`).
    Reading { org: String, env: String },
    /// Creating the output directory `dir` for the file `path` (awaits
    /// `Finished`).
    MakingDir { dir: String, path: String, output: String },
    /// Creating the output file (awaits `Opened`).
    Creating { path: String, output: String },
    /// Asking whether to overwrite the existing output file (awaits `Line`).
    Confirming { path: String, output: String },
    /// Writing the output file (awaits `Finished`).
    Writing { path: String, output: String },
    /// Saying where the output went (awaits `Finished`).
    Reporting { output: String },
    /// Showing a last text before ending with `code`; `preview` says the
    /// text is the preview (awaits `Finished`).
    Closing { code: i32, preview: bool },
    /// The dialogue is over.
    Ended,
}

/// What the program hands back after doing an action.
#[derive(Debug)]
pub enum FgenEvent {
    /// The dialogue starts.
    Start,
    /// A file was created anew (`true`), or it already existed (`false`).
    Opened(Result<bool, Error>),
    /// A write or a directory creation finished.
    Finished(Result<(), Error>),
    /// A line typed by the user (the error under the action's contexts).
    Line(Result<String, Error>),
    /// The text of a file.
    Text(Result<String, Error>),
}

/// What the program does next.
#[derive(Debug)]
pub enum FgenAction {
    /// Create `path` only if it does not exist yet; answer `Opened`.
    CreateNew { path: String },
    /// Write `content` as the whole of the file `path`; answer `Finished`.
    WriteFile { path: String, content: String },
    /// Write `text` to the output; answer `Finished`.
    Show { text: String },
    /// Write `prompt`, flush the output and read a line; a failure to write
    /// or to flush is an error under `write_context` or `flush_context`, a
    /// failure to read one under `failed to read user input`; answer `Line`.
    Ask { prompt: String, write_context: String, flush_context: String },
    /// Read the file `path`; answer `Text`.
    ReadFile { path: String },
    /// Create the directory `path` and its parents; answer `Finished`.
    MakeDir { path: String },
    /// The dialogue is over with this outcome.
    Exit(Result<i32, Error>),
}

/// `state` awaits `Opened`.
pub open spec fn awaits_opened(state: FgenState) -> bool {
    state is TemplateOpening || state is Creating
}

/// `state` awaits `Line`.
pub open spec fn awaits_line(state: FgenState) -> bool {
    state is AskingOrg || state is AskingEnv || state is Confirming
}

/// `state` awaits `Finished`.
pub open spec fn awaits_finished(state: FgenState) -> bool {
    state is TemplateAnnounced || state is TemplateWriting || state is Retrying || state is MakingDir
        || state is Writing || state is Reporting || state is Closing
}

/// The event `event` is the answer that `state` awaits.
pub open spec fn fits(state: FgenState, event: FgenEvent) -> bool {
    match event {
        FgenEvent::Start => state is Begin,
        FgenEvent::Opened(_) => awaits_opened(state),
        FgenEvent::Finished(_) => awaits_finished(state),
        FgenEvent::Line(_) => awaits_line(state),
        FgenEvent::Text(_) => state is Reading,
    }
}

/// After `action`, the next state awaits the answer to that action, and
/// the dialogue has ended exactly when the action is `Exit`.
pub open spec fn awaits(state: FgenState, action: FgenAction) -> bool {
    match action {
        FgenAction::CreateNew { .. } => awaits_opened(state),
        FgenAction::WriteFile { .. } | FgenAction::Show { .. } | FgenAction::MakeDir { .. } => awaits_finished(state),
        FgenAction::Ask { .. } => awaits_line(state),
        FgenAction::ReadFile { .. } => state is Reading,
        FgenAction::Exit(_) => state is Ended,
    }
}

/// The organization prompt.
pub const ORG_LABEL: &'static str = "Organization (e.g., mycompany)";

/// The environment prompt.
pub const ENV_LABEL: &'static str = "Environment (e.g., dev, stg, prod)";

/// `action` writes `text`.
pub open spec fn shows(action: FgenAction, text: Seq<char>) -> bool {
    action matches FgenAction::Show { text: t } && t@ == text
}

/// `action` ends the dialogue with the error chain `chain`.
pub open spec fn exits_with_error(action: FgenAction, chain: Seq<Seq<char>>) -> bool {
    action matches FgenAction::Exit(r) && is_err_with(r, chain)
}

/// `action` writes `prompt` and reads a line, with the given contexts for
/// a failure to write or to flush.
pub open spec fn asks(action: FgenAction, prompt: Seq<char>, wctx: Seq<char>, fctx: Seq<char>) -> bool {
    action matches FgenAction::Ask { prompt: p, write_context: w, flush_context: f } && p@ == prompt && w@ == wctx
        && f@ == fctx
}

/// `action` ends the dialogue with exit code `code`.
pub open spec fn exits_with_code(action: FgenAction, code: i32) -> bool {
    action matches FgenAction::Exit(Ok(c)) && c == code
}

/// `action` asks for a value with the prompt `label: `.
pub open spec fn asks_value(action: FgenAction, label: Seq<char>) -> bool {
    asks(action, label + ": "@, "failed to flush stdout"@, "failed to flush stdout"@)
}

/// `action` creates `path` anew.
pub open spec fn creates(action: FgenAction, path: Seq<char>) -> bool {
    action matches FgenAction::CreateNew { path: p } && p@ == path
}

/// `action` writes `content` as the file `path`.
pub open spec fn writes(action: FgenAction, path: Seq<char>, content: Seq<char>) -> bool {
    action matches FgenAction::WriteFile { path: p, content: c } && p@ == path && c@ == content
}

/// `action` reads the file `path`.
pub open spec fn reads(action: FgenAction, path: Seq<char>) -> bool {
    action matches FgenAction::ReadFile { path: p } && p@ == path
}

/// `action` creates the directory `path`.
pub open spec fn makes_dir(action: FgenAction, path: Seq<char>) -> bool {
    action matches FgenAction::MakeDir { path: p } && p@ == path
}

/// `state` asks for the environment of `org` on attempt `attempt`.
pub open spec fn is_asking_env(state: FgenState, org: Seq<char>, attempt: u8) -> bool {
    state matches FgenState::AskingEnv { org: o, attempt: a } && o@ == org && a == attempt
}

/// `state` reads the template for `org` and `env`.
pub open spec fn is_reading(state: FgenState, org: Seq<char>, env: Seq<char>) -> bool {
    state matches FgenState::Reading { org: o, env: e } && o@ == org && e@ == env
}

/// `state` retries the organization (`org` is `None`) or the environment
/// of `org` on attempt `attempt`.
pub open spec fn is_retrying(state: FgenState, org: Option<Seq<char>>, attempt: u8) -> bool {
    state matches FgenState::Retrying { env_of: o, attempt: a } && a == attempt && match o {
        None => org is None,
        Some(x) => org == Some(x@),
    }
}

/// `state` creates the directory `dir` for the file `path` of `output`.
pub open spec fn is_making_dir(state: FgenState, dir: Seq<char>, path: Seq<char>, output: Seq<char>) -> bool {
    state matches FgenState::MakingDir { dir: d, path: p, output: o } && d@ == dir && p@ == path && o@ == output
}

/// `state` creates the file `path` of `output`.
pub open spec fn is_creating(state: FgenState, path: Seq<char>, output: Seq<char>) -> bool {
    state matches FgenState::Creating { path: p, output: o } && p@ == path && o@ == output
}

/// `state` confirms overwriting the file `path` with `output`.
pub open spec fn is_confirming(state: FgenState, path: Seq<char>, output: Seq<char>) -> bool {
    state matches FgenState::Confirming { path: p, output: o } && p@ == path && o@ == output
}

/// `state` writes `output` as the file `path`.
pub open spec fn is_writing(state: FgenState, path: Seq<char>, output: Seq<char>) -> bool {
    state matches FgenState::Writing { path: p, output: o } && p@ == path && o@ == output
}

/// `state` reports the written `output`.
pub open spec fn is_reporting(state: FgenState, output: Seq<char>) -> bool {
    state matches FgenState::Reporting { output: o } && o@ == output
}

/// The next step for a value read on attempt `attempt` when asking for the
/// organization (`org` is `None`) or the environment of `org`: a value is
/// taken, an empty one asked again after a warning, and after the last
/// attempt the dialogue ends with exit code 1 and an error text.
pub open spec fn value_step(
    ssh_home: Seq<char>,
    org: Option<Seq<char>>,
    attempt: u8,
    value: Seq<char>,
    next: FgenState,
    action: FgenAction,
) -> bool {
    if value.len() > 0 {
        match org {
            None => is_asking_env(next, value, 0) && asks_value(action, ENV_LABEL@),
            Some(o) => is_reading(next, o, value) && reads(action, path_join(ssh_home, "template.conf"@)),
        }
    } else if attempt < 2 {
        is_retrying(next, org, (attempt + 1) as u8) && shows(action, "Input cannot be empty. Please try again.\n"@)
    } else {
        next == FgenState::Closing { code: 1, preview: false } && shows(
            action,
            match org {
                None => "Error: Organization name cannot be empty.\n"@,
                Some(_) => "Error: Environment name cannot be empty.\n"@,
            },
        )
    }
}

/// The directory that the output for `org` goes into.
pub open spec fn output_dir_of(ssh_home: Seq<char>, org: Seq<char>) -> Seq<char> {
    path_join(path_join(path_join(ssh_home, "conf.d"@), "envs"@), org)
}

/// One step of the generator's dialogue in the SSH directory `ssh_home`:
/// from `state`, on the answer `event`, to `next`, doing `action`.
pub open spec fn fgen_step_is(
    ssh_home: Seq<char>,
    state: FgenState,
    event: FgenEvent,
    next: FgenState,
    action: FgenAction,
) -> bool {
    let template = path_join(ssh_home, "template.conf"@);
    match state {
        FgenState::Begin => next is TemplateOpening && creates(action, template),
        FgenState::TemplateOpening => match event {
            FgenEvent::Opened(Ok(true)) => next is TemplateAnnounced && shows(
                action,
                "Creating default template: "@ + template + "\n"@,
            ),
            FgenEvent::Opened(Ok(false)) => next == FgenState::AskingOrg { attempt: 0 } && asks_value(action, ORG_LABEL@),
            FgenEvent::Opened(Err(e)) => next is Ended && exits_with_error(
                action,
                seq!["failed to create default template: "@ + template] + e@,
            ),
            _ => false,
        },
        FgenState::TemplateAnnounced => match event {
            FgenEvent::Finished(Ok(())) => next is TemplateWriting && writes(action, template, DEFAULT_TEMPLATE@),
            FgenEvent::Finished(Err(e)) => next is Ended && exits_with_error(action, seq!["failed to write output"@] + e@),
            _ => false,
        },
        FgenState::TemplateWriting => match event {
            FgenEvent::Finished(Ok(())) => next == FgenState::Closing { code: 0, preview: false } && shows(
                action,
                "Template created. Please edit it before running fgen again.\n"@,
            ),
            FgenEvent::Finished(Err(e)) => next is Ended && exits_with_error(
                action,
                seq!["failed to create default template: "@ + template] + e@,
            ),
            _ => false,
        },
        FgenState::AskingOrg { attempt } => match event {
            FgenEvent::Line(Ok(line)) => value_step(ssh_home, None, attempt, trim(line@), next, action),
            FgenEvent::Line(Err(e)) => next is Ended && exits_with_error(action, e@),
            _ => false,
        },
        FgenState::AskingEnv { org, attempt } => match event {
            FgenEvent::Line(Ok(line)) => value_step(ssh_home, Some(org@), attempt, trim(line@), next, action),
            FgenEvent::Line(Err(e)) => next is Ended && exits_with_error(action, e@),
            _ => false,
        },
        FgenState::Retrying { env_of, attempt } => match event {
            FgenEvent::Finished(Ok(())) => match env_of {
                None => next == FgenState::AskingOrg { attempt } && asks_value(action, ORG_LABEL@),
                Some(o) => is_asking_env(next, o@, attempt) && asks_value(action, ENV_LABEL@),
            },
            FgenEvent::Finished(Err(e)) => next is Ended && exits_with_error(action, seq!["failed to write output"@] + e@),
            _ => false,
        },
        FgenState::Reading { org, env } => match event {
            FgenEvent::Text(Ok(t)) => is_making_dir(
                next,
                output_dir_of(ssh_home, org@),
                output_path(ssh_home, org@, env@),
                substituted(t@, org@, env@),
            ) && makes_dir(action, output_dir_of(ssh_home, org@)),
            FgenEvent::Text(Err(e)) => next is Ended && exits_with_error(
                action,
                seq!["failed to read template: "@ + template] + e@,
            ),
            _ => false,
        },
        FgenState::MakingDir { dir, path, output } => match event {
            FgenEvent::Finished(Ok(())) => is_creating(next, path@, output@) && creates(action, path@),
            FgenEvent::Finished(Err(e)) => next is Ended && exits_with_error(
                action,
                seq!["failed to create output directory: "@ + dir@] + e@,
            ),
            _ => false,
        },
        FgenState::Creating { path, output } => match event {
            FgenEvent::Opened(Ok(true)) => is_writing(next, path@, output@) && writes(action, path@, output@),
            FgenEvent::Opened(Ok(false)) => is_confirming(next, path@, output@) && asks(
                action,
                "File already exists: "@ + path@ + ". Overwrite? [y/N]: "@,
                "failed to write output"@,
                "failed to flush output"@,
            ),
            FgenEvent::Opened(Err(e)) => next is Ended && exits_with_error(
                action,
                seq!["failed to write generated config: "@ + path@] + e@,
            ),
            _ => false,
        },
        FgenState::Confirming { path, output } => match event {
            FgenEvent::Line(Ok(answer)) => if eq_ignore_ascii_case(trim(answer@), "y"@) {
                is_writing(next, path@, output@) && writes(action, path@, output@)
            } else {
                next == FgenState::Closing { code: 1, preview: false } && shows(action, "Aborted.\n"@)
            },
            FgenEvent::Line(Err(e)) => next is Ended && exits_with_error(action, e@),
            _ => false,
        },
        FgenState::Writing { path, output } => match event {
            FgenEvent::Finished(Ok(())) => is_reporting(next, output@) && shows(
                action,
                "Generated: "@ + path@ + "\n\nPreview (first 20 lines):\n"@,
            ),
            FgenEvent::Finished(Err(e)) => next is Ended && exits_with_error(
                action,
                seq!["failed to write generated config: "@ + path@] + e@,
            ),
            _ => false,
        },
        FgenState::Reporting { output } => match event {
            FgenEvent::Finished(Ok(())) => next == FgenState::Closing { code: 0, preview: true } && shows(
                action,
                preview_lines(lines(output@), 0),
            ),
            FgenEvent::Finished(Err(e)) => next is Ended && exits_with_error(action, seq!["failed to write output"@] + e@),
            _ => false,
        },
        FgenState::Closing { code, preview } => match event {
            FgenEvent::Finished(Ok(())) => next is Ended && exits_with_code(action, code),
            FgenEvent::Finished(Err(e)) => next is Ended && exits_with_error(
                action,
                seq![if preview { "failed to write preview"@ } else { "failed to write output"@ }] + e@,
            ),
            _ => false,
        },
        FgenState::Ended => false,
    }
}

/// Attempts stay within the allowed number.
pub open spec fn fgen_state_wf(state: FgenState) -> bool {
    match state {
        FgenState::AskingOrg { attempt } => attempt < PROMPT_ATTEMPTS,
        FgenState::AskingEnv { attempt, .. } => attempt < PROMPT_ATTEMPTS,
        FgenState::Retrying { attempt, .. } => attempt < PROMPT_ATTEMPTS,
        _ => true,
    }
}

fn show(text: String) -> (a: FgenAction)
    ensures
        shows(a, text@),
{
    FgenAction::Show { text }
}

fn fail(ctx: String, e: Error) -> (a: FgenAction)
    ensures
        exits_with_error(a, seq![ctx@] + e@),
{
    FgenAction::Exit(Err(e.context(ctx)))
}

fn ask_value(label: &str) -> (a: FgenAction)
    ensures
        asks_value(a, label@),
{
    let mut prompt = owned(label);
    push_str(&mut prompt, ": ");
    FgenAction::Ask {
        prompt,
        write_context: owned("failed to flush stdout"),
        flush_context: owned("failed to flush stdout"),
    }
}

fn value_step_exec(ssh_home: &str, org: Option<String>, attempt: u8, value: String) -> (r: (FgenState, FgenAction))
    requires
        attempt < PROMPT_ATTEMPTS,
    ensures
        value_step(
            ssh_home@,
            match org {
                Some(o) => Some(o@),
                None => None,
            },
            attempt,
            value@,
            r.0,
            r.1,
        ),
        fgen_state_wf(r.0),
        awaits(r.0, r.1),
{
    match prompt_step(attempt, value.as_str()) {
        PromptStep::Accept => match org {
            None => (FgenState::AskingEnv { org: value, attempt: 0 }, ask_value(ENV_LABEL)),
            Some(o) => {
                let path = template_path(ssh_home);
                (FgenState::Reading { org: o, env: value }, FgenAction::ReadFile { path })
            },
        },
        PromptStep::Retry => (
            FgenState::Retrying { env_of: org, attempt: attempt + 1 },
            show(owned("Input cannot be empty. Please try again.\n")),
        ),
        PromptStep::GiveUp => {
            let text = match org {
                None => owned("Error: Organization name cannot be empty.\n"),
                Some(_) => owned("Error: Environment name cannot be empty.\n"),
            };
            (FgenState::Closing { code: 1, preview: false }, show(text))
        },
    }
}

/// One step of the generator's dialogue in the SSH directory `ssh_home`
/// (see [`fgen_step_is`]): the program starts from `Begin` with `Start`,
/// does each action and answers it, until the action is `Exit`.
pub fn fgen_step(ssh_home: &str, state: FgenState, event: FgenEvent) -> (r: (FgenState, FgenAction))
    requires
        fits(state, event),
        fgen_state_wf(state),
    ensures
        fgen_step_is(ssh_home@, state, event, r.0, r.1),
        fgen_state_wf(r.0),
        awaits(r.0, r.1),
{
    let template = template_path(ssh_home);
    match state {
        FgenState::Begin => (FgenState::TemplateOpening, FgenAction::CreateNew { path: template }),
        FgenState::TemplateOpening => match event {
            FgenEvent::Opened(Ok(true)) => {
                let mut text = owned("Creating default template: ");
                push_str(&mut text, template.as_str());
                push_str(&mut text, "\n");
                (FgenState::TemplateAnnounced, show(text))
            },
            FgenEvent::Opened(Ok(false)) => (FgenState::AskingOrg { attempt: 0 }, ask_value(ORG_LABEL)),
            FgenEvent::Opened(Err(e)) => (
                FgenState::Ended,
                fail(concat2("failed to create default template: ", template.as_str()), e),
            ),
            _ => (FgenState::Ended, FgenAction::Exit(Ok(1))),
        },
        FgenState::TemplateAnnounced => match event {
            FgenEvent::Finished(Ok(())) => (
                FgenState::TemplateWriting,
                FgenAction::WriteFile { path: template, content: owned(DEFAULT_TEMPLATE) },
            ),
            FgenEvent::Finished(Err(e)) => (FgenState::Ended, fail(owned("failed to write output"), e)),
            _ => (FgenState::Ended, FgenAction::Exit(Ok(1))),
        },
        FgenState::TemplateWriting => match event {
            FgenEvent::Finished(Ok(())) => (
                FgenState::Closing { code: 0, preview: false },
                show(owned("Template created. Please edit it before running fgen again.\n")),
            ),
            FgenEvent::Finished(Err(e)) => (
                FgenState::Ended,
                fail(concat2("failed to create default template: ", template.as_str()), e),
            ),
            _ => (FgenState::Ended, FgenAction::Exit(Ok(1))),
        },
        FgenState::AskingOrg { attempt } => match event {
            FgenEvent::Line(Ok(line)) => value_step_exec(ssh_home, None, attempt, prompt_value(line.as_str())),
            FgenEvent::Line(Err(e)) => (FgenState::Ended, FgenAction::Exit(Err(e))),
            _ => (FgenState::Ended, FgenAction::Exit(Ok(1))),
        },
        FgenState::AskingEnv { org, attempt } => match event {
            FgenEvent::Line(Ok(line)) => value_step_exec(ssh_home, Some(org), attempt, prompt_value(line.as_str())),
            FgenEvent::Line(Err(e)) => (FgenState::Ended, FgenAction::Exit(Err(e))),
            _ => (FgenState::Ended, FgenAction::Exit(Ok(1))),
        },
        FgenState::Retrying { env_of, attempt } => match event {
            FgenEvent::Finished(Ok(())) => match env_of {
                None => (FgenState::AskingOrg { attempt }, ask_value(ORG_LABEL)),
                Some(o) => (FgenState::AskingEnv { org: o, attempt }, ask_value(ENV_LABEL)),
            },
            FgenEvent::Finished(Err(e)) => (FgenState::Ended, fail(owned("failed to write output"), e)),
            _ => (FgenState::Ended, FgenAction::Exit(Ok(1))),
        },
        FgenState::Reading { org, env } => match event {
            FgenEvent::Text(Ok(t)) => {
                let output = apply_substitutions(t.as_str(), org.as_str(), env.as_str());
                let dir = output_dir(ssh_home, org.as_str());
                let path = get_output_path(ssh_home, org.as_str(), env.as_str());
                let d2 = dir.clone();
                (FgenState::MakingDir { dir, path, output }, FgenAction::MakeDir { path: d2 })
            },
            FgenEvent::Text(Err(e)) => (
                FgenState::Ended,
                fail(concat2("failed to read template: ", template.as_str()), e),
            ),
            _ => (FgenState::Ended, FgenAction::Exit(Ok(1))),
        },
        FgenState::MakingDir { dir, path, output } => match event {
            FgenEvent::Finished(Ok(())) => {
                let p2 = path.clone();
                (FgenState::Creating { path, output }, FgenAction::CreateNew { path: p2 })
            },
            FgenEvent::Finished(Err(e)) => (
                FgenState::Ended,
                fail(concat2("failed to create output directory: ", dir.as_str()), e),
            ),
            _ => (FgenState::Ended, FgenAction::Exit(Ok(1))),
        },
        FgenState::Creating { path, output } => match event {
            FgenEvent::Opened(Ok(true)) => {
                let p2 = path.clone();
                let o2 = output.clone();
                (FgenState::Writing { path, output }, FgenAction::WriteFile { path: p2, content: o2 })
            },
            FgenEvent::Opened(Ok(false)) => {
                let mut prompt = owned("File already exists: ");
                push_str(&mut prompt, path.as_str());
                push_str(&mut prompt, ". Overwrite? [y/N]: ");
                (
                    FgenState::Confirming { path, output },
                    FgenAction::Ask {
                        prompt,
                        write_context: owned("failed to write output"),
                        flush_context: owned("failed to flush output"),
                    },
                )
            },
            FgenEvent::Opened(Err(e)) => (
                FgenState::Ended,
                fail(concat2("failed to write generated config: ", path.as_str()), e),
            ),
            _ => (FgenState::Ended, FgenAction::Exit(Ok(1))),
        },
        FgenState::Confirming { path, output } => match event {
            FgenEvent::Line(Ok(answer)) => {
                if overwrite_confirmed(answer.as_str()) {
                    let p2 = path.clone();
                    let o2 = output.clone();
                    (FgenState::Writing { path, output }, FgenAction::WriteFile { path: p2, content: o2 })
                } else {
                    (FgenState::Closing { code: 1, preview: false }, show(owned("Aborted.\n")))
                }
            },
            FgenEvent::Line(Err(e)) => (FgenState::Ended, FgenAction::Exit(Err(e))),
            _ => (FgenState::Ended, FgenAction::Exit(Ok(1))),
        },
        FgenState::Writing { path, output } => match event {
            FgenEvent::Finished(Ok(())) => {
                let mut text = owned("Generated: ");
                push_str(&mut text, path.as_str());
                push_str(&mut text, "\n\nPreview (first 20 lines):\n");
                (FgenState::Reporting { output }, show(text))
            },
            FgenEvent::Finished(Err(e)) => (
                FgenState::Ended,
                fail(concat2("failed to write generated config: ", path.as_str()), e),
            ),
            _ => (FgenState::Ended, FgenAction::Exit(Ok(1))),
        },
        FgenState::Reporting { output } => match event {
            FgenEvent::Finished(Ok(())) => (
                FgenState::Closing { code: 0, preview: true },
                show(show_preview(output.as_str())),
            ),
            FgenEvent::Finished(Err(e)) => (FgenState::Ended, fail(owned("failed to write output"), e)),
            _ => (FgenState::Ended, FgenAction::Exit(Ok(1))),
        },
        FgenState::Closing { code, preview } => match event {
            FgenEvent::Finished(Ok(())) => (FgenState::Ended, FgenAction::Exit(Ok(code))),
            FgenEvent::Finished(Err(e)) => {
                let ctx = if preview {
                    owned("failed to write preview")
                } else {
                    owned("failed to write output")
                };
                (FgenState::Ended, fail(ctx, e))
            },
            _ => (FgenState::Ended, FgenAction::Exit(Ok(1))),
        },
        FgenState::Ended => (FgenState::Ended, FgenAction::Exit(Ok(1))),
    }
}

} // verus!
