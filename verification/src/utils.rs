use crate::ansi::{escapes_short, segments};
use crate::args::{ColorChoice, PipelineLog, PipelineLogView};
use crate::color::{Style, StyledStr};
use crate::fmt::{colored_under, messages, stdout_is_terminal, Message, Output, Printed};
use crate::lines::{log_lines, read_lines};
use crate::machine::{after_lines, banner, banner_mode, initial, StateMachine};
use crate::section::Section;
use crate::text::{decimal, to_decimal};
use crate::types::{
    status_text, Job, JobView, PipelineBasic, PipelineView, Project, ProjectView, StatusState,
};
use vstd::prelude::*;
use vstd::string::StringExecFns;

verus! {

/// The number of lines at the beginning of `lines` that the decoder of
/// escape sequences can take.
pub open spec fn readable(lines: Seq<Seq<char>>) -> nat
    decreases lines.len(),
{
    if lines.len() == 0 || !escapes_short(lines[0]) {
        0
    } else {
        1 + readable(lines.drop_first())
    }
}

/// The style that a status is printed in.
pub open spec fn style_of(status: StatusState) -> Option<Style> {
    Some(
        match status {
            StatusState::Success | StatusState::Running => Style::Good,
            StatusState::Canceled | StatusState::Failed => Style::Error,
            StatusState::WaitingForResource | StatusState::Skipped | StatusState::Pending => {
                Style::Warning
            },
            StatusState::Created
            | StatusState::Manual
            | StatusState::Preparing
            | StatusState::Scheduled => Style::Literal,
        },
    )
}

/// The line printed before the log of `job`.
pub open spec fn log_header(job: JobView) -> Message {
    seq![
        (None, "Log for job "@),
        (Some(Style::Literal), decimal(job.id)),
        (None, ": "@),
        (style_of(job.status), status_text(job.status)),
        (Some(Style::Hint), " ("@ + job.web_url + ")"@),
        (None, "\n\n"@),
    ]
}

/// The line printed of `pipeline`, which ran for `project` at `ref_`.
pub open spec fn pipeline_line(pipeline: PipelineView, project: ProjectView, ref_: Seq<char>)
    -> Message {
    seq![
        (None, "Pipeline "@),
        (Some(Style::Literal), decimal(pipeline.id)),
        (None, " ("@ + project.name_with_namespace + " @ "@ + ref_ + "): "@),
        (style_of(pipeline.status), status_text(pipeline.status)),
        (Some(Style::Hint), " ("@ + pipeline.web_url + ")"@),
        (None, "\n"@),
    ]
}

/// The line printed of `job` in a list of jobs.
pub open spec fn job_line(job: JobView) -> Message {
    seq![
        (None, "- Job "@),
        (Some(Style::Literal), decimal(job.id)),
        (None, " "@ + job.name + " "@),
        (Some(Style::Hint), "["@ + job.stage + "]"@),
        (None, ": "@),
        (style_of(job.status), status_text(job.status)),
        (None, "\n"@),
    ]
}

/// The lines of `jobs`, the last job first.
pub open spec fn job_lines(jobs: Seq<JobView>) -> Message
    decreases jobs.len(),
{
    if jobs.len() == 0 {
        Seq::empty()
    } else {
        job_line(jobs.last()) + job_lines(jobs.drop_last())
    }
}

/// The list printed of `jobs`: their lines, the last job first, and an
/// empty line; nothing where there is no job.
pub open spec fn job_list(jobs: Seq<JobView>) -> Message {
    if jobs.len() == 0 {
        Seq::empty()
    } else {
        job_lines(jobs).push((None, "\n"@))
    }
}

/// The line printed of `project` at `ref_`.
pub open spec fn project_line(project: ProjectView, ref_: Seq<char>) -> Message {
    seq![
        (None, "Project "@),
        (Some(Style::Literal), decimal(project.id)),
        (None, " ( "@),
        (Some(Style::Literal), project.name_with_namespace),
        (None, " @ "@),
        (Some(Style::Literal), ref_),
        (None, " ) "@),
        (Some(Style::Hint), "("@ + project.web_url + ")"@),
        (None, "\n"@),
    ]
}

/// Why a log cannot be printed to its end.
#[derive(Clone, Copy, Debug, PartialEq, Eq)]
pub enum LogError {
    /// The line with this number, counted from 1, holds an escape sequence
    /// with a number too long to decode.
    LongEscape { line: usize },
}

/// How `error` is worded for the user.
pub open spec fn error_text(error: LogError) -> Seq<char> {
    match error {
        LogError::LongEscape { line } => "line "@ + decimal(line as nat)
            + " of the log holds an escape sequence with a number too long to decode"@,
    }
}

impl LogError {
    /// Words the error for the user.
    pub fn message(&self) -> (text: String)
        ensures
            text@ == error_text(*self),
    {
        match self {
            LogError::LongEscape { line } => {
                let mut text: String = String::from_str("line ");
                text.append(to_decimal(*line as u64).as_str());
                text.append(" of the log holds an escape sequence with a number too long to decode");
                text
            },
        }
    }
}

/// What printing `lines` adds to the output, and how it ends: the lines are
/// printed up to the first that the decoder of escape sequences cannot take,
/// which is reported.
pub open spec fn printing(
    lines: Seq<Seq<char>>,
    filter: PipelineLogView,
    colored: bool,
    mode: ColorChoice,
) -> (Output, Result<(), LogError>) {
    let taken = readable(lines);
    (
        after_lines(initial(), lines.take(taken as int), filter, colored, mode).1,
        if taken < lines.len() {
            Err(LogError::LongEscape { line: (taken + 1) as usize })
        } else {
            Ok(())
        },
    )
}

/// A number of lines that the decoder can take, followed by one that it
/// cannot or by the end, is the number of readable lines.
pub proof fn lemma_readable_is(lines: Seq<Seq<char>>, taken: nat)
    requires
        taken <= lines.len(),
        forall|i: int| 0 <= i < taken ==> escapes_short(#[trigger] lines[i]),
        taken < lines.len() ==> !escapes_short(lines[taken as int]),
    ensures
        readable(lines) == taken,
    decreases lines.len(),
{
    if taken > 0 {
        let rest = lines.drop_first();
        assert forall|i: int| 0 <= i < taken - 1 implies escapes_short(#[trigger] rest[i]) by {
            assert(rest[i] == lines[i + 1]);
        }
        lemma_readable_is(rest, (taken - 1) as nat);
    }
}

/// Whether printing the job log `log` turns the output `before` into
/// `after` and ends in `done`.
pub open spec fn rendered(
    before: Output,
    after: Output,
    done: Result<(), LogError>,
    log: Seq<u8>,
    filter: PipelineLogView,
    colored: bool,
    mode: ColorChoice,
) -> bool {
    &&& after == before + printing(log_lines(log), filter, colored, mode).0
    &&& done == printing(log_lines(log), filter, colored, mode).1
}

/// Printing the same log twice, with the same filter, coloring and mode,
/// adds the same messages to the same output and ends the same way.
pub proof fn lemma_rendered_twice(
    before: Output,
    first: (Output, Result<(), LogError>),
    second: (Output, Result<(), LogError>),
    log: Seq<u8>,
    filter: PipelineLogView,
    colored: bool,
    mode: ColorChoice,
)
    requires
        rendered(before, first.0, first.1, log, filter, colored, mode),
        rendered(before, second.0, second.1, log, filter, colored, mode),
    ensures
        first == second,
{
}

/// What is done about a destination directory before it is used.
#[derive(Clone, Copy, Debug, PartialEq, Eq, Structural)]
pub struct DirPlan {
    /// Remove the directory and all it holds.
    pub remove: bool,
    /// Create the directory.
    pub create: bool,
}

/// Plans how a destination directory is brought about: one that is
/// `present` is removed unless it is kept or updated, and the directory is
/// created where none is left.
pub fn get_or_create_dir(present: bool, keep: bool, update: bool) -> (plan: DirPlan)
    ensures
        plan.remove == (present && !keep && !update),
        plan.create == (!present || plan.remove),
{
    let remove = !keep && !update && present;
    DirPlan { remove, create: !present || remove }
}

/// Sends `msg` to the standard output, to be printed under `mode`.
pub fn print_msg(msg: StyledStr, mode: ColorChoice, out: &mut Vec<Printed>)
    ensures
        messages(final(out)@) == messages(old(out)@).push((msg@, mode)),
{
    out.push(Printed { content: msg, mode });
}

/// Prints the banner of `section` under `title`.
pub fn print_section(
    title: &str,
    section: &Section,
    show_line: bool,
    colored: bool,
    out: &mut Vec<Printed>,
)
    ensures
        messages(final(out)@) == messages(old(out)@).push(
            (banner(title@, section@, show_line, colored), banner_mode(colored)),
        ),
{
    let mut msg = StyledStr::new();
    let mut head: String = String::from_str("\n> ");
    head.append(title);
    head.append(" [");
    msg.warning(head.as_str());
    msg.literal(section.name.as_str());
    msg.warning("]");
    if !show_line {
        msg.warning(" <");
        if section.collapsed && colored {
            msg.none("\n");
        }
    }
    msg.none("\n");
    assert(msg@ =~= banner(title@, section@, show_line, colored));
    print_msg(
        msg,
        if colored {
            ColorChoice::Always
        } else {
            ColorChoice::Never
        },
        out,
    );
}

/// Prints `lines` as the lines of a job log: the banner of each section
/// that opens, and of the other lines those that `args` asks for. Stops with
/// an error before the first line that holds an escape sequence with a
/// number too long to decode.
pub fn print_lines(
    lines: &Vec<String>,
    args: &PipelineLog,
    colored: bool,
    mode: ColorChoice,
    out: &mut Vec<Printed>,
) -> (done: Result<(), LogError>)
    ensures
        messages(final(out)@) == messages(old(out)@) + printing(
            lines.deep_view(),
            args@,
            colored,
            mode,
        ).0,
        done == printing(lines.deep_view(), args@, colored, mode).1,
{
    let ghost before = messages(out@);
    let ghost all = lines.deep_view();
    let mut state = StateMachine::default();
    let mut i: usize = 0;
    while i < lines.len()
        invariant
            i <= lines.len(),
            all == lines.deep_view(),
            before == messages(old(out)@),
            forall|j: int| 0 <= j < i ==> escapes_short(#[trigger] all[j]),
            state@ == after_lines(initial(), all.take(i as int), args@, colored, mode).0,
            messages(out@) == before + after_lines(
                initial(),
                all.take(i as int),
                args@,
                colored,
                mode,
            ).1,
        decreases lines.len() - i,
    {
        let line = lines[i].as_str();
        match segments(line) {
            None => {
                proof {
                    lemma_readable_is(all, i as nat);
                }
                return Err(LogError::LongEscape { line: i + 1 });
            },
            Some(texts) => {
                assert(all.take(i + 1).drop_last() =~= all.take(i as int));
                state.read_line(line, &texts, args, colored, mode, out);
                i += 1;
            },
        }
    }
    proof {
        lemma_readable_is(all, i as nat);
    }
    Ok(())
}

/// Prints the job log `log`, colored or not as `colored` says: cuts it into
/// lines, up to the first that is not UTF-8, and prints them.
pub fn render(
    log: &[u8],
    args: &PipelineLog,
    colored: bool,
    mode: ColorChoice,
    out: &mut Vec<Printed>,
) -> (done: Result<(), LogError>)
    ensures
        rendered(messages(old(out)@), messages(final(out)@), done, log@, args@, colored, mode),
{
    let lines = read_lines(log);
    print_lines(&lines, args, colored, mode, out)
}

/// Prints the job log `log` and filters its sections as `args` asks. The
/// output is colored where `mode` asks for it always, or leaves it open and
/// the standard output is a terminal.
pub fn _print_log(
    log: &[u8],
    args: &PipelineLog,
    mode: ColorChoice,
    out: &mut Vec<Printed>,
) -> (done: Result<(), LogError>)
    ensures
        exists|terminal: bool|
            rendered(
                messages(old(out)@),
                messages(final(out)@),
                done,
                log@,
                args@,
                #[trigger] colored_under(mode, terminal),
                mode,
            ),
{
    let colored = mode == ColorChoice::Always || (mode == ColorChoice::Auto
        && stdout_is_terminal());
    assert(colored == colored_under(mode, colored));
    render(log, args, colored, mode, out)
}

/// Prints the job log `log` under a line that names `job`.
pub fn print_log(
    log: &[u8],
    job: &Job,
    args: &PipelineLog,
    mode: ColorChoice,
    out: &mut Vec<Printed>,
) -> (done: Result<(), LogError>)
    ensures
        exists|terminal: bool|
            rendered(
                messages(old(out)@).push((log_header(job@), mode)),
                messages(final(out)@),
                done,
                log@,
                args@,
                #[trigger] colored_under(mode, terminal),
                mode,
            ),
{
    let mut msg = StyledStr::new();
    msg.none("Log for job ");
    msg.literal(to_decimal(job.id).as_str());
    msg.none(": ");
    msg.stylize(status_style(job.status), job.status.name());
    let mut link: String = String::from_str(" (");
    link.append(job.web_url.as_str());
    link.append(")");
    msg.hint(link.as_str());
    msg.none("\n\n");
    assert(msg@ =~= log_header(job@));
    print_msg(msg, mode, out);
    _print_log(log, args, mode, out)
}

/// Prints the line of `pipeline`, which ran for `project` at `ref_`.
pub fn print_pipeline(
    pipeline: &PipelineBasic,
    project: &Project,
    ref_: &String,
    mode: ColorChoice,
    out: &mut Vec<Printed>,
)
    ensures
        messages(final(out)@) == messages(old(out)@).push(
            (pipeline_line(pipeline@, project@, ref_@), mode),
        ),
{
    let mut msg = StyledStr::new();
    msg.none("Pipeline ");
    msg.literal(to_decimal(pipeline.id).as_str());
    let mut origin: String = String::from_str(" (");
    origin.append(project.name_with_namespace.as_str());
    origin.append(" @ ");
    origin.append(ref_.as_str());
    origin.append("): ");
    msg.none(origin.as_str());
    msg.stylize(status_style(pipeline.status), pipeline.status.name());
    let mut link: String = String::from_str(" (");
    link.append(pipeline.web_url.as_str());
    link.append(")");
    msg.hint(link.as_str());
    msg.none("\n");
    assert(msg@ =~= pipeline_line(pipeline@, project@, ref_@));
    print_msg(msg, mode, out);
}

/// Print the provided jobs list in reverse order (run order)
pub fn print_jobs(jobs: &[Job], mode: ColorChoice, out: &mut Vec<Printed>)
    ensures
        messages(final(out)@) == messages(old(out)@).push(
            (job_list(jobs@.map_values(|job: Job| job@)), mode),
        ),
{
    let ghost all = jobs@.map_values(|job: Job| job@);
    let mut msg = StyledStr::new();
    if jobs.len() > 0 {
        let mut i: usize = jobs.len();
        assert(all.take(i as int) =~= all);
        while i > 0
            invariant
                i <= jobs.len(),
                all == jobs@.map_values(|job: Job| job@),
                job_lines(all) == msg@ + job_lines(all.take(i as int)),
            decreases i,
        {
            i -= 1;
            let job = &jobs[i];
            let ghost before = msg@;
            assert(all.take(i + 1).drop_last() =~= all.take(i as int));
            msg.none("- Job ");
            msg.literal(to_decimal(job.id).as_str());
            let mut name: String = String::from_str(" ");
            name.append(job.name.as_str());
            name.append(" ");
            msg.none(name.as_str());
            let mut stage: String = String::from_str("[");
            stage.append(job.stage.as_str());
            stage.append("]");
            msg.hint(stage.as_str());
            msg.none(": ");
            msg.stylize(status_style(job.status), job.status.name());
            msg.none("\n");
        }
        msg.none("\n");
    }
    print_msg(msg, mode, out);
}

/// Prints the line of `project` at `ref_`.
pub fn print_project(project: &Project, ref_: &String, mode: ColorChoice, out: &mut Vec<Printed>)
    ensures
        messages(final(out)@) == messages(old(out)@).push((project_line(project@, ref_@), mode)),
{
    let mut msg = StyledStr::new();
    msg.none("Project ");
    msg.literal(to_decimal(project.id).as_str());
    msg.none(" ( ");
    msg.literal(project.name_with_namespace.as_str());
    msg.none(" @ ");
    msg.literal(ref_.as_str());
    msg.none(" ) ");
    let mut link: String = String::from_str("(");
    link.append(project.web_url.as_str());
    link.append(")");
    msg.hint(link.as_str());
    msg.none("\n");
    assert(msg@ =~= project_line(project@, ref_@));
    print_msg(msg, mode, out);
}

/// Picks the style that `status` is printed in.
pub fn status_style(status: StatusState) -> (style: Option<Style>)
    ensures
        style == style_of(status),
{
    Some(
        match status {
            StatusState::Success | StatusState::Running => Style::Good,
            StatusState::Canceled | StatusState::Failed => Style::Error,
            StatusState::WaitingForResource | StatusState::Skipped | StatusState::Pending => {
                Style::Warning
            },
            StatusState::Created
            | StatusState::Manual
            | StatusState::Preparing
            | StatusState::Scheduled => Style::Literal,
        },
    )
}

} // verus!
