//! The rows of text that each screen shows.
//!
//! A list screen shows a header row, a separator row and one row for each
//! record. The start screen shows the help text.

use vstd::prelude::*;
use vstd::string::*;
use crate::config::{Config, ConfigModel, ContextModel};
use crate::text::{decimal, decimal_string, pad_right, padded, repeat_char, repeated, str_eq};
use crate::utils::{can_truncate, format_timestamp, timestamp_text, truncate, truncated};
use crate::views::{Pipeline, PipelineModel, Run, RunModel};

verus! {

/// The help text of the start screen.
pub open spec fn help_lines() -> Seq<Seq<char>> {
    seq![
        "Welcome to d9s!"@,
        ""@,
        "Available commands:"@,
        "  :runs - Show all pipeline runs"@,
        "  :pipelines - Show available pipelines"@,
        "  :contexts - Manage connection contexts"@,
        "  :url <url> - Set Dagster GraphQL URL"@,
        "  :context <name> - Switch to a different context"@,
        "  :debug - Log application debug information"@,
        "  :q - Quit application"@,
        ""@,
        "Navigation:"@,
        "  Press 'q' to quit"@,
        "  Press ':' to enter command mode"@,
        "  Press 'Esc' to go back"@,
    ]
}

/// The help text of the start screen.
pub fn help_text() -> (r: Vec<String>)
    ensures
        r.deep_view() == help_lines(),
{
    let mut out: Vec<String> = Vec::new();
    out.push(String::from_str("Welcome to d9s!"));
    out.push(String::from_str(""));
    out.push(String::from_str("Available commands:"));
    out.push(String::from_str("  :runs - Show all pipeline runs"));
    out.push(String::from_str("  :pipelines - Show available pipelines"));
    out.push(String::from_str("  :contexts - Manage connection contexts"));
    out.push(String::from_str("  :url <url> - Set Dagster GraphQL URL"));
    out.push(String::from_str("  :context <name> - Switch to a different context"));
    out.push(String::from_str("  :debug - Log application debug information"));
    out.push(String::from_str("  :q - Quit application"));
    out.push(String::from_str(""));
    out.push(String::from_str("Navigation:"));
    out.push(String::from_str("  Press 'q' to quit"));
    out.push(String::from_str("  Press ':' to enter command mode"));
    out.push(String::from_str("  Press 'Esc' to go back"));
    assert(out.deep_view() =~= help_lines());
    out
}

/// The separator row of the context list and the pipeline list.
pub open spec fn rule() -> Seq<char> {
    repeated('-', 80)
}

/// The header row of the context list.
pub open spec fn contexts_header() -> Seq<char> {
    "CONTEXT NAME     URL                                      RUNS LIMIT"@
}

/// The row of one context: a mark for the context in use, then name, URL
/// and run limit in columns.
pub open spec fn context_line(name: Seq<char>, context: ContextModel, current: Seq<char>) -> Seq<
    char,
> {
    let mark = if name == current {
        "* "@
    } else {
        "  "@
    };
    let limit = match context.runs_limit {
        Some(n) => decimal(n as nat),
        None => "default"@,
    };
    mark + padded(name, 15) + " "@ + padded(context.url, 40) + " "@ + padded(limit, 10)
}

/// The rows of the context list.
pub open spec fn context_lines(config: ConfigModel) -> Seq<Seq<char>> {
    seq![contexts_header(), rule()] + Seq::new(
        config.contexts.len(),
        |i: int| context_line(config.contexts[i].0, config.contexts[i].1, config.last_context),
    )
}

/// The rows of the context list.
pub fn context_rows(config: &Config) -> (r: Vec<String>)
    ensures
        r.deep_view() == context_lines(config@),
{
    let mut out: Vec<String> = Vec::new();
    out.push(
        String::from_str("CONTEXT NAME     URL                                      RUNS LIMIT"),
    );
    out.push(repeat_char('-', 80));
    let n = config.contexts.len();
    let mut i: usize = 0;
    let ghost head = seq![contexts_header(), rule()];
    let ghost model = config@;
    assert(out.deep_view() =~= head);
    while i < n
        invariant
            i <= n,
            n == config.contexts@.len(),
            model == config@,
            head == seq![contexts_header(), rule()],
            out.deep_view() == head + Seq::new(
                i as nat,
                |k: int|
                    context_line(model.contexts[k].0, model.contexts[k].1, model.last_context),
            ),
        decreases n - i,
    {
        let name = config.contexts.name_at(i);
        let context = config.contexts.context_at(i);
        let mark = if str_eq(name.as_str(), config.last_context.as_str()) {
            "* "
        } else {
            "  "
        };
        let limit = match context.runs_limit {
            Some(l) => decimal_string(l),
            None => String::from_str("default"),
        };
        let name_col = pad_right(name.as_str(), 15);
        let url_col = pad_right(context.url.as_str(), 40);
        let limit_col = pad_right(limit.as_str(), 10);
        let row = String::from_str(mark).concat(name_col.as_str()).concat(" ").concat(
            url_col.as_str(),
        ).concat(" ").concat(limit_col.as_str());
        let ghost before = out.deep_view();
        let ghost line = row@;
        out.push(row);
        assert(out.deep_view() =~= before.push(line));
        assert(before.push(line) =~= head + Seq::new(
            (i + 1) as nat,
            |k: int| context_line(model.contexts[k].0, model.contexts[k].1, model.last_context),
        ));
        i += 1;
    }
    out
}

/// The rows of the run list while the runs are being fetched.
pub open spec fn loading_run_lines() -> Seq<Seq<char>> {
    seq!["HEADER"@, "SEPARATOR"@, "Loading runs..."@]
}

/// The rows of the run list while the runs are being fetched.
pub fn loading_run_rows() -> (r: Vec<String>)
    ensures
        r.deep_view() == loading_run_lines(),
{
    let mut out: Vec<String> = Vec::new();
    out.push(String::from_str("HEADER"));
    out.push(String::from_str("SEPARATOR"));
    out.push(String::from_str("Loading runs..."));
    assert(out.deep_view() =~= loading_run_lines());
    out
}

/// The row of one run at the time `now`: id, job, status, duration and
/// start, with a space between them.
pub open spec fn run_line(run: RunModel, now: i64) -> Seq<char> {
    run.run_id + " "@ + run.job_name + " "@ + run.status + " "@ + run.duration + " "@
        + timestamp_text(run.start_time, now)
}

/// The rows of the run list at the time `now`.
pub open spec fn run_lines(runs: Seq<RunModel>, now: i64) -> Seq<Seq<char>> {
    seq!["HEADER"@, "SEPARATOR"@] + Seq::new(runs.len(), |i: int| run_line(runs[i], now))
}

/// The rows of the run list at the time `now`, in whole seconds since the
/// epoch.
pub fn run_rows(runs: &Vec<Run>, now: i64) -> (r: Vec<String>)
    ensures
        r.deep_view() == run_lines(runs.deep_view(), now),
{
    let mut out: Vec<String> = Vec::new();
    out.push(String::from_str("HEADER"));
    out.push(String::from_str("SEPARATOR"));
    let ghost head = seq!["HEADER"@, "SEPARATOR"@];
    let ghost model = runs.deep_view();
    assert(out.deep_view() =~= head);
    let mut i: usize = 0;
    while i < runs.len()
        invariant
            i <= runs.len(),
            model == runs.deep_view(),
            head == seq!["HEADER"@, "SEPARATOR"@],
            out.deep_view() == head + Seq::new(i as nat, |k: int| run_line(model[k], now)),
        decreases runs.len() - i,
    {
        let run = &runs[i];
        let started = format_timestamp(run.start_time, now);
        let row = run.run_id.clone().concat(" ").concat(run.job_name.as_str()).concat(" ").concat(
            run.status.as_str(),
        ).concat(" ").concat(run.duration.as_str()).concat(" ").concat(started.as_str());
        let ghost before = out.deep_view();
        let ghost line = row@;
        out.push(row);
        assert(out.deep_view() =~= before.push(line));
        assert(before.push(line) =~= head + Seq::new(
            (i + 1) as nat,
            |k: int| run_line(model[k], now),
        ));
        i += 1;
    }
    out
}

/// The header row of the pipeline list.
pub open spec fn pipelines_header() -> Seq<char> {
    "PIPELINE NAME                                        REPOSITORY LOCATION                  LAST RUN STATUS"@
}

/// The rows of the pipeline list while the pipelines are being fetched.
pub open spec fn loading_pipeline_lines() -> Seq<Seq<char>> {
    seq![pipelines_header(), rule(), "Loading pipelines..."@]
}

/// The rows of the pipeline list while the pipelines are being fetched.
pub fn loading_pipeline_rows() -> (r: Vec<String>)
    ensures
        r.deep_view() == loading_pipeline_lines(),
{
    let mut out: Vec<String> = Vec::new();
    out.push(
        String::from_str(
            "PIPELINE NAME                                        REPOSITORY LOCATION                  LAST RUN STATUS",
        ),
    );
    out.push(repeat_char('-', 80));
    out.push(String::from_str("Loading pipelines..."));
    assert(out.deep_view() =~= loading_pipeline_lines());
    out
}

/// Whether the name and the location of a pipeline can be shortened to
/// their columns.
pub open spec fn can_show(pipeline: PipelineModel) -> bool {
    can_truncate(pipeline.name, 50) && can_truncate(pipeline.repository_location, 33)
}

/// Whether every pipeline of a list that has a row can be shown.
pub open spec fn can_show_all(pipelines: Seq<PipelineModel>) -> bool {
    forall|i: int|
        0 <= i < pipelines.len() && !(#[trigger] pipelines[i]).is_asset_job ==> can_show(
            pipelines[i],
        )
}

/// The row of one pipeline: name and location, shortened to their columns,
/// and the status of the latest run.
pub open spec fn pipeline_line(pipeline: PipelineModel) -> Seq<char> {
    let status = match pipeline.last_run_status {
        Some(s) => s,
        None => "None"@,
    };
    padded(truncated(pipeline.name, 50), 50) + " "@ + padded(
        truncated(pipeline.repository_location, 33),
        33,
    ) + " "@ + status
}

/// The pipelines that have a row: those that are not asset jobs.
pub open spec fn listed() -> spec_fn(PipelineModel) -> bool {
    |p: PipelineModel| !p.is_asset_job
}

/// The rows of the pipeline list.
pub open spec fn pipeline_lines(pipelines: Seq<PipelineModel>) -> Seq<Seq<char>> {
    seq![pipelines_header(), rule()] + pipelines.filter(listed()).map_values(
        |p: PipelineModel| pipeline_line(p),
    )
}

/// The rows of the pipeline list.
pub fn pipeline_rows(pipelines: &Vec<Pipeline>) -> (r: Vec<String>)
    requires
        can_show_all(pipelines.deep_view()),
    ensures
        r.deep_view() == pipeline_lines(pipelines.deep_view()),
{
    let mut out: Vec<String> = Vec::new();
    out.push(
        String::from_str(
            "PIPELINE NAME                                        REPOSITORY LOCATION                  LAST RUN STATUS",
        ),
    );
    out.push(repeat_char('-', 80));
    let ghost head = seq![pipelines_header(), rule()];
    let ghost model = pipelines.deep_view();
    let ghost line = |p: PipelineModel| pipeline_line(p);
    proof {
        reveal(Seq::filter);
        assert(out.deep_view() =~= head);
        assert(model.take(0).filter(listed()) =~= Seq::<PipelineModel>::empty());
        assert(head + model.take(0).filter(listed()).map_values(line) =~= head);
    }
    let mut i: usize = 0;
    while i < pipelines.len()
        invariant
            i <= pipelines.len(),
            model == pipelines.deep_view(),
            can_show_all(model),
            head == seq![pipelines_header(), rule()],
            line == |p: PipelineModel| pipeline_line(p),
            out.deep_view() == head + model.take(i as int).filter(listed()).map_values(line),
        decreases pipelines.len() - i,
    {
        let pipeline = &pipelines[i];
        let ghost seen = model.take(i as int);
        let ghost p = model[i as int];
        proof {
            reveal(Seq::filter);
            assert(model.take(i + 1) =~= seen.push(p));
            assert(seen.push(p).drop_last() =~= seen);
            assert(p == pipeline@);
        }
        if !pipeline.is_asset_job {
            let status = match &pipeline.last_run_status {
                Some(s) => s.clone(),
                None => String::from_str("None"),
            };
            let name_col = pad_right(truncate(pipeline.name.as_str(), 50).as_str(), 50);
            let repo_col = pad_right(
                truncate(pipeline.repository_location.as_str(), 33).as_str(),
                33,
            );
            let row = name_col.concat(" ").concat(repo_col.as_str()).concat(" ").concat(
                status.as_str(),
            );
            let ghost before = out.deep_view();
            let ghost text = row@;
            out.push(row);
            assert(out.deep_view() =~= before.push(text));
            assert(before.push(text) =~= head + seen.filter(listed()).push(p).map_values(line));
        }
        i += 1;
    }
    assert(model.take(pipelines.len() as int) =~= model);
    out
}

} // verus!
