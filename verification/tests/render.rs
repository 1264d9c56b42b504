use d9s::app::{App, ConnectionStatus};
use d9s::config::Config;
use d9s::layout::ColumnsConfig;
use d9s::render::{
    can_draw_run_row, can_draw_runs_row, can_show_status, context_row, detail_lines, help_line,
    join, pipeline_row, run_row, runs_header, runs_row, runs_title, status_paint, status_piece,
    Look, Paint, ScreenLine,
};
use d9s::text::{split_fields, split_lines};
use d9s::views::{Run, ViewType};

const PLAIN: Look = Look { paint: Paint::Plain, bold: false, highlighted: false };
const BOLD: Look = Look { paint: Paint::Plain, bold: true, highlighted: false };

fn pieces(line: &ScreenLine) -> Vec<(String, Look)> {
    line.pieces.iter().map(|p| (p.text.clone(), p.look)).collect()
}

fn one(text: &str, look: Look) -> Vec<(String, Look)> {
    vec![(text.to_string(), look)]
}

fn names() -> Vec<String> {
    ColumnsConfig::new().column_names()
}

#[test]
fn fields_between_single_spaces() {
    assert_eq!(split_fields("a b c", 5), vec!["a", "b", "c"]);
    assert_eq!(split_fields("a b c d e f g", 5), vec!["a", "b", "c", "d", "e f g"]);
    assert_eq!(split_fields("a  b", 5), vec!["a", "", "b"]);
    assert_eq!(split_fields(" a ", 5), vec!["", "a", ""]);
    assert_eq!(split_fields("", 5), vec![""]);
    assert_eq!(split_fields("a b c", 1), vec!["a b c"]);
    assert_eq!(split_fields("a b c", 2), vec!["a", "b c"]);
    assert_eq!(split_fields("a b c", 0), Vec::<String>::new());
    for s in ["", " ", "x", "id job STATUS 1.0s 2 minute(s) ago", "a\tb c"] {
        let expected: Vec<String> = s.splitn(5, ' ').map(|p| p.to_string()).collect();
        assert_eq!(split_fields(s, 5), expected);
    }
}

#[test]
fn lines_of_a_text() {
    assert_eq!(split_lines("a\nb\nc"), vec!["a", "b", "c"]);
    assert_eq!(split_lines("a\r\nb\n"), vec!["a", "b"]);
    assert_eq!(split_lines(""), Vec::<String>::new());
    assert_eq!(split_lines("\n"), vec![""]);
    assert_eq!(split_lines("a\n\nb"), vec!["a", "", "b"]);
    for s in ["", "x", "x\n", "x\r", "x\r\n", "\r\n\r\n", "a\rb\nc\r\r\nd", "ops:\n  x: 1\n"] {
        let expected: Vec<String> = s.lines().map(|l| l.to_string()).collect();
        assert_eq!(split_lines(s), expected, "{:?}", s);
    }
}

#[test]
fn joining() {
    let parts = vec!["a".to_string(), "".to_string(), "c".to_string()];
    assert_eq!(join(&parts, " "), "a  c");
    assert_eq!(join(&parts, ", "), "a, , c");
    assert_eq!(join(&vec!["x".to_string()], " "), "x");
    assert_eq!(join(&Vec::new(), " "), "");
}

#[test]
fn lines_of_the_start_screen() {
    let title = Look { paint: Paint::Cyan, bold: true, highlighted: false };
    let heading = Look { paint: Paint::LightBlue, bold: true, highlighted: false };
    let command = Look { paint: Paint::Cyan, bold: false, highlighted: false };
    assert_eq!(pieces(&help_line("Welcome to d9s!")), one("Welcome to d9s!", title));
    assert_eq!(pieces(&help_line("Available commands:")), one("Available commands:", heading));
    assert_eq!(pieces(&help_line("Navigation:")), one("Navigation:", heading));
    assert_eq!(
        pieces(&help_line("  :runs - Show all pipeline runs")),
        vec![
            ("  :runs".to_string(), command),
            (" - ".to_string(), PLAIN),
            ("Show all pipeline runs".to_string(), PLAIN),
        ]
    );
    assert_eq!(
        pieces(&help_line("  :a - b - c")),
        vec![("  :a".to_string(), command), (" - ".to_string(), PLAIN), ("b - c".to_string(), PLAIN)]
    );
    assert_eq!(pieces(&help_line("  :odd")), one("  :odd", PLAIN));
    assert_eq!(pieces(&help_line("  Press 'q' to quit")), one("  Press 'q' to quit", PLAIN));
    assert_eq!(pieces(&help_line("")), one("", PLAIN));
}

#[test]
fn rows_of_the_list_of_contexts() {
    assert_eq!(
        pieces(&context_row("ignored", 0, 2, 40)),
        one("CONTEXT NAME     URL                                      RUNS LIMIT", BOLD)
    );
    assert_eq!(pieces(&context_row("ignored", 1, 2, 12)), one("----------", PLAIN));
    assert_eq!(pieces(&context_row("ignored", 1, 2, 2)), one("", PLAIN));
    assert_eq!(
        pieces(&context_row("* default x", 2, 3, 40)),
        one("* default x", Look { paint: Paint::Green, bold: false, highlighted: false })
    );
    assert_eq!(
        pieces(&context_row("* default x", 2, 2, 40)),
        one("* default x", Look { paint: Paint::Green, bold: true, highlighted: true })
    );
    assert_eq!(
        pieces(&context_row("  prod x", 3, 3, 40)),
        one("  prod x", Look { paint: Paint::Plain, bold: true, highlighted: true })
    );
    assert_eq!(pieces(&context_row("  prod x", 3, 2, 40)), one("  prod x", PLAIN));
}

#[test]
fn rows_of_the_list_of_pipelines() {
    assert_eq!(pieces(&pipeline_row("PIPELINE NAME", 0, 2, 40)), one("PIPELINE NAME", BOLD));
    assert_eq!(pieces(&pipeline_row("x", 1, 2, 5)), one("---", PLAIN));
    assert_eq!(
        pieces(&pipeline_row("etl   warehouse   SUCCESS", 2, 4, 40)),
        one("etl   warehouse   SUCCESS", Look { paint: Paint::Green, bold: false, highlighted: false })
    );
    assert_eq!(
        pieces(&pipeline_row("etl   warehouse   FAILURE", 4, 4, 40)),
        one("etl   warehouse   FAILURE", Look { paint: Paint::Red, bold: true, highlighted: true })
    );
    assert_eq!(pieces(&pipeline_row("etl   warehouse   None", 2, 4, 40)), one("etl   warehouse   None", PLAIN));
    assert_eq!(pieces(&pipeline_row("   ", 2, 4, 40)), one("   ", PLAIN));
}

#[test]
fn status_paints() {
    assert_eq!(status_paint("SUCCESS"), Paint::Green);
    assert_eq!(status_paint("\"FAILURE\""), Paint::Red);
    assert_eq!(status_paint("STARTING"), Paint::Blue);
    assert_eq!(status_paint("QUEUED"), Paint::Yellow);
    assert_eq!(status_paint("CANCELED"), Paint::DarkGray);
    assert_eq!(status_paint("other"), Paint::Plain);
}

#[test]
fn header_of_the_list_of_runs() {
    let columns = ColumnsConfig::new();
    assert_eq!(names(), vec!["RUN ID", "PIPELINE", "STATUS", "DURATION", "START TIME"]);
    // names and widths both go by the order of the row
    let widths = columns.display_widths(77);
    assert_eq!(
        pieces(&runs_header(&names(), &widths)),
        one(
            &format!("{:<36} {:<10} {:<7} {:<8} {:<12}", "RUN ID", "PIPELINE", "STATUS", "DURATION", "START TIME"),
            BOLD
        )
    );
    // with 56 cells for the columns, the status and the start are hidden
    let widths = columns.display_widths(60);
    assert_eq!(widths, vec![36, 10, 0, 8, 0]);
    assert_eq!(
        pieces(&runs_header(&names(), &widths)),
        one(&format!("{:<36} {:<10} {:<8}", "RUN ID", "PIPELINE", "DURATION"), BOLD)
    );
    assert_eq!(pieces(&runs_header(&names(), &vec![0, 0, 0, 0, 0])), one("", BOLD));
}

#[test]
fn data_rows_of_the_list_of_runs() {
    let widths = vec![8, 6, 9, 7, 12];
    let item = "0123456789abcdef etl_job SUCCESS 12.5s 2 minute(s) ago";
    assert!(can_draw_run_row(item, &widths));
    assert_eq!(
        pieces(&run_row(item, false, &widths)),
        one(
            "01234... etl... SUCCESS   12.5s   2 minute(...",
            Look { paint: Paint::Green, bold: false, highlighted: false }
        )
    );
    assert_eq!(
        pieces(&run_row(item, true, &vec![16, 0, 7, 0, 15])),
        one(
            "0123456789abcdef SUCCESS 2 minute(s) ago",
            Look { paint: Paint::Green, bold: true, highlighted: true }
        )
    );
    // a row with fewer fields than columns
    assert_eq!(pieces(&run_row("Loading runs...", false, &widths)), one("Loading  run...", PLAIN));
    assert_eq!(pieces(&run_row("", false, &widths)), one("        ", PLAIN));
}

#[test]
fn rows_that_cannot_be_drawn_are_told_apart() {
    assert!(!can_draw_run_row("abcdef x y", &vec![2, 5, 5, 5, 5]));
    assert!(can_draw_run_row("abcdef x y", &vec![0, 5, 5, 5, 5]));
    assert!(!can_draw_run_row("ééééé x y", &vec![6, 5, 5, 5, 5]));
    assert!(can_draw_run_row("ééééé x y", &vec![7, 5, 5, 5, 5]));
    assert!(can_draw_runs_row("abcdef x y", 0, &vec![2, 5, 5, 5, 5], 0));
    assert!(!can_draw_runs_row("abcdef x y", 1, &vec![2, 5, 5, 5, 5], 1));
    assert!(can_draw_runs_row("abcdef x y", 1, &vec![2, 5, 5, 5, 5], 2));
    assert!(!can_draw_runs_row("abcdef x y", 2, &vec![2, 5, 5, 5, 5], 80));
}

#[test]
fn rows_of_the_list_of_runs() {
    let widths = ColumnsConfig::new().display_widths(77);
    let header = pieces(&runs_row("HEADER", 0, 2, &names(), &widths, 79));
    assert!(header[0].0.starts_with("RUN ID"));
    assert_eq!(header[0].1, BOLD);
    assert_eq!(pieces(&runs_row("SEPARATOR", 1, 2, &names(), &widths, 79)), one(&"-".repeat(77), PLAIN));
    let row = pieces(&runs_row("a1 etl FAILURE 3.0s -", 2, 2, &names(), &widths, 79));
    assert_eq!(row[0].0, format!("{:<36} {:<10} {:<7} {:<8} {:<12}", "a1", "etl", "FAILURE", "3.0s", "-"));
    assert_eq!(row[0].1, Look { paint: Paint::Red, bold: true, highlighted: true });
}

#[test]
fn titles() {
    assert_eq!(runs_title(&ViewType::Runs), " All Runs ");
    assert_eq!(runs_title(&ViewType::PipelineRuns("etl".to_string())), " Runs for Pipeline: etl ");
    assert_eq!(runs_title(&ViewType::Default), " All Runs ");
}

#[test]
fn lines_of_the_detail_screen() {
    let run = Run {
        run_id: "a1".to_string(),
        job_name: "etl".to_string(),
        status: "FAILURE".to_string(),
        run_config_yaml: "ops:\n  load:\r\n    rows: 5\n".to_string(),
        start_time: Some(5),
        end_time: None,
        duration: "Running".to_string(),
    };
    let lines = detail_lines(&run, "then (x - 5 second(s) ago)", "Not started");
    let got: Vec<_> = lines.iter().map(pieces).collect();
    let label = |name: &str, value: &str, paint: Paint| {
        vec![
            (name.to_string(), BOLD),
            (value.to_string(), Look { paint, bold: false, highlighted: false }),
        ]
    };
    assert_eq!(
        got,
        vec![
            label("Run ID:      ", "a1", Paint::Plain),
            label("Status:      ", "FAILURE", Paint::Red),
            label("Job Name:    ", "etl", Paint::Plain),
            label("Start Time:  ", "then (x - 5 second(s) ago)", Paint::Plain),
            label("End Time:    ", "Not started", Paint::Plain),
            one("", PLAIN),
            one("Run Configuration:", BOLD),
            one("", PLAIN),
            one("ops:", PLAIN),
            one("  load:", PLAIN),
            one("    rows: 5", PLAIN),
        ]
    );
}

#[test]
fn the_status_line() {
    let green = Look { paint: Paint::Green, bold: false, highlighted: false };
    let red = Look { paint: Paint::Red, bold: false, highlighted: false };
    let yellow = Look { paint: Paint::Yellow, bold: false, highlighted: false };
    let shown = |s: &ConnectionStatus| {
        let p = status_piece(s);
        (p.text, p.look)
    };
    assert_eq!(shown(&ConnectionStatus::Connected), ("Connected".to_string(), green));
    assert_eq!(shown(&ConnectionStatus::Disconnected), ("Disconnected".to_string(), yellow));
    assert_eq!(shown(&ConnectionStatus::Failed("boom".to_string())), ("boom".to_string(), red));
    let long = "Context error: Context 'staging' not found".to_string();
    assert_eq!(
        shown(&ConnectionStatus::Failed(long)),
        ("Context error: Context 'stagin".to_string(), red)
    );
    let thirty = "a".repeat(30);
    assert_eq!(shown(&ConnectionStatus::Failed(thirty.clone())), (thirty, red));
    assert!(can_show_status(&ConnectionStatus::Failed(format!("{}é", "a".repeat(30)))));
    assert!(!can_show_status(&ConnectionStatus::Failed(format!("{}é", "a".repeat(29)))));
    assert!(can_show_status(&ConnectionStatus::Failed(format!("{}é", "a".repeat(28)))));
    assert!(can_show_status(&ConnectionStatus::Connected));
}

#[test]
fn the_input_line() {
    let mut app = App::new(Config::default());
    assert_eq!(app.input_line(), None);
    app.search_mode = true;
    app.search_input = "etl".to_string();
    assert_eq!(app.input_line(), Some("/etl".to_string()));
    app.command_mode = true;
    app.command_input = "runs".to_string();
    assert_eq!(app.input_line(), Some(": runs".to_string()));
}

fn run_list(rows: &[&str]) -> App {
    let mut app = App::new(Config::default());
    app.enter_view(ViewType::Runs, false);
    app.items = rows.iter().map(|r| r.to_string()).collect();
    app
}

#[test]
fn a_hidden_column_is_left_out_of_the_header_and_of_every_row() {
    let app = run_list(&["HEADER", "SEPARATOR", "a1 etl SUCCESS 12.5s 2 minute(s) ago", "b2 ml FAILURE 3.0m -"]);
    let columns = ColumnsConfig::new();
    // 62 cells between the edges, 60 between the borders, 56 for the columns
    assert!(app.can_draw_runs_view(&columns, 10, 62));
    let lines = app.runs_view_lines(&columns, 10, 62);
    assert_eq!(lines.len(), 4);
    assert_eq!(
        pieces(&lines[0]),
        one(&format!("{:<36} {:<10} {:<8}", "RUN ID", "PIPELINE", "DURATION"), BOLD)
    );
    assert_eq!(pieces(&lines[1]), one(&"-".repeat(60), PLAIN));
    assert_eq!(
        pieces(&lines[2]),
        one(
            &format!("{:<36} {:<10} {:<8}", "a1", "etl", "12.5s"),
            Look { paint: Paint::Green, bold: true, highlighted: true }
        )
    );
    assert_eq!(
        pieces(&lines[3]),
        one(
            &format!("{:<36} {:<10} {:<8}", "b2", "ml", "3.0m"),
            Look { paint: Paint::Red, bold: false, highlighted: false }
        )
    );
}

#[test]
fn every_column_is_shown_at_its_own_width() {
    let app = run_list(&["HEADER", "SEPARATOR", "a1 etl STARTED Running 2 minute(s) ago"]);
    let columns = ColumnsConfig::new();
    let lines = app.runs_view_lines(&columns, 10, 79);
    assert_eq!(
        pieces(&lines[0])[0].0,
        format!("{:<36} {:<10} {:<7} {:<8} {:<12}", "RUN ID", "PIPELINE", "STATUS", "DURATION", "START TIME")
    );
    assert_eq!(
        pieces(&lines[2])[0].0,
        format!("{:<36} {:<10} {:<7} {:<8} {:<12}", "a1", "etl", "STARTED", "Running", "2 minute(...")
    );
    // one cell less hides the start, the column of lowest priority
    let lines = app.runs_view_lines(&columns, 10, 78);
    assert_eq!(
        pieces(&lines[0])[0].0,
        format!("{:<36} {:<10} {:<7} {:<8}", "RUN ID", "PIPELINE", "STATUS", "DURATION")
    );
    assert_eq!(
        pieces(&lines[2])[0].0,
        format!("{:<36} {:<10} {:<7} {:<8}", "a1", "etl", "STARTED", "Running")
    );
}

#[test]
fn only_the_rows_in_the_window_are_drawn() {
    let mut app = run_list(&["HEADER", "SEPARATOR", "a1 x y z -", "b2 x y z -", "c3 x y z -", "d4 x y z -"]);
    let columns = ColumnsConfig::new();
    assert_eq!(app.shown_rows(3), (0, 3));
    assert_eq!(app.runs_view_lines(&columns, 3, 100).len(), 3);
    app.list_offset = 4;
    app.selected_index = 5;
    assert_eq!(app.shown_rows(3), (4, 6));
    let lines = app.runs_view_lines(&columns, 3, 100);
    assert_eq!(lines.len(), 2);
    assert!(pieces(&lines[0])[0].0.starts_with("c3 "));
    assert!(!pieces(&lines[0])[0].1.highlighted);
    assert!(pieces(&lines[1])[0].0.starts_with("d4 "));
    assert!(pieces(&lines[1])[0].1.highlighted);
    app.list_offset = 9;
    assert_eq!(app.shown_rows(3), (6, 6));
    assert!(app.runs_view_lines(&columns, 3, 100).is_empty());
    app.list_offset = usize::MAX;
    assert_eq!(app.shown_rows(usize::MAX), (6, 6));
    app.list_offset = 1;
    assert_eq!(app.shown_rows(usize::MAX), (1, 6));
    assert_eq!(app.shown_rows(0), (1, 1));
}

#[test]
fn a_run_list_that_cannot_be_drawn_is_told_apart() {
    let mut app = run_list(&["HEADER", "SEPARATOR", "ééééééééééééééééééééééé etl SUCCESS 1.0s -"]);
    let columns = ColumnsConfig::new();
    // 46 bytes in a column of 36: the cut would fall inside a character
    assert!(!app.can_draw_runs_view(&columns, 10, 80));
    // the row is not in the window
    assert!(app.can_draw_runs_view(&columns, 2, 80));
    // no room for the borders
    assert!(!app.can_draw_runs_view(&columns, 2, 1));
    app.items[2] = "a1 etl SUCCESS 1.0s -".to_string();
    assert!(app.can_draw_runs_view(&columns, 10, 80));
    assert!(app.can_draw_runs_view(&columns, 10, 2));
}
