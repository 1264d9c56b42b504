//! What the screens draw: each line as pieces of text with their looks.
//!
//! Nothing here touches a terminal. The caller turns the pieces into the
//! widgets of its terminal library.

use vstd::prelude::*;
use vstd::string::*;
use vstd::utf8::{decode_utf8, encode_utf8, is_char_boundary};
use crate::app::{App, AppModel, ConnectionStatus, StatusModel};
use crate::layout::{display_widths, usable_width, ColumnsConfig};
use crate::rows::contexts_header;
use crate::text::{
    chars_of, find_from, first_match, pad_right, padded, repeat_char, repeated, space_fields,
    split_fields, split_lines, split_words, starts_with, string_of_range, text_lines, words,
};
use crate::utils::{
    can_truncate, get_status_style, is_truncatable, status_style, truncate, truncated, StatusStyle,
};
use crate::views::{Run, RunModel, ViewModel, ViewType};

verus! {

/// The colour of a piece of text.
#[derive(Debug, Clone, Copy, PartialEq, Eq, Structural)]
pub enum Paint {
    Plain,
    Green,
    Red,
    Blue,
    Yellow,
    DarkGray,
    Cyan,
    LightBlue,
}

/// How a piece of text looks.
#[derive(Debug, Clone, Copy, PartialEq, Eq, Structural)]
pub struct Look {
    pub paint: Paint,
    pub bold: bool,
    /// Whether the piece stands out against a dark background, as the
    /// selected row does.
    pub highlighted: bool,
}

/// A piece of text with its look.
#[derive(Debug)]
pub struct Piece {
    pub text: String,
    pub look: Look,
}

/// A piece as a mathematical value.
pub struct PieceModel {
    pub text: Seq<char>,
    pub look: Look,
}

impl View for Piece {
    type V = PieceModel;

    open spec fn view(&self) -> PieceModel {
        PieceModel { text: self.text@, look: self.look }
    }
}

impl DeepView for Piece {
    type V = PieceModel;

    open spec fn deep_view(&self) -> PieceModel {
        self@
    }
}

/// A line of the screen.
#[derive(Debug)]
pub struct ScreenLine {
    pub pieces: Vec<Piece>,
}

impl View for ScreenLine {
    type V = Seq<PieceModel>;

    open spec fn view(&self) -> Seq<PieceModel> {
        self.pieces.deep_view()
    }
}

impl DeepView for ScreenLine {
    type V = Seq<PieceModel>;

    open spec fn deep_view(&self) -> Seq<PieceModel> {
        self@
    }
}

/// The look of ordinary text.
pub open spec fn plain() -> Look {
    Look { paint: Paint::Plain, bold: false, highlighted: false }
}

/// The look of bold text.
pub open spec fn bold() -> Look {
    Look { paint: Paint::Plain, bold: true, highlighted: false }
}

/// The look of text in a colour.
pub open spec fn tinted(paint: Paint) -> Look {
    Look { paint, bold: false, highlighted: false }
}

/// The look of a data row: its colour, and bold on a dark background when
/// the row is selected.
pub open spec fn row_look(paint: Paint, selected: bool) -> Look {
    Look { paint, bold: selected, highlighted: selected }
}

/// A line of one piece.
pub open spec fn single(text: Seq<char>, look: Look) -> Seq<PieceModel> {
    seq![PieceModel { text, look }]
}

fn one_piece(text: String, look: Look) -> (r: ScreenLine)
    ensures
        r@ == single(text@, look),
{
    let mut pieces: Vec<Piece> = Vec::new();
    pieces.push(Piece { text, look });
    let r = ScreenLine { pieces };
    assert(r@ =~= single(text@, look));
    r
}

/// The colour that shows a status.
pub open spec fn paint_of(style: StatusStyle) -> Paint {
    match style {
        StatusStyle::Green => Paint::Green,
        StatusStyle::Red => Paint::Red,
        StatusStyle::Blue => Paint::Blue,
        StatusStyle::Yellow => Paint::Yellow,
        StatusStyle::DarkGray => Paint::DarkGray,
        StatusStyle::Plain => Paint::Plain,
    }
}

/// The colour that shows a status.
pub fn status_paint(status: &str) -> (r: Paint)
    ensures
        r == paint_of(status_style(status@)),
{
    match get_status_style(status) {
        StatusStyle::Green => Paint::Green,
        StatusStyle::Red => Paint::Red,
        StatusStyle::Blue => Paint::Blue,
        StatusStyle::Yellow => Paint::Yellow,
        StatusStyle::DarkGray => Paint::DarkGray,
        StatusStyle::Plain => Paint::Plain,
    }
}

/// A line of the start screen. The welcome is bold and cyan, a heading
/// bold and light blue. A command is cyan up to the dash that sets off
/// what it does. Anything else is plain.
pub open spec fn help_line_model(line: Seq<char>) -> Seq<PieceModel> {
    if "Welcome"@.is_prefix_of(line) {
        single(line, Look { paint: Paint::Cyan, bold: true, highlighted: false })
    } else if "Available commands:"@.is_prefix_of(line) || "Navigation:"@.is_prefix_of(line) {
        single(line, Look { paint: Paint::LightBlue, bold: true, highlighted: false })
    } else if "  :"@.is_prefix_of(line) {
        match first_match(line, " - "@, 0) {
            Some(i) => seq![
                PieceModel { text: line.take(i), look: tinted(Paint::Cyan) },
                PieceModel { text: " - "@, look: plain() },
                PieceModel { text: line.skip(i + 3), look: plain() },
            ],
            None => single(line, plain()),
        }
    } else {
        single(line, plain())
    }
}

/// A line of the start screen.
pub fn help_line(line: &str) -> (r: ScreenLine)
    ensures
        r@ == help_line_model(line@),
{
    if starts_with(line, "Welcome") {
        one_piece(line.to_owned(), Look { paint: Paint::Cyan, bold: true, highlighted: false })
    } else if starts_with(line, "Available commands:") || starts_with(line, "Navigation:") {
        one_piece(
            line.to_owned(),
            Look { paint: Paint::LightBlue, bold: true, highlighted: false },
        )
    } else if starts_with(line, "  :") {
        let v = chars_of(line);
        let dash = chars_of(" - ");
        proof {
            reveal_strlit(" - ");
        }
        match find_from(&v, &dash, 0) {
            Some(i) => {
                let mut pieces: Vec<Piece> = Vec::new();
                pieces.push(
                    Piece {
                        text: string_of_range(&v, 0, i),
                        look: Look { paint: Paint::Cyan, bold: false, highlighted: false },
                    },
                );
                pieces.push(
                    Piece {
                        text: String::from_str(" - "),
                        look: Look { paint: Paint::Plain, bold: false, highlighted: false },
                    },
                );
                pieces.push(
                    Piece {
                        text: string_of_range(&v, i + 3, v.len()),
                        look: Look { paint: Paint::Plain, bold: false, highlighted: false },
                    },
                );
                let r = ScreenLine { pieces };
                assert(v@.subrange(0, i as int) =~= line@.take(i as int));
                assert(v@.subrange(i + 3, v.len() as int) =~= line@.skip(i + 3));
                assert(r@ =~= help_line_model(line@));
                r
            },
            None => one_piece(
                line.to_owned(),
                Look { paint: Paint::Plain, bold: false, highlighted: false },
            ),
        }
    } else {
        one_piece(line.to_owned(), Look { paint: Paint::Plain, bold: false, highlighted: false })
    }
}

/// The separator row of a list in an area `width` cells wide: dashes from
/// border to border.
pub open spec fn separator(width: u16) -> Seq<char> {
    repeated('-', (width - 2) as nat)
}

/// Whether row `index` of a list can be drawn in an area `width` cells
/// wide: the separator row needs room for the two borders.
pub open spec fn row_fits(index: usize, width: u16) -> bool {
    index == 1 ==> width >= 2
}

/// Row `index` of the list of contexts. The header row is bold, the
/// separator row is drawn from border to border, and a data row is green
/// when it is the row of the context in use.
pub open spec fn context_row_model(item: Seq<char>, index: usize, selected: usize, width: u16)
    -> Seq<PieceModel> {
    if index == 0 {
        single(contexts_header(), bold())
    } else if index == 1 {
        single(separator(width), plain())
    } else {
        single(
            item,
            row_look(
                if "*"@.is_prefix_of(item) {
                    Paint::Green
                } else {
                    Paint::Plain
                },
                index == selected,
            ),
        )
    }
}

/// Row `index` of the list of contexts, where row `selected` is selected
/// and the area is `width` cells wide.
pub fn context_row(item: &str, index: usize, selected: usize, width: u16) -> (r: ScreenLine)
    requires
        row_fits(index, width),
    ensures
        r@ == context_row_model(item@, index, selected, width),
{
    if index == 0 {
        one_piece(
            String::from_str("CONTEXT NAME     URL                                      RUNS LIMIT"),
            Look { paint: Paint::Plain, bold: true, highlighted: false },
        )
    } else if index == 1 {
        one_piece(
            repeat_char('-', (width - 2) as usize),
            Look { paint: Paint::Plain, bold: false, highlighted: false },
        )
    } else {
        let paint = if starts_with(item, "*") {
            Paint::Green
        } else {
            Paint::Plain
        };
        let selected = index == selected;
        one_piece(item.to_owned(), Look { paint, bold: selected, highlighted: selected })
    }
}

/// The colour of a row of the list of pipelines: that of the status in
/// its last column.
pub open spec fn pipeline_row_paint(item: Seq<char>) -> Paint {
    if words(item).len() > 0 {
        paint_of(status_style(words(item).last()))
    } else {
        Paint::Plain
    }
}

/// Row `index` of the list of pipelines. The header row is bold, the
/// separator row is drawn from border to border, and a data row has the
/// colour of its status.
pub open spec fn pipeline_row_model(item: Seq<char>, index: usize, selected: usize, width: u16)
    -> Seq<PieceModel> {
    if index == 0 {
        single(item, bold())
    } else if index == 1 {
        single(separator(width), plain())
    } else {
        single(item, row_look(pipeline_row_paint(item), index == selected))
    }
}

/// Row `index` of the list of pipelines, where row `selected` is selected
/// and the area is `width` cells wide.
pub fn pipeline_row(item: &str, index: usize, selected: usize, width: u16) -> (r: ScreenLine)
    requires
        row_fits(index, width),
    ensures
        r@ == pipeline_row_model(item@, index, selected, width),
{
    if index == 0 {
        one_piece(item.to_owned(), Look { paint: Paint::Plain, bold: true, highlighted: false })
    } else if index == 1 {
        one_piece(
            repeat_char('-', (width - 2) as usize),
            Look { paint: Paint::Plain, bold: false, highlighted: false },
        )
    } else {
        let parts = split_words(item);
        let paint = if parts.len() > 0 {
            assert(parts.deep_view().last() == parts[parts.len() - 1]@);
            status_paint(parts[parts.len() - 1].as_str())
        } else {
            Paint::Plain
        };
        let selected = index == selected;
        one_piece(item.to_owned(), Look { paint, bold: selected, highlighted: selected })
    }
}

/// The texts `parts`, with `separator` between them.
pub open spec fn joined(parts: Seq<Seq<char>>, separator: Seq<char>) -> Seq<char>
    decreases parts.len(),
{
    if parts.len() == 0 {
        Seq::empty()
    } else if parts.len() == 1 {
        parts[0]
    } else {
        joined(parts.drop_last(), separator) + separator + parts.last()
    }
}

/// Writes `parts` with `separator` between them.
pub fn join(parts: &Vec<String>, separator: &str) -> (r: String)
    ensures
        r@ == joined(parts.deep_view(), separator@),
{
    let mut out = String::new();
    let ghost model = parts.deep_view();
    let mut i: usize = 0;
    assert(model.take(0) =~= Seq::<Seq<char>>::empty());
    while i < parts.len()
        invariant
            i <= parts.len(),
            model == parts.deep_view(),
            out@ == joined(model.take(i as int), separator@),
        decreases parts.len() - i,
    {
        proof {
            assert(model.take(i + 1).drop_last() =~= model.take(i as int));
            assert(model.take(i + 1).last() == parts[i as int]@);
            if i == 0 {
                assert(out@ + parts[i as int]@ =~= parts[i as int]@);
                assert(model.take(1)[0] == parts[0]@);
            }
        }
        if i > 0 {
            out.append(separator);
        }
        out.append(parts[i].as_str());
        i += 1;
    }
    assert(model.take(parts.len() as int) =~= model);
    out
}

/// The columns that a row of runs shows, where `widths` holds the widths
/// of the columns in the order of the fields of the row: for each place
/// that has a width and a field, the field shortened and padded to the
/// width. A field whose column has no width is left out.
pub open spec fn run_cells(fields: Seq<Seq<char>>, widths: Seq<usize>, upto: int) -> Seq<
    Seq<char>,
>
    decreases upto,
{
    if upto <= 0 {
        Seq::empty()
    } else {
        let before = run_cells(fields, widths, upto - 1);
        let k = upto - 1;
        if k < widths.len() && widths[k] > 0 && k < fields.len() {
            before.push(padded(truncated(fields[k], widths[k] as int), widths[k] as nat))
        } else {
            before
        }
    }
}

/// Whether every field of a row of runs that is shown can be shortened to
/// its width.
pub open spec fn run_row_fits(item: Seq<char>, widths: Seq<usize>) -> bool {
    forall|k: int|
        0 <= k < widths.len() && k < space_fields(item, 5).len() && widths[k] > 0
            ==> can_truncate(#[trigger] space_fields(item, 5)[k], widths[k] as int)
}

/// The colour of a row of runs: that of the status in its third field.
pub open spec fn run_row_paint(item: Seq<char>) -> Paint {
    if space_fields(item, 5).len() > 2 {
        paint_of(status_style(space_fields(item, 5)[2]))
    } else {
        Paint::Plain
    }
}

/// A data row of a list of runs: its fields in their columns, in the
/// colour of its status.
pub open spec fn run_row_model(item: Seq<char>, selected: bool, widths: Seq<usize>) -> Seq<
    PieceModel,
> {
    single(
        joined(run_cells(space_fields(item, 5), widths, widths.len() as int), " "@),
        row_look(run_row_paint(item), selected),
    )
}

/// Decides whether a data row of a list of runs can be drawn in columns
/// of the widths `widths`.
pub fn can_draw_run_row(item: &str, widths: &Vec<usize>) -> (r: bool)
    ensures
        r == run_row_fits(item@, widths@),
{
    let fields = split_fields(item, 5);
    let mut k: usize = 0;
    while k < widths.len() && k < fields.len()
        invariant
            k <= widths.len(),
            k <= fields.len(),
            fields.deep_view() == space_fields(item@, 5),
            forall|j: int|
                0 <= j < k && widths[j] > 0 ==> can_truncate(
                    #[trigger] space_fields(item@, 5)[j],
                    widths[j] as int,
                ),
        decreases widths.len() - k,
    {
        assert(fields.deep_view()[k as int] == fields[k as int]@);
        if widths[k] > 0 && !is_truncatable(fields[k].as_str(), widths[k]) {
            assert(!can_truncate(space_fields(item@, 5)[k as int], widths[k as int] as int));
            return false;
        }
        k += 1;
    }
    true
}

/// A data row of a list of runs in columns of the widths `widths`.
pub fn run_row(item: &str, selected: bool, widths: &Vec<usize>) -> (r: ScreenLine)
    requires
        run_row_fits(item@, widths@),
    ensures
        r@ == run_row_model(item@, selected, widths@),
{
    let fields = split_fields(item, 5);
    let ghost model = fields.deep_view();
    let paint = if fields.len() > 2 {
        assert(model[2] == fields[2]@);
        status_paint(fields[2].as_str())
    } else {
        Paint::Plain
    };
    let mut cells: Vec<String> = Vec::new();
    let mut k: usize = 0;
    assert(cells.deep_view() =~= Seq::<Seq<char>>::empty());
    while k < widths.len()
        invariant
            k <= widths.len(),
            model == fields.deep_view(),
            model == space_fields(item@, 5),
            run_row_fits(item@, widths@),
            cells.deep_view() == run_cells(model, widths@, k as int),
        decreases widths.len() - k,
    {
        let width = widths[k];
        if width > 0 && k < fields.len() {
            assert(model[k as int] == fields[k as int]@);
            assert(can_truncate(space_fields(item@, 5)[k as int], widths[k as int] as int));
            let cell = pad_right(truncate(fields[k].as_str(), width).as_str(), width);
            let ghost before = cells.deep_view();
            let ghost text = cell@;
            cells.push(cell);
            assert(cells.deep_view() =~= before.push(text));
        }
        k += 1;
    }
    one_piece(join(&cells, " "), Look { paint, bold: selected, highlighted: selected })
}

/// The header cells of a list of runs, where `names` and `widths` hold
/// the names and the widths of the columns in the same order: for each
/// place that has a width, the name of the column at that place, padded to
/// the width. The name of a column without a width is left out.
pub open spec fn header_cells(names: Seq<Seq<char>>, widths: Seq<usize>, upto: int) -> Seq<
    Seq<char>,
>
    decreases upto,
{
    if upto <= 0 {
        Seq::empty()
    } else {
        let before = header_cells(names, widths, upto - 1);
        let k = upto - 1;
        if k < widths.len() && k < names.len() && widths[k] > 0 {
            before.push(padded(names[k], widths[k] as nat))
        } else {
            before
        }
    }
}

/// The header row of a list of runs over columns called `names`, in the
/// widths `widths`: the names of the columns that are shown, bold.
pub open spec fn runs_header_model(names: Seq<Seq<char>>, widths: Seq<usize>) -> Seq<
    PieceModel,
> {
    single(joined(header_cells(names, widths, widths.len() as int), " "@), bold())
}

/// The header row of a list of runs.
pub fn runs_header(names: &Vec<String>, widths: &Vec<usize>) -> (r: ScreenLine)
    ensures
        r@ == runs_header_model(names.deep_view(), widths@),
{
    let ghost model = names.deep_view();
    let mut cells: Vec<String> = Vec::new();
    let mut k: usize = 0;
    assert(cells.deep_view() =~= Seq::<Seq<char>>::empty());
    while k < widths.len()
        invariant
            k <= widths.len(),
            model == names.deep_view(),
            cells.deep_view() == header_cells(model, widths@, k as int),
        decreases widths.len() - k,
    {
        if k < names.len() && widths[k] > 0 {
            assert(model[k as int] == names[k as int]@);
            let cell = pad_right(names[k].as_str(), widths[k]);
            let ghost before = cells.deep_view();
            let ghost text = cell@;
            cells.push(cell);
            assert(cells.deep_view() =~= before.push(text));
        }
        k += 1;
    }
    one_piece(join(&cells, " "), Look { paint: Paint::Plain, bold: true, highlighted: false })
}

/// Whether row `index` of a list of runs can be drawn: the separator row
/// needs room for the borders, and a data row must fit its columns.
pub open spec fn runs_row_fits(item: Seq<char>, index: usize, widths: Seq<usize>, width: u16)
    -> bool {
    &&& row_fits(index, width)
    &&& index >= 2 ==> run_row_fits(item, widths)
}

/// Row `index` of a list of runs: the header row, the separator row, or a
/// data row.
pub open spec fn runs_row_model(
    item: Seq<char>,
    index: usize,
    selected: usize,
    names: Seq<Seq<char>>,
    widths: Seq<usize>,
    width: u16,
) -> Seq<PieceModel> {
    if index == 0 {
        runs_header_model(names, widths)
    } else if index == 1 {
        single(separator(width), plain())
    } else {
        run_row_model(item, index == selected, widths)
    }
}

/// Decides whether row `index` of a list of runs can be drawn.
pub fn can_draw_runs_row(item: &str, index: usize, widths: &Vec<usize>, width: u16) -> (r: bool)
    ensures
        r == runs_row_fits(item@, index, widths@, width),
{
    if index == 1 {
        width >= 2
    } else if index >= 2 {
        can_draw_run_row(item, widths)
    } else {
        true
    }
}

/// Row `index` of a list of runs, where row `selected` is selected, the
/// columns are called `names` and are `widths` wide, and the area is
/// `width` cells wide.
pub fn runs_row(
    item: &str,
    index: usize,
    selected: usize,
    names: &Vec<String>,
    widths: &Vec<usize>,
    width: u16,
) -> (r: ScreenLine)
    requires
        runs_row_fits(item@, index, widths@, width),
    ensures
        r@ == runs_row_model(item@, index, selected, names.deep_view(), widths@, width),
{
    if index == 0 {
        runs_header(names, widths)
    } else if index == 1 {
        one_piece(
            repeat_char('-', (width - 2) as usize),
            Look { paint: Paint::Plain, bold: false, highlighted: false },
        )
    } else {
        run_row(item, index == selected, widths)
    }
}

/// The widths of the columns of a list of runs that is drawn in an area
/// `width` cells wide, in the order of the fields of a row: what the layout
/// gives each column in the cells between the two borders.
pub open spec fn row_widths(columns: ColumnsConfig, width: u16) -> Seq<usize> {
    Seq::new(
        5,
        |i: int| display_widths(columns.columns(), usable_width((width - 2) as u16))[i] as usize,
    )
}

impl AppModel {
    /// The first row that is shown: the row to which the list is scrolled,
    /// if there is such a row.
    pub open spec fn first_shown(self) -> int {
        if self.list_offset < self.items.len() {
            self.list_offset as int
        } else {
            self.items.len() as int
        }
    }

    /// The row behind the last row that is shown, in an area `height` rows
    /// high.
    pub open spec fn end_shown(self, height: usize) -> int {
        if self.list_offset + height < self.items.len() {
            self.list_offset + height
        } else {
            self.items.len() as int
        }
    }

    /// Whether the list of runs can be drawn in an area `height` rows high
    /// and `width` cells wide: there is room for the two borders, and every
    /// row that is shown fits its columns.
    pub open spec fn runs_view_fits(self, columns: ColumnsConfig, height: usize, width: u16)
        -> bool {
        &&& width >= 2
        &&& forall|j: int|
            self.first_shown() <= j < self.end_shown(height) ==> runs_row_fits(
                #[trigger] self.items[j],
                j as usize,
                row_widths(columns, width),
                width,
            )
    }

    /// The rows of the list of runs that are shown in an area `height` rows
    /// high and `width` cells wide. The header names the columns that the
    /// layout keeps, each as wide as the layout makes it, and every data
    /// row shows the fields of those columns at the same widths; a column
    /// that the layout hides is left out of the header and of every row.
    pub open spec fn runs_view_lines(self, columns: ColumnsConfig, height: usize, width: u16)
        -> Seq<Seq<PieceModel>> {
        Seq::new(
            (self.end_shown(height) - self.first_shown()) as nat,
            |j: int|
                runs_row_model(
                    self.items[self.first_shown() + j],
                    (self.first_shown() + j) as usize,
                    self.selected_index,
                    columns.names(),
                    row_widths(columns, width),
                    width,
                ),
        )
    }
}

impl App {
    /// The first row that is shown and the row behind the last, in an area
    /// `height` rows high.
    pub fn shown_rows(&self, height: usize) -> (r: (usize, usize))
        ensures
            r.0 == self@.first_shown(),
            r.1 == self@.end_shown(height),
            r.0 <= r.1 <= self.items.len(),
    {
        let len = self.items.len();
        let first = if self.list_offset < len {
            self.list_offset
        } else {
            len
        };
        let end = match self.list_offset.checked_add(height) {
            Some(end) => if end < len {
                end
            } else {
                len
            },
            None => len,
        };
        (first, end)
    }

    /// Decides whether the list of runs can be drawn in an area `height`
    /// rows high and `width` cells wide.
    pub fn can_draw_runs_view(&self, columns: &ColumnsConfig, height: usize, width: u16) -> (r:
        bool)
        requires
            columns.fits(),
        ensures
            r == self@.runs_view_fits(*columns, height, width),
    {
        if width < 2 {
            return false;
        }
        let widths = columns.display_widths(width - 2);
        assert(widths@ =~= row_widths(*columns, width));
        let (first, end) = self.shown_rows(height);
        let mut j: usize = first;
        while j < end
            invariant
                first <= j <= end <= self.items.len(),
                first == self@.first_shown(),
                end == self@.end_shown(height),
                width >= 2,
                widths@ == row_widths(*columns, width),
                forall|k: int|
                    first <= k < j ==> runs_row_fits(
                        #[trigger] self@.items[k],
                        k as usize,
                        row_widths(*columns, width),
                        width,
                    ),
            decreases end - j,
        {
            assert(self@.items[j as int] == self.items[j as int]@);
            if !can_draw_runs_row(self.items[j].as_str(), j, &widths, width) {
                assert(!runs_row_fits(
                    self@.items[j as int],
                    j as int as usize,
                    row_widths(*columns, width),
                    width,
                ));
                return false;
            }
            j += 1;
        }
        true
    }

    /// The rows of the list of runs that are shown in an area `height` rows
    /// high and `width` cells wide.
    pub fn runs_view_lines(&self, columns: &ColumnsConfig, height: usize, width: u16) -> (r: Vec<
        ScreenLine,
    >)
        requires
            columns.fits(),
            self@.runs_view_fits(*columns, height, width),
        ensures
            r.deep_view() == self@.runs_view_lines(*columns, height, width),
    {
        let widths = columns.display_widths(width - 2);
        assert(widths@ =~= row_widths(*columns, width));
        let names = columns.column_names();
        let (first, end) = self.shown_rows(height);
        let ghost target = self@.runs_view_lines(*columns, height, width);
        let mut out: Vec<ScreenLine> = Vec::new();
        let mut j: usize = first;
        assert(out.deep_view() =~= target.take(0));
        while j < end
            invariant
                first <= j <= end <= self.items.len(),
                first == self@.first_shown(),
                end == self@.end_shown(height),
                widths@ == row_widths(*columns, width),
                names.deep_view() == columns.names(),
                self@.runs_view_fits(*columns, height, width),
                target == self@.runs_view_lines(*columns, height, width),
                out.deep_view() == target.take(j - first),
            decreases end - j,
        {
            assert(self@.items[j as int] == self.items[j as int]@);
            assert(runs_row_fits(
                self@.items[j as int],
                j as int as usize,
                row_widths(*columns, width),
                width,
            ));
            let line = runs_row(
                self.items[j].as_str(),
                j,
                self.selected_index,
                &names,
                &widths,
                width,
            );
            let ghost before = out.deep_view();
            let ghost added = line@;
            out.push(line);
            assert(out.deep_view() =~= before.push(added));
            assert(target.take(j - first + 1) =~= target.take(j - first).push(target[j - first]));
            j += 1;
        }
        assert(target.take(end - first) =~= target);
        out
    }
}

/// The title of a list of runs.
pub open spec fn runs_title_text(view: ViewModel) -> Seq<char> {
    match view {
        ViewModel::PipelineRuns(name) => " Runs for Pipeline: "@ + name + " "@,
        _ => " All Runs "@,
    }
}

/// The title of a list of runs: of all runs, or of the runs of the
/// pipeline in view.
pub fn runs_title(view: &ViewType) -> (r: String)
    ensures
        r@ == runs_title_text(view@),
{
    match view {
        ViewType::PipelineRuns(name) => String::from_str(" Runs for Pipeline: ").concat(
            name.as_str(),
        ).concat(" "),
        _ => String::from_str(" All Runs "),
    }
}

/// A line of the detail screen that names something in bold and gives
/// its value.
pub open spec fn labelled(label: Seq<char>, value: Seq<char>, paint: Paint) -> Seq<PieceModel> {
    seq![PieceModel { text: label, look: bold() }, PieceModel { text: value, look: tinted(paint) }]
}

fn labelled_line(label: &str, value: &str, paint: Paint) -> (r: ScreenLine)
    ensures
        r@ == labelled(label@, value@, paint),
{
    let mut pieces: Vec<Piece> = Vec::new();
    pieces.push(
        Piece {
            text: label.to_owned(),
            look: Look { paint: Paint::Plain, bold: true, highlighted: false },
        },
    );
    pieces.push(
        Piece { text: value.to_owned(), look: Look { paint, bold: false, highlighted: false } },
    );
    let r = ScreenLine { pieces };
    assert(r@ =~= labelled(label@, value@, paint));
    r
}

/// The lines of the detail screen of a run whose start and end are
/// written as `started` and `ended`: id, status, job, start and end, each
/// with its name, then the run configuration line by line.
pub open spec fn detail_lines_model(run: RunModel, started: Seq<char>, ended: Seq<char>) -> Seq<
    Seq<PieceModel>,
> {
    seq![
        labelled("Run ID:      "@, run.run_id, Paint::Plain),
        labelled("Status:      "@, run.status, paint_of(status_style(run.status))),
        labelled("Job Name:    "@, run.job_name, Paint::Plain),
        labelled("Start Time:  "@, started, Paint::Plain),
        labelled("End Time:    "@, ended, Paint::Plain),
        single(""@, plain()),
        single("Run Configuration:"@, bold()),
        single(""@, plain()),
    ] + Seq::new(
        text_lines(run.run_config_yaml).len(),
        |i: int| single(text_lines(run.run_config_yaml)[i], plain()),
    )
}

/// The lines of the detail screen of `run`.
pub fn detail_lines(run: &Run, started: &str, ended: &str) -> (r: Vec<ScreenLine>)
    ensures
        r.deep_view() == detail_lines_model(run@, started@, ended@),
{
    let mut out: Vec<ScreenLine> = Vec::new();
    let plain_look = Look { paint: Paint::Plain, bold: false, highlighted: false };
    let bold_look = Look { paint: Paint::Plain, bold: true, highlighted: false };
    out.push(labelled_line("Run ID:      ", run.run_id.as_str(), Paint::Plain));
    out.push(
        labelled_line("Status:      ", run.status.as_str(), status_paint(run.status.as_str())),
    );
    out.push(labelled_line("Job Name:    ", run.job_name.as_str(), Paint::Plain));
    out.push(labelled_line("Start Time:  ", started, Paint::Plain));
    out.push(labelled_line("End Time:    ", ended, Paint::Plain));
    out.push(one_piece(String::from_str(""), plain_look));
    out.push(one_piece(String::from_str("Run Configuration:"), bold_look));
    out.push(one_piece(String::from_str(""), plain_look));
    let yaml = split_lines(run.run_config_yaml.as_str());
    let ghost lines = text_lines(run@.run_config_yaml);
    let ghost head = out.deep_view();
    let mut i: usize = 0;
    assert(head + Seq::new(0, |k: int| single(lines[k], plain())) =~= head);
    while i < yaml.len()
        invariant
            i <= yaml.len(),
            yaml.deep_view() == lines,
            out.deep_view() == head + Seq::new(i as nat, |k: int| single(lines[k], plain())),
        decreases yaml.len() - i,
    {
        assert(yaml.deep_view()[i as int] == yaml[i as int]@);
        let ghost before = out.deep_view();
        out.push(
            one_piece(
                yaml[i].clone(),
                Look { paint: Paint::Plain, bold: false, highlighted: false },
            ),
        );
        assert(out.deep_view() =~= before.push(single(lines[i as int], plain())));
        assert(before.push(single(lines[i as int], plain())) =~= head + Seq::new(
            (i + 1) as nat,
            |k: int| single(lines[k], plain()),
        ));
        i += 1;
    }
    assert(head =~= detail_lines_model(run@, started@, ended@).take(8));
    assert(out.deep_view() =~= detail_lines_model(run@, started@, ended@));
    out
}

/// Whether the connection status can be shown: a reason of more than
/// thirty bytes must allow a cut after the thirtieth.
pub open spec fn status_fits(status: StatusModel) -> bool {
    match status {
        StatusModel::Failed(reason) => encode_utf8(reason).len() > 30 ==> is_char_boundary(
            encode_utf8(reason),
            30,
        ),
        _ => true,
    }
}

/// The connection status as the status line shows it: in green when
/// connected, in yellow when not, and the first thirty bytes of the reason
/// in red after a failure.
pub open spec fn status_piece_model(status: StatusModel) -> PieceModel {
    match status {
        StatusModel::Connected => PieceModel {
            text: "Connected"@,
            look: tinted(Paint::Green),
        },
        StatusModel::Failed(reason) => PieceModel {
            text: if encode_utf8(reason).len() > 30 {
                decode_utf8(encode_utf8(reason).subrange(0, 30))
            } else {
                reason
            },
            look: tinted(Paint::Red),
        },
        StatusModel::Disconnected => PieceModel {
            text: "Disconnected"@,
            look: tinted(Paint::Yellow),
        },
    }
}

/// Decides whether the connection status can be shown.
pub fn can_show_status(status: &ConnectionStatus) -> (r: bool)
    ensures
        r == status_fits(status@),
{
    match status {
        ConnectionStatus::Failed(reason) => reason.as_str().as_bytes().len() <= 30
            || reason.as_str().is_char_boundary(30),
        _ => true,
    }
}

/// The connection status as the status line shows it.
pub fn status_piece(status: &ConnectionStatus) -> (r: Piece)
    requires
        status_fits(status@),
    ensures
        r@ == status_piece_model(status@),
{
    match status {
        ConnectionStatus::Connected => Piece {
            text: String::from_str("Connected"),
            look: Look { paint: Paint::Green, bold: false, highlighted: false },
        },
        ConnectionStatus::Failed(reason) => {
            let text = if reason.as_str().as_bytes().len() > 30 {
                let (head, _) = reason.as_str().split_at(30);
                proof {
                    vstd::utf8::encode_utf8_decode_utf8(head@);
                }
                head.to_owned()
            } else {
                reason.clone()
            };
            Piece { text, look: Look { paint: Paint::Red, bold: false, highlighted: false } }
        },
        ConnectionStatus::Disconnected => Piece {
            text: String::from_str("Disconnected"),
            look: Look { paint: Paint::Yellow, bold: false, highlighted: false },
        },
    }
}

impl AppModel {
    /// The input line: the command behind a colon while the command line
    /// takes the keys, else the query behind a slash while the search line
    /// does, else nothing.
    pub open spec fn input_line(self) -> Option<Seq<char>> {
        if self.command_mode {
            Some(": "@ + self.command_input)
        } else if self.search_mode {
            Some("/"@ + self.search_input)
        } else {
            None
        }
    }
}

impl App {
    /// The input line, if one is shown.
    pub fn input_line(&self) -> (r: Option<String>)
        ensures
            match r {
                Some(text) => self@.input_line() == Some(text@),
                None => self@.input_line() is None,
            },
    {
        if self.command_mode {
            Some(String::from_str(": ").concat(self.command_input.as_str()))
        } else if self.search_mode {
            Some(String::from_str("/").concat(self.search_input.as_str()))
        } else {
            None
        }
    }
}

} // verus!
