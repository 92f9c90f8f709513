use vstd::prelude::*;
use vstd::string::*;

use crate::aws::{Ec2Instance, Ec2Response, SsmParameter, SsmResponse, STSResponse};

verus! {

/// Horizontal alignment of the cells of one column.
#[derive(Debug, Clone, Copy, PartialEq, Eq, Structural)]
pub enum TableColumnFormat {
    ToLeft,
    ToRight,
}

impl Default for TableColumnFormat {
    /// Columns align to the left unless told otherwise.
    fn default() -> (r: TableColumnFormat)
        ensures
            r == TableColumnFormat::ToLeft,
    {
        TableColumnFormat::ToLeft
    }
}

/// A failure of the table engine.
#[derive(Debug)]
pub enum TableError {
    /// A pushed row does not have as many fields as the header.
    IncorrectRowLength,
    /// Writing the rendered table failed.
    IOError(std::io::Error),
}

/// The platform's I/O error, carried through `TableError::IOError`.
#[verifier::external_type_specification]
#[verifier::external_body]
pub struct ExIoError(std::io::Error);

impl From<std::io::Error> for TableError {
    fn from(err: std::io::Error) -> (r: TableError) {
        TableError::IOError(err)
    }
}

impl vstd::std_specs::convert::FromSpecImpl<std::io::Error> for TableError {
    open spec fn obeys_from_spec() -> bool {
        true
    }

    open spec fn from_spec(err: std::io::Error) -> TableError {
        TableError::IOError(err)
    }
}

/// Names the display width that `console::measure_text_width` gives a string:
/// the terminal columns it takes, ANSI escape sequences not counted.
pub uninterp spec fn text_width(s: Seq<char>) -> nat;

/// Every character is printable ASCII (space to tilde).
pub open spec fn is_printable_ascii(s: Seq<char>) -> bool {
    forall|i: int| 0 <= i < s.len() ==> ' ' <= #[trigger] s[i] <= '~'
}

/// Relies on console::measure_text_width for the display width of a cell;
/// its source returns the byte length when every byte is printable ASCII.
#[verifier::external_body]
fn measure_text_width(field: &String) -> (r: usize)
    ensures
        r == text_width(field@),
        is_printable_ascii(field@) ==> r == field@.len(),
{
    console::measure_text_width(field.as_str())
}

/// Every cell in printable ASCII among the first `k` rows is as wide as it
/// is long.
pub open spec fn ascii_cells_measured(rows: Seq<Seq<Seq<char>>>, k: int) -> bool {
    forall|j: int, i: int|
        0 <= j < k && 0 <= i < rows[j].len() && is_printable_ascii(#[trigger] rows[j][i])
            ==> text_width(rows[j][i]) == rows[j][i].len()
}

/// What a table holds: one format per column, the rows (the header first)
/// and whether the header is printed.
pub struct TableModel {
    pub format: Seq<TableColumnFormat>,
    pub rows: Seq<Seq<Seq<char>>>,
    pub show_header: bool,
}

/// A grid of text cells whose first row is the header.
pub struct Table {
    format: Vec<TableColumnFormat>,
    rows: Vec<Vec<String>>,
    show_header: bool,
}

impl View for Table {
    type V = TableModel;

    closed spec fn view(&self) -> TableModel {
        TableModel {
            format: self.format@,
            rows: self.rows.deep_view(),
            show_header: self.show_header,
        }
    }
}

/// A table model is well formed when the header exists and every row has one
/// field per column.
pub open spec fn model_wf(m: TableModel) -> bool {
    &&& m.rows.len() >= 1
    &&& forall|j: int| 0 <= j < m.rows.len() ==> #[trigger] m.rows[j].len() == m.format.len()
}

/// `n` columns aligned to the left.
pub open spec fn left_formats(n: nat) -> Seq<TableColumnFormat> {
    Seq::new(n, |i: int| TableColumnFormat::ToLeft)
}

/// The widest display width in column `i` over the first `k` rows.
pub open spec fn width_upto(rows: Seq<Seq<Seq<char>>>, i: int, k: int) -> nat
    decreases k,
{
    if k <= 0 {
        0
    } else {
        let prev = width_upto(rows, i, k - 1);
        let w = text_width(rows[k - 1][i]);
        if w > prev {
            w
        } else {
            prev
        }
    }
}

/// The width of column `i`: the widest cell of that column over all rows,
/// the header included whether or not it is shown.
pub open spec fn column_width(rows: Seq<Seq<Seq<char>>>, i: int) -> nat {
    width_upto(rows, i, rows.len() as int)
}

/// The width of every column.
pub open spec fn column_widths(m: TableModel) -> Seq<nat> {
    Seq::new(m.format.len(), |i: int| column_width(m.rows, i))
}

/// `n` space characters.
pub open spec fn spaces(n: nat) -> Seq<char> {
    Seq::new(n, |i: int| ' ')
}

/// A cell padded with spaces to `width` columns, on the side its format asks.
pub open spec fn pad_field(field: Seq<char>, width: nat, format: TableColumnFormat) -> Seq<char> {
    let fill = spaces((width - text_width(field)) as nat);
    match format {
        TableColumnFormat::ToLeft => field + fill,
        TableColumnFormat::ToRight => fill + field,
    }
}

/// The first `k` padded cells of a row, joined by `padding` spaces.
pub open spec fn join_fields(
    row: Seq<Seq<char>>,
    widths: Seq<nat>,
    formats: Seq<TableColumnFormat>,
    padding: nat,
    k: int,
) -> Seq<char>
    decreases k,
{
    if k <= 0 {
        Seq::empty()
    } else if k == 1 {
        pad_field(row[0], widths[0], formats[0])
    } else {
        join_fields(row, widths, formats, padding, k - 1) + spaces(padding) + pad_field(
            row[k - 1],
            widths[k - 1],
            formats[k - 1],
        )
    }
}

/// One row as printed, without its line terminator.
pub open spec fn format_row(m: TableModel, row: Seq<Seq<char>>, padding: nat) -> Seq<char> {
    join_fields(row, column_widths(m), m.format, padding, row.len() as int)
}

/// Index of the first printed row.
pub open spec fn first_printed(m: TableModel) -> int {
    if m.show_header {
        0
    } else {
        1
    }
}

/// The printed lines: one per row, from the header when it is shown and from
/// the first data row otherwise.
pub open spec fn rendered_lines(m: TableModel, padding: nat) -> Seq<Seq<char>> {
    m.rows.subrange(first_printed(m), m.rows.len() as int).map(
        |j: int, row: Seq<Seq<char>>| format_row(m, row, padding),
    )
}

/// Lines, each followed by a line feed.
pub open spec fn terminate_lines(lines: Seq<Seq<char>>) -> Seq<char>
    decreases lines.len(),
{
    if lines.len() == 0 {
        Seq::empty()
    } else {
        terminate_lines(lines.drop_last()) + lines.last() + seq!['\n']
    }
}

/// The whole text of a rendered table.
pub open spec fn rendered(m: TableModel, padding: nat) -> Seq<char> {
    terminate_lines(rendered_lines(m, padding))
}

/// The table of an identity: no header shown, a label and a value per line.
pub open spec fn identity_model(i: STSResponse) -> TableModel {
    TableModel {
        format: left_formats(2),
        rows: seq![
            seq!["Param"@, "Value"@],
            seq!["AWS ARN:"@, i.arn@],
            seq!["User ID:"@, i.user_id@],
            seq!["Account:"@, i.account@],
        ],
        show_header: false,
    }
}

/// The cells of one instance, in column order.
pub open spec fn instance_row(x: Ec2Instance) -> Seq<Seq<char>> {
    seq![x.name@, x.instance_id@, x.state@, x.private_ip@]
}

pub open spec fn instance_rows(l: Ec2Response) -> Seq<Seq<Seq<char>>> {
    l.instances@.map(|k: int, x: Ec2Instance| instance_row(x))
}

/// The table of instances: the name right-aligned, one row per instance in
/// the order given.
pub open spec fn instances_model(l: Ec2Response) -> TableModel {
    TableModel {
        format: seq![
            TableColumnFormat::ToRight,
            TableColumnFormat::ToLeft,
            TableColumnFormat::ToLeft,
            TableColumnFormat::ToLeft,
        ],
        rows: seq![seq!["Name"@, "Instance ID"@, "State"@, "Private IP"@]] + instance_rows(l),
        show_header: true,
    }
}

/// The cells of one parameter, in column order.
pub open spec fn parameter_row(x: SsmParameter) -> Seq<Seq<char>> {
    seq![x.name@, x.param_type@, x.value@]
}

pub open spec fn parameter_rows(p: SsmResponse) -> Seq<Seq<Seq<char>>> {
    p.parameters@.map(|k: int, x: SsmParameter| parameter_row(x))
}

/// The table of parameters: one row per parameter in the order given.
pub open spec fn parameters_model(p: SsmResponse) -> TableModel {
    TableModel {
        format: left_formats(3),
        rows: seq![seq!["Name"@, "Type"@, "Value"@]] + parameter_rows(p),
        show_header: true,
    }
}

/// Each column is at least as wide as every one of its cells, and exactly as
/// wide as one of them.
pub proof fn lemma_width_is_tight_max(m: TableModel, i: int)
    requires
        model_wf(m),
        0 <= i < m.format.len(),
    ensures
        forall|j: int|
            0 <= j < m.rows.len() ==> column_width(m.rows, i) >= text_width(#[trigger] m.rows[j][i]),
        exists|j: int|
            0 <= j < m.rows.len() && column_width(m.rows, i) == text_width(#[trigger] m.rows[j][i]),
{
    lemma_width_upto(m.rows, i, m.rows.len() as int);
}

proof fn lemma_width_upto(rows: Seq<Seq<Seq<char>>>, i: int, k: int)
    requires
        1 <= k <= rows.len(),
    ensures
        forall|j: int| 0 <= j < k ==> width_upto(rows, i, k) >= text_width(#[trigger] rows[j][i]),
        exists|j: int| 0 <= j < k && width_upto(rows, i, k) == text_width(#[trigger] rows[j][i]),
    decreases k,
{
    if k > 1 {
        lemma_width_upto(rows, i, k - 1);
        let j0 = choose|j: int| 0 <= j < k - 1 && width_upto(rows, i, k - 1) == text_width(#[trigger] rows[j][i]);
        if text_width(rows[k - 1][i]) > width_upto(rows, i, k - 1) {
            assert(width_upto(rows, i, k) == text_width(rows[k - 1][i]));
        } else {
            assert(width_upto(rows, i, k) == text_width(rows[j0][i]));
        }
    } else {
        assert(width_upto(rows, i, 0) == 0);
        assert(width_upto(rows, i, 1) == text_width(rows[0][i]));
    }
}

/// With the header hidden, the header row is left out of the output and every
/// other row gives exactly one line, in order; with it shown, every row does.
pub proof fn lemma_header_suppression(m: TableModel, padding: nat)
    requires
        model_wf(m),
    ensures
        !m.show_header ==> rendered_lines(m, padding).len() == m.rows.len() - 1,
        !m.show_header ==> forall|k: int|
            0 <= k < m.rows.len() - 1 ==> #[trigger] rendered_lines(m, padding)[k] == format_row(
                m,
                m.rows[k + 1],
                padding,
            ),
        m.show_header ==> rendered_lines(m, padding).len() == m.rows.len(),
        m.show_header ==> forall|k: int|
            0 <= k < m.rows.len() ==> #[trigger] rendered_lines(m, padding)[k] == format_row(
                m,
                m.rows[k],
                padding,
            ),
{
}

/// How many times `c` occurs in `s`.
pub open spec fn occurrences(s: Seq<char>, c: char) -> nat
    decreases s.len(),
{
    if s.len() == 0 {
        0
    } else {
        occurrences(s.drop_last(), c) + if s.last() == c {
            1nat
        } else {
            0nat
        }
    }
}

/// No character of `s` is a line feed.
pub open spec fn no_line_feed(s: Seq<char>) -> bool {
    forall|i: int| 0 <= i < s.len() ==> #[trigger] s[i] != '\n'
}

proof fn lemma_occurrences_concat(a: Seq<char>, b: Seq<char>, c: char)
    ensures
        occurrences(a + b, c) == occurrences(a, c) + occurrences(b, c),
    decreases b.len(),
{
    if b.len() == 0 {
        assert(a + b =~= a);
    } else {
        lemma_occurrences_concat(a, b.drop_last(), c);
        assert((a + b).drop_last() =~= a + b.drop_last());
    }
}

proof fn lemma_no_line_feed_count(s: Seq<char>)
    requires
        no_line_feed(s),
    ensures
        occurrences(s, '\n') == 0,
    decreases s.len(),
{
    if s.len() > 0 {
        lemma_no_line_feed_count(s.drop_last());
    }
}

proof fn lemma_join_no_line_feed(
    row: Seq<Seq<char>>,
    widths: Seq<nat>,
    formats: Seq<TableColumnFormat>,
    padding: nat,
    k: int,
)
    requires
        0 <= k <= row.len(),
        forall|i: int| 0 <= i < row.len() ==> no_line_feed(#[trigger] row[i]),
    ensures
        no_line_feed(join_fields(row, widths, formats, padding, k)),
    decreases k,
{
    if k >= 1 {
        let p = pad_field(row[k - 1], widths[k - 1], formats[k - 1]);
        assert(no_line_feed(row[k - 1]));
        assert(no_line_feed(p));
        if k > 1 {
            lemma_join_no_line_feed(row, widths, formats, padding, k - 1);
            let head = join_fields(row, widths, formats, padding, k - 1);
            assert(no_line_feed(head + spaces(padding)));
            assert(no_line_feed(head + spaces(padding) + p));
        }
    }
}

proof fn lemma_terminated_count(lines: Seq<Seq<char>>)
    requires
        forall|k: int| 0 <= k < lines.len() ==> no_line_feed(#[trigger] lines[k]),
    ensures
        occurrences(terminate_lines(lines), '\n') == lines.len(),
    decreases lines.len(),
{
    if lines.len() > 0 {
        let rest = lines.drop_last();
        assert forall|k: int| 0 <= k < rest.len() implies no_line_feed(#[trigger] rest[k]) by {
            assert(rest[k] == lines[k]);
        }
        lemma_terminated_count(rest);
        assert(no_line_feed(lines[lines.len() - 1]));
        lemma_no_line_feed_count(lines.last());
        lemma_occurrences_concat(terminate_lines(rest), lines.last(), '\n');
        lemma_occurrences_concat(terminate_lines(rest) + lines.last(), seq!['\n'], '\n');
        let feed = seq!['\n'];
        assert(feed.drop_last() =~= Seq::<char>::empty());
        assert(occurrences(feed.drop_last(), '\n') == 0);
        assert(occurrences(feed, '\n') == 1);
    }
}

/// When no cell holds a line feed, the rendered text holds one line feed per
/// printed row: with the header hidden, one fewer than the rows stored.
pub proof fn lemma_line_feed_count(m: TableModel, padding: nat)
    requires
        model_wf(m),
        forall|j: int, i: int|
            0 <= j < m.rows.len() && 0 <= i < m.rows[j].len() ==> no_line_feed(#[trigger] m.rows[j][i]),
    ensures
        occurrences(rendered(m, padding), '\n') == m.rows.len() - first_printed(m),
        !m.show_header ==> occurrences(rendered(m, padding), '\n') == m.rows.len() - 1,
{
    let lines = rendered_lines(m, padding);
    assert forall|k: int| 0 <= k < lines.len() implies no_line_feed(#[trigger] lines[k]) by {
        let row = m.rows[k + first_printed(m)];
        assert(lines[k] == format_row(m, row, padding));
        assert forall|i: int| 0 <= i < row.len() implies no_line_feed(#[trigger] row[i]) by {
            assert(no_line_feed(m.rows[k + first_printed(m)][i]));
        }
        lemma_join_no_line_feed(row, column_widths(m), m.format, padding, row.len() as int);
    }
    lemma_terminated_count(lines);
}

/// An identity table prints exactly three lines and no header: the ARN, the
/// user ID and the account, each after its label, in that order.
pub proof fn lemma_identity_lines(s: STSResponse, padding: nat)
    ensures
        ({
            let m = identity_model(s);
            let w = column_widths(m);
            let lines = rendered_lines(m, padding);
            let left = TableColumnFormat::ToLeft;
            &&& lines.len() == 3
            &&& lines[0] == pad_field("AWS ARN:"@, w[0], left) + spaces(padding) + pad_field(s.arn@, w[1], left)
            &&& lines[1] == pad_field("User ID:"@, w[0], left) + spaces(padding) + pad_field(s.user_id@, w[1], left)
            &&& lines[2] == pad_field("Account:"@, w[0], left) + spaces(padding) + pad_field(s.account@, w[1], left)
        }),
{
    let m = identity_model(s);
    let w = column_widths(m);
    let lines = rendered_lines(m, padding);
    assert(lines.len() == 3);
    assert forall|k: int| 0 <= k < 3 implies #[trigger] lines[k] == pad_field(m.rows[k + 1][0], w[0], m.format[0])
        + spaces(padding) + pad_field(m.rows[k + 1][1], w[1], m.format[1]) by {
        let row = m.rows[k + 1];
        assert(lines[k] == format_row(m, row, padding));
        assert(join_fields(row, w, m.format, padding, 1) == pad_field(row[0], w[0], m.format[0]));
    }
    assert(lines[0] == pad_field(m.rows[1][0], w[0], m.format[0]) + spaces(padding) + pad_field(m.rows[1][1], w[1], m.format[1]));
    assert(lines[1] == pad_field(m.rows[2][0], w[0], m.format[0]) + spaces(padding) + pad_field(m.rows[2][1], w[1], m.format[1]));
    assert(lines[2] == pad_field(m.rows[3][0], w[0], m.format[0]) + spaces(padding) + pad_field(m.rows[3][1], w[1], m.format[1]));
}

/// Rendering depends on nothing but the table and the padding: two renderings
/// of the same table give the same text.
pub proof fn lemma_render_deterministic(a: TableModel, b: TableModel, padding: nat)
    requires
        a == b,
    ensures
        rendered(a, padding) == rendered(b, padding),
{
}

/// `n` spaces.
fn make_spaces(n: usize) -> (r: String)
    ensures
        r@ == spaces(n as nat),
{
    let mut s = String::new();
    let mut k: usize = 0;
    while k < n
        invariant
            k <= n,
            s@ == spaces(k as nat),
        decreases n - k,
    {
        proof {
            reveal_strlit(" ");
        }
        s.append(" ");
        k = k + 1;
        assert(s@ =~= spaces(k as nat));
    }
    s
}

fn two_cells(a: String, b: String) -> (r: Vec<String>)
    ensures
        r.deep_view() == seq![a@, b@],
{
    let mut v: Vec<String> = Vec::new();
    v.push(a);
    v.push(b);
    assert(v.deep_view() =~= seq![a@, b@]);
    v
}

fn three_cells(a: String, b: String, c: String) -> (r: Vec<String>)
    ensures
        r.deep_view() == seq![a@, b@, c@],
{
    let mut v: Vec<String> = Vec::new();
    v.push(a);
    v.push(b);
    v.push(c);
    assert(v.deep_view() =~= seq![a@, b@, c@]);
    v
}

fn four_cells(a: String, b: String, c: String, d: String) -> (r: Vec<String>)
    ensures
        r.deep_view() == seq![a@, b@, c@, d@],
{
    let mut v: Vec<String> = Vec::new();
    v.push(a);
    v.push(b);
    v.push(c);
    v.push(d);
    assert(v.deep_view() =~= seq![a@, b@, c@, d@]);
    v
}

impl Table {
    pub open spec fn wf(&self) -> bool {
        model_wf(self@)
    }

    /// A table with the given header, every column aligned to the left, the
    /// header shown and no data row yet.
    pub fn new(headers: Vec<String>) -> (r: Table)
        ensures
            r.wf(),
            r@.rows == seq![headers.deep_view()],
            r@.format == left_formats(headers.len() as nat),
            r@.show_header,
    {
        let n = headers.len();
        let format = Table::default_format_for_length(n);
        let mut rows: Vec<Vec<String>> = Vec::new();
        rows.push(headers);
        let r = Table { format, rows, show_header: true };
        assert(r@.rows =~= seq![headers.deep_view()]);
        r
    }

    /// The same table, with the header printed or not.
    pub fn show_header(self, show: bool) -> (r: Table)
        ensures
            r@ == (TableModel { show_header: show, ..self@ }),
    {
        let mut t = self;
        t.show_header = show;
        t
    }

    /// The same table with one format per column.
    pub fn with_format(self, format: Vec<TableColumnFormat>) -> (r: Table)
        requires
            self.wf(),
            format.len() == self@.rows[0].len(),
        ensures
            r.wf(),
            r@ == (TableModel { format: format@, ..self@ }),
    {
        let mut t = self;
        t.format = format;
        t
    }

    /// `length` columns aligned to the left.
    pub fn default_format_for_length(length: usize) -> (r: Vec<TableColumnFormat>)
        ensures
            r@ == left_formats(length as nat),
    {
        let mut v: Vec<TableColumnFormat> = Vec::new();
        let mut k: usize = 0;
        while k < length
            invariant
                k <= length,
                v@ =~= left_formats(k as nat),
            decreases length - k,
        {
            v.push(TableColumnFormat::ToLeft);
            k = k + 1;
            assert(v@ =~= left_formats(k as nat));
        }
        v
    }

    /// Appends a data row when it has one field per column; otherwise leaves
    /// the table as it is and reports `IncorrectRowLength`.
    pub fn push(&mut self, row: Vec<String>) -> (r: Result<(), TableError>)
        requires
            old(self).wf(),
        ensures
            final(self).wf(),
            row.len() == old(self)@.rows[0].len() <==> r is Ok,
            r is Ok ==> final(self)@ == (TableModel {
                rows: old(self)@.rows.push(row.deep_view()),
                ..old(self)@
            }),
            r is Err ==> r->Err_0 is IncorrectRowLength && final(self)@ == old(self)@,
    {
        if row.len() == self.rows[0].len() {
            let ghost before = self.rows.deep_view();
            assert(before[0] == self.rows@[0].deep_view());
            assert(row.deep_view().len() == row@.len());
            self.rows.push(row);
            assert(self.rows.deep_view() =~= before.push(row.deep_view()));
            Ok(())
        } else {
            Err(TableError::IncorrectRowLength)
        }
    }

    /// The width of every column, as `column_width` gives it.
    pub fn calculate_width(&self) -> (r: Vec<usize>)
        requires
            self.wf(),
        ensures
            r@.len() == self@.format.len(),
            forall|i: int| 0 <= i < r@.len() ==> #[trigger] r@[i] == column_width(self@.rows, i),
            ascii_cells_measured(self@.rows, self@.rows.len() as int),
    {
        let n = self.rows[0].len();
        let ghost rows = self@.rows;
        assert(rows[0] == self.rows@[0].deep_view());
        assert(rows[0].len() == self.rows@[0]@.len());
        let mut widths: Vec<usize> = Vec::new();
        let mut c: usize = 0;
        while c < n
            invariant
                self.wf(),
                rows == self@.rows,
                n == self@.format.len(),
                c <= n,
                widths@.len() == c,
                forall|i: int| 0 <= i < c ==> #[trigger] widths@[i] == width_upto(rows, i, 0),
            decreases n - c,
        {
            widths.push(0);
            c = c + 1;
        }
        let mut j: usize = 0;
        while j < self.rows.len()
            invariant
                self.wf(),
                rows == self@.rows,
                n == self@.format.len(),
                j <= rows.len(),
                widths@.len() == n,
                forall|i: int| 0 <= i < n ==> #[trigger] widths@[i] == width_upto(rows, i, j as int),
                ascii_cells_measured(rows, j as int),
            decreases self.rows.len() - j,
        {
            let row = &self.rows[j];
            assert(row.deep_view() == rows[j as int]);
            assert(rows[j as int].len() == n);
            let mut i: usize = 0;
            while i < n
                invariant
                    self.wf(),
                    rows == self@.rows,
                    row.deep_view() == rows[j as int],
                    row@.len() == n,
                    j < rows.len(),
                    i <= n,
                    widths@.len() == n,
                    forall|x: int|
                        0 <= x < i ==> #[trigger] widths@[x] == width_upto(rows, x, j + 1),
                    forall|x: int|
                        i <= x < n ==> #[trigger] widths@[x] == width_upto(rows, x, j as int),
                    ascii_cells_measured(rows, j as int),
                    forall|x: int|
                        0 <= x < i && is_printable_ascii(#[trigger] rows[j as int][x]) ==> text_width(
                            rows[j as int][x],
                        ) == rows[j as int][x].len(),
                decreases n - i,
            {
                let len = measure_text_width(&row[i]);
                assert(row[i as int]@ == rows[j as int][i as int]);
                if len > widths[i] {
                    widths.set(i, len);
                }
                i = i + 1;
            }
            assert(ascii_cells_measured(rows, j + 1));
            j = j + 1;
        }
        widths
    }

    /// The table of an identity.
    pub fn from_identity(response: STSResponse) -> (r: Table)
        ensures
            r.wf(),
            r@ == identity_model(response),
    {
        let ghost model = identity_model(response);
        let mut rows: Vec<Vec<String>> = Vec::new();
        rows.push(two_cells(String::from_str("Param"), String::from_str("Value")));
        rows.push(two_cells(String::from_str("AWS ARN:"), response.arn));
        rows.push(two_cells(String::from_str("User ID:"), response.user_id));
        rows.push(two_cells(String::from_str("Account:"), response.account));
        let r = Table { format: Table::default_format_for_length(2), rows, show_header: false };
        assert(r@.rows =~= model.rows);
        r
    }

    /// The table of instances.
    pub fn from_instances(response: Ec2Response) -> (r: Table)
        ensures
            r.wf(),
            r@ == instances_model(response),
    {
        let ghost model = instances_model(response);
        let ghost all = instance_rows(response);
        let mut rows: Vec<Vec<String>> = Vec::new();
        let header = four_cells(
            String::from_str("Name"),
            String::from_str("Instance ID"),
            String::from_str("State"),
            String::from_str("Private IP"),
        );
        let ghost head = header.deep_view();
        rows.push(header);
        assert(rows.deep_view() =~= seq![head] + all.subrange(0, 0));
        let mut k: usize = 0;
        while k < response.instances.len()
            invariant
                all == instance_rows(response),
                head == model.rows[0],
                k <= response.instances@.len(),
                rows.deep_view() =~= seq![head] + all.subrange(0, k as int),
            decreases response.instances.len() - k,
        {
            let x = &response.instances[k];
            let row = four_cells(
                x.name.clone(),
                x.instance_id.clone(),
                x.state.clone(),
                x.private_ip.clone(),
            );
            let ghost before = rows.deep_view();
            rows.push(row);
            assert(rows.deep_view() =~= before.push(all[k as int]));
            assert(seq![head] + all.subrange(0, k + 1) =~= (seq![head] + all.subrange(
                0,
                k as int,
            )).push(all[k as int]));
            k = k + 1;
        }
        assert(all.subrange(0, k as int) =~= all);
        let mut format: Vec<TableColumnFormat> = Vec::new();
        format.push(TableColumnFormat::ToRight);
        format.push(TableColumnFormat::ToLeft);
        format.push(TableColumnFormat::ToLeft);
        format.push(TableColumnFormat::ToLeft);
        let r = Table { format, rows, show_header: true };
        assert(r@.format =~= model.format);
        assert(r@.rows =~= model.rows);
        r
    }

    /// The table of parameters.
    pub fn from_parameters(response: SsmResponse) -> (r: Table)
        ensures
            r.wf(),
            r@ == parameters_model(response),
    {
        let ghost model = parameters_model(response);
        let ghost all = parameter_rows(response);
        let mut rows: Vec<Vec<String>> = Vec::new();
        let header = three_cells(
            String::from_str("Name"),
            String::from_str("Type"),
            String::from_str("Value"),
        );
        let ghost head = header.deep_view();
        rows.push(header);
        assert(rows.deep_view() =~= seq![head] + all.subrange(0, 0));
        let mut k: usize = 0;
        while k < response.parameters.len()
            invariant
                all == parameter_rows(response),
                head == model.rows[0],
                k <= response.parameters@.len(),
                rows.deep_view() =~= seq![head] + all.subrange(0, k as int),
            decreases response.parameters.len() - k,
        {
            let x = &response.parameters[k];
            let row = three_cells(x.name.clone(), x.param_type.clone(), x.value.clone());
            let ghost before = rows.deep_view();
            rows.push(row);
            assert(rows.deep_view() =~= before.push(all[k as int]));
            assert(seq![head] + all.subrange(0, k + 1) =~= (seq![head] + all.subrange(
                0,
                k as int,
            )).push(all[k as int]));
            k = k + 1;
        }
        assert(all.subrange(0, k as int) =~= all);
        let r = Table { format: Table::default_format_for_length(3), rows, show_header: true };
        assert(r@.rows =~= model.rows);
        r
    }

    /// The table as text: each printed row on a line of its own, every cell
    /// padded to its column's width (after the text for `ToLeft`, before it
    /// for `ToRight`) and cells joined by `column_padding` spaces.
    pub fn render(&self, column_padding: usize) -> (r: String)
        requires
            self.wf(),
        ensures
            r@ == rendered(self@, column_padding as nat),
            ascii_cells_measured(self@.rows, self@.rows.len() as int),
    {
        let widths = self.calculate_width();
        let ghost m = self@;
        let ghost lines = rendered_lines(m, column_padding as nat);
        let separator = make_spaces(column_padding);
        let start: usize = if self.show_header {
            0
        } else {
            1
        };
        let mut out = String::new();
        let mut j: usize = start;
        proof {
            assert(lines.subrange(0, 0) =~= Seq::<Seq<char>>::empty());
        }
        while j < self.rows.len()
            invariant
                self.wf(),
                m == self@,
                lines == rendered_lines(m, column_padding as nat),
                start == first_printed(m),
                start <= j <= m.rows.len(),
                separator@ == spaces(column_padding as nat),
                widths@.len() == m.format.len(),
                forall|i: int| 0 <= i < widths@.len() ==> #[trigger] widths@[i] == column_width(m.rows, i),
                out@ == terminate_lines(lines.subrange(0, j - start)),
            decreases self.rows.len() - j,
        {
            let line = self.format_line(&self.rows[j], &widths, &separator, Ghost(j as int));
            assert(line@ == lines[j - start]);
            let ghost prev = out@;
            out.append(line.as_str());
            out.append("\n");
            proof {
                reveal_strlit("\n");
                let next = lines.subrange(0, j + 1 - start);
                assert(next.drop_last() =~= lines.subrange(0, j - start));
                assert(next.last() == lines[j - start]);
                assert(out@ =~= prev + lines[j - start] + seq!['\n']);
            }
            j = j + 1;
        }
        assert(lines.subrange(0, j - start) =~= lines);
        out
    }

    /// Row `j` as printed, without its line terminator.
    fn format_line(
        &self,
        row: &Vec<String>,
        widths: &Vec<usize>,
        separator: &String,
        j: Ghost<int>,
    ) -> (r: String)
        requires
            self.wf(),
            0 <= j@ < self@.rows.len(),
            row.deep_view() == self@.rows[j@],
            separator@ == spaces(separator@.len()),
            widths@.len() == self@.format.len(),
            forall|i: int| 0 <= i < widths@.len() ==> #[trigger] widths@[i] == column_width(self@.rows, i),
        ensures
            r@ == format_row(self@, self@.rows[j@], separator@.len()),
    {
        let ghost m = self@;
        let ghost cells = m.rows[j@];
        let ghost ws = column_widths(m);
        let n = row.len();
        assert(row.deep_view().len() == row@.len());
        assert(n == m.format.len());
        let mut line = String::new();
        let mut i: usize = 0;
        while i < n
            invariant
                self.wf(),
                m == self@,
                0 <= j@ < m.rows.len(),
                cells == m.rows[j@],
                ws == column_widths(m),
                row.deep_view() == cells,
                n == row@.len(),
                n == m.format.len(),
                separator@ == spaces(separator@.len()),
                widths@.len() == n,
                forall|x: int| 0 <= x < n ==> #[trigger] widths@[x] == column_width(m.rows, x),
                i <= n,
                line@ == join_fields(cells, ws, m.format, separator@.len() as nat, i as int),
            decreases n - i,
        {
            let field = &row[i];
            assert(field@ == cells[i as int]);
            let len = measure_text_width(field);
            proof {
                lemma_width_is_tight_max(m, i as int);
                assert(text_width(m.rows[j@][i as int]) <= column_width(m.rows, i as int));
            }
            let fill = make_spaces(widths[i] - len);
            if i > 0 {
                line.append(separator.as_str());
            }
            match self.format[i] {
                TableColumnFormat::ToLeft => {
                    line.append(field.as_str());
                    line.append(fill.as_str());
                },
                TableColumnFormat::ToRight => {
                    line.append(fill.as_str());
                    line.append(field.as_str());
                },
            }
            proof {
                let p = pad_field(cells[i as int], ws[i as int], m.format[i as int]);
                if i == 0 {
                    assert(line@ =~= p);
                } else {
                    assert(line@ =~= join_fields(cells, ws, m.format, separator@.len() as nat, i as int)
                        + spaces(separator@.len()) + p);
                }
            }
            i = i + 1;
        }
        line
    }
}

} // verus!
