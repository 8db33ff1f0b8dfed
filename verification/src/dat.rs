//! Table operators: the table that a plugin of this kind fills, what such a
//! plugin implements, and the adapter through which the host drives it.
use crate::inputs::OperatorInputs;
use crate::layout::{lemma_flat_bound, lemma_flat_distinct};
use crate::marshal::{host_encoding, wrapped_i32, HostString};
use crate::op::{
    asked_cell, entry_at, error_string, info_chop_chan, info_dat_entry, info_dat_size, info_popup_string,
    num_info_chop_chans, pulse_pressed, setup_parameters, warning_string, HostInfoDatSize, Op,
};
use crate::params::{declare_all, ParameterManager};
use vstd::prelude::*;

verus! {

/// The cells of a table, by row and then by column.
pub type Table = Seq<Seq<Seq<char>>>;

/// A table of `rows` rows and `cols` columns that keeps the cells of `table`
/// where the two overlap; every other cell is empty.
pub open spec fn resized(table: Table, rows: nat, cols: nat) -> Table {
    Seq::new(
        rows,
        |r: int|
            Seq::new(
                cols,
                |c: int|
                    if r < table.len() && c < table[r].len() {
                        table[r][c]
                    } else {
                        Seq::<char>::empty()
                    },
            ),
    )
}

/// The table after `text` has been written to the cell at `row` and `col`.
pub open spec fn with_cell(table: Table, row: int, col: int, text: Seq<char>) -> Table {
    table.update(row, table[row].update(col, text))
}

/// The output table of a table operator for one cook, stored row after
/// row. Every access takes a row and a column below the counts that the
/// table itself reports.
pub struct DatOutput {
    rows: usize,
    cols: usize,
    cells: Vec<String>,
}

impl View for DatOutput {
    type V = Table;

    /// The cells by row, then by column.
    closed spec fn view(&self) -> Table {
        Seq::new(
            self.rows as nat,
            |r: int| Seq::new(self.cols as nat, |c: int| self.cells@[r * self.cols + c]@),
        )
    }
}

impl DatOutput {
    #[verifier::type_invariant]
    spec fn well_formed(&self) -> bool {
        self.cells@.len() == self.rows * self.cols
    }

    /// The number of rows.
    pub closed spec fn row_count(&self) -> nat {
        self.rows as nat
    }

    /// The number of columns.
    pub closed spec fn col_count(&self) -> nat {
        self.cols as nat
    }

    /// The view has exactly the extents that the table reports.
    pub proof fn lemma_view_shape(&self)
        ensures
            self@.len() == self.row_count(),
            forall|r: int| 0 <= r < self.row_count() ==> (#[trigger] self@[r]).len() == self.col_count(),
    {
    }

    /// A table without rows or columns.
    pub fn new() -> (table: DatOutput)
        ensures
            table.row_count() == 0,
            table.col_count() == 0,
            table@ == Seq::<Seq<Seq<char>>>::empty(),
    {
        let table = DatOutput { rows: 0, cols: 0, cells: Vec::new() };
        assert(table@ =~= Seq::<Seq<Seq<char>>>::empty());
        table
    }

    /// The number of rows.
    pub fn num_rows(&self) -> (n: usize)
        ensures
            n == self.row_count(),
    {
        self.rows
    }

    /// The number of columns.
    pub fn num_cols(&self) -> (n: usize)
        ensures
            n == self.col_count(),
    {
        self.cols
    }

    /// Gives the table `rows` rows and `cols` columns. Cells that lie in
    /// both the old and the new extents keep their text; new cells are
    /// empty. Returns `false`, and leaves the table as it was, when that
    /// many cells cannot be addressed on this machine.
    pub fn set_table_size(&mut self, rows: usize, cols: usize) -> (done: bool)
        ensures
            done <==> rows * cols <= usize::MAX,
            done ==> final(self).row_count() == rows && final(self).col_count() == cols && final(self)@
                == resized(old(self)@, rows as nat, cols as nat),
            !done ==> *final(self) == *old(self),
    {
        let total: usize = match rows.checked_mul(cols) {
            Some(total) => total,
            None => {
                return false;
            },
        };
        let old_total: usize = self.cells.len();
        proof {
            use_type_invariant(&*self);
        }
        let mut cells: Vec<String> = Vec::new();
        let mut r: usize = 0;
        while r < rows
            invariant
                r <= rows,
                total == rows * cols,
                old_total == self.rows * self.cols,
                old_total == self.cells@.len(),
                cells@.len() == r * cols,
                forall|i: int, j: int|
                    0 <= i < r && 0 <= j < cols ==> (#[trigger] cells@[i * cols + j])@ == resized(
                        self@,
                        rows as nat,
                        cols as nat,
                    )[i][j],
            decreases rows - r,
        {
            let mut c: usize = 0;
            while c < cols
                invariant
                    r < rows,
                    c <= cols,
                    total == rows * cols,
                    old_total == self.rows * self.cols,
                    old_total == self.cells@.len(),
                    cells@.len() == r * cols + c,
                    forall|i: int, j: int|
                        0 <= i < r && 0 <= j < cols ==> (#[trigger] cells@[i * cols + j])@ == resized(
                            self@,
                            rows as nat,
                            cols as nat,
                        )[i][j],
                    forall|j: int|
                        0 <= j < c ==> (#[trigger] cells@[r * cols + j])@ == resized(
                            self@,
                            rows as nat,
                            cols as nat,
                        )[r as int][j],
                decreases cols - c,
            {
                let ghost before = cells@;
                let cell = if r < self.rows && c < self.cols {
                    proof {
                        lemma_flat_bound(r as int, c as int, self.rows as int, self.cols as int);
                    }
                    self.cells[r * self.cols + c].clone()
                } else {
                    String::new()
                };
                cells.push(cell);
                proof {
                    assert forall|i: int, j: int| 0 <= i < r && 0 <= j < cols implies (#[trigger] cells@[i
                        * cols + j])@ == resized(self@, rows as nat, cols as nat)[i][j] by {
                        lemma_flat_bound(i, j, r as int, cols as int);
                        assert(cells@[i * cols + j] == before[i * cols + j]);
                    }
                    assert forall|j: int| 0 <= j < c + 1 implies (#[trigger] cells@[r * cols + j])@
                        == resized(self@, rows as nat, cols as nat)[r as int][j] by {
                        if j < c {
                            assert(cells@[r * cols + j] == before[r * cols + j]);
                        }
                    }
                }
                c = c + 1;
            }
            proof {
                assert((r + 1) * cols == r * cols + cols) by (nonlinear_arith);
                assert forall|i: int, j: int| 0 <= i < r + 1 && 0 <= j < cols implies (#[trigger] cells@[i
                    * cols + j])@ == resized(self@, rows as nat, cols as nat)[i][j] by {
                    if i == r {
                        assert(cells@[r * cols + j]@ == resized(self@, rows as nat, cols as nat)[r as int][j]);
                    }
                }
            }
            r = r + 1;
        }
        let ghost before = self@;
        *self = DatOutput { rows, cols, cells };
        proof {
            let expected = resized(before, rows as nat, cols as nat);
            assert forall|i: int| 0 <= i < rows implies #[trigger] self@[i] == expected[i] by {
                assert forall|j: int| 0 <= j < cols implies self@[i][j] == expected[i][j] by {
                    assert(self.cells@[i * cols + j]@ == expected[i][j]);
                }
                assert(self@[i] =~= expected[i]);
            }
            assert(self@ =~= expected);
        }
        true
    }

    /// The text of the cell at `row` and `col`.
    pub fn cell(&self, row: usize, col: usize) -> (text: &str)
        requires
            row < self.row_count(),
            col < self.col_count(),
        ensures
            text@ == self@[row as int][col as int],
    {
        let total: usize = self.cells.len();
        proof {
            use_type_invariant(self);
            lemma_flat_bound(row as int, col as int, self.rows as int, self.cols as int);
            assert(row * self.cols + col < total);
        }
        self.cells[row * self.cols + col].as_str()
    }

    /// Writes `text` to the cell at `row` and `col` and leaves every other
    /// cell, and the extents, as they were.
    pub fn set_cell(&mut self, row: usize, col: usize, text: &str)
        requires
            row < old(self).row_count(),
            col < old(self).col_count(),
        ensures
            final(self)@ == with_cell(old(self)@, row as int, col as int, text@),
            final(self).row_count() == old(self).row_count(),
            final(self).col_count() == old(self).col_count(),
    {
        let total: usize = self.cells.len();
        proof {
            use_type_invariant(&*self);
            lemma_flat_bound(row as int, col as int, self.rows as int, self.cols as int);
            assert(row * self.cols + col < total);
        }
        let flat: usize = row * self.cols + col;
        self.cells[flat] = String::from_str(text);
        proof {
            let cols = self.cols as int;
            let after = self@;
            let expected = with_cell(old(self)@, row as int, col as int, text@);
            assert forall|r: int| 0 <= r < self.rows implies #[trigger] after[r] == expected[r] by {
                assert forall|c: int| 0 <= c < cols implies after[r][c] == expected[r][c] by {
                    lemma_flat_bound(r, c, self.rows as int, cols);
                    if r * cols + c == flat as int {
                        lemma_flat_distinct(r, c, row as int, col as int, cols);
                    }
                }
                assert(after[r] =~= expected[r]);
            }
            assert(after =~= expected);
        }
    }
}

/// How a table operator wants to be scheduled.
#[derive(Clone, Copy, Debug, PartialEq, Eq, Structural)]
pub struct DatGeneralInfo {
    pub cook_every_frame: bool,
    pub cook_every_frame_if_asked: bool,
}

/// The scheduling record of a table operator as the host reads it.
#[derive(Clone, Copy, Debug, PartialEq, Eq, Structural)]
pub struct HostDatGeneralInfo {
    pub cook_every_frame: bool,
    pub cook_every_frame_if_asked: bool,
}

/// The scheduling of an operator that asks for nothing: it cooks on demand
/// only.
pub open spec fn on_demand() -> DatGeneralInfo {
    DatGeneralInfo { cook_every_frame: false, cook_every_frame_if_asked: false }
}

impl Default for DatGeneralInfo {
    fn default() -> (info: DatGeneralInfo)
        ensures
            info == on_demand(),
    {
        DatGeneralInfo { cook_every_frame: false, cook_every_frame_if_asked: false }
    }
}

/// The host's scheduling record for what the operator answered.
pub open spec fn host_general_info(info: DatGeneralInfo) -> HostDatGeneralInfo {
    HostDatGeneralInfo {
        cook_every_frame: info.cook_every_frame,
        cook_every_frame_if_asked: info.cook_every_frame_if_asked,
    }
}

/// What a table plugin implements. The cook is its one mandatory
/// capability.
pub trait Dat: Op {
    /// The operator's scheduling for these inputs.
    open spec fn general_info_of(&self, inputs: &OperatorInputs) -> DatGeneralInfo {
        on_demand()
    }

    /// How the operator wants to be scheduled. Asked before every cook.
    fn general_info(&self, inputs: &OperatorInputs) -> (info: DatGeneralInfo)
        ensures
            info == self.general_info_of(inputs),
    ;

    /// The operator after a cook on these inputs, with the table that the
    /// cook leaves.
    spec fn cooked(self, output: DatOutput, inputs: OperatorInputs) -> (Self, Table);

    /// Cooks: sizes and fills the output table from the inputs and the
    /// parameters.
    fn execute(&mut self, output: &mut DatOutput, inputs: &OperatorInputs)
        ensures
            *final(self) == old(self).cooked(*old(output), *inputs).0,
            final(output)@ == old(self).cooked(*old(output), *inputs).1,
    ;
}

/// The size that the host is told of for an info table: none for an
/// operator without a table, and none for a table without rows and
/// columns.
pub open spec fn reported_extent(extent: Option<(u32, u32)>) -> Option<(u32, u32)> {
    match extent {
        Some((rows, cols)) => if rows == 0 && cols == 0 {
            None
        } else {
            Some((rows, cols))
        },
        None => None,
    }
}

/// The adapter of one table operator. It owns the plugin instance from the
/// host's construct call to its destroy call, and answers every host call
/// in between from it.
pub struct RustDatPluginImpl<P: Dat> {
    pub inner: P,
}

/// Makes the adapter for a new operator node around its plugin instance.
pub fn dat_new<P: Dat>(plugin: P) -> (adapter: RustDatPluginImpl<P>)
    ensures
        adapter.inner == plugin,
{
    RustDatPluginImpl { inner: plugin }
}

impl<P: Dat> RustDatPluginImpl<P> {
    /// Ends the operator: hands the plugin instance back to be dropped. The
    /// adapter is consumed, so no call can follow.
    pub fn destroy(self) -> (plugin: P)
        ensures
            plugin == self.inner,
    {
        self.inner
    }

    /// Answers the host's scheduling question: applies the parameter
    /// snapshot, asks the operator, and fills the host's record.
    pub fn getGeneralInfo(&mut self, info: &mut HostDatGeneralInfo, inputs: &OperatorInputs)
        ensures
            final(self).inner == old(self).inner.with_params(inputs.params),
            *final(info) == host_general_info(final(self).inner.general_info_of(inputs)),
    {
        self.inner.update_params(inputs.params());
        let gen_info = self.inner.general_info(inputs);
        info.cook_every_frame = gen_info.cook_every_frame;
        info.cook_every_frame_if_asked = gen_info.cook_every_frame_if_asked;
    }

    /// Cooks the operator into the host's output table: applies the
    /// parameter snapshot, then has the operator fill the table.
    pub fn execute(&mut self, outputs: &mut DatOutput, inputs: &OperatorInputs)
        ensures
            final(self).inner == old(self).inner.with_params(inputs.params).cooked(*old(outputs), *inputs).0,
            final(outputs)@ == old(self).inner.with_params(inputs.params).cooked(*old(outputs), *inputs).1,
    {
        self.inner.update_params(inputs.params());
        self.inner.execute(outputs, inputs);
    }

    /// Answers the host's question for the number of info channels.
    pub fn getNumInfoCHOPChans(&mut self) -> (n: i32)
        ensures
            *final(self) == *old(self),
            n == wrapped_i32(old(self).inner.info_chop_len() as int),
    {
        num_info_chop_chans(&self.inner)
    }

    /// Answers the host's question for the info channel at `index`.
    pub fn getInfoCHOPChan(&mut self, index: i32, name: &mut HostString, value: &mut u32)
        ensures
            *final(self) == *old(self),
            match entry_at(index, old(self).inner.info_chop_len() as int) {
                Some(i) => {
                    &&& final(name)@ == host_encoding(old(self).inner.info_chop_entry(i).0)
                    &&& *final(value) == old(self).inner.info_chop_entry(i).1
                },
                None => *final(name) == *old(name) && *final(value) == *old(value),
            },
    {
        info_chop_chan(&self.inner, index, name, value);
    }

    /// Answers the host's question for the size of the info table. A table
    /// without rows and columns is reported as no table.
    pub fn getInfoDATSize(&mut self, info: &mut HostInfoDatSize) -> (present: bool)
        ensures
            *final(self) == *old(self),
            match reported_extent(old(self).inner.info_dat_extent()) {
                Some((rows, cols)) => {
                    &&& present
                    &&& final(info).rows == wrapped_i32(rows as int)
                    &&& final(info).cols == wrapped_i32(cols as int)
                    &&& final(info).by_column == old(info).by_column
                },
                None => !present && *final(info) == *old(info),
            },
    {
        match self.inner.info_dat_size() {
            Some((rows, cols)) => {
                if rows == 0 && cols == 0 {
                    false
                } else {
                    info_dat_size(&self.inner, info)
                }
            },
            None => false,
        }
    }

    /// Answers the host's question for a cell of the info table. The text
    /// of a cell inside the table is copied out, an empty one too; for any
    /// other pair of indices the host's storage is left as it was.
    pub fn getInfoDATEntry(&mut self, index: i32, entryIndex: i32, entry: &mut HostString)
        ensures
            *final(self) == *old(self),
            match asked_cell(&old(self).inner, index, entryIndex) {
                Some(text) => final(entry)@ == host_encoding(text),
                None => *final(entry) == *old(entry),
            },
    {
        info_dat_entry(&self.inner, index, entryIndex, entry);
    }

    /// Copies the operator's warning into the host's storage.
    pub fn getWarningString(&mut self, warning: &mut HostString)
        ensures
            *final(self) == *old(self),
            final(warning)@ == host_encoding(old(self).inner.warning_text()),
    {
        warning_string(&self.inner, warning);
    }

    /// Copies the operator's error into the host's storage.
    pub fn getErrorString(&mut self, error: &mut HostString)
        ensures
            *final(self) == *old(self),
            final(error)@ == host_encoding(old(self).inner.error_text()),
    {
        error_string(&self.inner, error);
    }

    /// Copies the operator's information text into the host's storage.
    pub fn getInfoPopupString(&mut self, info: &mut HostString)
        ensures
            *final(self) == *old(self),
            final(info)@ == host_encoding(old(self).inner.info_text()),
    {
        info_popup_string(&self.inner, info);
    }

    /// Has the operator declare its parameters in the host's sink.
    pub fn setupParameters(&mut self, manager: &mut ParameterManager)
        ensures
            *final(self) == *old(self),
            final(manager)@ == declare_all(old(manager)@, old(self).inner.declared_params()),
    {
        setup_parameters(&self.inner, manager);
    }

    /// Passes on that the pulse parameter `name` was pressed.
    pub fn pulsePressed(&mut self, name: &str)
        ensures
            final(self).inner == old(self).inner.pulsed(name@),
    {
        pulse_pressed(&mut self.inner, name);
    }
}

/// Scheduling is a function of the operator and its inputs: a second query
/// with the same inputs leaves the operator as the first left it, and is
/// answered as the first was.
pub proof fn lemma_queries_repeatable<P: Dat>(plugin: P, inputs: OperatorInputs)
    ensures
        ({
            let once = plugin.with_params(inputs.params);
            let twice = once.with_params(inputs.params);
            &&& twice == once
            &&& host_general_info(twice.general_info_of(&inputs)) == host_general_info(
                once.general_info_of(&inputs),
            )
        }),
{
    plugin.with_params_settles(inputs.params);
}

/// A text written to a cell is the text read back from it; every other cell
/// and the extents are as before the write.
pub proof fn lemma_cell_write_then_read(table: Table, row: int, col: int, text: Seq<char>)
    requires
        0 <= row < table.len(),
        0 <= col < table[row].len(),
    ensures
        with_cell(table, row, col, text)[row][col] == text,
        with_cell(table, row, col, text).len() == table.len(),
        forall|r: int|
            0 <= r < table.len() ==> (#[trigger] with_cell(table, row, col, text)[r]).len() == table[r].len(),
        forall|r: int, c: int|
            0 <= r < table.len() && 0 <= c < table[r].len() && (r != row || c != col) ==> with_cell(
                table,
                row,
                col,
                text,
            )[r][c] == table[r][c],
{
}

} // verus!
