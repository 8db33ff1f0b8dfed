//! The capabilities that every kind of operator shares, and the host
//! queries that are answered from them alike for every kind.
//!
//! Besides its cook an operator may declare custom parameters, report
//! diagnostics, and expose info channels and an info table. Each answer is
//! named by a spec function whose default body is the answer of an operator
//! without that capability: nothing declared, no message, no channels, no
//! table.
use crate::marshal::{host_encoding, index_from_host, size_to_host, count_to_host, wrapped_i32, HostString};
use crate::params::{declare_all, ParamInputs, ParameterManager, Record};
use vstd::prelude::*;

verus! {

/// What an operator of any kind may offer beside its cook.
pub trait Op: Sized {
    /// The parameters that the operator declares, in order.
    open spec fn declared_params(&self) -> Record {
        Seq::empty()
    }

    /// Declares the operator's parameters in the host's sink.
    fn register_params(&self, manager: &mut ParameterManager)
        ensures
            final(manager)@ == declare_all(old(manager)@, self.declared_params()),
    ;

    /// The operator once it has taken its parameter values from `snapshot`.
    open spec fn with_params(self, snapshot: ParamInputs) -> Self {
        self
    }

    /// Taking the same snapshot a second time changes nothing.
    proof fn with_params_settles(self, snapshot: ParamInputs)
        ensures
            self.with_params(snapshot).with_params(snapshot) == self.with_params(snapshot),
    ;

    /// Takes the current parameter values from `snapshot`.
    fn update_params(&mut self, snapshot: &ParamInputs)
        ensures
            *final(self) == old(self).with_params(*snapshot),
    ;

    /// The warning that the operator reports; empty for none.
    open spec fn warning_text(&self) -> Seq<char> {
        Seq::empty()
    }

    /// The warning to show on the operator; empty for none.
    fn warning(&self) -> (text: String)
        ensures
            text@ == self.warning_text(),
    ;

    /// The error that the operator reports; empty for none.
    open spec fn error_text(&self) -> Seq<char> {
        Seq::empty()
    }

    /// The error to show on the operator; empty for none.
    fn error(&self) -> (text: String)
        ensures
            text@ == self.error_text(),
    ;

    /// The information that the operator reports; empty for none.
    open spec fn info_text(&self) -> Seq<char> {
        Seq::empty()
    }

    /// The text of the operator's information popup; empty for none.
    fn info(&self) -> (text: String)
        ensures
            text@ == self.info_text(),
    ;

    /// The number of info channels.
    open spec fn info_chop_len(&self) -> usize {
        0
    }

    /// The number of info channels that the operator exposes.
    fn info_chop_size(&self) -> (n: usize)
        ensures
            n == self.info_chop_len(),
    ;

    /// The name and the value of the info channel at `index`.
    open spec fn info_chop_entry(&self, index: usize) -> (Seq<char>, u32) {
        (Seq::empty(), 0u32)
    }

    /// The info channel at `index`: its name and its value. It is asked
    /// only for an index below the size reported.
    fn info_chop_channel(&self, index: usize) -> (channel: (String, u32))
        requires
            index < self.info_chop_len(),
        ensures
            channel.0@ == self.info_chop_entry(index).0,
            channel.1 == self.info_chop_entry(index).1,
    ;

    /// The rows and columns of the info table, where the operator has one.
    open spec fn info_dat_extent(&self) -> Option<(u32, u32)> {
        None
    }

    /// The size of the operator's info table, `None` where it has none.
    fn info_dat_size(&self) -> (size: Option<(u32, u32)>)
        ensures
            size == self.info_dat_extent(),
    ;

    /// The text of the info table's cell at `row` and `col`.
    open spec fn info_dat_cell(&self, row: usize, col: usize) -> Seq<char> {
        Seq::empty()
    }

    /// The cell of the info table at `row` and `col`. It is asked only for
    /// a cell inside the size reported.
    fn info_dat_entry(&self, row: usize, col: usize) -> (text: String)
        requires
            self.info_dat_extent() matches Some((rows, cols)) && row < rows && col < cols,
        ensures
            text@ == self.info_dat_cell(row, col),
    ;

    /// The operator once the pulse parameter `name` has been pressed.
    open spec fn pulsed(self, name: Seq<char>) -> Self {
        self
    }

    /// The host reports that the pulse parameter `name` was pressed.
    fn pulse_pressed(&mut self, name: &str)
        ensures
            *final(self) == old(self).pulsed(name@),
    ;
}

/// The size of an info table as the host reads it.
pub struct HostInfoDatSize {
    pub rows: i32,
    pub cols: i32,
    /// Whether the host fetches the table by columns; the adapter leaves it.
    pub by_column: bool,
}

/// The place that a host index names among `len` entries, if it names one.
pub open spec fn entry_at(index: i32, len: int) -> Option<usize> {
    if 0 <= index < len {
        Some(index as usize)
    } else {
        None
    }
}

/// The cell that a pair of host indices names in an info table, if any.
pub open spec fn cell_at(extent: Option<(u32, u32)>, row: i32, col: i32) -> Option<(usize, usize)> {
    match extent {
        Some((rows, cols)) => if 0 <= row < rows && 0 <= col < cols {
            Some((row as usize, col as usize))
        } else {
            None
        },
        None => None,
    }
}

/// Answers the host's question for the number of info channels.
pub fn num_info_chop_chans<P: Op>(plugin: &P) -> (n: i32)
    ensures
        n == wrapped_i32(plugin.info_chop_len() as int),
        plugin.info_chop_len() <= i32::MAX ==> n == plugin.info_chop_len(),
{
    size_to_host(plugin.info_chop_size())
}

/// Answers the host's question for the info channel at `index`: copies its
/// name and value out. An index that names no channel is not passed on to
/// the operator, and nothing is written for it.
pub fn info_chop_chan<P: Op>(plugin: &P, index: i32, name: &mut HostString, value: &mut u32)
    ensures
        match entry_at(index, plugin.info_chop_len() as int) {
            Some(i) => {
                &&& final(name)@ == host_encoding(plugin.info_chop_entry(i).0)
                &&& *final(value) == plugin.info_chop_entry(i).1
            },
            None => *final(name) == *old(name) && *final(value) == *old(value),
        },
{
    match index_from_host(index) {
        Some(i) => {
            if i < plugin.info_chop_size() {
                let (info_name, info_value) = plugin.info_chop_channel(i);
                name.setString(info_name.as_str());
                *value = info_value;
            }
        },
        None => {},
    }
}

/// Answers the host's question for the size of the info table. Returns
/// whether the operator has one, and writes its size where it has.
pub fn info_dat_size<P: Op>(plugin: &P, info: &mut HostInfoDatSize) -> (present: bool)
    ensures
        match plugin.info_dat_extent() {
            Some((rows, cols)) => {
                &&& present
                &&& final(info).rows == wrapped_i32(rows as int)
                &&& final(info).cols == wrapped_i32(cols as int)
                &&& final(info).by_column == old(info).by_column
            },
            None => !present && *final(info) == *old(info),
        },
{
    match plugin.info_dat_size() {
        Some((rows, cols)) => {
            info.rows = count_to_host(rows);
            info.cols = count_to_host(cols);
            true
        },
        None => false,
    }
}

/// The text of the cell that the host asks for, where it names a cell of
/// the operator's info table.
pub open spec fn asked_cell<P: Op>(plugin: &P, row: i32, col: i32) -> Option<Seq<char>> {
    match cell_at(plugin.info_dat_extent(), row, col) {
        Some((r, c)) => Some(plugin.info_dat_cell(r, c)),
        None => None,
    }
}

/// Fetches the cell that the host asks for. The operator is asked only for
/// a cell inside the size it reports; for any other pair of indices the
/// answer is `None` and the operator is not called.
pub fn info_dat_cell_text<P: Op>(plugin: &P, row: i32, col: i32) -> (text: Option<String>)
    ensures
        text is Some <==> asked_cell(plugin, row, col) is Some,
        text matches Some(t) ==> Some(t@) == asked_cell(plugin, row, col),
{
    match (plugin.info_dat_size(), index_from_host(row), index_from_host(col)) {
        (Some((rows, cols)), Some(r), Some(c)) => {
            if r < rows as usize && c < cols as usize {
                Some(plugin.info_dat_entry(r, c))
            } else {
                None
            }
        },
        _ => None,
    }
}

/// Answers the host's question for a cell of the info table. The text of
/// a cell inside the table is copied out, an empty one too, so that
/// nothing older stays in the host's storage; for any other pair of
/// indices the storage is left as it was.
pub fn info_dat_entry<P: Op>(plugin: &P, index: i32, entry_index: i32, entry: &mut HostString)
    ensures
        match asked_cell(plugin, index, entry_index) {
            Some(text) => final(entry)@ == host_encoding(text),
            None => *final(entry) == *old(entry),
        },
{
    match info_dat_cell_text(plugin, index, entry_index) {
        Some(text) => {
            entry.setString(text.as_str());
        },
        None => {},
    }
}

/// Copies the operator's warning into the host's storage.
pub fn warning_string<P: Op>(plugin: &P, warning: &mut HostString)
    ensures
        final(warning)@ == host_encoding(plugin.warning_text()),
{
    let text = plugin.warning();
    warning.setString(text.as_str());
}

/// Copies the operator's error into the host's storage.
pub fn error_string<P: Op>(plugin: &P, error: &mut HostString)
    ensures
        final(error)@ == host_encoding(plugin.error_text()),
{
    let text = plugin.error();
    error.setString(text.as_str());
}

/// Copies the operator's information text into the host's storage.
pub fn info_popup_string<P: Op>(plugin: &P, info: &mut HostString)
    ensures
        final(info)@ == host_encoding(plugin.info_text()),
{
    let text = plugin.info();
    info.setString(text.as_str());
}

/// Has the operator declare its parameters in the host's sink.
pub fn setup_parameters<P: Op>(plugin: &P, manager: &mut ParameterManager)
    ensures
        final(manager)@ == declare_all(old(manager)@, plugin.declared_params()),
{
    plugin.register_params(manager);
}

/// Passes on to the operator that the pulse parameter `name` was pressed.
pub fn pulse_pressed<P: Op>(plugin: &mut P, name: &str)
    ensures
        *final(plugin) == old(plugin).pulsed(name@),
{
    plugin.pulse_pressed(name);
}

/// Within one query cycle the two passes over the info table agree: every
/// cell inside the size that the operator reports has a defined text, and
/// a pair of indices outside it names no cell, so that the operator is
/// never asked for one.
pub proof fn lemma_info_table_two_phase<P: Op>(plugin: &P, row: i32, col: i32)
    ensures
        plugin.info_dat_extent() matches Some((rows, cols)) ==> (asked_cell(plugin, row, col) is Some <==> 0
            <= row < rows && 0 <= col < cols),
        plugin.info_dat_extent() is None ==> asked_cell(plugin, row, col) is None,
        asked_cell(plugin, row, col) matches Some(text) ==> text == plugin.info_dat_cell(
            row as usize,
            col as usize,
        ),
{
}

/// Diagnostics do not leak from one query to the next: what the host reads
/// depends on the operator's present message alone, not on what its storage
/// held before. For an operator that reports nothing it is the empty
/// string.
pub proof fn lemma_diagnostics_fresh(message: Seq<char>)
    ensures
        message.len() == 0 ==> host_encoding(message) == seq![0u8],
{
    if message.len() == 0 {
        assert(message =~= Seq::<char>::empty());
        crate::marshal::lemma_host_encoding_empty();
    }
}

} // verus!
