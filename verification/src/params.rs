//! The parameters of an operator: the sink in which a plugin declares them,
//! and the snapshot of their current values that comes with every host call.
//!
//! A number is a double-precision value carried as its 64-bit pattern.
use crate::marshal::same_text;
use vstd::prelude::*;

verus! {

/// What kind of control a parameter is, with its default and range.
pub enum ParamKind {
    /// A number with a default and the range it may be set in.
    Numeric { default: u64, min: u64, max: u64 },
    /// An on/off switch.
    Toggle { default_on: bool },
    /// A line of text.
    Text { default_text: String },
    /// A choice among named entries; `default_entry` is the one chosen at first.
    Menu { entries: Vec<String>, default_entry: usize },
    /// A momentary button: it has no value, it fires.
    Pulse,
}

/// The mathematical value of a [`ParamKind`].
pub enum ParamKindView {
    Numeric { default: u64, min: u64, max: u64 },
    Toggle { default_on: bool },
    Text { default_text: Seq<char> },
    Menu { entries: Seq<Seq<char>>, default_entry: usize },
    Pulse,
}

impl View for ParamKind {
    type V = ParamKindView;

    open spec fn view(&self) -> ParamKindView {
        match *self {
            ParamKind::Numeric { default, min, max } => ParamKindView::Numeric { default, min, max },
            ParamKind::Toggle { default_on } => ParamKindView::Toggle { default_on },
            ParamKind::Text { default_text } => ParamKindView::Text { default_text: default_text@ },
            ParamKind::Menu { entries, default_entry } => ParamKindView::Menu {
                entries: entries@.map_values(|e: String| e@),
                default_entry,
            },
            ParamKind::Pulse => ParamKindView::Pulse,
        }
    }
}

/// One declared parameter: the name the host addresses it by, how it is
/// shown, and its kind.
pub struct ParamDecl {
    pub name: String,
    pub label: String,
    pub page: String,
    pub kind: ParamKind,
}

/// The mathematical value of a [`ParamDecl`].
pub struct ParamDeclView {
    pub name: Seq<char>,
    pub label: Seq<char>,
    pub page: Seq<char>,
    pub kind: ParamKindView,
}

impl View for ParamDecl {
    type V = ParamDeclView;

    open spec fn view(&self) -> ParamDeclView {
        ParamDeclView { name: self.name@, label: self.label@, page: self.page@, kind: self.kind@ }
    }
}

/// What a sink has recorded: the declarations in the order they stand.
pub type Record = Seq<ParamDeclView>;

/// The index of the first declaration named `name`, or the record's length
/// where none has that name.
pub open spec fn position_of(record: Record, name: Seq<char>) -> int
    decreases record.len(),
{
    if record.len() == 0 {
        0
    } else if record.first().name == name {
        0
    } else {
        1 + position_of(record.drop_first(), name)
    }
}

/// The record after `decl` has been declared: it takes the place of the
/// declaration of the same name, or comes last where there is none.
pub open spec fn declare(record: Record, decl: ParamDeclView) -> Record {
    let at = position_of(record, decl.name);
    if at < record.len() {
        record.update(at, decl)
    } else {
        record.push(decl)
    }
}

/// The record after each of `decls` has been declared, first to last.
pub open spec fn declare_all(record: Record, decls: Record) -> Record
    decreases decls.len(),
{
    if decls.len() == 0 {
        record
    } else {
        declare(declare_all(record, decls.drop_last()), decls.last())
    }
}

/// No two declarations have the same name.
pub open spec fn distinct_names(record: Record) -> bool {
    forall|i: int, j: int| 0 <= i < j < record.len() ==> record[i].name != record[j].name
}

/// `position_of` finds the first declaration of that name and no other.
pub proof fn lemma_position_of(record: Record, name: Seq<char>)
    ensures
        0 <= position_of(record, name) <= record.len(),
        position_of(record, name) < record.len() ==> record[position_of(record, name)].name == name,
        forall|j: int| 0 <= j < position_of(record, name) ==> record[j].name != name,
    decreases record.len(),
{
    if record.len() > 0 && record.first().name != name {
        let rest = record.drop_first();
        lemma_position_of(rest, name);
        assert forall|j: int| 0 <= j < position_of(record, name) implies record[j].name != name by {
            if j > 0 {
                assert(record[j] == rest[j - 1]);
            }
        }
        if position_of(record, name) < record.len() {
            assert(record[position_of(record, name)] == rest[position_of(rest, name)]);
        }
    }
}

/// Where the first match is known, `position_of` is that index.
proof fn lemma_position_found(record: Record, name: Seq<char>, at: int)
    requires
        0 <= at <= record.len(),
        at < record.len() ==> record[at].name == name,
        forall|j: int| 0 <= j < at ==> record[j].name != name,
    ensures
        position_of(record, name) == at,
{
    lemma_position_of(record, name);
}

/// Declaring keeps the names distinct, and adds one declaration exactly
/// when the name is new.
pub proof fn lemma_declare_distinct(record: Record, decl: ParamDeclView)
    requires
        distinct_names(record),
    ensures
        distinct_names(declare(record, decl)),
        position_of(record, decl.name) < record.len() ==> declare(record, decl).len() == record.len(),
        position_of(record, decl.name) == record.len() ==> declare(record, decl).len() == record.len() + 1,
{
    lemma_position_of(record, decl.name);
    let at = position_of(record, decl.name);
    let after = declare(record, decl);
    assert forall|i: int, j: int| 0 <= i < j < after.len() implies after[i].name != after[j].name by {
        if at < record.len() {
            if i == at {
                assert(record[at].name != record[j].name);
            } else if j == at {
                assert(record[i].name != record[at].name);
            }
        }
    }
}

/// Registration order is preserved: declaring parameters of pairwise
/// different names into an empty sink, one after the other, leaves exactly
/// those declarations in the sink, in the order they were made.
pub proof fn lemma_registration_order(decls: Record)
    requires
        distinct_names(decls),
    ensures
        declare_all(Seq::empty(), decls) == decls,
    decreases decls.len(),
{
    if decls.len() > 0 {
        let front = decls.drop_last();
        lemma_registration_order(front);
        lemma_position_found(front, decls.last().name, front.len() as int);
        assert(front.push(decls.last()) =~= decls);
    }
}

/// Declaring again replaces and does not duplicate: when every parameter
/// of a sink is declared a second time, in any values, the sink holds the
/// new declarations, as many as before and in the same places.
pub proof fn lemma_registration_replaces(record: Record, decls: Record)
    requires
        distinct_names(record),
        decls.len() == record.len(),
        forall|i: int| 0 <= i < decls.len() ==> decls[i].name == record[i].name,
    ensures
        declare_all(record, decls) == decls,
{
    lemma_redeclare_prefix(record, decls, decls.len() as int);
    assert(decls.take(decls.len() as int) =~= decls);
    assert(decls + record.skip(decls.len() as int) =~= decls);
}

proof fn lemma_redeclare_prefix(record: Record, decls: Record, n: int)
    requires
        distinct_names(record),
        decls.len() == record.len(),
        forall|i: int| 0 <= i < decls.len() ==> decls[i].name == record[i].name,
        0 <= n <= decls.len(),
    ensures
        declare_all(record, decls.take(n)) == decls.take(n) + record.skip(n),
    decreases n,
{
    if n == 0 {
        assert(decls.take(0) + record.skip(0) =~= record);
        assert(decls.take(0).len() == 0);
    } else {
        lemma_redeclare_prefix(record, decls, n - 1);
        let before = decls.take(n - 1) + record.skip(n - 1);
        let next = decls[n - 1];
        assert(decls.take(n).drop_last() =~= decls.take(n - 1));
        assert(decls.take(n).last() == next);
        assert forall|j: int| 0 <= j < n - 1 implies before[j].name != next.name by {
            assert(before[j].name == record[j].name);
        }
        assert(before[n - 1] == record[n - 1]);
        lemma_position_found(before, next.name, n - 1);
        assert(before.update(n - 1, next) =~= decls.take(n) + record.skip(n));
    }
}

/// The sink in which a plugin declares its parameters during setup. It
/// records the declarations in the order they are made; a declaration under
/// a name already present replaces the earlier one in its place.
pub struct ParameterManager {
    declared: Vec<ParamDecl>,
}

impl View for ParameterManager {
    type V = Record;

    closed spec fn view(&self) -> Record {
        self.declared@.map_values(|d: ParamDecl| d@)
    }
}

impl ParameterManager {
    #[verifier::type_invariant]
    spec fn well_formed(&self) -> bool {
        distinct_names(self@)
    }

    /// A sink with nothing declared.
    pub fn new() -> (manager: ParameterManager)
        ensures
            manager@ == Record::empty(),
    {
        let manager = ParameterManager { declared: Vec::new() };
        assert(manager@ =~= Record::empty());
        manager
    }

    /// The number of parameters declared. No two of them share a name.
    pub fn len(&self) -> (n: usize)
        ensures
            n == self@.len(),
            distinct_names(self@),
    {
        proof {
            use_type_invariant(self);
        }
        self.declared.len()
    }

    /// The declaration at place `index` of the record.
    pub fn get(&self, index: usize) -> (decl: &ParamDecl)
        requires
            index < self@.len(),
        ensures
            decl@ == self@[index as int],
    {
        &self.declared[index]
    }

    /// The place of the parameter named `name`, if one is declared.
    pub fn position(&self, name: &str) -> (at: Option<usize>)
        ensures
            at is Some <==> position_of(self@, name@) < self@.len(),
            at matches Some(i) ==> i == position_of(self@, name@),
            distinct_names(self@),
    {
        proof {
            use_type_invariant(self);
        }
        let mut i: usize = 0;
        while i < self.declared.len()
            invariant
                i <= self.declared@.len(),
                self@.len() == self.declared@.len(),
                distinct_names(self@),
                forall|j: int| 0 <= j < i ==> self@[j].name != name@,
            decreases self.declared@.len() - i,
        {
            if same_text(self.declared[i].name.as_str(), name) {
                proof {
                    lemma_position_found(self@, name@, i as int);
                }
                return Some(i);
            }
            i = i + 1;
        }
        proof {
            lemma_position_found(self@, name@, i as int);
        }
        None
    }

    /// Declares a parameter. Where one of that name is declared already,
    /// the new declaration takes its place; else it comes last.
    pub fn append(&mut self, decl: ParamDecl)
        ensures
            final(self)@ == declare(old(self)@, decl@),
    {
        let found = self.position(decl.name.as_str());
        proof {
            lemma_declare_distinct(self@, decl@);
        }
        let mut declared: Vec<ParamDecl> = Vec::new();
        core::mem::swap(&mut self.declared, &mut declared);
        match found {
            Some(i) => {
                declared[i] = decl;
            },
            None => {
                declared.push(decl);
            },
        }
        proof {
            assert(declared@.map_values(|d: ParamDecl| d@) =~= declare(old(self)@, decl@));
        }
        self.declared = declared;
    }
}

/// The current value of a parameter.
pub enum ParamValue {
    Number(u64),
    Toggle(bool),
    Text(String),
    /// The entry of a menu that is chosen.
    Choice(usize),
}

/// The mathematical value of a [`ParamValue`].
pub enum ParamValueView {
    Number(u64),
    Toggle(bool),
    Text(Seq<char>),
    Choice(usize),
}

impl View for ParamValue {
    type V = ParamValueView;

    open spec fn view(&self) -> ParamValueView {
        match *self {
            ParamValue::Number(n) => ParamValueView::Number(n),
            ParamValue::Toggle(on) => ParamValueView::Toggle(on),
            ParamValue::Text(text) => ParamValueView::Text(text@),
            ParamValue::Choice(entry) => ParamValueView::Choice(entry),
        }
    }
}

/// A parameter's name with its current value.
pub struct ParamEntry {
    pub name: String,
    pub value: ParamValue,
}

impl View for ParamEntry {
    type V = (Seq<char>, ParamValueView);

    open spec fn view(&self) -> (Seq<char>, ParamValueView) {
        (self.name@, self.value@)
    }
}

/// The value that a snapshot holds for `name`: the one recorded last under
/// that name, if any was.
pub open spec fn current_value(entries: Seq<(Seq<char>, ParamValueView)>, name: Seq<char>) -> Option<
    ParamValueView,
>
    decreases entries.len(),
{
    if entries.len() == 0 {
        None
    } else if entries.last().0 == name {
        Some(entries.last().1)
    } else {
        current_value(entries.drop_last(), name)
    }
}

/// The snapshot of parameter values that comes with one host call.
pub struct ParamInputs {
    entries: Vec<ParamEntry>,
}

impl View for ParamInputs {
    type V = Seq<(Seq<char>, ParamValueView)>;

    closed spec fn view(&self) -> Seq<(Seq<char>, ParamValueView)> {
        self.entries@.map_values(|e: ParamEntry| e@)
    }
}

impl ParamInputs {
    /// A snapshot that holds no value.
    pub fn new() -> (snapshot: ParamInputs)
        ensures
            snapshot@ == Seq::<(Seq<char>, ParamValueView)>::empty(),
    {
        let snapshot = ParamInputs { entries: Vec::new() };
        assert(snapshot@ =~= Seq::<(Seq<char>, ParamValueView)>::empty());
        snapshot
    }

    /// Records `value` as the current value of the parameter `name`.
    pub fn set(&mut self, name: String, value: ParamValue)
        ensures
            final(self)@ == old(self)@.push((name@, value@)),
            current_value(final(self)@, name@) == Some(value@),
    {
        self.entries.push(ParamEntry { name, value });
        assert(self@ =~= old(self)@.push((name@, value@)));
        assert(self@.last() == (name@, value@));
    }

    /// The current value of the parameter `name`, if the snapshot has one.
    pub fn get(&self, name: &str) -> (value: Option<&ParamValue>)
        ensures
            value matches Some(v) ==> current_value(self@, name@) == Some(v@),
            value is None ==> current_value(self@, name@) is None,
    {
        let mut n: usize = self.entries.len();
        assert(self@.take(n as int) =~= self@);
        while n > 0
            invariant
                n <= self.entries@.len(),
                self@.len() == self.entries@.len(),
                current_value(self@, name@) == current_value(self@.take(n as int), name@),
            decreases n,
        {
            let entry = &self.entries[n - 1];
            proof {
                let upto = self@.take(n as int);
                assert(upto.last() == entry@);
                assert(upto.drop_last() =~= self@.take(n - 1));
            }
            if same_text(entry.name.as_str(), name) {
                return Some(&entry.value);
            }
            n = n - 1;
        }
        None
    }

    /// The current value of `name` where it is a number.
    pub fn number(&self, name: &str) -> (value: Option<u64>)
        ensures
            value == match current_value(self@, name@) {
                Some(ParamValueView::Number(n)) => Some(n),
                _ => None,
            },
    {
        match self.get(name) {
            Some(ParamValue::Number(n)) => Some(*n),
            _ => None,
        }
    }

    /// The current value of `name` where it is a switch.
    pub fn toggle(&self, name: &str) -> (value: Option<bool>)
        ensures
            value == match current_value(self@, name@) {
                Some(ParamValueView::Toggle(on)) => Some(on),
                _ => None,
            },
    {
        match self.get(name) {
            Some(ParamValue::Toggle(on)) => Some(*on),
            _ => None,
        }
    }

    /// The current value of `name` where it is a text.
    pub fn text(&self, name: &str) -> (value: Option<&str>)
        ensures
            value matches Some(t) ==> current_value(self@, name@) == Some(ParamValueView::Text(t@)),
            value is None ==> !(current_value(self@, name@) matches Some(ParamValueView::Text(_))),
    {
        match self.get(name) {
            Some(ParamValue::Text(text)) => Some(text.as_str()),
            _ => None,
        }
    }

    /// The current value of `name` where it is a menu's chosen entry.
    pub fn choice(&self, name: &str) -> (value: Option<usize>)
        ensures
            value == match current_value(self@, name@) {
                Some(ParamValueView::Choice(entry)) => Some(entry),
                _ => None,
            },
    {
        match self.get(name) {
            Some(ParamValue::Choice(entry)) => Some(*entry),
            _ => None,
        }
    }
}

} // verus!
