//! A browser for tables of daily prices: a list of tables to choose from and
//! the table that is shown.
//!
//! Reading the directory and the files is left to the embedding program.
//! The model says which table it wants read, and takes what was read as a
//! message. The records of a table are carried, never looked into: `P` is
//! whatever the program reads a record as.

use crate::sandbox::Sandbox;
use vstd::prelude::*;

verus! {

/// What happens to the browser.
#[derive(Clone, Debug)]
pub enum Msg<P> {
    /// The table at this position of the list was chosen. A position beyond
    /// the list is absorbed: nothing changes and nothing is redrawn.
    Choice(usize),
    /// The names of the files of the data directory have been read.
    Listed(Vec<String>),
    /// The table at this position of the list has been read: its records,
    /// or `None` where it could not be read.
    Loaded(usize, Option<Vec<P>>),
}

/// A table: its name and, once it has been read, its records.
#[derive(Debug)]
pub struct Entry<P> {
    pub name: String,
    pub data: Option<Vec<P>>,
}

/// The state of the browser.
#[derive(Debug)]
pub struct Model<P> {
    entries: Vec<Entry<P>>,
    curr: usize,
    want: Option<usize>,
}

/// What the window of the browser holds: the names to choose from, joined by
/// `|`, and the position of the table that is shown.
#[derive(Debug)]
pub struct Tree {
    pub choices: String,
    pub curr: usize,
}

/// A table as a value.
pub struct Table<P> {
    pub name: Seq<char>,
    pub data: Option<Seq<P>>,
}

/// The browser as a value: the tables, the position of the one that is
/// shown, and the position of the one that is to be read.
pub struct Shelf<P> {
    pub tables: Seq<Table<P>>,
    pub curr: usize,
    pub want: Option<usize>,
}

/// The ending of the names of the files that hold tables.
pub open spec fn suffix() -> Seq<char> {
    seq!['.', 'c', 's', 'v']
}

/// Whether a file name is that of a table.
pub open spec fn is_table(name: Seq<char>) -> bool {
    name.len() >= 4 && name.subrange(name.len() - 4, name.len() as int) == suffix()
}

/// The name of the table in a file: the file name without its ending.
pub open spec fn stem(name: Seq<char>) -> Seq<char> {
    name.subrange(0, name.len() - 4)
}

/// The tables among the files of a directory, in the order of the files,
/// none of them read yet.
pub open spec fn found<P>(names: Seq<String>) -> Seq<Table<P>>
    decreases names.len(),
{
    if names.len() == 0 {
        Seq::empty()
    } else if is_table(names.last()@) {
        found::<P>(names.drop_last()).push(Table { name: stem(names.last()@), data: None })
    } else {
        found::<P>(names.drop_last())
    }
}

/// The names of tables, joined by `|`.
pub open spec fn joined<P>(tables: Seq<Table<P>>) -> Seq<char>
    decreases tables.len(),
{
    if tables.len() == 0 {
        Seq::empty()
    } else if tables.len() == 1 {
        tables.last().name
    } else {
        joined(tables.drop_last()) + seq!['|'] + tables.last().name
    }
}

impl<P> Entry<P> {
    /// The table as a value.
    pub open spec fn table(self) -> Table<P> {
        Table {
            name: self.name@,
            data: match self.data {
                Some(records) => Some(records@),
                None => None,
            },
        }
    }
}

impl<P> Shelf<P> {
    /// Whether the table at a position is there and has been read.
    pub open spec fn holds(self, index: usize) -> bool {
        index < self.tables.len() && self.tables[index as int].data is Some
    }

    /// Whether the table at a position is there and has not been read.
    pub open spec fn lacks(self, index: usize) -> bool {
        index < self.tables.len() && self.tables[index as int].data is None
    }

    /// The browser after a table has been chosen: it is shown at once where
    /// it has been read, and is asked for where it has not. A position
    /// beyond the list changes nothing.
    pub open spec fn chosen(self, index: usize) -> Self {
        if self.holds(index) {
            Shelf { curr: index, ..self }
        } else if self.lacks(index) {
            Shelf { want: Some(index), ..self }
        } else {
            self
        }
    }

    /// The browser after the files of the data directory have been listed:
    /// the tables among them are added to the list, and the table at the
    /// current position is chosen. A directory without files changes
    /// nothing: no table is chosen then.
    pub open spec fn listed(self, names: Seq<String>) -> Self {
        if names.len() == 0 {
            self
        } else {
            let grown = Shelf { tables: self.tables + found::<P>(names), ..self };
            grown.chosen(self.curr)
        }
    }

    /// The browser after a table has been read. The records are kept where
    /// the table is there and had none; it is shown where it was the one
    /// asked for; and where it was the one asked for, nothing is asked for
    /// any more, whether reading succeeded or not.
    pub open spec fn loaded(self, index: usize, data: Option<Seq<P>>) -> Self {
        let kept = self.lacks(index) && data is Some;
        Shelf {
            tables: if kept {
                self.tables.update(
                    index as int,
                    Table { name: self.tables[index as int].name, data },
                )
            } else {
                self.tables
            },
            curr: if kept && self.want == Some(index) {
                index
            } else {
                self.curr
            },
            want: if self.want == Some(index) {
                None
            } else {
                self.want
            },
        }
    }

    /// The position and the name of the table that is to be read: the one
    /// asked for, as long as it is there and has not been read.
    pub open spec fn wanted(self) -> Option<(usize, Seq<char>)> {
        match self.want {
            Some(index) if self.lacks(index) => Some((index, self.tables[index as int].name)),
            _ => None,
        }
    }
}

/// The records of a message as a value.
pub open spec fn records<P>(data: Option<Vec<P>>) -> Option<Seq<P>> {
    match data {
        Some(records) => Some(records@),
        None => None,
    }
}

/// Says whether a file name is that of a table.
pub fn names_table(name: &str) -> (yes: bool)
    ensures
        yes == is_table(name@),
{
    let len = name.unicode_len();
    if len < 4 {
        return false;
    }
    let yes = name.get_char(len - 4) == '.' && name.get_char(len - 3) == 'c' && name.get_char(
        len - 2,
    ) == 's' && name.get_char(len - 1) == 'v';
    proof {
        let end = name@.subrange(len - 4, len as int);
        if yes {
            assert(end =~= suffix());
        } else {
            assert(end[0] == name@[len - 4]);
            assert(end[1] == name@[len - 3]);
            assert(end[2] == name@[len - 2]);
            assert(end[3] == name@[len - 1]);
        }
    }
    yes
}

impl<P> Model<P> {
    /// The browser as a value.
    pub closed spec fn shelf(&self) -> Shelf<P> {
        Shelf {
            tables: Seq::new(self.entries@.len(), |i: int| self.entries@[i].table()),
            curr: self.curr,
            want: self.want,
        }
    }

    /// A browser without tables.
    pub fn empty() -> (model: Self)
        ensures
            model.shelf() == (Shelf::<P> { tables: Seq::empty(), curr: 0, want: None }),
    {
        let model = Model { entries: Vec::new(), curr: 0, want: None };
        assert(model.shelf().tables =~= Seq::empty());
        model
    }

    /// Takes the names of the files of the data directory: the tables among
    /// them are added to the list, and the table at the current position is
    /// chosen. A directory without files changes nothing.
    pub fn init(&mut self, names: &Vec<String>)
        ensures
            final(self).shelf() == old(self).shelf().listed(names@),
    {
        let mut next: usize = 0;
        assert(names@.take(0) =~= Seq::<String>::empty());
        assert(self.shelf().tables + found::<P>(names@.take(0)) =~= self.shelf().tables);
        while next < names.len()
            invariant
                next <= names.len(),
                self.curr == old(self).curr,
                self.want == old(self).want,
                self.shelf().tables == old(self).shelf().tables + found::<P>(
                    names@.take(next as int),
                ),
            decreases names.len() - next,
        {
            let name = names[next].as_str();
            let ghost before = self.shelf().tables;
            let ghost done = names@.take(next as int);
            let ghost more = names@.take(next + 1);
            assert(more.drop_last() =~= done);
            assert(more.last() == names@[next as int]);
            if names_table(name) {
                let short = name.substring_char(0, name.unicode_len() - 4);
                self.entries.push(Entry { name: String::from_str(short), data: None });
                assert(self.shelf().tables =~= before.push(
                    Table { name: stem(name@), data: None },
                ));
                assert(self.shelf().tables =~= old(self).shelf().tables + found::<P>(more));
            }
            next += 1;
        }
        assert(names@.take(next as int) =~= names@);
        if names.len() > 0 {
            let curr = self.curr;
            self.select(curr);
        } else {
            assert(self.shelf().tables =~= old(self).shelf().tables);
        }
    }

    /// Chooses the table at a position: it is shown at once where it has
    /// been read, and is asked for where it has not. A position beyond the
    /// list changes nothing.
    fn select(&mut self, curr: usize)
        ensures
            final(self).shelf() == old(self).shelf().chosen(curr),
    {
        if curr < self.entries.len() {
            if self.entries[curr].data.is_some() {
                self.curr = curr;
            } else {
                self.want = Some(curr);
            }
        }
    }

    /// Chooses the table at a position of the list: it is shown at once
    /// where it has been read, and is asked for where it has not. Always
    /// calls for a redraw.
    pub fn choice(&mut self, curr: usize) -> (redraw: bool)
        requires
            curr < old(self).shelf().tables.len(),
        ensures
            final(self).shelf() == old(self).shelf().chosen(curr),
            redraw,
    {
        self.select(curr);
        true
    }

    /// Takes what was read for the table at a position.
    pub fn loaded(&mut self, index: usize, data: Option<Vec<P>>)
        ensures
            final(self).shelf() == old(self).shelf().loaded(index, records(data)),
    {
        let asked = match self.want {
            Some(want) => want == index,
            None => false,
        };
        if asked {
            self.want = None;
        }
        if index < self.entries.len() && self.entries[index].data.is_none() {
            match data {
                Some(found) => {
                    let ghost before = self.shelf().tables;
                    let ghost name = self.entries@[index as int].name@;
                    let ghost kept = found@;
                    let mut entry = self.entries.remove(index);
                    entry.data = Some(found);
                    self.entries.insert(index, entry);
                    assert(self.shelf().tables =~= before.update(
                        index as int,
                        Table { name, data: Some(kept) },
                    ));
                    if asked {
                        self.curr = index;
                    }
                },
                None => {},
            }
        }
    }

    /// The table that the embedding program is to read: its position in the
    /// list and its name.
    pub fn wanted(&self) -> (wanted: Option<(usize, &String)>)
        ensures
            match wanted {
                Some(pair) => self.shelf().wanted() == Some((pair.0, pair.1@)),
                None => self.shelf().wanted() is None,
            },
    {
        match self.want {
            Some(index) => {
                if index < self.entries.len() && self.entries[index].data.is_none() {
                    Some((index, &self.entries[index].name))
                } else {
                    None
                }
            },
            None => None,
        }
    }

    /// The position of the table that is shown.
    pub fn curr(&self) -> (curr: usize)
        ensures
            curr == self.shelf().curr,
    {
        self.curr
    }

    /// The number of tables in the list.
    pub fn len(&self) -> (len: usize)
        ensures
            len == self.shelf().tables.len(),
    {
        self.entries.len()
    }

    /// The table at a position of the list.
    pub fn entry(&self, index: usize) -> (entry: &Entry<P>)
        requires
            index < self.shelf().tables.len(),
        ensures
            entry.table() == self.shelf().tables[index as int],
    {
        &self.entries[index]
    }

    /// The names of the tables, joined by `|`.
    pub fn list(&self) -> (text: String)
        ensures
            text@ == joined(self.shelf().tables),
    {
        let mut text = String::new();
        let mut next: usize = 0;
        let ghost tables = self.shelf().tables;
        assert(tables.take(0) =~= Seq::<Table<P>>::empty());
        while next < self.entries.len()
            invariant
                next <= self.entries.len(),
                tables == self.shelf().tables,
                tables.len() == self.entries.len(),
                text@ == joined(tables.take(next as int)),
            decreases self.entries.len() - next,
        {
            let ghost more = tables.take(next + 1);
            assert(more.drop_last() =~= tables.take(next as int));
            assert(more.last() == tables[next as int]);
            if next > 0 {
                proof {
                    reveal_strlit("|");
                    assert("|"@ =~= seq!['|']);
                }
                text.append("|");
            }
            text.append(self.entries[next].name.as_str());
            next += 1;
            assert(text@ =~= joined(more));
        }
        assert(tables.take(next as int) =~= tables);
        text
    }
}

impl<P: Clone + Send + Sync + 'static> Sandbox for Model<P> {
    type Message = Msg<P>;

    type Tree = Tree;

    type State = Shelf<P>;

    type Scene = (Seq<char>, usize);

    open spec fn state(&self) -> Shelf<P> {
        self.shelf()
    }

    open spec fn scene(tree: &Tree) -> (Seq<char>, usize) {
        (tree.choices@, tree.curr)
    }

    open spec fn initial() -> Shelf<P> {
        Shelf { tables: Seq::empty(), curr: 0, want: None }
    }

    open spec fn caption(state: Shelf<P>) -> Seq<char> {
        "FlCSV"@
    }

    open spec fn shown(state: Shelf<P>) -> (Seq<char>, usize) {
        (joined(state.tables), state.curr)
    }

    open spec fn next(state: Shelf<P>, message: Msg<P>) -> Shelf<P> {
        match message {
            Msg::Choice(index) => state.chosen(index),
            Msg::Listed(names) => state.listed(names@),
            Msg::Loaded(index, data) => state.loaded(index, records(data)),
        }
    }

    open spec fn redraws(state: Shelf<P>, message: Msg<P>) -> bool {
        match message {
            Msg::Choice(index) => index < state.tables.len(),
            Msg::Listed(_) | Msg::Loaded(_, _) => true,
        }
    }

    proof fn lemma_absorbed(state: Shelf<P>, message: Msg<P>) {
    }

    fn new() -> (model: Model<P>) {
        Self::empty()
    }

    fn title(&self) -> (caption: String) {
        String::from_str("FlCSV")
    }

    fn view(&self) -> (tree: Tree) {
        Tree { choices: self.list(), curr: self.curr }
    }

    fn update(&mut self, message: Msg<P>) -> (redraw: bool) {
        match message {
            Msg::Choice(index) => {
                if index < self.entries.len() {
                    self.choice(index)
                } else {
                    false
                }
            },
            Msg::Listed(names) => {
                self.init(&names);
                true
            },
            Msg::Loaded(index, data) => {
                self.loaded(index, data);
                true
            },
        }
    }
}

} // verus!
