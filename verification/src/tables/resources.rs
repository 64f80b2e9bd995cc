//! Tables whose columns the user picks: each column is an attribute, keyed by
//! its displayed name, and a click on a column's header adds or removes it.
use crate::assoc::{assoc_view, has_key, keys_unique, lemma_assoc_view_dom, lemma_assoc_view_len, lemma_assoc_view_push, lemma_assoc_view_remove};
use vstd::prelude::*;

verus! {

/// The key of a column entry: its name's characters.
pub open spec fn column_key<T>() -> spec_fn((String, T)) -> Seq<char> {
    |e: (String, T)| e.0@
}

/// The value of a column entry: the attribute.
pub open spec fn column_value<T>() -> spec_fn((String, T)) -> T {
    |e: (String, T)| e.1
}

/// The picked columns of a table: attribute names, each mapped to its attribute.
pub struct TablePick<T> {
    entries: Vec<(String, T)>,
}

impl<T> View for TablePick<T> {
    type V = Map<Seq<char>, T>;

    closed spec fn view(&self) -> Map<Seq<char>, T> {
        assoc_view(self.entries@, column_key(), column_value())
    }
}

/// The columns after a click on the header named `key` for `attr`: a picked
/// column is dropped, another one is picked.
pub open spec fn toggled_columns<T>(cols: Map<Seq<char>, T>, key: Seq<char>, attr: T) -> Map<
    Seq<char>,
    T,
> {
    if cols.dom().contains(key) {
        cols.remove(key)
    } else {
        cols.insert(key, attr)
    }
}

impl<T> TablePick<T> {
    /// No name is held twice.
    pub closed spec fn wf(&self) -> bool {
        keys_unique(self.entries@, column_key())
    }

    /// No column picked.
    pub fn new() -> (t: Self)
        ensures
            t.wf(),
            t@ == Map::<Seq<char>, T>::empty(),
    {
        TablePick { entries: Vec::new() }
    }

    fn position_of(&self, key: &String) -> (r: Option<usize>)
        ensures
            match r {
                Some(i) => i < self.entries.len() && self.entries@[i as int].0@ == key@,
                None => !has_key(self.entries@, column_key(), key@),
            },
    {
        let mut i: usize = 0;
        while i < self.entries.len()
            invariant
                i <= self.entries.len(),
                forall|j: int| 0 <= j < i ==> self.entries@[j].0@ != key@,
            decreases self.entries.len() - i,
        {
            if self.entries[i].0 == *key {
                return Some(i);
            }
            i += 1;
        }
        None
    }

    /// Whether the column named `key` is picked.
    pub fn contains_key(&self, key: &str) -> (r: bool)
        ensures
            r == self@.dom().contains(key@),
    {
        let owned = key.to_owned();
        proof {
            lemma_assoc_view_dom(self.entries@, column_key(), column_value(), key@);
        }
        self.position_of(&owned).is_some()
    }

    /// How many columns are picked.
    pub fn len(&self) -> (n: usize)
        requires
            self.wf(),
        ensures
            n == self@.dom().len(),
    {
        proof {
            lemma_assoc_view_len(self.entries@, column_key(), column_value());
        }
        self.entries.len()
    }

    /// A click on the header named `key`, for the attribute `attr`.
    pub fn toggle(&mut self, key: String, attr: T)
        requires
            old(self).wf(),
        ensures
            final(self).wf(),
            final(self)@ == toggled_columns(old(self)@, key@, attr),
    {
        proof {
            lemma_assoc_view_dom(self.entries@, column_key(), column_value(), key@);
        }
        match self.position_of(&key) {
            Some(i) => {
                proof {
                    lemma_assoc_view_remove(self.entries@, column_key(), column_value(), i as int);
                }
                self.entries.remove(i);
            },
            None => {
                proof {
                    lemma_assoc_view_push(self.entries@, column_key(), column_value(), (key, attr));
                }
                self.entries.push((key, attr));
            },
        }
    }
}

impl<T> Default for TablePick<T> {
    fn default() -> (t: Self)
        ensures
            t.wf(),
            t@ == Map::<Seq<char>, T>::empty(),
    {
        TablePick::new()
    }
}

/// A table resource: its picked columns.
pub struct QuickTable<T>(pub TablePick<T>);

impl<T> Default for QuickTable<T> {
    fn default() -> (t: Self)
        ensures
            t.0.wf(),
            t.0@ == Map::<Seq<char>, T>::empty(),
    {
        QuickTable(TablePick::new())
    }
}

/// Clicking a column's header twice gives back the columns the clicks started
/// from, when the header stands for the attribute the column already holds.
pub proof fn law_toggle_column_twice_returns<T>(cols: Map<Seq<char>, T>, key: Seq<char>, attr: T)
    requires
        cols.dom().contains(key) ==> cols[key] == attr,
    ensures
        toggled_columns(toggled_columns(cols, key, attr), key, attr) == cols,
{
    if cols.dom().contains(key) {
        assert(cols.remove(key).insert(key, attr) =~= cols);
    } else {
        assert(cols.insert(key, attr).remove(key) =~= cols);
    }
}

/// Every picked column is keyed by the label of the attribute it holds.
pub open spec fn keys_are_labels<T>(cols: Map<Seq<char>, T>, label: spec_fn(T) -> Seq<char>) -> bool {
    forall|k: Seq<char>| cols.dom().contains(k) ==> k == label(#[trigger] cols[k])
}

/// A header click keyed by the label of its attribute keeps every column keyed
/// by its attribute's label, and a column it adds is the clicked attribute
/// under that attribute's label.
pub proof fn law_toggle_keeps_keys_labels<T>(
    cols: Map<Seq<char>, T>,
    attr: T,
    label: spec_fn(T) -> Seq<char>,
)
    requires
        keys_are_labels(cols, label),
    ensures
        keys_are_labels(toggled_columns(cols, label(attr), attr), label),
        forall|k: Seq<char>|
            #[trigger] toggled_columns(cols, label(attr), attr).dom().contains(k) && !cols.dom().contains(
                k,
            ) ==> k == label(attr) && toggled_columns(cols, label(attr), attr)[k] == attr,
{
    let after = toggled_columns(cols, label(attr), attr);
    assert forall|k: Seq<char>| after.dom().contains(k) implies k == label(#[trigger] after[k]) by {
        if k != label(attr) {
            assert(cols.dom().contains(k));
            assert(after[k] == cols[k]);
        }
    }
}

} // verus!
