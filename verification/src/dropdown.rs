//! The selection state of a dropdown: its items (label and value), the
//! selected value and the placeholder shown when nothing is selected.
//!
//! Values are compared with their own `PartialEq`; what is stated about
//! comparisons holds for value types whose `==` follows their specification
//! (`obeys_eq_spec`), such as the integer types.
use vstd::prelude::*;
use crate::text::{chars_of, string_from_chars};
use vstd::std_specs::cmp::PartialEqSpec;

verus! {

pub struct Dropdown<T> {
    items: Vec<(String, T)>,
    selected: Option<T>,
    placeholder: String,
}

pub struct DropdownView<T> {
    pub items: Seq<(Seq<char>, T)>,
    pub selected: Option<T>,
    pub placeholder: Seq<char>,
}

impl<T> View for Dropdown<T> {
    type V = DropdownView<T>;

    closed spec fn view(&self) -> DropdownView<T> {
        DropdownView {
            items: self.items@.map_values(|p: (String, T)| (p.0@, p.1)),
            selected: self.selected,
            placeholder: self.placeholder@,
        }
    }
}

/// Index of the first item whose value equals `sel`, or `-1`.
pub open spec fn item_index<T: PartialEq>(items: Seq<(Seq<char>, T)>, sel: T) -> int
    decreases items.len(),
{
    if items.len() == 0 {
        -1
    } else if items.last().1.eq_spec(&sel) && item_index(items.drop_last(), sel) < 0 {
        items.len() - 1
    } else {
        item_index(items.drop_last(), sel)
    }
}

proof fn lemma_item_index<T: PartialEq>(items: Seq<(Seq<char>, T)>, sel: T)
    ensures
        -1 <= item_index(items, sel) < items.len(),
        item_index(items, sel) >= 0 ==> items[item_index(items, sel)].1.eq_spec(&sel),
        forall|j: int|
            0 <= j < items.len() && (item_index(items, sel) < 0 || j < item_index(items, sel))
                ==> !(#[trigger] items[j]).1.eq_spec(&sel),
    decreases items.len(),
{
    if items.len() > 0 {
        let t = items.drop_last();
        lemma_item_index(t, sel);
        assert forall|j: int| 0 <= j < t.len() implies #[trigger] items[j] == t[j] by {}
    }
}

/// The text a dropdown shows: the label of the first item whose value is the
/// selected one, or the placeholder.
pub open spec fn spec_selected_text<T: PartialEq>(d: DropdownView<T>) -> Seq<char> {
    match d.selected {
        Some(s) => if item_index(d.items, s) >= 0 {
            d.items[item_index(d.items, s)].0
        } else {
            d.placeholder
        },
        None => d.placeholder,
    }
}

/// Whether two dropdowns show the same thing.
pub open spec fn spec_same_dropdown<T: PartialEq>(a: DropdownView<T>, b: DropdownView<T>) -> bool {
    &&& match (a.selected, b.selected) {
        (Some(x), Some(y)) => x.eq_spec(&y),
        (None, None) => true,
        _ => false,
    }
    &&& a.placeholder == b.placeholder
    &&& a.items.len() == b.items.len()
    &&& forall|i: int|
        #![trigger a.items[i]]
        0 <= i < a.items.len() ==> a.items[i].0 == b.items[i].0 && a.items[i].1.eq_spec(
            &b.items[i].1,
        )
}

proof fn lemma_item_index_is<T: PartialEq>(items: Seq<(Seq<char>, T)>, sel: T, r: int)
    requires
        -1 <= r < items.len(),
        r >= 0 ==> items[r].1.eq_spec(&sel),
        forall|j: int| 0 <= j < items.len() && (r < 0 || j < r) ==> !(#[trigger] items[j]).1.eq_spec(&sel),
    ensures
        item_index(items, sel) == r,
{
    lemma_item_index(items, sel);
    let f = item_index(items, sel);
    if f >= 0 && (r < 0 || f < r) {
        assert(!items[f].1.eq_spec(&sel));
    }
    if r >= 0 && f != r {
        assert(!items[r].1.eq_spec(&sel));
    }
}

/// With a value selected, the dropdown shows the label of the first item
/// holding that value.
pub proof fn lemma_selected_text_is_first_match<T: PartialEq>(d: DropdownView<T>, sel: T, j: int)
    requires
        d.selected == Some(sel),
        0 <= j < d.items.len(),
        d.items[j].1.eq_spec(&sel),
        forall|k: int| 0 <= k < j ==> !(#[trigger] d.items[k]).1.eq_spec(&sel),
    ensures
        spec_selected_text(d) == d.items[j].0,
{
    lemma_item_index_is(d.items, sel, j);
}

/// The placeholder shows only when nothing is selected or no item holds the
/// selected value.
pub proof fn lemma_placeholder_shown<T: PartialEq>(d: DropdownView<T>)
    ensures
        (d.selected is None || forall|k: int|
            0 <= k < d.items.len() ==> !(#[trigger] d.items[k]).1.eq_spec(&d.selected->0))
            ==> spec_selected_text(d) == d.placeholder,
        (d.selected matches Some(sel) && exists|k: int|
            0 <= k < d.items.len() && (#[trigger] d.items[k]).1.eq_spec(&sel)) ==> exists|k: int|
            0 <= k < d.items.len() && spec_selected_text(d) == (#[trigger] d.items[k]).0,
{
    if let Some(sel) = d.selected {
        lemma_item_index(d.items, sel);
        if forall|k: int| 0 <= k < d.items.len() ==> !(#[trigger] d.items[k]).1.eq_spec(&sel) {
            lemma_item_index_is(d.items, sel, -1);
        }
        if exists|k: int| 0 <= k < d.items.len() && (#[trigger] d.items[k]).1.eq_spec(&sel) {
            let k = choose|k: int| 0 <= k < d.items.len() && (#[trigger] d.items[k]).1.eq_spec(&sel);
            assert(item_index(d.items, sel) >= 0);
            let f = item_index(d.items, sel);
            assert(spec_selected_text(d) == d.items[f].0);
        }
    }
}

impl<T> Dropdown<T> {
    /// A dropdown over `items`, with nothing selected and the placeholder
    /// `Select...`.
    pub fn new(items: Vec<(String, T)>) -> (d: Self)
        ensures
            d@.items == items@.map_values(|p: (String, T)| (p.0@, p.1)),
            d@.selected is None,
            d@.placeholder == "Select..."@,
    {
        Dropdown {
            items,
            selected: None,
            placeholder: string_from_chars(chars_of("Select...").as_slice()),
        }
    }

    pub fn selected(self, selected: Option<T>) -> (d: Self)
        ensures
            d@.items == self@.items,
            d@.selected == selected,
            d@.placeholder == self@.placeholder,
    {
        Dropdown { selected, ..self }
    }

    pub fn placeholder(self, placeholder: &str) -> (d: Self)
        ensures
            d@.items == self@.items,
            d@.selected == self@.selected,
            d@.placeholder == placeholder@,
    {
        Dropdown { placeholder: string_from_chars(chars_of(placeholder).as_slice()), ..self }
    }

    /// The number of items.
    pub fn len(&self) -> (n: usize)
        ensures
            n == self@.items.len(),
    {
        self.items.len()
    }
}

impl<T: PartialEq> Dropdown<T> {
    /// The text the dropdown shows for its selection.
    pub fn selected_text(&self) -> (s: String)
        ensures
            T::obeys_eq_spec() ==> s@ == spec_selected_text(self@),
    {
        let ghost items = self@.items;
        assert(items.len() == self.items@.len());
        match &self.selected {
            None => self.placeholder.clone(),
            Some(sel) => {
                let mut i: usize = 0;
                while i < self.items.len()
                    invariant
                        i <= self.items.len(),
                        items == self@.items,
                        items.len() == self.items@.len(),
                        self.selected == Some(*sel),
                        T::obeys_eq_spec() ==> forall|j: int|
                            0 <= j < i ==> !(#[trigger] items[j]).1.eq_spec(sel),
                    decreases self.items.len() - i,
                {
                    assert(items[i as int] == (self.items@[i as int].0@, self.items@[i as int].1));
                    if self.items[i].1 == *sel {
                        proof {
                            if T::obeys_eq_spec() {
                                lemma_item_index(items, *sel);
                                let f = item_index(items, *sel);
                                if f != i {
                                    if f >= 0 && f < i {
                                        assert(!items[f].1.eq_spec(sel));
                                    }
                                }
                            }
                        }
                        return self.items[i].0.clone();
                    }
                    i = i + 1;
                }
                proof {
                    if T::obeys_eq_spec() {
                        lemma_item_index(items, *sel);
                        let f = item_index(items, *sel);
                        if f >= 0 {
                            assert(!items[f].1.eq_spec(sel));
                        }
                    }
                }
                self.placeholder.clone()
            },
        }
    }

    /// Whether the item at `index` holds the selected value.
    pub fn is_selected(&self, index: usize) -> (b: bool)
        requires
            index < self@.items.len(),
        ensures
            T::obeys_eq_spec() ==> b == match self@.selected {
                Some(s) => s.eq_spec(&self@.items[index as int].1),
                None => false,
            },
    {
        assert(self@.items[index as int].1 == self.items@[index as int].1);
        match &self.selected {
            Some(s) => *s == self.items[index].1,
            None => false,
        }
    }

    /// Whether `self` and `other` show the same thing: the same selection,
    /// placeholder and items (`PartialEq` for the dropdown component).
    pub fn same_as(&self, other: &Dropdown<T>) -> (b: bool)
        ensures
            T::obeys_eq_spec() ==> b == spec_same_dropdown(self@, other@),
    {
        let same_selection = match (&self.selected, &other.selected) {
            (Some(x), Some(y)) => *x == *y,
            (None, None) => true,
            _ => false,
        };
        if !same_selection || !(self.placeholder == other.placeholder) || self.items.len()
            != other.items.len() {
            return false;
        }
        let ghost a = self@.items;
        let ghost c = other@.items;
        let mut i: usize = 0;
        while i < self.items.len()
            invariant
                i <= self.items.len() == other.items.len(),
                a == self@.items,
                c == other@.items,
                a.len() == self.items@.len(),
                c.len() == other.items@.len(),
                a.len() == c.len(),
                self@.placeholder == other@.placeholder,
                T::obeys_eq_spec() ==> match (self@.selected, other@.selected) {
                    (Some(x), Some(y)) => x.eq_spec(&y),
                    (None, None) => true,
                    _ => false,
                },
                T::obeys_eq_spec() ==> forall|j: int|
                    #![trigger a[j]]
                    0 <= j < i ==> a[j].0 == c[j].0 && a[j].1.eq_spec(&c[j].1),
            decreases self.items.len() - i,
        {
            assert(a[i as int] == (self.items@[i as int].0@, self.items@[i as int].1));
            assert(c[i as int] == (other.items@[i as int].0@, other.items@[i as int].1));
            let same_label = self.items[i].0 == other.items[i].0;
            let same_value = self.items[i].1 == other.items[i].1;
            assert(same_label == (a[i as int].0 == c[i as int].0));
            assert(T::obeys_eq_spec() ==> same_value == a[i as int].1.eq_spec(&c[i as int].1));
            if !same_label || !same_value {
                return false;
            }
            i = i + 1;
        }
        true
    }
}

} // verus!
