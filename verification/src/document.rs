//! A provider's response as a loosely typed document.
//!
//! Reading a document never fails: a step into a member or an element that is
//! not there yields `Null`, and a scalar that is not of the wanted kind yields
//! `None`. The caller decides what stands in for it.

use vstd::prelude::*;
use vstd::string::StringExecFns;

verus! {

/// A number of a document, by the two readings that are taken of it.
#[derive(Clone, Copy, Debug, PartialEq, Eq, Structural)]
pub struct Number {
    /// The number as an unsigned integer, where it is one that fits 64 bits.
    pub unsigned: Option<u64>,
    /// The number rounded to single precision, as that number's bit pattern.
    pub single: Option<u32>,
}

/// One member of an object: a name and the value under it.
#[derive(Debug, PartialEq, Eq)]
pub struct Member {
    pub name: String,
    pub value: Doc,
}

/// A document: a tree of objects and arrays over scalar leaves.
#[derive(Debug, PartialEq, Eq)]
pub enum Doc {
    Null,
    Bool(bool),
    Number(Number),
    Text(String),
    Array(Vec<Doc>),
    Object(Vec<Member>),
}

/// The mathematical model of a `Doc`.
pub enum DocView {
    Null,
    Bool(bool),
    Number(Number),
    Text(Seq<char>),
    Array(Seq<DocView>),
    Object(Seq<(Seq<char>, DocView)>),
}

/// The model of a document: the same tree, with mathematical sequences and
/// texts.
pub open spec fn model(doc: Doc) -> DocView
    decreases doc,
{
    match doc {
        Doc::Null => DocView::Null,
        Doc::Bool(b) => DocView::Bool(b),
        Doc::Number(n) => DocView::Number(n),
        Doc::Text(s) => DocView::Text(s@),
        Doc::Array(items) => DocView::Array(
            Seq::new(
                items@.len(),
                |i: int|
                    if 0 <= i < items@.len() {
                        model(items@[i])
                    } else {
                        DocView::Null
                    },
            ),
        ),
        Doc::Object(members) => DocView::Object(
            Seq::new(
                members@.len(),
                |i: int|
                    if 0 <= i < members@.len() {
                        (members@[i].name@, model(members@[i].value))
                    } else {
                        (Seq::empty(), DocView::Null)
                    },
            ),
        ),
    }
}

impl View for Doc {
    type V = DocView;

    open spec fn view(&self) -> DocView {
        model(*self)
    }
}

impl DocView {
    /// `i` is the position of the first member called `name`.
    pub open spec fn first_named(
        members: Seq<(Seq<char>, DocView)>,
        name: Seq<char>,
        i: int,
    ) -> bool {
        &&& 0 <= i < members.len()
        &&& members[i].0 == name
        &&& forall|j: int| 0 <= j < i ==> (#[trigger] members[j]).0 != name
    }

    /// The value under `name`: that of the first member so called, and `Null`
    /// where there is none or where this is no object.
    pub open spec fn field(self, name: Seq<char>) -> DocView {
        match self {
            DocView::Object(members) => {
                if exists|i: int| Self::first_named(members, name, i) {
                    members[choose|i: int| Self::first_named(members, name, i)].1
                } else {
                    DocView::Null
                }
            },
            _ => DocView::Null,
        }
    }

    /// The element at `index`, and `Null` where the array is shorter or where
    /// this is no array.
    pub open spec fn element(self, index: int) -> DocView {
        match self {
            DocView::Array(items) => {
                if 0 <= index < items.len() {
                    items[index]
                } else {
                    DocView::Null
                }
            },
            _ => DocView::Null,
        }
    }

    /// The elements, where this is an array.
    pub open spec fn items(self) -> Option<Seq<DocView>> {
        match self {
            DocView::Array(items) => Some(items),
            _ => None,
        }
    }

    /// The unsigned integer that this is, where it is one.
    pub open spec fn as_unsigned(self) -> Option<u64> {
        match self {
            DocView::Number(n) => n.unsigned,
            _ => None,
        }
    }

    /// The single-precision bit pattern of the number that this is, where it
    /// is one.
    pub open spec fn as_single(self) -> Option<u32> {
        match self {
            DocView::Number(n) => n.single,
            _ => None,
        }
    }
}

/// The models of a run of documents, one for one.
pub open spec fn views(docs: Seq<Doc>) -> Seq<DocView> {
    Seq::new(docs.len(), |i: int| docs[i]@)
}

/// What a step through a document arrived at: the document found, or `Null`
/// where the step led nowhere.
pub open spec fn or_null(found: Option<&Doc>) -> DocView {
    match found {
        Some(doc) => doc@,
        None => DocView::Null,
    }
}

impl Doc {
    /// The value under `name` (see `DocView::field`). `None` stands for
    /// `Null`.
    pub fn get(&self, name: &str) -> (found: Option<&Doc>)
        ensures
            or_null(found) == self@.field(name@),
    {
        match self {
            Doc::Object(members) => {
                let key = String::from_str(name);
                let ghost pairs = self@->Object_0;
                let mut i: usize = 0;
                while i < members.len()
                    invariant
                        i <= members.len(),
                        key@ == name@,
                        self@ == DocView::Object(pairs),
                        pairs.len() == members@.len(),
                        forall|j: int|
                            0 <= j < members@.len() ==> #[trigger] pairs[j] == (
                                members@[j].name@,
                                members@[j].value@,
                            ),
                        forall|j: int| 0 <= j < i ==> (#[trigger] pairs[j]).0 != name@,
                    decreases members.len() - i,
                {
                    if members[i].name == key {
                        proof {
                            assert(DocView::first_named(pairs, name@, i as int));
                            let k = choose|k: int| DocView::first_named(pairs, name@, k);
                            assert(k == i) by {
                                if k < i {
                                    assert(pairs[k].0 != name@);
                                }
                                if i < k {
                                    assert(pairs[i as int].0 != name@);
                                }
                            }
                        }
                        return Some(&members[i].value);
                    }
                    i += 1;
                }
                proof {
                    assert forall|k: int| !DocView::first_named(pairs, name@, k) by {
                        if 0 <= k < pairs.len() {
                            assert(pairs[k].0 != name@);
                        }
                    }
                }
                None
            },
            _ => None,
        }
    }

    /// The element at `index` (see `DocView::element`). `None` stands for
    /// `Null`.
    pub fn at(&self, index: usize) -> (found: Option<&Doc>)
        ensures
            or_null(found) == self@.element(index as int),
    {
        match self {
            Doc::Array(items) => {
                if index < items.len() {
                    Some(&items[index])
                } else {
                    None
                }
            },
            _ => None,
        }
    }

    /// The elements, where this is an array.
    pub fn as_array(&self) -> (items: Option<&Vec<Doc>>)
        ensures
            match items {
                Some(v) => self@.items() == Some(views(v@)),
                None => self@.items().is_none(),
            },
    {
        match self {
            Doc::Array(items) => {
                assert(self@->Array_0 =~= views(items@));
                Some(items)
            },
            _ => None,
        }
    }

    /// The unsigned integer that this is, where it is one.
    pub fn as_u64(&self) -> (n: Option<u64>)
        ensures
            n == self@.as_unsigned(),
    {
        match self {
            Doc::Number(n) => n.unsigned,
            _ => None,
        }
    }

    /// The single-precision bit pattern of the number that this is, where it
    /// is one.
    pub fn as_single(&self) -> (bits: Option<u32>)
        ensures
            bits == self@.as_single(),
    {
        match self {
            Doc::Number(n) => n.single,
            _ => None,
        }
    }
}

} // verus!
