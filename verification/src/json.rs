//! A JSON document as a value of the library.
//!
//! The model of a document is `JsonView`: text is a `Seq<char>`, an array a
//! `Seq` of documents, an object the `Seq` of its members in the order in
//! which they were written.

use vstd::prelude::*;
use vstd::string::*;

verus! {

/// A JSON number. A whole number is `PosInt` where it is zero or more and
/// `NegInt` where it is less than zero; any other number is `Float`, which
/// holds the bits of an IEEE 754 double that is finite.
#[derive(Debug, Clone, Copy, PartialEq, Eq, Structural)]
pub enum JsonNumber {
    /// A whole number that is not negative
    PosInt(u64),
    /// A whole number below zero
    NegInt(i64),
    /// The bits of a finite double
    Float(u64),
}

/// Whether `bits` are the bits of a double that is neither infinite nor NaN:
/// the eleven bits of its exponent are not all set.
pub open spec fn is_finite_bits(bits: u64) -> bool {
    (bits >> 52) & 0x7ff != 0x7ff
}

/// Whether `bits` are the bits of a double that is neither infinite nor NaN.
pub fn finite_bits(bits: u64) -> (finite: bool)
    ensures
        finite == is_finite_bits(bits),
{
    (bits >> 52) & 0x7ff != 0x7ff
}

impl JsonNumber {
    /// Whether the number is written in the form its kind asks for.
    pub open spec fn wf(&self) -> bool {
        match self {
            JsonNumber::PosInt(_) => true,
            JsonNumber::NegInt(n) => *n < 0,
            JsonNumber::Float(bits) => is_finite_bits(*bits),
        }
    }

    /// The number of a whole number.
    pub open spec fn of_int(n: i64) -> JsonNumber {
        if n >= 0 {
            JsonNumber::PosInt(n as u64)
        } else {
            JsonNumber::NegInt(n)
        }
    }

    /// The number `n`.
    pub fn from_i64(n: i64) -> (number: JsonNumber)
        ensures
            number == Self::of_int(n),
            number.wf(),
    {
        if n >= 0 {
            JsonNumber::PosInt(n as u64)
        } else {
            JsonNumber::NegInt(n)
        }
    }

    /// The number whose double has the bits `bits`, where that double is
    /// finite; JSON has no number for an infinity or a NaN.
    pub fn from_float_bits(bits: u64) -> (number: Option<JsonNumber>)
        ensures
            number == (if is_finite_bits(bits) {
                Some(JsonNumber::Float(bits))
            } else {
                None
            }),
            number matches Some(n) ==> n.wf(),
    {
        if finite_bits(bits) {
            Some(JsonNumber::Float(bits))
        } else {
            None
        }
    }
}

/// A JSON document.
#[derive(Debug, PartialEq, Eq)]
pub enum JsonValue {
    /// `null`
    Null,
    /// `true` or `false`
    Bool(bool),
    /// A number
    Number(JsonNumber),
    /// A string
    String(String),
    /// An array
    Array(Vec<JsonValue>),
    /// An object: its members in the order in which they were written. Where
    /// a name occurs twice, the later member is the one that counts.
    Object(Vec<(String, JsonValue)>),
}

/// The model of a JSON document.
pub enum JsonView {
    /// `null`
    Null,
    /// `true` or `false`
    Bool(bool),
    /// A number
    Number(JsonNumber),
    /// A string
    String(Seq<char>),
    /// An array
    Array(Seq<JsonView>),
    /// An object: its members in the order in which they were written
    Object(Seq<(Seq<char>, JsonView)>),
}

impl View for JsonValue {
    type V = JsonView;

    open spec fn view(&self) -> JsonView {
        self.model()
    }
}

/// The member of `members` that counts for `name`: the last one of that name.
pub open spec fn member(members: Seq<(Seq<char>, JsonView)>, name: Seq<char>) -> Option<JsonView>
    decreases members.len(),
{
    if members.len() == 0 {
        None
    } else if members.last().0 == name {
        Some(members.last().1)
    } else {
        member(members.drop_last(), name)
    }
}

impl JsonValue {
    /// The model of the document.
    pub open spec fn model(&self) -> JsonView
        decreases self,
    {
        match self {
            JsonValue::Null => JsonView::Null,
            JsonValue::Bool(b) => JsonView::Bool(*b),
            JsonValue::Number(n) => JsonView::Number(*n),
            JsonValue::String(s) => JsonView::String(s@),
            JsonValue::Array(items) => JsonView::Array(
                Seq::new(
                    items@.len(),
                    |i: int|
                        if 0 <= i < items@.len() {
                            items@[i].model()
                        } else {
                            JsonView::Null
                        },
                ),
            ),
            JsonValue::Object(members) => JsonView::Object(
                Seq::new(
                    members@.len(),
                    |i: int|
                        if 0 <= i < members@.len() {
                            (members@[i].0@, members@[i].1.model())
                        } else {
                            (Seq::empty(), JsonView::Null)
                        },
                ),
            ),
        }
    }

    /// The models of the documents of `items`, in order.
    pub open spec fn views(items: Seq<JsonValue>) -> Seq<JsonView> {
        Seq::new(items.len(), |i: int| items[i]@)
    }

    /// The models of the members of `members`, in order.
    pub open spec fn member_views(members: Seq<(String, JsonValue)>) -> Seq<(Seq<char>, JsonView)> {
        Seq::new(members.len(), |i: int| (members[i].0@, members[i].1@))
    }

    /// The model of an array is the sequence of the models of its items, and
    /// the model of an object that of its members.
    pub proof fn lemma_view(&self)
        ensures
            self matches JsonValue::Array(items) ==> self@ == JsonView::Array(Self::views(items@)),
            self matches JsonValue::Object(members) ==> self@ == JsonView::Object(
                Self::member_views(members@),
            ),
    {
        match self {
            JsonValue::Array(items) => {
                assert(self@->Array_0 =~= Self::views(items@));
            },
            JsonValue::Object(members) => {
                assert(self@->Object_0 =~= Self::member_views(members@));
            },
            _ => {},
        }
    }

    /// A copy of the document.
    #[verifier::loop_isolation(false)]
    pub fn duplicate(&self) -> (copy: JsonValue)
        ensures
            copy@ == self@,
        decreases self,
    {
        match self {
            JsonValue::Null => JsonValue::Null,
            JsonValue::Bool(b) => JsonValue::Bool(*b),
            JsonValue::Number(n) => JsonValue::Number(*n),
            JsonValue::String(s) => JsonValue::String(s.clone()),
            JsonValue::Array(items) => {
                let mut copies: Vec<JsonValue> = Vec::new();
                let mut i: usize = 0;
                while i < items.len()
                    invariant
                        i <= items@.len(),
                        copies@.len() == i,
                        forall|j: int| 0 <= j < i ==> (#[trigger] copies@[j])@ == items@[j]@,
                    decreases items@.len() - i,
                {
                    copies.push(items[i].duplicate());
                    i += 1;
                }
                let copy = JsonValue::Array(copies);
                proof {
                    self.lemma_view();
                    copy.lemma_view();
                    assert(Self::views(copies@) =~= Self::views(items@));
                }
                copy
            },
            JsonValue::Object(members) => {
                let mut copies: Vec<(String, JsonValue)> = Vec::new();
                let mut i: usize = 0;
                while i < members.len()
                    invariant
                        i <= members@.len(),
                        copies@.len() == i,
                        forall|j: int|
                            0 <= j < i ==> (#[trigger] copies@[j]).0@ == members@[j].0@
                                && copies@[j].1@ == members@[j].1@,
                    decreases members@.len() - i,
                {
                    copies.push((members[i].0.clone(), members[i].1.duplicate()));
                    i += 1;
                }
                let copy = JsonValue::Object(copies);
                proof {
                    self.lemma_view();
                    copy.lemma_view();
                    assert(Self::member_views(copies@) =~= Self::member_views(members@));
                }
                copy
            },
        }
    }

    /// The member that counts for `name`, where the document is an object
    /// that has one.
    pub fn get(&self, name: &str) -> (found: Option<&JsonValue>)
        ensures
            match self@ {
                JsonView::Object(members) => match member(members, name@) {
                    Some(v) => found matches Some(f) && f@ == v,
                    None => found is None,
                },
                _ => found is None,
            },
    {
        match self {
            JsonValue::Object(members) => {
                proof {
                    self.lemma_view();
                }
                let ghost all = Self::member_views(members@);
                let mut i: usize = members.len();
                assert(all.take(i as int) == all);
                while i > 0
                    invariant
                        i <= members@.len(),
                        all == Self::member_views(members@),
                        self@ == JsonView::Object(all),
                        member(all, name@) == member(all.take(i as int), name@),
                    decreases i,
                {
                    i -= 1;
                    assert(all.take(i + 1).last() == all[i as int]);
                    assert(all.take(i + 1).drop_last() == all.take(i as int));
                    assert(all[i as int] == (members@[i as int].0@, members@[i as int].1@));
                    if crate::text::str_eq(members[i].0.as_str(), name) {
                        return Some(&members[i].1);
                    }
                }
                assert(all.take(0).len() == 0);
                None
            },
            _ => None,
        }
    }
}

impl Clone for JsonValue {
    fn clone(&self) -> (copy: JsonValue)
        ensures
            copy@ == self@,
    {
        self.duplicate()
    }
}

} // verus!
