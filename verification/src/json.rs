//! Structured values for responses.

use vstd::prelude::*;

use crate::text;

verus! {

/// A structured value.
#[derive(Debug)]
pub enum Json {
    /// No value.
    Null,
    /// A truth value.
    Bool(bool),
    /// A whole number.
    Integer(i64),
    /// A finite number, as the 64 bits of its IEEE 754 form.
    Float(u64),
    /// A text.
    Text(String),
    /// Values in order.
    List(Vec<Json>),
    /// Values by name, in order.
    Object(Vec<(String, Json)>),
}

impl Json {
    /// Whether this is the text `s`.
    pub open spec fn is_text(self, s: Seq<char>) -> bool {
        self matches Json::Text(t) && t@ == s
    }

    /// The fields of an object.
    pub open spec fn fields(self) -> Seq<(String, Json)> {
        match self {
            Json::Object(fields) => fields@,
            _ => Seq::empty(),
        }
    }

    /// The names of the fields of an object.
    pub open spec fn names(self) -> Seq<Seq<char>> {
        self.fields().map_values(|f: (String, Json)| f.0@)
    }

    /// The value of the first field named `name`.
    pub fn get(&self, name: &str) -> (r: Option<&Json>)
        ensures
            match r {
                Some(v) => exists|i: int|
                    0 <= i < self.fields().len() && #[trigger] self.fields()[i].0@ == name@
                        && *v == self.fields()[i].1 && forall|j: int|
                        0 <= j < i ==> #[trigger] self.fields()[j].0@ != name@,
                None => forall|j: int|
                    0 <= j < self.fields().len() ==> #[trigger] self.fields()[j].0@ != name@,
            },
    {
        match self {
            Json::Object(fields) => {
                let mut i: usize = 0;
                while i < fields.len()
                    invariant
                        self.fields() == fields@,
                        i <= fields@.len(),
                        forall|j: int| 0 <= j < i ==> #[trigger] fields@[j].0@ != name@,
                    decreases fields@.len() - i,
                {
                    if text::same_text(fields[i].0.as_str(), name) {
                        assert(self.fields()[i as int].0@ == name@);
                        return Some(&fields[i].1);
                    }
                    i = i + 1;
                }
                None
            },
            _ => None,
        }
    }
}

/// A value is a text if and only if it is one with those characters; the fields of a value are
/// those of an object, and their names are told in order.
pub proof fn law_parts_of_values(v: Json, s: Seq<char>, t: String, fields: Vec<(String, Json)>, i: int)
    ensures
        Json::Text(t).is_text(s) <==> t@ == s,
        v.is_text(s) ==> v is Text,
        Json::Object(fields).fields() == fields@,
        !(v is Object) ==> v.fields().len() == 0,
        v.names().len() == v.fields().len(),
        0 <= i < v.fields().len() ==> v.names()[i] == v.fields()[i].0@,
{
}

} // verus!
