//! JSON documents as plain values, and the few ways in which the library
//! reads them.

use vstd::prelude::*;

use crate::text::str_eq;
use crate::views::opt_text;

verus! {

/// A number of a JSON document.
#[derive(Debug, Clone, PartialEq, Eq)]
pub enum Number {
    /// A whole number that is not negative.
    Unsigned(u64),
    /// A negative whole number.
    Negative(i64),
    /// Any other number, in the decimal form in which it was written.
    Other(String),
}

/// A member of a JSON object.
#[derive(Debug, PartialEq, Eq)]
pub struct Member {
    pub name: String,
    pub value: Json,
}

/// A JSON document.
#[derive(Debug, PartialEq, Eq)]
pub enum Json {
    Null,
    Bool(bool),
    Number(Number),
    Text(String),
    Array(Vec<Json>),
    Object(Vec<Member>),
}

/// The place of the first member named `name` among the first `n` members,
/// or `n` where there is none.
pub open spec fn member_place(members: Seq<Member>, name: Seq<char>, n: int) -> int
    decreases n,
{
    if n <= 0 {
        0
    } else {
        let before = member_place(members, name, n - 1);
        if before < n - 1 {
            before
        } else if members[n - 1].name@ == name {
            n - 1
        } else {
            n
        }
    }
}

proof fn lemma_member_stops(members: Seq<Member>, name: Seq<char>, i: int, n: int)
    requires
        0 <= i <= n <= members.len(),
        member_place(members, name, i) == i,
        i < n ==> members[i].name@ == name,
    ensures
        member_place(members, name, n) == i,
    decreases n - i,
{
    if i < n {
        if i + 1 < n {
            lemma_member_stops(members, name, i, n - 1);
        }
    }
}

fn find_member(members: &Vec<Member>, name: &str) -> (at: usize)
    ensures
        at == member_place(members@, name@, members@.len() as int),
        at <= members@.len(),
{
    let n = members.len();
    let mut i: usize = 0;
    while i < n
        invariant
            i <= n,
            n == members@.len(),
            member_place(members@, name@, i as int) == i,
        decreases n - i,
    {
        if str_eq(members[i].name.as_str(), name) {
            proof {
                lemma_member_stops(members@, name@, i as int, n as int);
            }
            return i;
        }
        i += 1;
    }
    i
}

proof fn lemma_member_place_skips(members: Seq<Member>, name: Seq<char>, n: int)
    requires
        0 <= n <= members.len(),
        forall|j: int| 0 <= j < n ==> (#[trigger] members[j]).name@ != name,
    ensures
        member_place(members, name, n) == n,
    decreases n,
{
    if n > 0 {
        lemma_member_place_skips(members, name, n - 1);
    }
}

/// The member at place `k` of an object is the one found under its name,
/// where no member before it has the same name.
pub proof fn lemma_member_found(members: Vec<Member>, k: int)
    requires
        0 <= k < members@.len(),
        forall|j: int| 0 <= j < k ==> (#[trigger] members@[j]).name@ != members@[k].name@,
    ensures
        Json::Object(members).spec_member(members@[k].name@) == Some(members@[k].value),
{
    let name = members@[k].name@;
    lemma_member_place_skips(members@, name, k);
    lemma_member_stops(members@, name, k, members@.len() as int);
}

impl Json {
    /// The member named `name` of an object, if the document is an object
    /// and has one. Of several members of that name the first counts.
    pub open spec fn spec_member(&self, name: Seq<char>) -> Option<Json> {
        match self {
            Json::Object(members) => {
                let at = member_place(members@, name, members@.len() as int);
                if at < members@.len() {
                    Some(members@[at].value)
                } else {
                    None
                }
            },
            _ => None,
        }
    }

    /// The member named `name` of an object.
    pub fn member(&self, name: &str) -> (found: Option<&Json>)
        ensures
            found == match self.spec_member(name@) {
                Some(v) => Some(&v),
                None => None,
            },
    {
        match self {
            Json::Object(members) => {
                let at = find_member(members, name);
                if at < members.len() {
                    Some(&members[at].value)
                } else {
                    None
                }
            },
            _ => None,
        }
    }

    /// The element at `index` of an array, if the document is an array that
    /// is long enough.
    pub open spec fn spec_element(&self, index: int) -> Option<Json> {
        match self {
            Json::Array(elements) => if 0 <= index < elements@.len() {
                Some(elements@[index])
            } else {
                None
            },
            _ => None,
        }
    }

    /// The element at `index` of an array.
    pub fn element(&self, index: usize) -> (found: Option<&Json>)
        ensures
            found == match self.spec_element(index as int) {
                Some(v) => Some(&v),
                None => None,
            },
    {
        match self {
            Json::Array(elements) => if index < elements.len() {
                Some(&elements[index])
            } else {
                None
            },
            _ => None,
        }
    }

    /// The text of a document that is a string.
    pub open spec fn spec_text(&self) -> Option<Seq<char>> {
        match self {
            Json::Text(text) => Some(text@),
            _ => None,
        }
    }

    /// The text of a document that is a string.
    pub fn as_str(&self) -> (text: Option<&str>)
        ensures
            match text {
                Some(t) => self.spec_text() == Some(t@),
                None => self.spec_text() is None,
            },
    {
        match self {
            Json::Text(text) => Some(text.as_str()),
            _ => None,
        }
    }

    /// The value of a document that is a whole number that fits in 64 bits
    /// with a sign.
    pub open spec fn spec_i64(&self) -> Option<i64> {
        match self {
            Json::Number(Number::Unsigned(n)) => if *n <= i64::MAX as u64 {
                Some(*n as i64)
            } else {
                None
            },
            Json::Number(Number::Negative(n)) => Some(*n),
            _ => None,
        }
    }

    /// The value of a document that is a whole number that fits in 64 bits
    /// with a sign.
    pub fn as_i64(&self) -> (value: Option<i64>)
        ensures
            value == self.spec_i64(),
    {
        match self {
            Json::Number(Number::Unsigned(n)) => if *n <= i64::MAX as u64 {
                Some(*n as i64)
            } else {
                None
            },
            Json::Number(Number::Negative(n)) => Some(*n),
            _ => None,
        }
    }
}

/// The document reached from `document` by going from object to member
/// along the first `n` of `names`.
pub open spec fn spec_path(document: Json, names: Seq<&str>, n: int) -> Option<Json>
    decreases n,
{
    if n <= 0 {
        Some(document)
    } else {
        match spec_path(document, names, n - 1) {
            Some(inner) => inner.spec_member(names[n - 1]@),
            None => None,
        }
    }
}

/// In a failed search nothing is found further on.
proof fn lemma_path_fails(document: Json, names: Seq<&str>, i: int, n: int)
    requires
        0 <= i <= n,
        spec_path(document, names, i) is None,
    ensures
        spec_path(document, names, n) is None,
    decreases n - i,
{
    if i < n {
        lemma_path_fails(document, names, i, n - 1);
    }
}

/// Goes from object to member along `names`.
pub fn path<'a>(document: &'a Json, names: &[&str]) -> (found: Option<&'a Json>)
    ensures
        found == match spec_path(*document, names@, names@.len() as int) {
            Some(v) => Some(&v),
            None => None,
        },
{
    let n = names.len();
    let mut current = document;
    let mut i: usize = 0;
    while i < n
        invariant
            i <= n,
            n == names@.len(),
            spec_path(*document, names@, i as int) == Some(*current),
        decreases n - i,
    {
        match current.member(names[i]) {
            Some(inner) => {
                current = inner;
            },
            None => {
                proof {
                    lemma_path_fails(*document, names@, i + 1, n as int);
                }
                return None;
            },
        }
        i += 1;
    }
    Some(current)
}

/// A path that begins with a member of `outer` goes on inside that member.
pub proof fn lemma_path_inside(outer: Json, name: &str, inner: Json, names: Seq<&str>, n: int)
    requires
        outer.spec_member(name@) == Some(inner),
        0 <= n <= names.len(),
    ensures
        spec_path(outer, seq![name] + names, n + 1) == spec_path(inner, names, n),
    decreases n,
{
    let longer = seq![name] + names;
    if n > 0 {
        lemma_path_inside(outer, name, inner, names, n - 1);
        assert(longer[n] == names[n - 1]);
    } else {
        assert(longer[0] == name);
        assert(spec_path(outer, longer, 0) == Some(outer));
    }
}

/// The text at the end of a path that begins with a member of `outer` is
/// the text at the end of the rest of the path inside that member.
pub proof fn lemma_text_inside(outer: Json, name: &str, inner: Json, names: Seq<&str>)
    requires
        outer.spec_member(name@) == Some(inner),
    ensures
        spec_text_at(outer, seq![name] + names) == spec_text_at(inner, names),
{
    lemma_path_inside(outer, name, inner, names, names.len() as int);
}

/// The text under a name of `outer` is the text of the member of that name.
pub proof fn lemma_text_of_member(outer: Json, name: &str, inner: Json)
    requires
        outer.spec_member(name@) == Some(inner),
    ensures
        spec_text_at(outer, seq![name]) == inner.spec_text(),
{
    lemma_text_inside(outer, name, inner, Seq::empty());
    assert(seq![name] + Seq::<&str>::empty() =~= seq![name]);
}

/// The text at the end of a path, if the document there is a string.
pub open spec fn spec_text_at(document: Json, names: Seq<&str>) -> Option<Seq<char>> {
    match spec_path(document, names, names.len() as int) {
        Some(found) => found.spec_text(),
        None => None,
    }
}

/// The text at the end of a path.
pub fn text_at(document: &Json, names: &[&str]) -> (text: Option<String>)
    ensures
        opt_text(text) == spec_text_at(*document, names@),
{
    match path(document, names) {
        Some(found) => match found.as_str() {
            Some(text) => Some(text.to_owned()),
            None => None,
        },
        None => None,
    }
}

/// A member of an object.
pub fn member(name: &str, value: Json) -> (m: Member)
    ensures
        m.name@ == name@,
        m.value == value,
{
    Member { name: name.to_owned(), value }
}

/// A string.
pub fn text(value: &str) -> (document: Json)
    ensures
        document.spec_text() == Some(value@),
{
    Json::Text(value.to_owned())
}

} // verus!
