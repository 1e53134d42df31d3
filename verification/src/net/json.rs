//! Requests to be sent.

use vstd::prelude::*;
use vstd::string::*;

verus! {

/// A JSON document made of texts.
pub enum Json {
    Text(String),
    List(Vec<Json>),
    Object(Vec<(String, Json)>),
}

/// Whether a document is the given text.
pub open spec fn is_text(j: Json, text: Seq<char>) -> bool {
    j matches Json::Text(s) && s@ == text
}

/// Whether a document is an object with the given member names, in this order.
pub open spec fn has_members(j: Json, names: Seq<Seq<char>>) -> bool {
    &&& j matches Json::Object(m)
    &&& m@.len() == names.len()
    &&& forall|i: int| 0 <= i < names.len() ==> (#[trigger] m@[i]).0@ == names[i]
}

/// The member of an object at an index.
pub open spec fn member(j: Json, i: int) -> Json {
    j->Object_0@[i].1
}

/// A JSON document to post.
pub struct JsonPost {
    pub url: String,
    pub body: Json,
}

/// A form to post.
pub struct FormPost {
    pub url: String,
    pub fields: Vec<(String, String)>,
}

/// A document to get, with the value of its `Authorization` header.
pub struct AuthorizedGet {
    pub url: String,
    pub authorization: String,
}

/// The member `name` with a text.
pub fn text_member(name: &str, text: String) -> (r: (String, Json))
    ensures
        r.0@ == name@,
        r.1 == Json::Text(text),
{
    (name.to_string(), Json::Text(text))
}

} // verus!
