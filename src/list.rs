//! The paginated list envelope, generic over its element type.

use vstd::prelude::*;
use crate::decode::{DecodeError, FromJson, has, has_opt, required, optional};
use crate::json::{Json, field, str_member};

verus! {

/// One page of a paginated collection, in the order the server sent it.
#[derive(Debug)]
pub struct List<T> {
    pub data: Vec<T>,
    pub has_more: bool,
    pub total_count: Option<u64>,
    pub url: String,
}

/// The envelope `{"object": "list", "data": [...], "has_more", "total_count"?, "url"}`
/// reads as a page whose elements are the readings of `data`, in order.
impl<T: FromJson> FromJson for List<T> {
    open spec fn decodes_as(j: Json, v: List<T>) -> bool {
        str_member(j, "object"@, "list"@)
        && has(j, "data"@, v.data)
        && has(j, "has_more"@, v.has_more)
        && has_opt(j, "total_count"@, v.total_count)
        && has(j, "url"@, v.url)
    }

    fn from_json(j: &Json) -> (r: Result<List<T>, DecodeError>) {
        if !j.str_member_is("object", "list") {
            return Err(DecodeError::Malformed);
        }
        let data = required::<Vec<T>>(j, "data")?;
        let has_more = required::<bool>(j, "has_more")?;
        let total_count = optional::<u64>(j, "total_count")?;
        let url = required::<String>(j, "url")?;
        Ok(List { data, has_more, total_count, url })
    }
}

impl<T> List<T> {
    /// The elements of the page, in server order.
    pub open spec fn items(&self) -> Seq<T> {
        self.data@
    }
}

/// A page keeps the server's order: element `i` of the page is the reading of
/// element `i` of the wire `data`, there are as many, and `has_more` is the
/// wire flag.
pub proof fn lemma_list_keeps_order<T: FromJson>(j: Json, xs: Vec<Json>, more: bool, l: List<T>)
    requires
        field(j, "data"@) == Some(Json::Arr(xs)),
        field(j, "has_more"@) == Some(Json::Bool(more)),
        List::<T>::decodes_as(j, l),
    ensures
        l.items().len() == xs@.len(),
        forall|i: int| 0 <= i < xs@.len() ==> #[trigger] T::decodes_as(xs@[i], l.items()[i]),
        l.has_more == more,
{
}

/// An envelope whose `object` is not `"list"` reads as no page at all.
pub proof fn lemma_list_needs_tag<T: FromJson>(j: Json)
    requires
        !str_member(j, "object"@, "list"@),
    ensures
        forall|l: List<T>| !#[trigger] List::<T>::decodes_as(j, l),
{
}

} // verus!
