//! What a report says, read off its document.

use crate::json;
use crate::json::Json;
use crate::report;
use crate::text_laws;
use vstd::prelude::*;

verus! {

/// Whether the document is an object with no field but the two.
pub open spec fn only_two_fields(document: Json, a: Seq<char>, b: Seq<char>) -> bool {
    document matches Json::Object(fields) && forall|k: Seq<char>| #[trigger]
        fields.dom().contains(k) ==> k == a || k == b
}

/// Whether the document is an object with these fields and no others.
pub open spec fn has_just(document: Json, names: Set<Seq<char>>) -> bool {
    document matches Json::Object(fields) && fields.dom() =~= names
}

/// Whether the document says that this succeeded, with these data.
pub open spec fn tells_success(document: Json, data: Json) -> bool {
    &&& json::field(document, "success"@) == Some(Json::Bool(true))
    &&& json::field(document, "data"@) == Some(data)
    &&& only_two_fields(document, "data"@, "success"@)
}

/// Whether the document says that this failed, with this error.
pub open spec fn tells_failure(document: Json, error: Seq<char>) -> bool {
    &&& json::field(document, "success"@) == Some(Json::Bool(false))
    &&& json::field(document, "error"@) == Some(Json::Str(error))
    &&& only_two_fields(document, "error"@, "success"@)
}

/// Whether the field holds the number.
pub open spec fn holds_number(document: Json, key: Seq<char>, n: nat) -> bool {
    json::field(document, key) matches Some(Json::Number(digits)) && text_laws::is_number(digits)
        && text_laws::reading(digits) == n
}

/// A report of success tells it, with the data and nothing else.
pub proof fn law_a_success_is_told(data: Json)
    ensures
        tells_success(report::success_document(data), data),
{
    reveal_strlit("data");
    reveal_strlit("success");
    assert("data"@.len() != "success"@.len());
}

/// A report of failure tells it, with the error and nothing else.
pub proof fn law_a_failure_is_told(error: Seq<char>)
    ensures
        tells_failure(report::failure_document(error), error),
{
    reveal_strlit("error");
    reveal_strlit("success");
    assert("error"@.len() != "success"@.len());
}

} // verus!
