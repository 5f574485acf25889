//! The validation model shared by every entity kind.
//!
//! An entity's text fields are viewed as a sequence in declaration order. Its
//! schema gives, for each field, the error reported when that field is required
//! and missing (`Some(error)`), or `None` for an optional field.

use vstd::prelude::*;
use crate::text::{clean, opt_text, trimmed, sanitize};

verus! {

/// Index of the first required field, from `i` on, that sanitises to `None`.
pub open spec fn first_missing_from<E>(
    fields: Seq<Option<Seq<char>>>,
    schema: Seq<Option<E>>,
    i: int,
) -> Option<int>
    decreases fields.len() - i,
{
    if i < 0 || i >= fields.len() {
        None
    } else if schema[i] is Some && clean(fields[i]) is None {
        Some(i)
    } else {
        first_missing_from(fields, schema, i + 1)
    }
}

/// Every field sanitised, in order.
pub open spec fn cleaned(fields: Seq<Option<Seq<char>>>) -> Seq<Option<Seq<char>>> {
    fields.map_values(|f: Option<Seq<char>>| clean(f))
}

/// Outcome of validating `fields` against `schema`: the error of the first
/// missing required field, or all fields sanitised.
pub open spec fn validated<E>(fields: Seq<Option<Seq<char>>>, schema: Seq<Option<E>>) -> Result<
    Seq<Option<Seq<char>>>,
    E,
> {
    match first_missing_from(fields, schema, 0) {
        Some(i) => Err(schema[i]->Some_0),
        None => Ok(cleaned(fields)),
    }
}

/// Sanitises a required field, or reports `missing` when it is absent or blank.
pub fn require_field<E>(value: &Option<String>, missing: E) -> (r: Result<String, E>)
    ensures
        match clean(opt_text(*value)) {
            Some(t) => r matches Ok(s) && s@ == t,
            None => r == Err::<String, E>(missing),
        },
{
    match sanitize(value) {
        Some(s) => Ok(s),
        None => Err(missing),
    }
}

proof fn lemma_first_missing_skips<E>(
    fields: Seq<Option<Seq<char>>>,
    schema: Seq<Option<E>>,
    i: int,
    k: int,
)
    requires
        0 <= i <= k <= fields.len() == schema.len(),
        forall|j: int| i <= j < k && schema[j] is Some ==> clean(fields[j]) is Some,
    ensures
        first_missing_from(fields, schema, i) == first_missing_from(fields, schema, k),
    decreases k - i,
{
    if i < k {
        lemma_first_missing_skips(fields, schema, i + 1, k);
    }
}

/// When the required field at `k` is missing or blank and every required field
/// before it is present, validation reports exactly the error of field `k`.
pub proof fn lemma_first_missing_field_reported<E>(
    fields: Seq<Option<Seq<char>>>,
    schema: Seq<Option<E>>,
    k: int,
)
    requires
        fields.len() == schema.len(),
        0 <= k < fields.len(),
        schema[k] is Some,
        fields[k] is None || trimmed(fields[k]->0).len() == 0,
        forall|j: int| 0 <= j < k && schema[j] is Some ==> clean(fields[j]) is Some,
    ensures
        validated(fields, schema) == Err::<Seq<Option<Seq<char>>>, E>(schema[k]->Some_0),
{
    lemma_first_missing_skips(fields, schema, 0, k);
}

/// When every required field is present and every optional field is absent,
/// validation succeeds, keeps each required field trimmed and leaves every
/// optional field `None`.
pub proof fn lemma_required_only_valid<E>(fields: Seq<Option<Seq<char>>>, schema: Seq<Option<E>>)
    requires
        fields.len() == schema.len(),
        forall|j: int|
            0 <= j < fields.len() ==> (schema[j] is Some <==> clean(fields[j]) is Some),
        forall|j: int| 0 <= j < fields.len() && schema[j] is None ==> fields[j] is None,
    ensures
        validated(fields, schema) matches Ok(out) && out.len() == fields.len() && forall|j: int|
            0 <= j < fields.len() ==> (out[j] is None <==> schema[j] is None) && (
            schema[j] is Some ==> out[j] == clean(fields[j])),
{
    lemma_first_missing_skips(fields, schema, 0, fields.len() as int);
}

} // verus!
