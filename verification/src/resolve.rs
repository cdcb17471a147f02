//! Extraction of a rate quotation, or of the currency catalog, from an
//! upstream document.
//!
//! Every traversal step validates the document's shape: a malformed
//! document always yields a classified failure kind, never a partial
//! result. Lookups are case-insensitive — both currency codes are
//! lowercased before they touch the document.

use vstd::prelude::*;

use crate::codes::copy_bytes;
use crate::codes::lemma_lower_idempotent;
use crate::codes::lemma_upper_after_lower;
use crate::codes::lower_code;
use crate::codes::to_lower;
use crate::codes::upper_code;
use crate::doc::spec_find;
use crate::doc::JsonValue;
use crate::errors::ErrorKind;

verus! {

/// The key of the document's quotation-date member.
pub open spec fn date_key() -> Seq<u8> {
    seq![100u8, 97u8, 116u8, 101u8]
}

/// The sentinel quotation date, `<unknown>`, used when the document's
/// `date` member is absent or not text. A deliberate default, not a
/// failure.
pub open spec fn unknown_date() -> Seq<u8> {
    seq![60u8, 117u8, 110u8, 107u8, 110u8, 111u8, 119u8, 110u8, 62u8]
}

/// The key of the quotation-date member, as a byte string.
pub fn date_key_bytes() -> (r: Vec<u8>)
    ensures
        r@ == date_key(),
{
    let mut v: Vec<u8> = Vec::new();
    v.push(100);
    v.push(97);
    v.push(116);
    v.push(101);
    proof {
        assert(v@ =~= date_key());
    }
    v
}

/// The sentinel quotation date, as a byte string.
pub fn unknown_date_bytes() -> (r: Vec<u8>)
    ensures
        r@ == unknown_date(),
{
    let mut v: Vec<u8> = Vec::new();
    v.push(60);
    v.push(117);
    v.push(110);
    v.push(107);
    v.push(110);
    v.push(111);
    v.push(119);
    v.push(110);
    v.push(62);
    proof {
        assert(v@ =~= unknown_date());
    }
    v
}

/// The quotation date the document reports: its `date` member's text, or
/// the sentinel when that member is absent or not text.
pub open spec fn date_of(doc: JsonValue) -> Seq<u8> {
    match doc.spec_get(date_key()) {
        Some(v) => match v.spec_text() {
            Some(t) => t,
            None => unknown_date(),
        },
        None => unknown_date(),
    }
}

/// The members of `doc`'s table for the (lowercase) base currency, if
/// `doc` is an object whose member at `base` is itself an object.
pub open spec fn base_table_of(doc: JsonValue, base: Seq<u8>) -> Option<
    Seq<(Vec<u8>, JsonValue)>,
> {
    match doc {
        JsonValue::Object(entries) => match spec_find(entries@, base) {
            Some(JsonValue::Object(table)) => Some(table@),
            _ => None,
        },
        _ => None,
    }
}

/// The value the document stores for `quote` under `base`, if any.
pub open spec fn rate_entry(doc: JsonValue, base: Seq<u8>, quote: Seq<u8>) -> Option<JsonValue> {
    match base_table_of(doc, base) {
        Some(table) => spec_find(table, quote),
        None => None,
    }
}

/// What resolving a rate yields, in full: the codes are lowercased, the
/// document must be an object, its member at the base code must be an
/// object, that table's member at the quote code must exist and be a
/// number; each check that fails names its own kind. On success the
/// result is the reported date and exactly the stored number.
pub open spec fn spec_resolve_rate(doc: JsonValue, base: Seq<u8>, quote: Seq<u8>) -> Result<
    (Seq<u8>, u64),
    ErrorKind,
> {
    let b = lower_code(base);
    let q = lower_code(quote);
    if !(doc is Object) {
        Err(ErrorKind::BadUpstreamShape)
    } else {
        match base_table_of(doc, b) {
            None => Err(ErrorKind::BaseNotFound),
            Some(table) => match spec_find(table, q) {
                None => Err(ErrorKind::QuoteNotFound),
                Some(v) => match v.spec_number() {
                    None => Err(ErrorKind::BadNumber),
                    Some(bits) => Ok((date_of(doc), bits)),
                },
            },
        }
    }
}

/// What listing the currency catalog yields, in full: the keys of the
/// base currency's table, in document order.
pub open spec fn spec_list_currencies(doc: JsonValue, base: Seq<u8>) -> Result<
    Seq<Seq<u8>>,
    ErrorKind,
> {
    let b = lower_code(base);
    if !(doc is Object) {
        Err(ErrorKind::BadUpstreamShape)
    } else {
        match base_table_of(doc, b) {
            None => Err(ErrorKind::BaseNotFound),
            Some(table) => Ok(table.map_values(|p: (Vec<u8>, JsonValue)| p.0@)),
        }
    }
}

/// A well-formed document is passed through exactly: whenever the
/// document stores a number for the quote currency under the base
/// currency (both taken in lowercase), resolving yields precisely that
/// stored value, with the document's reported date — never a rounded,
/// made-up or partial result.
pub proof fn lemma_rate_passthrough(doc: JsonValue, base: Seq<u8>, quote: Seq<u8>, bits: u64)
    requires
        rate_entry(doc, lower_code(base), lower_code(quote)) == Some(JsonValue::Number(bits)),
    ensures
        spec_resolve_rate(doc, base, quote) == Ok::<_, ErrorKind>((date_of(doc), bits)),
{
}

/// An absent quote currency is distinct from an absent base currency:
/// when the base currency's table exists but has no member for the quote
/// currency, resolving yields exactly `QuoteNotFound`; when the table
/// itself is missing from an otherwise well-shaped document, it yields
/// exactly `BaseNotFound`.
pub proof fn lemma_absence_is_classified(doc: JsonValue, base: Seq<u8>, quote: Seq<u8>)
    ensures
        (base_table_of(doc, lower_code(base)) matches Some(table) && spec_find(
            table,
            lower_code(quote),
        ) is None) ==> spec_resolve_rate(doc, base, quote) == Err::<(Seq<u8>, u64), _>(
            ErrorKind::QuoteNotFound,
        ),
        doc is Object && base_table_of(doc, lower_code(base)) is None ==> spec_resolve_rate(
            doc,
            base,
            quote,
        ) == Err::<(Seq<u8>, u64), _>(ErrorKind::BaseNotFound),
{
}

/// Normalization round-trip: a mixed-case request and its lowercased
/// twin resolve identically — lowercasing the codes first changes
/// nothing, for a single rate as for the catalog — and the two echo the
/// same uppercase codes.
pub proof fn lemma_case_insensitive(doc: JsonValue, base: Seq<u8>, quote: Seq<u8>)
    ensures
        spec_resolve_rate(doc, lower_code(base), lower_code(quote)) == spec_resolve_rate(
            doc,
            base,
            quote,
        ),
        spec_list_currencies(doc, lower_code(base)) == spec_list_currencies(doc, base),
        upper_code(lower_code(base)) == upper_code(base),
        upper_code(lower_code(quote)) == upper_code(quote),
{
    lemma_lower_idempotent(base);
    lemma_lower_idempotent(quote);
    lemma_upper_after_lower(base);
    lemma_upper_after_lower(quote);
}

/// Extract the quotation date and the rate stored at
/// `doc[base][quote]`, both codes taken case-insensitively.
pub fn resolve_rate(doc: &JsonValue, base: &Vec<u8>, quote: &Vec<u8>) -> (r: Result<
    (Vec<u8>, u64),
    ErrorKind,
>)
    ensures
        match r {
            Ok(p) => spec_resolve_rate(*doc, base@, quote@) == Ok::<_, ErrorKind>((p.0@, p.1)),
            Err(k) => spec_resolve_rate(*doc, base@, quote@) == Err::<(Seq<u8>, u64), _>(k),
        },
{
    let b = to_lower(base);
    let q = to_lower(quote);
    if !doc.is_object() {
        return Err(ErrorKind::BadUpstreamShape);
    }
    let dk = date_key_bytes();
    let date: Vec<u8> = match doc.get(&dk) {
        Some(v) => match v.as_text() {
            Some(t) => copy_bytes(t),
            None => unknown_date_bytes(),
        },
        None => unknown_date_bytes(),
    };
    let base_v = match doc.get(&b) {
        Some(v) => v,
        None => {
            return Err(ErrorKind::BaseNotFound);
        },
    };
    if !base_v.is_object() {
        return Err(ErrorKind::BaseNotFound);
    }
    let rate_v = match base_v.get(&q) {
        Some(v) => v,
        None => {
            return Err(ErrorKind::QuoteNotFound);
        },
    };
    match rate_v.as_number() {
        Some(bits) => Ok((date, bits)),
        None => Err(ErrorKind::BadNumber),
    }
}

/// List the currency catalog the document carries for `base`: the keys
/// of the base currency's table, in document order.
pub fn list_currencies(doc: &JsonValue, base: &Vec<u8>) -> (r: Result<Vec<Vec<u8>>, ErrorKind>)
    ensures
        match r {
            Ok(keys) => spec_list_currencies(*doc, base@) == Ok::<_, ErrorKind>(
                keys@.map_values(|k: Vec<u8>| k@),
            ),
            Err(k) => spec_list_currencies(*doc, base@) == Err::<Seq<Seq<u8>>, _>(k),
        },
{
    let b = to_lower(base);
    if !doc.is_object() {
        return Err(ErrorKind::BadUpstreamShape);
    }
    let base_v = match doc.get(&b) {
        Some(v) => v,
        None => {
            return Err(ErrorKind::BaseNotFound);
        },
    };
    let table = match base_v.members() {
        Some(t) => t,
        None => {
            return Err(ErrorKind::BaseNotFound);
        },
    };
    let mut keys: Vec<Vec<u8>> = Vec::new();
    let mut i: usize = 0;
    while i < table.len()
        invariant
            i <= table.len(),
            keys@.len() == i,
            forall|j: int| 0 <= j < i ==> keys@[j]@ == table@[j].0@,
        decreases table.len() - i,
    {
        let entry = &table[i];
        keys.push(copy_bytes(&entry.0));
        i = i + 1;
    }
    proof {
        assert(keys@.map_values(|k: Vec<u8>| k@) =~= table@.map_values(
            |p: (Vec<u8>, JsonValue)| p.0@,
        ));
    }
    Ok(keys)
}

} // verus!
