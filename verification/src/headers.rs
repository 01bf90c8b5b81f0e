//! The header maps of the `http` crate, by what they hold.
use tungstenite::http::{HeaderMap, HeaderName, HeaderValue};
use vstd::prelude::*;
use vstd::utf8::{encode_scalar, encode_utf8};

use crate::places::lemma_longer_take;

verus! {

/// `http::HeaderMap`, the headers of a request: names with their values.
#[verifier::external_type_specification]
#[verifier::external_body]
#[verifier::reject_recursive_types(T)]
pub struct ExHeaderMap<T>(tungstenite::http::HeaderMap<T>);

/// `http::HeaderValue`, the value of one header.
#[verifier::external_type_specification]
#[verifier::external_body]
pub struct ExHeaderValue(tungstenite::http::HeaderValue);

/// Headers by name: the values of each name in their order, each as its bytes
/// with whether it is marked as sensitive.
pub type HeaderModel = Map<Seq<char>, Seq<(Seq<u8>, bool)>>;

/// What a header map holds: under each name, in lower case, the values in the
/// order in which they were added, each as its bytes with whether it is marked
/// as sensitive.
pub uninterp spec fn header_entries(headers: HeaderMap) -> Map<Seq<char>, Seq<(Seq<u8>, bool)>>;

/// What a header map holds that holds nothing.
pub open spec fn no_entries() -> HeaderModel {
    Map::empty()
}

/// Up to how many names a header map takes, however they hash.
pub const SURE_HEADER_NAMES: usize = 6553;

/// More names than this a header map never takes. Between the two it depends on
/// how the names hash.
pub const MAX_HEADER_NAMES: usize = 24576;

/// Whether a header map takes these entries, however their names hash.
pub open spec fn fits(entries: HeaderModel) -> bool {
    entries.dom().finite() && entries.dom().len() <= SURE_HEADER_NAMES
}

/// Whether a header map takes these entries if their names hash well.
pub open spec fn may_fit(entries: HeaderModel) -> bool {
    entries.dom().finite() && entries.dom().len() <= MAX_HEADER_NAMES
}

/// Whether a character may stand in the name of a header, in lower case.
pub open spec fn name_char(c: char) -> bool {
    ||| 'a' <= c <= 'z'
    ||| '0' <= c <= '9'
    ||| c == '-' || c == '_' || c == '.' || c == '!' || c == '"' || c == '#' || c == '$'
    ||| c == '%' || c == '&' || c == '\'' || c == '*' || c == '+' || c == '^' || c == '`'
    ||| c == '|' || c == '~'
}

/// Whether `name` is the name of a header, in lower case.
pub open spec fn is_header_name(name: Seq<char>) -> bool {
    &&& 0 < name.len() <= 65535
    &&& forall|i: int| 0 <= i < name.len() ==> name_char(#[trigger] name[i])
}

/// Whether bytes can be the value of a header: none is a control character but
/// for tabs.
pub open spec fn is_value_bytes(bytes: Seq<u8>) -> bool {
    forall|i: int|
        0 <= i < bytes.len() ==> #[trigger] bytes[i] == 9 || bytes[i] >= 32 && bytes[i] != 127
}

/// Whether a character may stand in a header value.
pub open spec fn header_char(c: char) -> bool {
    c == '\t' || ' ' <= c && c != '\u{7f}'
}

/// Whether `text` can be a header value: it holds no control character but
/// tabs.
pub open spec fn is_header_value(text: Seq<char>) -> bool {
    forall|i: int| 0 <= i < text.len() ==> header_char(#[trigger] text[i])
}

/// The value of a header that is a text.
pub open spec fn text_value(text: Seq<char>) -> (Seq<u8>, bool) {
    (encode_utf8(text), false)
}

/// One value of a header, with the header's name.
#[derive(Debug, Clone)]
pub struct HeaderField {
    pub name: String,
    pub value: Vec<u8>,
    pub sensitive: bool,
}

/// What a list of values with their names amounts to.
pub open spec fn collect_fields(fields: Seq<HeaderField>) -> HeaderModel
    decreases fields.len(),
{
    if fields.len() == 0 {
        Map::empty()
    } else {
        let front = collect_fields(fields.drop_last());
        let name = fields.last().name@;
        let value = (fields.last().value@, fields.last().sensitive);
        if front.contains_key(name) {
            front.insert(name, front[name].push(value))
        } else {
            front.insert(name, seq![value])
        }
    }
}

/// Whether a list holds exactly these entries, with the values of one name next
/// to each other.
pub open spec fn is_listing(fields: Seq<HeaderField>, entries: HeaderModel) -> bool {
    &&& collect_fields(fields) == entries
    &&& forall|i: int|
        0 <= i < fields.len() ==> is_header_name((#[trigger] fields[i]).name@) && is_value_bytes(
            fields[i].value@,
        )
    &&& forall|i: int, j: int, k: int|
        0 <= i < j < k < fields.len() && (#[trigger] fields[i]).name@ == (
        #[trigger] fields[k]).name@ ==> (#[trigger] fields[j]).name@ == fields[i].name@
}

/// `http::HeaderMap::new`: a map without headers.
#[verifier::external_body]
pub(crate) fn new_headers() -> (headers: HeaderMap)
    ensures
        header_entries(headers) == no_entries(),
{
    HeaderMap::new()
}

/// `http::HeaderMap::try_insert`: the name has the one value and no other,
/// unless the map refuses. Then it stays as it is. It does not refuse while the
/// names are few, and always does beyond its limit. Between the two the hashes of
/// the names decide, of which nothing is said here.
#[verifier::external_body]
fn try_insert_header(headers: &mut HeaderMap, name: &str, value: &[u8], sensitive: bool) -> (taken:
    bool)
    requires
        is_header_name(name@),
        is_value_bytes(value@),
    ensures
        taken ==> header_entries(*final(headers)) == header_entries(*old(headers)).insert(
            name@,
            seq![(value@, sensitive)],
        ),
        !taken ==> header_entries(*final(headers)) == header_entries(*old(headers)),
        fits(header_entries(*old(headers)).insert(name@, seq![(value@, sensitive)])) ==> taken,
        taken ==> may_fit(header_entries(*final(headers))),
{
    let mut value = HeaderValue::from_bytes(value).unwrap();
    value.set_sensitive(sensitive);
    headers.try_insert(HeaderName::from_bytes(name.as_bytes()).unwrap(), value).is_ok()
}

/// `http::HeaderMap::try_append` on a name that the map has: the value comes
/// behind the others of that name, unless the map refuses. Then it stays as it
/// is. It does not refuse while the names are few.
#[verifier::external_body]
fn try_append_header(headers: &mut HeaderMap, name: &str, value: &[u8], sensitive: bool) -> (taken:
    bool)
    requires
        is_header_name(name@),
        is_value_bytes(value@),
        header_entries(*old(headers)).contains_key(name@),
    ensures
        taken ==> header_entries(*final(headers)) == header_entries(*old(headers)).insert(
            name@,
            header_entries(*old(headers))[name@].push((value@, sensitive)),
        ),
        !taken ==> header_entries(*final(headers)) == header_entries(*old(headers)),
        fits(header_entries(*old(headers))) ==> taken,
{
    let mut value = HeaderValue::from_bytes(value).unwrap();
    value.set_sensitive(sensitive);
    headers.try_append(HeaderName::from_bytes(name.as_bytes()).unwrap(), value).is_ok()
}

/// `http::HeaderMap::iter`: every value with its name, the values of one name
/// next to each other and in their order.
#[verifier::external_body]
fn list_headers(headers: &HeaderMap) -> (fields: Vec<HeaderField>)
    ensures
        is_listing(fields@, header_entries(*headers)),
{
    headers
        .iter()
        .map(|(name, value)| HeaderField {
            name: name.as_str().to_owned(),
            value: value.as_bytes().to_vec(),
            sensitive: value.is_sensitive(),
        })
        .collect()
}

/// `<http::HeaderMap as Clone>::clone`: the copy holds the same.
#[verifier::external_body]
pub(crate) fn copy_headers(headers: &HeaderMap) -> (copy: HeaderMap)
    ensures
        header_entries(copy) == header_entries(*headers),
{
    headers.clone()
}

/// Whether every character of `text` may stand in a header value.
pub(crate) fn can_be_header_value(text: &str) -> (yes: bool)
    ensures
        yes == is_header_value(text@),
{
    let count: usize = text.unicode_len();
    for i in 0..count
        invariant
            count == text@.len(),
            forall|j: int| 0 <= j < i ==> header_char(#[trigger] text@[j]),
    {
        let c = text.get_char(i);
        if !(c == '\t' || ' ' <= c && c != '\u{7f}') {
            return false;
        }
    }
    true
}

proof fn lemma_char_bytes(c: char)
    requires
        header_char(c),
    ensures
        is_value_bytes(encode_scalar(c as u32)),
{
    let scalar = c as u32;
    assert(scalar <= 0x7f ==> (scalar & 0x7F) as u8 == scalar) by (bit_vector);
    assert((0xC0u8 | ((scalar >> 6) & 0x1F) as u8) >= 0x80) by (bit_vector);
    assert((0xE0u8 | ((scalar >> 12) & 0x0F) as u8) >= 0x80) by (bit_vector);
    assert((0xF0u8 | ((scalar >> 18) & 0x7) as u8) >= 0x80) by (bit_vector);
    assert((0x80u8 | (scalar & 0x3F) as u8) >= 0x80) by (bit_vector);
    assert((0x80u8 | ((scalar >> 6) & 0x3F) as u8) >= 0x80) by (bit_vector);
    assert((0x80u8 | ((scalar >> 12) & 0x3F) as u8) >= 0x80) by (bit_vector);
}

/// The bytes of a text without control characters but tabs can be a header
/// value.
proof fn lemma_text_bytes(text: Seq<char>)
    requires
        is_header_value(text),
    ensures
        is_value_bytes(encode_utf8(text)),
    decreases text.len(),
{
    if text.len() > 0 {
        let rest = text.drop_first();
        assert forall|i: int| 0 <= i < rest.len() implies header_char(#[trigger] rest[i]) by {
            assert(rest[i] == text[i + 1]);
        }
        lemma_text_bytes(rest);
        lemma_char_bytes(text[0]);
    }
}

/// Gives the name the one text as its value, unless the map takes no more names.
/// Then it stays as it is.
pub(crate) fn try_put_header(headers: &mut HeaderMap, name: &str, text: &str) -> (taken: bool)
    requires
        is_header_name(name@),
        is_header_value(text@),
    ensures
        taken ==> header_entries(*final(headers)) == header_entries(*old(headers)).insert(
            name@,
            seq![text_value(text@)],
        ),
        !taken ==> header_entries(*final(headers)) == header_entries(*old(headers)),
        fits(header_entries(*old(headers)).insert(name@, seq![text_value(text@)])) ==> taken,
        taken ==> may_fit(header_entries(*final(headers))),
{
    proof {
        lemma_text_bytes(text@);
    }
    try_insert_header(headers, name, text.as_bytes(), false)
}

/// A name is in what a list amounts to if and only if it is in the list.
proof fn lemma_collected_names(fields: Seq<HeaderField>, name: Seq<char>)
    ensures
        collect_fields(fields).contains_key(name) <==> exists|i: int|
            0 <= i < fields.len() && (#[trigger] fields[i]).name@ == name,
    decreases fields.len(),
{
    if fields.len() > 0 {
        let front = fields.drop_last();
        lemma_collected_names(front, name);
        assert(fields.last() == fields[fields.len() - 1]);
        if exists|i: int| 0 <= i < front.len() && (#[trigger] front[i]).name@ == name {
            let i = choose|i: int| 0 <= i < front.len() && (#[trigger] front[i]).name@ == name;
            assert(fields[i].name@ == name);
        }
        if exists|i: int| 0 <= i < fields.len() && (#[trigger] fields[i]).name@ == name {
            let i = choose|i: int| 0 <= i < fields.len() && (#[trigger] fields[i]).name@ == name;
            if i < front.len() {
                assert(front[i].name@ == name);
            }
        }
    }
}

/// What the beginning of a list amounts to fits where the whole does.
proof fn lemma_beginning_fits(held: HeaderModel, fields: Seq<HeaderField>, n: int)
    requires
        0 <= n <= fields.len(),
        fits(held.union_prefer_right(collect_fields(fields))),
    ensures
        fits(held.union_prefer_right(collect_fields(fields.take(n)))),
{
    let all = held.union_prefer_right(collect_fields(fields)).dom();
    let some = held.union_prefer_right(collect_fields(fields.take(n))).dom();
    assert forall|name: Seq<char>| some.contains(name) implies all.contains(name) by {
        lemma_collected_names(fields, name);
        lemma_collected_names(fields.take(n), name);
        if collect_fields(fields.take(n)).contains_key(name) {
            let i = choose|i: int|
                0 <= i < fields.take(n).len() && (#[trigger] fields.take(n)[i]).name@ == name;
            assert(fields[i].name@ == name);
        }
    }
    assert(some.subset_of(all));
    vstd::set_lib::lemma_set_subset_finite(all, some);
    vstd::set_lib::lemma_len_subset(some, all);
}

/// Merges `other` into `headers`: each name of `other` has the values that it has
/// there, in place of those it had. Where the map refuses one of them, it is left
/// with a part of the merge.
pub(crate) fn try_merge_headers(headers: &mut HeaderMap, other: &HeaderMap) -> (merged: bool)
    ensures
        merged ==> header_entries(*final(headers)) == header_entries(
            *old(headers),
        ).union_prefer_right(header_entries(*other)),
        fits(header_entries(*old(headers)).union_prefer_right(header_entries(*other))) ==> merged,
        merged && may_fit(header_entries(*old(headers))) ==> may_fit(
            header_entries(*final(headers)),
        ),
{
    let fields = list_headers(other);
    let ghost held = header_entries(*headers);
    proof {
        assert(held.union_prefer_right(collect_fields(fields@.take(0))) =~= held);
    }
    for i in 0..fields.len()
        invariant
            is_listing(fields@, header_entries(*other)),
            held == header_entries(*old(headers)),
            may_fit(held) ==> may_fit(header_entries(*headers)),
            header_entries(*headers) == held.union_prefer_right(
                collect_fields(fields@.take(i as int)),
            ),
    {
        let field = &fields[i];
        let ghost before = collect_fields(fields@.take(i as int));
        let ghost name = field.name@;
        let again: bool = i > 0 && fields[i - 1].name == field.name;
        proof {
            lemma_longer_take(fields@, i as int);
            assert(fields@.take(i + 1).last() == fields@[i as int]);
            lemma_collected_names(fields@.take(i as int), name);
            if again {
                assert(fields@.take(i as int)[i - 1].name@ == name);
            } else if before.contains_key(name) {
                let j = choose|j: int|
                    0 <= j < fields@.take(i as int).len() && (#[trigger] fields@.take(
                        i as int,
                    )[j]).name@ == name;
                assert(fields@[j].name@ == name);
                assert(fields@[i - 1].name@ == fields@[j].name@);
            }
            if fits(held.union_prefer_right(header_entries(*other))) {
                lemma_beginning_fits(held, fields@, i as int);
                lemma_beginning_fits(held, fields@, i + 1);
            }
            assert(!again ==> held.union_prefer_right(collect_fields(fields@.take(i + 1)))
                =~= held.union_prefer_right(before).insert(
                name,
                seq![(field.value@, field.sensitive)],
            ));
            assert(again ==> held.union_prefer_right(collect_fields(fields@.take(i + 1)))
                =~= held.union_prefer_right(before).insert(
                name,
                before[name].push((field.value@, field.sensitive)),
            ));
        }
        let taken: bool = if again {
            try_append_header(headers, field.name.as_str(), field.value.as_slice(), field.sensitive)
        } else {
            try_insert_header(headers, field.name.as_str(), field.value.as_slice(), field.sensitive)
        };
        if !taken {
            return false;
        }
    }
    proof {
        assert(fields@.take(fields@.len() as int) =~= fields@);
    }
    true
}

} // verus!
