//! Default request headers, kept in an `http::HeaderMap` whose contents the
//! contracts follow as a map from lowercase name bytes to the list of values.

use http::{HeaderMap, HeaderName, HeaderValue};
use vstd::prelude::*;
use vstd::string::*;

verus! {

#[verifier::external_type_specification]
#[verifier::external_body]
#[verifier::reject_recursive_types(T)]
pub struct ExHeaderMap<T>(http::HeaderMap<T>);

#[verifier::external_type_specification]
#[verifier::external_body]
pub struct ExHeaderValue(http::HeaderValue);

/// What a header map holds: for each header name (its lowercase bytes), the
/// values stored under it, in order.
pub uninterp spec fn header_map_contents(m: HeaderMap) -> Map<Seq<u8>, Seq<Seq<u8>>>;

/// A byte `http::HeaderName::from_bytes` keeps as it is in a header name:
/// `!`, `#`, `$`, `%`, `&`, `'`, `*`, `+`, `-`, `.`, digits, `^`, `_`,
/// `` ` ``, `a`-`z`, `|` and `~`.
pub open spec fn is_header_name_byte(b: u8) -> bool {
    ||| b == 33
    ||| 35 <= b <= 39
    ||| b == 42 || b == 43 || b == 45 || b == 46
    ||| 48 <= b <= 57
    ||| 94 <= b <= 122
    ||| b == 124 || b == 126
}

/// A character `http::HeaderName::from_bytes` accepts in a header name: an
/// ASCII letter of either case or one of the bytes [`is_header_name_byte`]
/// allows.
pub open spec fn is_header_name_char(c: char) -> bool {
    &&& (c as u32) < 128
    &&& (is_header_name_byte(c as u8) || ('A' <= c && c <= 'Z'))
}

/// A header name given as text that `http::HeaderName::from_bytes` accepts:
/// 1 to 65535 characters, each one [`is_header_name_char`] allows.
pub open spec fn is_header_name_text(name: Seq<char>) -> bool {
    &&& 0 < name.len() <= 65535
    &&& forall|i: int| 0 <= i < name.len() ==> is_header_name_char(#[trigger] name[i])
}

/// The byte of an ASCII character, with upper-case letters made lower-case.
pub open spec fn lower_byte(c: char) -> u8 {
    if 'A' <= c && c <= 'Z' {
        ((c as u32) + 32) as u8
    } else {
        c as u8
    }
}

/// The bytes of an ASCII text, with upper-case letters made lower-case: the
/// name `http` stores for a header name given as that text.
pub open spec fn lower_ascii(s: Seq<char>) -> Seq<u8> {
    s.map_values(|c: char| lower_byte(c))
}

/// A header value given as text that `http::HeaderValue::from_str` accepts:
/// each character is a tab, or at least a space and not DEL (characters
/// beyond ASCII encode to bytes of 128 and above, which are all accepted).
pub open spec fn is_header_value_text(value: Seq<char>) -> bool {
    forall|i: int|
        0 <= i < value.len() ==> ((#[trigger] value[i] as u32 >= 32 && value[i] as u32 != 127)
            || value[i] as u32 == 9)
}

/// The bytes of a header name, as `http::HeaderName::as_str` gives them.
pub uninterp spec fn header_name_bytes(n: HeaderName) -> Seq<u8>;

/// The bytes of a header value, as `http::HeaderValue::as_bytes` gives them.
pub uninterp spec fn header_value_bytes(v: HeaderValue) -> Seq<u8>;

/// Whether a header map with these contents can take one more name. Its
/// table only grows past `http`'s maximum size (where `insert` and `append`
/// panic) when it already holds 6554 names or more: the table reaches its
/// largest size with at least 3277 names, and grows again only when it holds
/// a fifth of that size (6554) or three quarters of it.
pub open spec fn has_room(contents: Map<Seq<u8>, Seq<Seq<u8>>>) -> bool {
    &&& contents.dom().finite()
    &&& contents.dom().len() < header_name_limit()
}

/// The number of names below which a header map can always take one more.
pub open spec fn header_name_limit() -> nat {
    6554
}

/// The bytes of each of a sequence of header names.
pub open spec fn names_bytes(names: Seq<HeaderName>) -> Seq<Seq<u8>> {
    names.map_values(|n: HeaderName| header_name_bytes(n))
}

/// Calls `http::HeaderMap::keys`, which yields each name of the map once.
#[verifier::external_body]
fn header_keys(m: &HeaderMap) -> (r: Vec<HeaderName>)
    ensures
        names_bytes(r@).no_duplicates(),
        names_bytes(r@).to_set() == header_map_contents(*m).dom(),
{
    m.keys().cloned().collect()
}

/// The number of header names `m` holds (its contents are finitely many).
pub fn header_name_count(m: &HeaderMap) -> (r: usize)
    ensures
        header_map_contents(*m).dom().finite(),
        r == header_map_contents(*m).dom().len(),
{
    let keys = header_keys(m);
    proof {
        vstd::seq_lib::seq_to_set_is_finite(names_bytes(keys@));
        names_bytes(keys@).unique_seq_to_set();
    }
    keys.len()
}

/// The contents of an empty header map.
pub open spec fn no_headers() -> Map<Seq<u8>, Seq<Seq<u8>>> {
    Map::empty()
}

/// The contents after storing `value` under `name`, replacing whatever the
/// name held.
pub open spec fn with_header(
    contents: Map<Seq<u8>, Seq<Seq<u8>>>,
    name: Seq<u8>,
    value: Seq<u8>,
) -> Map<Seq<u8>, Seq<Seq<u8>>> {
    contents.insert(name, seq![value])
}

/// The contents after taking over every name of `added`, each with the first
/// value `added` holds for it; names `added` lacks keep what they held.
pub open spec fn merged_headers(
    base: Map<Seq<u8>, Seq<Seq<u8>>>,
    added: Map<Seq<u8>, Seq<Seq<u8>>>,
) -> Map<Seq<u8>, Seq<Seq<u8>>> {
    Map::new(
        |k: Seq<u8>| base.dom().contains(k) || added.dom().contains(k),
        |k: Seq<u8>|
            if added.dom().contains(k) {
                seq![added[k][0]]
            } else {
                base[k]
            },
    )
}

/// Storing a header twice under one name keeps only the later value.
pub proof fn later_header_value_wins(
    contents: Map<Seq<u8>, Seq<Seq<u8>>>,
    name: Seq<u8>,
    first: Seq<u8>,
    second: Seq<u8>,
)
    ensures
        with_header(with_header(contents, name, first), name, second) == with_header(
            contents,
            name,
            second,
        ),
{
    assert(with_header(with_header(contents, name, first), name, second) =~= with_header(
        contents,
        name,
        second,
    ));
}

/// Merging the same headers twice is merging them once; merging no headers
/// changes nothing; names the merged headers lack keep their values.
pub proof fn merge_laws(base: Map<Seq<u8>, Seq<Seq<u8>>>, added: Map<Seq<u8>, Seq<Seq<u8>>>, k: Seq<u8>)
    ensures
        merged_headers(merged_headers(base, added), added) == merged_headers(base, added),
        merged_headers(base, no_headers()) == base,
        !added.dom().contains(k) && base.dom().contains(k) ==> merged_headers(base, added)[k]
            == base[k],
        added.dom().contains(k) ==> merged_headers(base, added)[k] == seq![added[k][0]],
{
    assert(merged_headers(merged_headers(base, added), added) =~= merged_headers(base, added));
    assert(merged_headers(base, no_headers()) =~= base);
}

/// Calls `http::HeaderMap::new`: an empty map.
#[verifier::external_body]
pub(crate) fn new_header_map() -> (r: HeaderMap)
    ensures
        header_map_contents(r) == no_headers(),
{
    HeaderMap::new()
}

/// Calls `http::HeaderName::from_bytes` on the bytes of `key`, which it
/// accepts on the inputs `requires` admits; the name it stores is the text
/// with its upper-case letters made lower-case.
#[verifier::external_body]
pub(crate) fn header_name_from_text(key: &str) -> (r: HeaderName)
    requires
        is_header_name_text(key@),
    ensures
        header_name_bytes(r) == lower_ascii(key@),
{
    HeaderName::from_bytes(key.as_bytes()).expect("accepted header name")
}

/// Calls `http::HeaderValue::from_str`, which accepts the inputs `requires`
/// admits; the value holds the text's bytes.
#[verifier::external_body]
pub(crate) fn header_value_from_text(value: &str) -> (r: HeaderValue)
    requires
        is_header_value_text(value@),
    ensures
        header_value_bytes(r) == value.spec_bytes(),
{
    HeaderValue::from_str(value).expect("accepted header value")
}

/// Calls `http::HeaderMap::insert`: `name` then holds `value` alone. It does
/// not panic while the map has room (see [`has_room`]).
#[verifier::external_body]
pub(crate) fn insert_header(m: &mut HeaderMap, name: HeaderName, value: HeaderValue)
    requires
        has_room(header_map_contents(*old(m))),
    ensures
        header_map_contents(*final(m)) == with_header(
            header_map_contents(*old(m)),
            header_name_bytes(name),
            header_value_bytes(value),
        ),
{
    m.insert(name, value);
}

/// An item of a header map's iteration: a name (`None` for the further
/// values of the previous name) and a value.
pub type HeaderEntry = (Option<HeaderName>, HeaderValue);

/// Every named entry names a key of `contents` holding at least one value,
/// and carries that key's first value.
pub open spec fn entries_name_first_values(
    entries: Seq<HeaderEntry>,
    contents: Map<Seq<u8>, Seq<Seq<u8>>>,
) -> bool {
    forall|j: int|
        0 <= j < entries.len() ==> match (#[trigger] entries[j]).0 {
            Some(n) => {
                &&& contents.dom().contains(header_name_bytes(n))
                &&& contents[header_name_bytes(n)].len() > 0
                &&& header_value_bytes(entries[j].1) == contents[header_name_bytes(n)][0]
            },
            None => true,
        }
}

/// Whether `entry` is named `k`.
pub open spec fn entry_named(entry: HeaderEntry, k: Seq<u8>) -> bool {
    match entry.0 {
        Some(n) => header_name_bytes(n) == k,
        None => false,
    }
}

/// Whether one of the entries from index `lo` up to `hi` names `k`.
pub open spec fn named_between(entries: Seq<HeaderEntry>, lo: int, hi: int, k: Seq<u8>) -> bool {
    exists|j: int| lo <= j < hi && entry_named(#[trigger] entries[j], k)
}

/// Every key of `contents` is named by some entry.
pub open spec fn entries_name_every_key(
    entries: Seq<HeaderEntry>,
    contents: Map<Seq<u8>, Seq<Seq<u8>>>,
) -> bool {
    forall|k: Seq<u8>| #[trigger] contents.dom().contains(k) ==> named_between(entries, 0, entries.len() as int, k)
}

/// Calls `http::HeaderMap::into_iter`. Every name of the map comes out, and
/// a named item carries that name's first value.
#[verifier::external_body]
pub(crate) fn header_entries(m: HeaderMap) -> (r: Vec<HeaderEntry>)
    ensures
        entries_name_first_values(r@, header_map_contents(m)),
        entries_name_every_key(r@, header_map_contents(m)),
{
    m.into_iter().collect()
}

/// The contents after merging in the entries from `lo` up to `hi`.
pub open spec fn merged_between(
    base: Map<Seq<u8>, Seq<Seq<u8>>>,
    added: Map<Seq<u8>, Seq<Seq<u8>>>,
    entries: Seq<HeaderEntry>,
    lo: int,
    hi: int,
) -> Map<Seq<u8>, Seq<Seq<u8>>> {
    Map::new(
        |k: Seq<u8>| base.dom().contains(k) || named_between(entries, lo, hi, k),
        |k: Seq<u8>|
            if named_between(entries, lo, hi, k) {
                seq![added[k][0]]
            } else {
                base[k]
            },
    )
}

/// Stores into `dst` every name of `src` with its first value, replacing what
/// `dst` held under those names.
pub fn merge_headers(dst: &mut HeaderMap, src: HeaderMap)
    requires
        header_map_contents(*old(dst)).dom().finite(),
        header_map_contents(src).dom().finite(),
        header_map_contents(*old(dst)).dom().len() + header_map_contents(src).dom().len()
            < header_name_limit(),
    ensures
        header_map_contents(*final(dst)) == merged_headers(
            header_map_contents(*old(dst)),
            header_map_contents(src),
        ),
{
    let ghost base = header_map_contents(*dst);
    let ghost added = header_map_contents(src);
    let mut entries = header_entries(src);
    let ghost all = entries@;
    let ghost n = entries@.len() as int;
    proof {
        assert(header_map_contents(*dst) =~= merged_between(base, added, all, n, n));
    }
    while entries.len() > 0
        invariant
            all.len() == n,
            entries@.len() <= n,
            entries@ == all.subrange(0, entries@.len() as int),
            entries_name_first_values(all, added),
            entries_name_every_key(all, added),
            base.dom().finite(),
            added.dom().finite(),
            base.dom().len() + added.dom().len() < header_name_limit(),
            header_map_contents(*dst) == merged_between(base, added, all, entries@.len() as int, n),
        decreases entries@.len(),
    {
        let ghost i = entries@.len() - 1;
        let ghost before = header_map_contents(*dst);
        let entry = entries.pop().unwrap();
        assert(entry == all[i]);
        proof {
            assert(before.dom().subset_of(base.dom().union(added.dom()))) by {
                assert forall|k: Seq<u8>| #[trigger] before.dom().contains(k) implies base.dom().union(
                    added.dom(),
                ).contains(k) by {
                    if named_between(all, i + 1, n, k) {
                        let j = choose|j: int| i + 1 <= j < n && entry_named(#[trigger] all[j], k);
                    }
                }
            }
            vstd::set_lib::lemma_len_union(base.dom(), added.dom());
            vstd::set_lib::lemma_len_subset(before.dom(), base.dom().union(added.dom()));
        }
        let (name, value) = entry;
        match name {
            Some(name) => {
                insert_header(dst, name, value);
                proof {
                    let nb = header_name_bytes(name);
                    let after = header_map_contents(*dst);
                    let target = merged_between(base, added, all, i, n);
                    assert(entry_named(all[i], nb));
                    assert forall|k: Seq<u8>| #[trigger] target.dom().contains(k) == after.dom().contains(k) by {
                        if k == nb {
                            assert(named_between(all, i, n, k));
                        } else if named_between(all, i, n, k) {
                            let j = choose|j: int| i <= j < n && entry_named(#[trigger] all[j], k);
                            assert(j != i);
                            assert(named_between(all, i + 1, n, k));
                        } else {
                            assert(!named_between(all, i + 1, n, k));
                        }
                    }
                    assert forall|k: Seq<u8>| #[trigger] target.dom().contains(k) implies target[k] == after[k] by {
                        if k == nb {
                            assert(named_between(all, i, n, k));
                        } else if named_between(all, i, n, k) {
                            let j = choose|j: int| i <= j < n && entry_named(#[trigger] all[j], k);
                            assert(j != i);
                            assert(named_between(all, i + 1, n, k));
                        } else {
                            assert(!named_between(all, i + 1, n, k));
                        }
                    }
                    assert(after =~= target);
                }
            },
            None => {
                proof {
                    assert forall|k: Seq<u8>| named_between(all, i, n, k) == named_between(all, i + 1, n, k) by {
                        if named_between(all, i, n, k) {
                            let j = choose|j: int| i <= j < n && entry_named(#[trigger] all[j], k);
                            assert(j != i);
                        }
                    }
                    assert(header_map_contents(*dst) =~= merged_between(base, added, all, i, n));
                }
            },
        }
        assert(entries@ =~= all.subrange(0, entries@.len() as int));
    }
    proof {
        assert forall|k: Seq<u8>| named_between(all, 0, n, k) implies added.dom().contains(k) by {
            let j = choose|j: int| 0 <= j < n && entry_named(#[trigger] all[j], k);
        }
        assert forall|k: Seq<u8>| added.dom().contains(k) implies named_between(all, 0, n, k) by {
        }
        assert(header_map_contents(*dst) =~= merged_headers(base, added));
    }
}

} // verus!
