//! HTTP headers of an exporter: reading them from text, and settling which
//! `Authorization` header is handed to the exporter.

use crate::assoc::{
    contains_key, distinct_keys, entry_views, has_entry,
    lemma_position, lemma_upsert, lookup, position, set_entry, upsert,
};
use crate::text::{
    eq_ignore_ascii_case, eq_ignore_case, find_char, first_index, slice_string, split_at_first,
    to_chars, trim_range, trimmed,
};
use vstd::prelude::*;

verus! {

/// The name of the authorization header, in the casing in which it is handed on.
pub const AUTHORIZATION: &'static str = "Authorization";

/// Headers as pairs of name and value.
pub type HeaderViews = Seq<(Seq<char>, Seq<char>)>;

/// Whether `name` is the name of the authorization header in any casing.
pub open spec fn is_authorization(name: Seq<char>) -> bool {
    eq_ignore_case(name, AUTHORIZATION@)
}

/// Some header of `headers` is an authorization header, in any casing.
pub open spec fn has_authorization(headers: HeaderViews) -> bool {
    exists|i: int| 0 <= i < headers.len() && is_authorization(headers[i].0)
}

/// The name under which a header is handed on: `Authorization` for every casing
/// of that name, the name itself for every other.
pub open spec fn canonical_name(name: Seq<char>) -> Seq<char> {
    if is_authorization(name) {
        AUTHORIZATION@
    } else {
        name
    }
}

/// `base` with each header of `more` set in turn, later ones over earlier ones.
pub open spec fn merged(base: HeaderViews, more: HeaderViews) -> HeaderViews
    decreases more.len(),
{
    if more.len() == 0 {
        base
    } else {
        upsert(merged(base, more.drop_last()), more.last().0, more.last().1)
    }
}

/// The headers under the names with which they are handed on. Where several
/// headers come to stand under one name, the one that is later in `headers`
/// stays.
pub open spec fn normalized(headers: HeaderViews) -> HeaderViews
    decreases headers.len(),
{
    if headers.len() == 0 {
        Seq::empty()
    } else {
        upsert(
            normalized(headers.drop_last()),
            canonical_name(headers.last().0),
            headers.last().1,
        )
    }
}

/// The headers that are handed to the exporter, given the additional
/// headers and the header value that was set for authorization, if one
/// was. A value that was set takes the place of any authorization among the
/// additional headers; without either there is nothing to hand on.
pub open spec fn resolved_headers(headers: HeaderViews, auth_header: Option<Seq<char>>) -> Option<
    HeaderViews,
> {
    match auth_header {
        Some(value) => Some(upsert(normalized(headers), AUTHORIZATION@, value)),
        None => if contains_key(normalized(headers), AUTHORIZATION@) {
            Some(normalized(headers))
        } else {
            None
        },
    }
}

/// No name stands twice, and every authorization header stands under the
/// canonical name.
pub open spec fn canonical(headers: HeaderViews) -> bool {
    &&& distinct_keys(headers)
    &&& forall|i: int|
        0 <= i < headers.len() && is_authorization(headers[i].0) ==> headers[i].0 == AUTHORIZATION@
}

/// `headers` holds one authorization header and no more, whatever the casing.
pub open spec fn single_authorization(headers: HeaderViews) -> bool {
    exists|i: int|
        0 <= i < headers.len() && is_authorization(headers[i].0) && forall|j: int|
            0 <= j < headers.len() && is_authorization(headers[j].0) ==> j == i
}

/// Setting a header under a canonical name keeps a list canonical.
pub proof fn lemma_upsert_canonical(headers: HeaderViews, name: Seq<char>, value: Seq<char>)
    requires
        canonical(headers),
    ensures
        canonical(upsert(headers, canonical_name(name), value)),
        canonical(upsert(headers, AUTHORIZATION@, value)),
{
    lemma_upsert_canonical_key(headers, canonical_name(name), value);
    lemma_upsert_canonical_key(headers, AUTHORIZATION@, value);
}

/// Setting a header whose name is canonical keeps a list canonical.
pub proof fn lemma_upsert_canonical_key(headers: HeaderViews, key: Seq<char>, value: Seq<char>)
    requires
        canonical(headers),
        is_authorization(key) ==> key == AUTHORIZATION@,
    ensures
        canonical(upsert(headers, key, value)),
{
    let after = upsert(headers, key, value);
    lemma_upsert(headers, key, value);
    if contains_key(headers, key) {
        lemma_position(headers, key);
        let p = position(headers, key);
        assert forall|i: int| 0 <= i < after.len() && is_authorization(after[i].0) implies after[i].0
            == AUTHORIZATION@ by {
            if i != p {
                assert(after[i] == headers[i]);
            }
        }
    } else {
        assert forall|i: int| 0 <= i < after.len() && is_authorization(after[i].0) implies after[i].0
            == AUTHORIZATION@ by {
            if i < headers.len() {
                assert(after[i] == headers[i]);
            }
        }
    }
}

/// What `normalized` returns is canonical.
pub proof fn lemma_normalized_canonical(headers: HeaderViews)
    ensures
        canonical(normalized(headers)),
    decreases headers.len(),
{
    if headers.len() > 0 {
        lemma_normalized_canonical(headers.drop_last());
        lemma_upsert_canonical(
            normalized(headers.drop_last()),
            headers.last().0,
            headers.last().1,
        );
    }
}

/// The headers hold an authorization under the canonical name after
/// normalizing exactly if they held one in some casing before.
pub proof fn lemma_normalized_authorization(headers: HeaderViews)
    ensures
        contains_key(normalized(headers), AUTHORIZATION@) <==> has_authorization(headers),
    decreases headers.len(),
{
    if headers.len() > 0 {
        let rest = headers.drop_last();
        let last = headers.last();
        lemma_normalized_authorization(rest);
        lemma_normalized_canonical(rest);
        lemma_upsert(normalized(rest), canonical_name(last.0), last.1);
        if has_authorization(headers) {
            let i = choose|i: int| 0 <= i < headers.len() && is_authorization(headers[i].0);
            if i < rest.len() {
                assert(rest[i] == headers[i]);
                assert(has_authorization(rest));
            }
        }
        if has_authorization(rest) {
            let i = choose|i: int| 0 <= i < rest.len() && is_authorization(rest[i].0);
            assert(headers[i] == rest[i]);
        }
        if is_authorization(last.0) {
            assert(headers[headers.len() - 1] == last);
        }
    }
}

/// The headers that are handed on hold exactly one authorization header,
/// under the canonical name; no name stands twice among them.
pub proof fn lemma_resolved_single_authorization(
    headers: HeaderViews,
    auth_header: Option<Seq<char>>,
)
    requires
        resolved_headers(headers, auth_header) is Some,
    ensures
        canonical(resolved_headers(headers, auth_header)->0),
        contains_key(resolved_headers(headers, auth_header)->0, AUTHORIZATION@),
        single_authorization(resolved_headers(headers, auth_header)->0),
{
    let settled = resolved_headers(headers, auth_header)->0;
    lemma_normalized_canonical(headers);
    match auth_header {
        Some(value) => {
            lemma_upsert_canonical(normalized(headers), AUTHORIZATION@, value);
            lemma_upsert(normalized(headers), AUTHORIZATION@, value);
        },
        None => {},
    }
    assert(contains_key(settled, AUTHORIZATION@));
    lemma_position(settled, AUTHORIZATION@);
    let p = position(settled, AUTHORIZATION@);
    assert(is_authorization(settled[p].0));
    assert forall|j: int| 0 <= j < settled.len() && is_authorization(settled[j].0) implies j == p by {
        assert(settled[j].0 == AUTHORIZATION@);
    }
}

/// A header value that was set for authorization is the one that is handed
/// on, whatever the additional headers hold.
pub proof fn lemma_set_authorization_wins(headers: HeaderViews, value: Seq<char>)
    ensures
        resolved_headers(headers, Some(value)) is Some,
        lookup(resolved_headers(headers, Some(value))->0, AUTHORIZATION@) == Some(value),
{
    lemma_normalized_canonical(headers);
    lemma_upsert(normalized(headers), AUTHORIZATION@, value);
}

/// Whether some header of `headers` is an authorization header, in any casing.
pub fn holds_authorization(headers: &Vec<(String, String)>) -> (held: bool)
    ensures
        held == has_authorization(entry_views(headers@)),
{
    let mut i: usize = 0;
    while i < headers.len()
        invariant
            i <= headers.len(),
            forall|j: int| 0 <= j < i ==> !is_authorization(headers@[j].0@),
        decreases headers.len() - i,
    {
        if eq_ignore_ascii_case(headers[i].0.as_str(), AUTHORIZATION) {
            assert(is_authorization(entry_views(headers@)[i as int].0));
            return true;
        }
        i = i + 1;
    }
    false
}

/// A copy of a list of headers.
pub fn clone_headers(headers: &Vec<(String, String)>) -> (copy: Vec<(String, String)>)
    ensures
        entry_views(copy@) == entry_views(headers@),
{
    let mut copy: Vec<(String, String)> = Vec::new();
    let mut i: usize = 0;
    while i < headers.len()
        invariant
            i <= headers.len(),
            copy.len() == i,
            forall|j: int|
                0 <= j < i ==> copy@[j].0@ == headers@[j].0@ && copy@[j].1@ == headers@[j].1@,
        decreases headers.len() - i,
    {
        copy.push((headers[i].0.clone(), headers[i].1.clone()));
        i = i + 1;
    }
    assert(entry_views(copy@) =~= entry_views(headers@));
    copy
}

/// `base` with each header of `more` set in turn.
pub fn merge_headers(base: Vec<(String, String)>, more: &Vec<(String, String)>) -> (out: Vec<
    (String, String),
>)
    ensures
        entry_views(out@) == merged(entry_views(base@), entry_views(more@)),
{
    let mut out = base;
    let ghost start = entry_views(base@);
    let ghost views = entry_views(more@);
    let mut i: usize = 0;
    while i < more.len()
        invariant
            i <= more.len(),
            views == entry_views(more@),
            entry_views(out@) == merged(start, views.take(i as int)),
        decreases more.len() - i,
    {
        set_entry(&mut out, more[i].0.clone(), more[i].1.clone());
        proof {
            assert(views.take(i + 1).drop_last() =~= views.take(i as int));
            assert(views.take(i + 1).last() == views[i as int]);
        }
        i = i + 1;
    }
    proof {
        assert(views.take(i as int) =~= views);
    }
    out
}

/// The headers under the names with which they are handed on.
pub fn normalize_headers(headers: &Vec<(String, String)>) -> (out: Vec<(String, String)>)
    ensures
        entry_views(out@) == normalized(entry_views(headers@)),
{
    let mut out: Vec<(String, String)> = Vec::new();
    let ghost views = entry_views(headers@);
    let mut i: usize = 0;
    while i < headers.len()
        invariant
            i <= headers.len(),
            views == entry_views(headers@),
            entry_views(out@) == normalized(views.take(i as int)),
        decreases headers.len() - i,
    {
        let name = if eq_ignore_ascii_case(headers[i].0.as_str(), AUTHORIZATION) {
            AUTHORIZATION.to_owned()
        } else {
            headers[i].0.clone()
        };
        set_entry(&mut out, name, headers[i].1.clone());
        proof {
            assert(views.take(i + 1).drop_last() =~= views.take(i as int));
            assert(views.take(i + 1).last() == views[i as int]);
        }
        i = i + 1;
    }
    proof {
        assert(views.take(i as int) =~= views);
    }
    out
}

/// Settles the headers that are handed to the exporter: the additional
/// headers under their canonical names, with the authorization that was
/// set, if any, in the place of theirs. `None` where no authorization is to
/// be had.
pub fn resolve_headers(headers: &Vec<(String, String)>, auth_header: Option<String>) -> (settled:
    Option<Vec<(String, String)>>)
    ensures
        match settled {
            Some(list) => resolved_headers(
                entry_views(headers@),
                crate::assoc::option_view(auth_header),
            ) == Some(entry_views(list@)),
            None => resolved_headers(entry_views(headers@), crate::assoc::option_view(auth_header))
                is None,
        },
{
    let mut out = normalize_headers(headers);
    match auth_header {
        Some(value) => {
            set_entry(&mut out, AUTHORIZATION.to_owned(), value);
            Some(out)
        },
        None => {
            if has_entry(&out, AUTHORIZATION) {
                Some(out)
            } else {
                None
            }
        },
    }
}

/// The header that one piece of a header text states: name and value stand
/// on the two sides of the first `=`, without the spaces around them. A
/// piece without `=`, without a name or without a value states none.
pub open spec fn header_of(piece: Seq<char>) -> Option<(Seq<char>, Seq<char>)> {
    match split_at_first(piece, '=') {
        Some((name, value)) => if trimmed(name).len() > 0 && trimmed(value).len() > 0 {
            Some((trimmed(name), trimmed(value)))
        } else {
            None
        },
        None => None,
    }
}

/// The headers that a text of the form `k1=v1,k2=v2` states, in its order:
/// one for each piece between commas that states one.
pub open spec fn headers_in(text: Seq<char>) -> HeaderViews
    decreases text.len(),
{
    let k = first_index(text, ',');
    let head = match header_of(text.take(k)) {
        Some(header) => seq![header],
        None => Seq::empty(),
    };
    if 0 <= k < text.len() {
        head + headers_in(text.skip(k + 1))
    } else {
        head
    }
}

/// Reads the headers that a text of the form `k1=v1,k2=v2` states.
pub fn parse_headers(text: &str) -> (headers: Vec<(String, String)>)
    ensures
        entry_views(headers@) == headers_in(text@),
{
    let chars = to_chars(text);
    let n = chars.len();
    let mut headers: Vec<(String, String)> = Vec::new();
    let mut start: usize = 0;
    proof {
        assert(entry_views(headers@) =~= Seq::empty());
        assert(chars@.skip(0) =~= chars@);
    }
    loop
        invariant_except_break
            start <= n,
            entry_views(headers@) + headers_in(chars@.skip(start as int)) == headers_in(chars@),
        invariant
            chars@ == text@,
            n == chars.len(),
        ensures
            entry_views(headers@) == headers_in(chars@),
        decreases n - start,
    {
        let ghost rest = chars@.skip(start as int);
        let ghost before = entry_views(headers@);
        let comma = find_char(&chars, start, n, ',');
        let equals = find_char(&chars, start, comma, '=');
        proof {
            assert(chars@.subrange(start as int, n as int) =~= rest);
            assert(rest.take(comma - start) =~= chars@.subrange(start as int, comma as int));
        }
        let ghost piece = chars@.subrange(start as int, comma as int);
        if equals < comma {
            let name = trim_range(&chars, start, equals);
            let value = trim_range(&chars, equals + 1, comma);
            proof {
                assert(piece.take(equals - start) =~= chars@.subrange(start as int, equals as int));
                assert(piece.skip(equals - start + 1) =~= chars@.subrange(
                    equals + 1,
                    comma as int,
                ));
            }
            if name.0 < name.1 && value.0 < value.1 {
                let header_name = slice_string(text, name.0, name.1);
                let header_value = slice_string(text, value.0, value.1);
                headers.push((header_name, header_value));
            }
        }
        proof {
            let head = match header_of(piece) {
                Some(header) => seq![header],
                None => Seq::empty(),
            };
            assert(entry_views(headers@) =~= before + head);
            if comma < n {
                assert(rest.skip(comma - start + 1) =~= chars@.skip(comma + 1));
                assert(before + (head + headers_in(chars@.skip(comma + 1))) =~= (before + head)
                    + headers_in(chars@.skip(comma + 1)));
            } else {
                assert(headers_in(rest) == head);
            }
        }
        if comma >= n {
            break ;
        }
        start = comma + 1;
    }
    headers
}

} // verus!
