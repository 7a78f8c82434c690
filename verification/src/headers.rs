//! Header handling for the relay hop: which caller headers may be forwarded
//! to the resolved subscription URL, and which strings may be carried as an
//! HTTP header value at all.

use vstd::prelude::*;

verus! {

/// `c` matches `t` ignoring ASCII case, for a lowercase target character
/// `t`: either the characters are equal, or `c` is the uppercase ASCII
/// letter of `t`.
pub open spec fn char_eq_ci(c: char, t: char) -> bool {
    c == t || (65 <= c as u32 <= 90 && c as u32 + 32 == t as u32)
}

/// `s` equals the all-lowercase-ASCII name `t` ignoring ASCII case.
pub open spec fn seq_eq_ci(s: Seq<char>, t: Seq<char>) -> bool {
    s.len() == t.len() && forall|i: int| 0 <= i < s.len() ==> char_eq_ci(s[i], t[i])
}

/// The fixed exclusion set: a header with one of these names (compared
/// case-insensitively) is never forwarded on the relay hop. They describe
/// the caller's own connection, not the upstream one.
pub open spec fn is_excluded_name(s: Seq<char>) -> bool {
    seq_eq_ci(s, "host"@) || seq_eq_ci(s, "connection"@) || seq_eq_ci(s, "content-length"@)
        || seq_eq_ci(s, "transfer-encoding"@)
}

fn eq_ignore_ascii_case_to(name: &str, target: &str) -> (r: bool)
    ensures
        r == seq_eq_ci(name@, target@),
{
    let n = name.unicode_len();
    if n != target.unicode_len() {
        return false;
    }
    let mut i: usize = 0;
    while i < n
        invariant
            n == name@.len(),
            n == target@.len(),
            0 <= i <= n,
            forall|j: int| 0 <= j < i ==> char_eq_ci(name@[j], target@[j]),
        decreases n - i,
    {
        let c = name.get_char(i);
        let t = target.get_char(i);
        let cu = c as u32;
        let tu = t as u32;
        if !(c == t || (65 <= cu && cu <= 90 && cu + 32 == tu)) {
            return false;
        }
        i += 1;
    }
    true
}

/// Whether `name` is one of the headers that the relay must not forward.
pub fn header_name_excluded(name: &str) -> (r: bool)
    ensures
        r == is_excluded_name(name@),
{
    eq_ignore_ascii_case_to(name, "host") || eq_ignore_ascii_case_to(name, "connection")
        || eq_ignore_ascii_case_to(name, "content-length") || eq_ignore_ascii_case_to(
        name,
        "transfer-encoding",
    )
}

/// The name-value pairs as mathematical sequences of characters.
pub open spec fn headers_view(h: Seq<(String, String)>) -> Seq<(Seq<char>, Seq<char>)> {
    Seq::new(h.len(), |i: int| (h[i].0@, h[i].1@))
}

/// What the relay hop forwards: the caller's headers in their original
/// order, duplicates kept, minus every pair whose name is excluded.
pub open spec fn spec_forwarded(h: Seq<(Seq<char>, Seq<char>)>) -> Seq<(Seq<char>, Seq<char>)> {
    h.filter(|p: (Seq<char>, Seq<char>)| !is_excluded_name(p.0))
}

/// Drops the excluded headers and keeps everything else, order and
/// duplicates preserved.
pub fn filter_headers(headers: &Vec<(String, String)>) -> (r: Vec<(String, String)>)
    ensures
        headers_view(r@) == spec_forwarded(headers_view(headers@)),
{
    let ghost hv = headers_view(headers@);
    let ghost pred = |p: (Seq<char>, Seq<char>)| !is_excluded_name(p.0);
    let mut r: Vec<(String, String)> = Vec::new();
    let mut i: usize = 0;
    proof {
        assert(headers_view(r@) =~= hv.take(0).filter(pred));
    }
    while i < headers.len()
        invariant
            0 <= i <= headers@.len(),
            hv == headers_view(headers@),
            pred == (|p: (Seq<char>, Seq<char>)| !is_excluded_name(p.0)),
            headers_view(r@) == hv.take(i as int).filter(pred),
        decreases headers@.len() - i,
    {
        let excluded = header_name_excluded(headers[i].0.as_str());
        proof {
            reveal(Seq::filter);
            assert(hv.take(i + 1).drop_last() =~= hv.take(i as int));
            assert(hv.take(i + 1).last() == hv[i as int]);
        }
        if !excluded {
            let pair = (headers[i].0.clone(), headers[i].1.clone());
            r.push(pair);
            proof {
                assert(headers_view(r@) =~= hv.take(i as int).filter(pred).push(hv[i as int]));
            }
        }
        i += 1;
    }
    proof {
        assert(hv.take(headers@.len() as int) =~= hv);
    }
    r
}

/// `c` may appear in an HTTP header value: a tab, or anything that is
/// neither an ASCII control character nor delete. Characters beyond ASCII
/// are carried as UTF-8 bytes, all of which are accepted header-value
/// bytes.
pub open spec fn char_hv_ok(c: char) -> bool {
    c as u32 == 9 || (c as u32 >= 32 && c as u32 != 127)
}

/// `s` can be carried verbatim as an HTTP header value.
pub open spec fn header_value_ok(s: Seq<char>) -> bool {
    forall|i: int| 0 <= i < s.len() ==> char_hv_ok(#[trigger] s[i])
}

/// Checks that `s` can be sent as an HTTP header value, so that a session
/// token is rejected before any request is built around it.
pub fn is_valid_header_value(s: &str) -> (r: bool)
    ensures
        r == header_value_ok(s@),
{
    let n = s.unicode_len();
    let mut i: usize = 0;
    while i < n
        invariant
            n == s@.len(),
            0 <= i <= n,
            forall|j: int| 0 <= j < i ==> char_hv_ok(#[trigger] s@[j]),
        decreases n - i,
    {
        let c = s.get_char(i);
        let cu = c as u32;
        if !(cu == 9 || (cu >= 32 && cu != 127)) {
            return false;
        }
        i += 1;
    }
    true
}

} // verus!
