//! Serving stored evidence files.

use vstd::prelude::*;
use vstd::string::StrSliceExecFns;

use crate::handlers::reports::create::{spec_evidence_location, spec_evidence_url};
use crate::text::push_char;

verus! {

/// Number of leading `/` characters.
pub open spec fn leading_slashes(s: Seq<char>) -> nat
    decreases s.len(),
{
    if s.len() > 0 && s[0] == '/' {
        1 + leading_slashes(s.drop_first())
    } else {
        0
    }
}

proof fn lemma_leading_slashes(s: Seq<char>, i: int)
    requires
        0 <= i <= s.len(),
        forall|j: int| 0 <= j < i ==> #[trigger] s[j] == '/',
        i == s.len() || s[i] != '/',
    ensures
        leading_slashes(s) == i,
    decreases i,
{
    if i > 0 {
        assert forall|j: int| 0 <= j < i - 1 implies #[trigger] s.drop_first()[j] == '/' by {
            assert(s.drop_first()[j] == s[j + 1]);
        }
        if i < s.len() {
            assert(s.drop_first()[i - 1] == s[i]);
        }
        lemma_leading_slashes(s.drop_first(), i - 1);
    }
}

/// Where an evidence file lies: its URL without leading slashes, relative to the
/// working directory.
pub fn evidence_file_path(url: &str) -> (path: String)
    ensures
        path@ == url@.skip(leading_slashes(url@) as int),
{
    let n = url.unicode_len();
    let mut i: usize = 0;
    while i < n && url.get_char(i) == '/'
        invariant
            n == url@.len(),
            i <= n,
            forall|j: int| 0 <= j < i ==> #[trigger] url@[j] == '/',
        decreases n - i,
    {
        i = i + 1;
    }
    proof {
        lemma_leading_slashes(url@, i as int);
    }
    let mut path = String::new();
    let mut k: usize = i;
    while k < n
        invariant
            n == url@.len(),
            i <= k <= n,
            path@ == url@.subrange(i as int, k as int),
        decreases n - k,
    {
        push_char(&mut path, url.get_char(k));
        k = k + 1;
        assert(path@ =~= url@.subrange(i as int, k as int));
    }
    assert(path@ =~= url@.skip(i as int));
    path
}

/// Index of the last `.`, or -1 when there is none.
pub open spec fn last_dot(s: Seq<char>) -> int
    decreases s.len(),
{
    if s.len() == 0 {
        -1
    } else if s.last() == '.' {
        s.len() - 1
    } else {
        last_dot(s.drop_last())
    }
}

/// The extension of a file name: what follows its last `.`, or the whole name.
pub open spec fn extension(s: Seq<char>) -> Seq<char> {
    s.skip(last_dot(s) + 1)
}

/// ASCII lower-casing of one character.
pub open spec fn ascii_lower(c: char) -> char {
    if 'A' <= c && c <= 'Z' {
        ((c as u32) + 32) as char
    } else {
        c
    }
}

/// Whether `s`, lower-cased, is `lower`.
pub open spec fn lower_eq(s: Seq<char>, lower: Seq<char>) -> bool {
    &&& s.len() == lower.len()
    &&& forall|i: int| 0 <= i < s.len() ==> ascii_lower(#[trigger] s[i]) == lower[i]
}

/// The media type of a file, by its extension compared without regard to case
/// (no character outside ASCII lower-cases into any of these extensions).
pub open spec fn spec_content_type(path: Seq<char>) -> Seq<char> {
    let ext = extension(path);
    if lower_eq(ext, "png"@) {
        "image/png"@
    } else if lower_eq(ext, "jpg"@) || lower_eq(ext, "jpeg"@) {
        "image/jpeg"@
    } else if lower_eq(ext, "gif"@) {
        "image/gif"@
    } else if lower_eq(ext, "webp"@) {
        "image/webp"@
    } else if lower_eq(ext, "mp4"@) {
        "video/mp4"@
    } else if lower_eq(ext, "webm"@) {
        "video/webm"@
    } else if lower_eq(ext, "pdf"@) {
        "application/pdf"@
    } else {
        "application/octet-stream"@
    }
}

/// Whether two texts differ at most in the case of ASCII letters.
pub open spec fn same_up_to_ascii_case(p: Seq<char>, q: Seq<char>) -> bool {
    &&& p.len() == q.len()
    &&& forall|i: int| 0 <= i < p.len() ==> ascii_lower(#[trigger] p[i]) == ascii_lower(q[i])
}

proof fn lemma_last_dot_ignores_case(p: Seq<char>, q: Seq<char>)
    requires
        same_up_to_ascii_case(p, q),
    ensures
        last_dot(p) == last_dot(q),
    decreases p.len(),
{
    if p.len() > 0 {
        let c = p.last();
        let d = q.last();
        assert(ascii_lower(p[p.len() - 1]) == ascii_lower(q[q.len() - 1]));
        assert(c == '.' <==> d == '.');
        assert forall|i: int| 0 <= i < p.drop_last().len() implies ascii_lower(
            #[trigger] p.drop_last()[i],
        ) == ascii_lower(q.drop_last()[i]) by {
            assert(ascii_lower(p[i]) == ascii_lower(q[i]));
        }
        lemma_last_dot_ignores_case(p.drop_last(), q.drop_last());
    }
}

proof fn lemma_last_dot_range(s: Seq<char>)
    ensures
        -1 <= last_dot(s) < s.len(),
    decreases s.len(),
{
    if s.len() > 0 {
        lemma_last_dot_range(s.drop_last());
    }
}

proof fn lemma_lower_eq_ignores_case(e: Seq<char>, f: Seq<char>, lower: Seq<char>)
    requires
        same_up_to_ascii_case(e, f),
    ensures
        lower_eq(e, lower) == lower_eq(f, lower),
{
    if lower_eq(e, lower) {
        assert forall|i: int| 0 <= i < f.len() implies ascii_lower(#[trigger] f[i]) == lower[i] by {
            assert(ascii_lower(e[i]) == ascii_lower(f[i]));
        }
    }
    if lower_eq(f, lower) {
        assert forall|i: int| 0 <= i < e.len() implies ascii_lower(#[trigger] e[i]) == lower[i] by {
            assert(ascii_lower(e[i]) == ascii_lower(f[i]));
        }
    }
}

/// The media type of a path does not depend on the case of its ASCII letters:
/// `IMG.JPG`, `img.jpg` and `Img.Jpg` are served alike.
pub proof fn content_type_ignores_ascii_case(p: Seq<char>, q: Seq<char>)
    requires
        same_up_to_ascii_case(p, q),
    ensures
        spec_content_type(p) == spec_content_type(q),
{
    lemma_last_dot_ignores_case(p, q);
    lemma_last_dot_range(p);
    let k = last_dot(p) + 1;
    let e = extension(p);
    let f = extension(q);
    assert forall|i: int| 0 <= i < e.len() implies ascii_lower(#[trigger] e[i]) == ascii_lower(f[i]) by {
        assert(e[i] == p[k + i]);
        assert(f[i] == q[k + i]);
        assert(ascii_lower(p[k + i]) == ascii_lower(q[k + i]));
    }
    lemma_lower_eq_ignores_case(e, f, "png"@);
    lemma_lower_eq_ignores_case(e, f, "jpg"@);
    lemma_lower_eq_ignores_case(e, f, "jpeg"@);
    lemma_lower_eq_ignores_case(e, f, "gif"@);
    lemma_lower_eq_ignores_case(e, f, "webp"@);
    lemma_lower_eq_ignores_case(e, f, "mp4"@);
    lemma_lower_eq_ignores_case(e, f, "webm"@);
    lemma_lower_eq_ignores_case(e, f, "pdf"@);
}

fn ascii_lower_exec(c: char) -> (r: char)
    ensures
        r == ascii_lower(c),
{
    if 'A' <= c && c <= 'Z' {
        (((c as u32) + 32) as u8) as char
    } else {
        c
    }
}

fn last_dot_exec(s: &str) -> (r: usize)
    ensures
        r as int == last_dot(s@) + 1,
        r <= s@.len(),
{
    let n = s.unicode_len();
    let mut k: usize = n;
    assert(s@.take(n as int) =~= s@);
    while k > 0 && s.get_char(k - 1) != '.'
        invariant
            n == s@.len(),
            k <= n,
            last_dot(s@) == last_dot(s@.take(k as int)),
        decreases k,
    {
        assert(s@.take(k as int).drop_last() =~= s@.take(k - 1));
        k = k - 1;
    }
    proof {
        assert(s@.take(n as int) =~= s@);
        if k > 0 {
            assert(s@.take(k as int).last() == s@[k - 1]);
        } else {
            assert(s@.take(0) =~= Seq::<char>::empty());
        }
    }
    k
}

fn lower_eq_from(s: &str, start: usize, lower: &str) -> (r: bool)
    requires
        start <= s@.len(),
    ensures
        r == lower_eq(s@.skip(start as int), lower@),
{
    let n = s.unicode_len();
    let m = lower.unicode_len();
    if n - start != m {
        return false;
    }
    let mut i: usize = 0;
    while i < m
        invariant
            n == s@.len(),
            m == lower@.len(),
            start + m == n,
            i <= m,
            forall|j: int| 0 <= j < i ==> ascii_lower(#[trigger] s@.skip(start as int)[j]) == lower@[j],
        decreases m - i,
    {
        assert(s@.skip(start as int)[i as int] == s@[start + i]);
        if ascii_lower_exec(s.get_char(start + i)) != lower.get_char(i) {
            return false;
        }
        i = i + 1;
    }
    true
}

/// The media type an evidence file is served with.
pub fn content_type_for(path: &str) -> (t: &'static str)
    ensures
        t@ == spec_content_type(path@),
{
    let start = last_dot_exec(path);
    if lower_eq_from(path, start, "png") {
        "image/png"
    } else if lower_eq_from(path, start, "jpg") || lower_eq_from(path, start, "jpeg") {
        "image/jpeg"
    } else if lower_eq_from(path, start, "gif") {
        "image/gif"
    } else if lower_eq_from(path, start, "webp") {
        "image/webp"
    } else if lower_eq_from(path, start, "mp4") {
        "video/mp4"
    } else if lower_eq_from(path, start, "webm") {
        "video/webm"
    } else if lower_eq_from(path, start, "pdf") {
        "application/pdf"
    } else {
        "application/octet-stream"
    }
}

/// An evidence URL that a report recorded is served from the very file that the
/// report stored.
pub proof fn evidence_url_serves_stored_file(target_user_id: i64, unique_name: Seq<char>)
    ensures
        ({
            let url = spec_evidence_url(target_user_id, unique_name);
            url.skip(leading_slashes(url) as int)
        }) == spec_evidence_location(target_user_id, unique_name),
{
    let url = spec_evidence_url(target_user_id, unique_name);
    let location = spec_evidence_location(target_user_id, unique_name);
    reveal_strlit("/");
    reveal_strlit("data/exposes/");
    assert(url.drop_first() =~= location);
    assert(location[0] == 'd');
    assert(leading_slashes(location) == 0);
    assert(leading_slashes(url) == 1);
    assert(url.skip(1) =~= location);
}

} // verus!
