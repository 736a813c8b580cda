//! The printable-string heuristics: NUL-delimited runs of a buffer, decoded
//! lossily, kept when longer than three characters, and flagged when they
//! look like a URL or an IPv4 address.
use vstd::prelude::*;
use vstd::slice::slice_subrange;
use vstd::string::StrSliceExecFns;

verus! {

/// The text that decoding `b` as UTF-8 gives, each invalid sequence replaced by
/// U+FFFD.
pub uninterp spec fn utf8_lossy(b: Seq<u8>) -> Seq<char>;

/// Whether the regular expression `pattern` matches somewhere in `text`
/// (false where `pattern` does not compile).
pub uninterp spec fn regex_is_match(pattern: Seq<char>, text: Seq<char>) -> bool;

/// Relies on `String::from_utf8_lossy`: decodes the bytes, replacing each
/// invalid sequence; the text depends on the bytes alone, and valid UTF-8
/// (ASCII in particular, each byte one character) comes back unchanged.
#[verifier::external_body]
fn decode_lossy(b: &[u8]) -> (r: String)
    ensures
        r@ == utf8_lossy(b@),
        b@.len() == 0 ==> r@.len() == 0,
        (forall|i: int| 0 <= i < b@.len() ==> #[trigger] b@[i] < 0x80) ==> r@ == b@.map_values(
            |c: u8| c as char,
        ),
{
    String::from_utf8_lossy(b).into_owned()
}

/// Relies on `regex::Regex::new` and `regex::Regex::is_match`: compiles
/// `pattern` and reports whether it matches in `text`; false where the pattern
/// does not compile.
#[verifier::external_body]
fn pattern_matches(pattern: &str, text: &str) -> (r: bool)
    ensures
        r == regex_is_match(pattern@, text@),
{
    match regex::Regex::new(pattern) {
        Ok(re) => re.is_match(text),
        Err(_) => false,
    }
}

/// A URL-like string: optional scheme, a dotted host, a TLD of 2 to 6
/// letters and an optional path, anchored at both ends.
pub const URL_PATTERN: &'static str = r"^(https?://)?([\da-z\.-]+)\.([a-z\.]{2,6})([\/\w \.-]*)*\/?$";

/// An IPv4 address: four dot-separated octets in 0..=255, anchored at both ends.
pub const IPV4_PATTERN: &'static str = r"^(([1-9]?[0-9]|1[0-9]{2}|2[0-4][0-9]|25[0-5])\.){3}([1-9]?[0-9]|1[0-9]{2}|2[0-4][0-9]|25[0-5])$";

/// The bytes after the last NUL of `b` (all of `b` where it holds none).
pub open spec fn open_run(b: Seq<u8>) -> Seq<u8>
    decreases b.len(),
{
    if b.len() == 0 {
        Seq::empty()
    } else if b.last() == 0 {
        Seq::empty()
    } else {
        open_run(b.drop_last()).push(b.last())
    }
}

/// The runs of `b` that a NUL ends, in order.
pub open spec fn closed_runs(b: Seq<u8>) -> Seq<Seq<u8>>
    decreases b.len(),
{
    if b.len() == 0 {
        Seq::empty()
    } else if b.last() == 0 {
        closed_runs(b.drop_last()).push(open_run(b.drop_last()))
    } else {
        closed_runs(b.drop_last())
    }
}

/// `b` split on NUL bytes: one run more than `b` holds NULs, empty runs included.
pub open spec fn nul_runs(b: Seq<u8>) -> Seq<Seq<u8>> {
    closed_runs(b).push(open_run(b))
}

/// A decoded run is kept when it holds more than three characters.
pub open spec fn is_readable(s: Seq<char>) -> bool {
    s.len() > 3
}

/// The decoded runs of `runs` that are kept, in order.
pub open spec fn readable_of(runs: Seq<Seq<u8>>) -> Seq<Seq<char>> {
    runs.map_values(|r: Seq<u8>| utf8_lossy(r)).filter(|s: Seq<char>| is_readable(s))
}

/// The readable strings of a buffer, in order, duplicates kept.
pub open spec fn readable_strings(b: Seq<u8>) -> Seq<Seq<char>> {
    readable_of(nul_runs(b))
}

/// A string that looks like a URL or an IPv4 address.
pub open spec fn is_suspicious(s: Seq<char>) -> bool {
    regex_is_match(URL_PATTERN@, s) || regex_is_match(IPV4_PATTERN@, s)
}

/// The readable strings of a buffer that look like a URL or an IPv4 address,
/// in order, duplicates kept.
pub open spec fn suspicious_strings(b: Seq<u8>) -> Seq<Seq<char>> {
    readable_strings(b).filter(|s: Seq<char>| is_suspicious(s))
}

/// The views of a list of strings.
pub open spec fn views_of(v: Seq<String>) -> Seq<Seq<char>> {
    v.map_values(|s: String| s@)
}

proof fn lemma_readable_push(runs: Seq<Seq<u8>>, r: Seq<u8>)
    ensures
        readable_of(runs.push(r)) == if is_readable(utf8_lossy(r)) {
            readable_of(runs).push(utf8_lossy(r))
        } else {
            readable_of(runs)
        },
{
    let f = |x: Seq<u8>| utf8_lossy(x);
    let p = |s: Seq<char>| is_readable(s);
    let m = runs.push(r).map_values(f);
    assert(m =~= runs.map_values(f).push(utf8_lossy(r)));
    assert(m.drop_last() =~= runs.map_values(f));
    reveal(Seq::filter);
}

proof fn lemma_filter_push(v: Seq<Seq<char>>, s: Seq<char>)
    ensures
        v.push(s).filter(|x: Seq<char>| is_suspicious(x)) == if is_suspicious(s) {
            v.filter(|x: Seq<char>| is_suspicious(x)).push(s)
        } else {
            v.filter(|x: Seq<char>| is_suspicious(x))
        },
{
    assert(v.push(s).drop_last() =~= v);
    reveal(Seq::filter);
}

/// The NUL-delimited runs of `bytes`, decoded lossily, that hold more than
/// three characters, in the order met.
pub fn get_readable_strings(bytes: &[u8]) -> (r: Vec<String>)
    ensures
        views_of(r@) == readable_strings(bytes@),
{
    let ghost b = bytes@;
    let mut out: Vec<String> = Vec::new();
    let mut run_start: usize = 0;
    let mut i: usize = 0;
    assert(b.take(0) =~= Seq::<u8>::empty());
    assert(readable_of(Seq::<Seq<u8>>::empty()) =~= Seq::<Seq<char>>::empty()) by {
        reveal(Seq::filter);
    }
    while i < bytes.len()
        invariant
            b == bytes@,
            run_start <= i <= b.len(),
            open_run(b.take(i as int)) == b.subrange(run_start as int, i as int),
            views_of(out@) == readable_of(closed_runs(b.take(i as int))),
        decreases b.len() - i,
    {
        let ghost prefix = b.take(i as int);
        let ghost next = b.take(i + 1);
        assert(next.drop_last() =~= prefix);
        assert(next.last() == b[i as int]);
        if bytes[i] == 0 {
            let run = slice_subrange(bytes, run_start, i);
            let s = decode_lossy(run);
            proof {
                lemma_readable_push(closed_runs(prefix), open_run(prefix));
            }
            if s.as_str().unicode_len() > 3 {
                let ghost before = out@;
                out.push(s);
                assert(views_of(out@) =~= views_of(before).push(s@));
            }
            run_start = i + 1;
            assert(open_run(next) =~= b.subrange(run_start as int, i + 1));
        } else {
            assert(open_run(next) =~= b.subrange(run_start as int, i + 1));
        }
        i = i + 1;
    }
    assert(b.take(i as int) =~= b);
    let run = slice_subrange(bytes, run_start, i);
    let s = decode_lossy(run);
    proof {
        lemma_readable_push(closed_runs(b), open_run(b));
    }
    if s.as_str().unicode_len() > 3 {
        let ghost before = out@;
        out.push(s);
        assert(views_of(out@) =~= views_of(before).push(s@));
    }
    out
}

/// The strings of `strings` that look like a URL or an IPv4 address, in order.
pub fn select_suspicious(strings: Vec<String>) -> (r: Vec<String>)
    ensures
        views_of(r@) == views_of(strings@).filter(|s: Seq<char>| is_suspicious(s)),
{
    let mut out: Vec<String> = Vec::new();
    let mut k: usize = 0;
    assert(views_of(strings@).take(0) =~= Seq::<Seq<char>>::empty());
    assert(Seq::<Seq<char>>::empty().filter(|s: Seq<char>| is_suspicious(s)) =~= Seq::<
        Seq<char>,
    >::empty()) by {
        reveal(Seq::filter);
    }
    while k < strings.len()
        invariant
            k <= strings@.len(),
            views_of(out@) == views_of(strings@).take(k as int).filter(
                |s: Seq<char>| is_suspicious(s),
            ),
        decreases strings@.len() - k,
    {
        let ghost v = views_of(strings@);
        assert(v.take(k + 1) =~= v.take(k as int).push(strings@[k as int]@));
        proof {
            lemma_filter_push(v.take(k as int), strings@[k as int]@);
        }
        let s = &strings[k];
        if pattern_matches(URL_PATTERN, s.as_str()) || pattern_matches(IPV4_PATTERN, s.as_str()) {
            let ghost before = out@;
            out.push(s.clone());
            assert(views_of(out@) =~= views_of(before).push(s@));
        }
        k = k + 1;
    }
    assert(views_of(strings@).take(k as int) =~= views_of(strings@));
    out
}

} // verus!
