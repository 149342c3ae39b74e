use vstd::prelude::*;

use crate::text::str_equal;

verus! {

/// Unicode `White_Space`: the characters on which a header value is split.
pub open spec fn is_white_space(c: char) -> bool {
    let u = c as u32;
    (0x9 <= u && u <= 0xd) || u == 0x20 || u == 0x85 || u == 0xa0 || u == 0x1680
        || (0x2000 <= u && u <= 0x200a) || u == 0x2028 || u == 0x2029 || u == 0x202f
        || u == 0x205f || u == 0x3000
}

/// Left-to-right scan of `s`: the words already closed by a white-space
/// character, and the word still open at the end.
pub open spec fn scan_words(s: Seq<char>) -> (Seq<Seq<char>>, Seq<char>)
    decreases s.len(),
{
    if s.len() == 0 {
        (seq![], seq![])
    } else {
        let (done, open) = scan_words(s.drop_last());
        let c = s.last();
        if is_white_space(c) {
            if open.len() > 0 {
                (done.push(open), seq![])
            } else {
                (done, seq![])
            }
        } else {
            (done, open.push(c))
        }
    }
}

/// The maximal runs of non-white-space characters of `s`, in order.
pub open spec fn words(s: Seq<char>) -> Seq<Seq<char>> {
    let (done, open) = scan_words(s);
    if open.len() > 0 {
        done.push(open)
    } else {
        done
    }
}

/// The token that an `Authorization` header value carries: present exactly
/// when the value is two words of which the first is `Bearer`.
pub open spec fn bearer_token_of(h: Seq<char>) -> Option<Seq<char>> {
    let w = words(h);
    if w.len() == 2 && w[0] == "Bearer"@ {
        Some(w[1])
    } else {
        None
    }
}

/// Scanning characters none of which is white space only extends the open
/// word.
pub proof fn lemma_scan_extends_open_word(p: Seq<char>, t: Seq<char>)
    requires
        forall|i: int| 0 <= i < t.len() ==> !is_white_space(#[trigger] t[i]),
    ensures
        scan_words(p + t) == (scan_words(p).0, scan_words(p).1 + t),
    decreases t.len(),
{
    if t.len() == 0 {
        assert(p + t =~= p);
        assert(scan_words(p).1 + t =~= scan_words(p).1);
    } else {
        let u = t.drop_last();
        lemma_scan_extends_open_word(p, u);
        assert((p + t).drop_last() =~= p + u);
        assert((p + t).last() == t.last());
        assert(!is_white_space(t[t.len() - 1]));
        assert((scan_words(p).1 + u).push(t.last()) =~= scan_words(p).1 + t);
    }
}

/// `Bearer`, one space, then a token without white space: the header names
/// exactly that token.
pub proof fn lemma_bearer_header(t: Seq<char>)
    requires
        t.len() > 0,
        forall|i: int| 0 <= i < t.len() ==> !is_white_space(#[trigger] t[i]),
    ensures
        bearer_token_of("Bearer "@ + t) == Some(t),
{
    reveal_strlit("Bearer ");
    reveal_strlit("Bearer");
    let b = "Bearer"@;
    let e = Seq::<char>::empty();
    assert forall|i: int| 0 <= i < b.len() implies !is_white_space(#[trigger] b[i]) by {}
    lemma_scan_extends_open_word(e, b);
    assert(e + b =~= b);
    assert(scan_words(e) == (Seq::<Seq<char>>::empty(), e));
    assert(e + b =~= b);
    let p = "Bearer "@;
    assert(p.drop_last() =~= b);
    assert(is_white_space(p.last()));
    assert(scan_words(p) == (seq![b], e));
    lemma_scan_extends_open_word(p, t);
    assert(e + t =~= t);
    assert(words(p + t) == seq![b, t]);
}

pub fn is_white_space_char(c: char) -> (r: bool)
    ensures
        r == is_white_space(c),
{
    let u = c as u32;
    (0x9 <= u && u <= 0xd) || u == 0x20 || u == 0x85 || u == 0xa0 || u == 0x1680
        || (0x2000 <= u && u <= 0x200a) || u == 0x2028 || u == 0x2029 || u == 0x202f
        || u == 0x205f || u == 0x3000
}

/// Splits `s` into its words, as `str::split_whitespace` does.
pub fn split_words(s: &str) -> (r: Vec<String>)
    ensures
        r@.len() == words(s@).len(),
        forall|k: int| 0 <= k < r@.len() ==> #[trigger] r@[k]@ == words(s@)[k],
{
    let n = s.unicode_len();
    let mut out: Vec<String> = Vec::new();
    let mut start: usize = 0;
    let mut in_word = false;
    let mut i: usize = 0;
    while i < n
        invariant
            n == s@.len(),
            i <= n,
            start <= i,
            out@.len() == scan_words(s@.take(i as int)).0.len(),
            forall|k: int| 0 <= k < out@.len() ==> #[trigger] out@[k]@ == scan_words(s@.take(i as int)).0[k],
            scan_words(s@.take(i as int)).1 == (if in_word { s@.subrange(start as int, i as int) } else { seq![] }),
            in_word ==> start < i,
        decreases n - i,
    {
        let c = s.get_char(i);
        assert(s@.take(i + 1).drop_last() == s@.take(i as int));
        assert(s@.take(i + 1).last() == c);
        if is_white_space_char(c) {
            if in_word {
                let w = s.substring_char(start, i);
                out.push(String::from_str(w));
                in_word = false;
            }
        } else {
            if !in_word {
                start = i;
                in_word = true;
                assert(s@.subrange(start as int, i + 1) == seq![].push(c));
            } else {
                assert(s@.subrange(start as int, i + 1) == s@.subrange(start as int, i as int).push(c));
            }
        }
        i = i + 1;
    }
    assert(s@.take(n as int) == s@);
    if in_word {
        let w = s.substring_char(start, n);
        out.push(String::from_str(w));
    }
    out
}

/// Extracts the session token from an `Authorization` header value of the
/// form `Bearer <token>`.
pub fn bearer_token(header: &str) -> (r: Option<String>)
    ensures
        r matches Some(t) ==> bearer_token_of(header@) == Some(t@),
        r is None ==> bearer_token_of(header@) is None,
{
    let w = split_words(header);
    if w.len() == 2 && str_equal(w[0].as_str(), "Bearer") {
        Some(w[1].clone())
    } else {
        None
    }
}

} // verus!
