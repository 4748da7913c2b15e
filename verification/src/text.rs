//! Recognising the stop command that ends the event loop when it is typed
//! on standard input.

use vstd::prelude::*;
use vstd::utf8::{decode_utf8, valid_utf8};

verus! {

/// The characters that `String::from_utf8_lossy` makes of `bytes`: valid
/// UTF-8 decoded, each invalid sequence replaced by U+FFFD.
pub uninterp spec fn utf8_lossy(bytes: Seq<u8>) -> Seq<char>;

/// The replacement character U+FFFD.
pub open spec fn replacement_char() -> char {
    '\u{FFFD}'
}

/// Calls `String::from_utf8_lossy` and collects the characters of its
/// result. Claimed, as std documents it: the characters are
/// `utf8_lossy(bytes)`; valid UTF-8 comes back as its plain decoding; and
/// each invalid sequence is replaced by U+FFFD, so invalid input yields at
/// least one U+FFFD. Where in the result the replacements stand, and how
/// many there are, is left unsaid.
#[verifier::external_body]
fn decode_lossy(bytes: &[u8]) -> (r: Vec<char>)
    ensures
        r@ == utf8_lossy(bytes@),
        valid_utf8(bytes@) ==> r@ == decode_utf8(bytes@),
        !valid_utf8(bytes@) ==> r@.contains(replacement_char()),
{
    String::from_utf8_lossy(bytes).chars().collect()
}

/// Unicode's White_Space characters, which `char::is_whitespace` accepts.
pub open spec fn is_white_space(c: char) -> bool {
    let v = c as u32;
    ||| 0x09 <= v <= 0x0d
    ||| v == 0x20
    ||| v == 0x85
    ||| v == 0xa0
    ||| v == 0x1680
    ||| 0x2000 <= v <= 0x200a
    ||| v == 0x2028
    ||| v == 0x2029
    ||| v == 0x202f
    ||| v == 0x205f
    ||| v == 0x3000
}

/// How many characters at the start of `s` are white space.
pub open spec fn leading_white_space(s: Seq<char>) -> nat
    decreases s.len(),
{
    if s.len() > 0 && is_white_space(s[0]) {
        1 + leading_white_space(s.drop_first())
    } else {
        0
    }
}

/// How many characters at the end of `s` are white space.
pub open spec fn trailing_white_space(s: Seq<char>) -> nat
    decreases s.len(),
{
    if s.len() > 0 && is_white_space(s.last()) {
        1 + trailing_white_space(s.drop_last())
    } else {
        0
    }
}

/// `s` without its leading and trailing white space, as `str::trim` gives.
pub open spec fn trimmed(s: Seq<char>) -> Seq<char> {
    let t = s.skip(leading_white_space(s) as int);
    t.take(t.len() - trailing_white_space(t))
}

/// The command that stops the event loop.
pub open spec fn stop_word() -> Seq<char> {
    seq!['s', 't', 'o', 'p']
}

/// Whether the bytes read from `fd` are the stop command: they came from
/// standard input, are valid UTF-8 and, decoded and trimmed, read "stop".
pub open spec fn is_stop(fd: i32, bytes: Seq<u8>) -> bool {
    fd == 0 && valid_utf8(bytes) && trimmed(decode_utf8(bytes)) == stop_word()
}

/// `char::is_whitespace`.
pub fn is_whitespace(c: char) -> (r: bool)
    ensures
        r == is_white_space(c),
{
    let v = c as u32;
    (0x09 <= v && v <= 0x0d) || v == 0x20 || v == 0x85 || v == 0xa0 || v == 0x1680 || (0x2000
        <= v && v <= 0x200a) || v == 0x2028 || v == 0x2029 || v == 0x202f || v == 0x205f || v
        == 0x3000
}

proof fn lemma_leading_step(s: Seq<char>, a: int)
    requires
        0 <= a < s.len(),
        is_white_space(s[a]),
    ensures
        leading_white_space(s.skip(a)) == 1 + leading_white_space(s.skip(a + 1)),
{
    assert(s.skip(a).drop_first() =~= s.skip(a + 1));
}

proof fn lemma_trailing_step(s: Seq<char>, b: int)
    requires
        0 < b <= s.len(),
        is_white_space(s[b - 1]),
    ensures
        trailing_white_space(s.take(b)) == 1 + trailing_white_space(s.take(b - 1)),
{
    assert(s.take(b).drop_last() =~= s.take(b - 1));
}

proof fn lemma_leading_stops_before(s: Seq<char>, k: int)
    requires
        0 <= k < s.len(),
        !is_white_space(s[k]),
    ensures
        leading_white_space(s) <= k,
    decreases s.len(),
{
    if s.len() > 0 && is_white_space(s[0]) {
        assert(s.drop_first()[k - 1] == s[k]);
        lemma_leading_stops_before(s.drop_first(), k - 1);
    }
}

proof fn lemma_trailing_stops_after(s: Seq<char>, k: int)
    requires
        0 <= k < s.len(),
        !is_white_space(s[k]),
    ensures
        trailing_white_space(s) <= s.len() - 1 - k,
    decreases s.len(),
{
    if s.len() > 0 && is_white_space(s.last()) {
        assert(s.drop_last()[k] == s[k]);
        lemma_trailing_stops_after(s.drop_last(), k);
    }
}

/// Trimming removes white space only: every other character of `s` is still
/// in `trimmed(s)`.
pub proof fn lemma_trim_keeps_other_chars(s: Seq<char>, c: char)
    requires
        s.contains(c),
        !is_white_space(c),
    ensures
        trimmed(s).contains(c),
{
    let k = choose|k: int| 0 <= k < s.len() && s[k] == c;
    lemma_leading_stops_before(s, k);
    let a = leading_white_space(s) as int;
    let t = s.skip(a);
    assert(t[k - a] == c);
    lemma_trailing_stops_after(t, k - a);
    let u = t.take(t.len() - trailing_white_space(t));
    assert(u[k - a] == c);
}

/// The bounds of `chars` without its leading and trailing white space:
/// `chars[start..end]` is `str::trim` of `chars`.
pub fn trim_bounds(chars: &Vec<char>) -> (r: (usize, usize))
    ensures
        r.0 <= r.1 <= chars.len(),
        chars@.subrange(r.0 as int, r.1 as int) == trimmed(chars@),
{
    let ghost s = chars@;
    let n = chars.len();
    let mut a: usize = 0;
    assert(s.skip(0) =~= s);
    while a < n && is_whitespace(chars[a])
        invariant
            n == s.len(),
            s == chars@,
            a <= n,
            leading_white_space(s) == a + leading_white_space(s.skip(a as int)),
        decreases n - a,
    {
        proof {
            lemma_leading_step(s, a as int);
        }
        a = a + 1;
    }
    proof {
        if a < n {
            assert(!is_white_space(s.skip(a as int)[0]));
        }
        assert(leading_white_space(s.skip(a as int)) == 0);
    }
    let ghost t = s.skip(a as int);
    let mut b: usize = n;
    assert(t.take(n - a) =~= t);
    while b > a && is_whitespace(chars[b - 1])
        invariant
            n == s.len(),
            s == chars@,
            t == s.skip(a as int),
            a <= b <= n,
            trailing_white_space(t) == (n - b) + trailing_white_space(t.take(b - a)),
        decreases b - a,
    {
        proof {
            assert(t[b - a - 1] == s[b - 1]);
            lemma_trailing_step(t, b - a);
        }
        b = b - 1;
    }
    proof {
        if b > a {
            assert(t.take(b - a).last() == s[b - 1]);
        }
        assert(trailing_white_space(t.take(b - a)) == 0);
        assert(s.subrange(a as int, b as int) =~= t.take(t.len() - trailing_white_space(t)));
    }
    (a, b)
}

/// Whether what was read from `fd` is the stop command: `fd` is standard
/// input and the bytes, decoded with replacement of invalid UTF-8 and
/// trimmed of white space, read "stop". Invalid UTF-8 never reads "stop",
/// since its replacement character is no white space.
pub fn is_stop_command(fd: i32, bytes: &[u8]) -> (r: bool)
    ensures
        r == is_stop(fd, bytes@),
        r == (fd == 0 && trimmed(utf8_lossy(bytes@)) == stop_word()),
{
    if fd != 0 {
        return false;
    }
    let chars = decode_lossy(bytes);
    proof {
        if !valid_utf8(bytes@) {
            assert(!is_white_space(replacement_char()));
            lemma_trim_keeps_other_chars(chars@, replacement_char());
            if trimmed(chars@) == stop_word() {
                let k = choose|k: int| 0 <= k < stop_word().len() && stop_word()[k] == replacement_char();
                assert(stop_word()[k] != replacement_char());
            }
        }
    }
    let (a, b) = trim_bounds(&chars);
    let ghost t = chars@.subrange(a as int, b as int);
    if b - a != 4 {
        proof {
            assert(t.len() != stop_word().len());
        }
        return false;
    }
    let r = chars[a] == 's' && chars[a + 1] == 't' && chars[a + 2] == 'o' && chars[a + 3] == 'p';
    proof {
        if r {
            assert(t =~= stop_word());
        } else {
            assert(t != stop_word()) by {
                if t == stop_word() {
                    assert(t[0] == 's' && t[1] == 't' && t[2] == 'o' && t[3] == 'p');
                }
            }
        }
    }
    r
}

} // verus!

verus! {

proof fn lemma_leading_shape(s: Seq<char>)
    ensures
        leading_white_space(s) <= s.len(),
        forall|i: int| 0 <= i < leading_white_space(s) ==> is_white_space(#[trigger] s[i]),
        leading_white_space(s) < s.len() ==> !is_white_space(s[leading_white_space(s) as int]),
    decreases s.len(),
{
    if s.len() > 0 && is_white_space(s[0]) {
        let r = s.drop_first();
        lemma_leading_shape(r);
        assert forall|i: int| 0 <= i < leading_white_space(s) implies is_white_space(#[trigger] s[i]) by {
            if i > 0 {
                assert(s[i] == r[i - 1]);
            }
        }
        if leading_white_space(s) < s.len() {
            assert(s[leading_white_space(s) as int] == r[leading_white_space(r) as int]);
        }
    }
}

proof fn lemma_trailing_shape(s: Seq<char>)
    ensures
        trailing_white_space(s) <= s.len(),
        forall|i: int|
            s.len() - trailing_white_space(s) <= i < s.len() ==> is_white_space(#[trigger] s[i]),
        trailing_white_space(s) < s.len() ==> !is_white_space(
            s[s.len() - 1 - trailing_white_space(s)],
        ),
    decreases s.len(),
{
    if s.len() > 0 && is_white_space(s.last()) {
        let r = s.drop_last();
        lemma_trailing_shape(r);
        assert forall|i: int| s.len() - trailing_white_space(s) <= i < s.len() implies is_white_space(
            #[trigger] s[i],
        ) by {
            if i < s.len() - 1 {
                assert(s[i] == r[i]);
            }
        }
        if trailing_white_space(s) < s.len() {
            assert(s[s.len() - 1 - trailing_white_space(s)] == r[r.len() - 1 - trailing_white_space(r)]);
        }
    }
}

/// Trimming cuts `s` down to a stretch `s[a..b]`: everything before `a` and
/// from `b` on is white space, and a non-empty result neither starts nor
/// ends with white space. So "stop" is recognised with any white space
/// around it and nothing else.
pub proof fn lemma_trimmed_shape(s: Seq<char>)
    ensures
        exists|a: int, b: int|
            {
                &&& 0 <= a <= b <= s.len()
                &&& trimmed(s) == s.subrange(a, b)
                &&& forall|i: int| 0 <= i < a ==> is_white_space(#[trigger] s[i])
                &&& forall|i: int| b <= i < s.len() ==> is_white_space(#[trigger] s[i])
                &&& a < b ==> !is_white_space(s[a]) && !is_white_space(s[b - 1])
            },
{
    lemma_leading_shape(s);
    let a = leading_white_space(s) as int;
    let t = s.skip(a);
    lemma_trailing_shape(t);
    let b = a + t.len() - trailing_white_space(t);
    assert(trimmed(s) =~= s.subrange(a, b));
    assert forall|i: int| b <= i < s.len() implies is_white_space(#[trigger] s[i]) by {
        assert(s[i] == t[i - a]);
    }
    if a < b {
        assert(s[a] == t[0]);
        assert(s[b - 1] == t[t.len() - 1 - trailing_white_space(t)]);
        if trailing_white_space(t) == t.len() {
            assert(false);
        }
    }
}

} // verus!
