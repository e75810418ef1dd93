//! Verified text utilities: comparison, case folding, trimming,
//! whitespace tokenization and substring search over `&str` / `String`.
use vstd::prelude::*;

verus! {

/// The whitespace characters recognized by trimming and tokenization.
pub open spec fn is_ws_char(c: char) -> bool {
    c == ' ' || c == '\t' || c == '\n' || c == '\r'
}

/// Executable test matching `is_ws_char`.
pub fn ws_char(c: char) -> (r: bool)
    ensures
        r == is_ws_char(c),
{
    c == ' ' || c == '\t' || c == '\n' || c == '\r'
}

/// Relies on `String::push`: appends one character at the end.
#[verifier::external_body]
pub fn push_char(s: &mut String, c: char)
    ensures
        final(s)@ == old(s)@.push(c),
{
    s.push(c);
}

/// Character-for-character equality of two string slices.
pub fn str_eq(a: &str, b: &str) -> (r: bool)
    ensures
        r == (a@ == b@),
{
    let a_len = a.unicode_len();
    let b_len = b.unicode_len();
    if a_len != b_len {
        assert(a@ =~= b@ ==> a@.len() == b@.len());
        return false;
    }
    let mut i: usize = 0;
    while i < a_len
        invariant
            a_len == a@.len(),
            b_len == b@.len(),
            a_len == b_len,
            i <= a_len,
            forall|j: int| 0 <= j < i ==> a@[j] == b@[j],
        decreases a_len - i,
    {
        if a.get_char(i) != b.get_char(i) {
            assert(a@[i as int] != b@[i as int]);
            assert(a@ =~= b@ ==> a@[i as int] == b@[i as int]);
            return false;
        }
        i += 1;
    }
    assert(a@ =~= b@);
    true
}

/// ASCII case folding of one character; other characters are unchanged.
pub open spec fn lower_char(c: char) -> char {
    if 'A' <= c && c <= 'Z' {
        (((c as u8) + 32) as char)
    } else {
        c
    }
}

/// ASCII case folding of a character sequence.
pub open spec fn lower_seq(s: Seq<char>) -> Seq<char> {
    s.map_values(|c: char| lower_char(c))
}

/// ASCII-lowercases a string slice; non-ASCII characters pass through.
pub fn ascii_lower(s: &str) -> (r: String)
    ensures
        r@ == lower_seq(s@),
{
    let len = s.unicode_len();
    let mut out = String::new();
    let mut i: usize = 0;
    while i < len
        invariant
            len == s@.len(),
            i <= len,
            out@ == lower_seq(s@.take(i as int)),
        decreases len - i,
    {
        let c = s.get_char(i);
        let low = if 'A' <= c && c <= 'Z' {
            (((c as u8) + 32) as char)
        } else {
            c
        };
        assert(low == lower_char(c));
        push_char(&mut out, low);
        assert(s@.take(i + 1).drop_last() =~= s@.take(i as int));
        assert(lower_seq(s@.take(i + 1)) =~= lower_seq(s@.take(i as int)).push(low));
        i += 1;
    }
    assert(s@.take(len as int) =~= s@);
    out
}

/// `needle` occurs as a contiguous subsequence of `hay`.
pub open spec fn contains_seq(hay: Seq<char>, needle: Seq<char>) -> bool {
    exists|k: int|
        0 <= k && k + needle.len() <= hay.len() && #[trigger] hay.subrange(k, k + needle.len())
            == needle
}

/// Whether `needle` occurs inside `hay`, by direct search.
pub fn contains_str(hay: &str, needle: &str) -> (r: bool)
    ensures
        r == contains_seq(hay@, needle@),
{
    let hay_len = hay.unicode_len();
    let needle_len = needle.unicode_len();
    if needle_len > hay_len {
        assert(!contains_seq(hay@, needle@));
        return false;
    }
    if needle_len == 0 {
        assert(hay@.subrange(0, 0 + needle@.len() as int) =~= needle@);
        return true;
    }
    let mut k: usize = 0;
    while k <= hay_len - needle_len
        invariant
            hay_len == hay@.len(),
            needle_len == needle@.len(),
            0 < needle_len <= hay_len,
            k <= hay_len - needle_len + 1,
            forall|j: int|
                0 <= j < k ==> #[trigger] hay@.subrange(j, j + needle@.len() as int) != needle@,
        decreases hay_len - needle_len + 1 - k,
    {
        let mut i: usize = 0;
        let mut hit = true;
        while i < needle_len
            invariant
                hay_len == hay@.len(),
                needle_len == needle@.len(),
                needle_len <= hay_len,
                k <= hay_len - needle_len,
                i <= needle_len,
                hit ==> forall|j: int| 0 <= j < i ==> hay@[k + j] == needle@[j],
                !hit ==> hay@.subrange(k as int, k + needle@.len() as int) != needle@,
            decreases needle_len - i,
        {
            if hit && hay.get_char(k + i) != needle.get_char(i) {
                assert(hay@.subrange(k as int, k + needle@.len() as int)[i as int]
                    != needle@[i as int]);
                hit = false;
            }
            i += 1;
        }
        if hit {
            assert(hay@.subrange(k as int, k + needle@.len() as int) =~= needle@);
            return true;
        }
        k += 1;
    }
    assert forall|j: int|
        0 <= j && j + needle@.len() <= hay@.len() implies #[trigger] hay@.subrange(
        j,
        j + needle@.len() as int,
    ) != needle@ by {
        assert(j < k);
    }
    false
}

/// Number of whitespace characters at the front of `s`.
pub open spec fn leading_ws(s: Seq<char>) -> nat
    decreases s.len(),
{
    if s.len() == 0 {
        0
    } else if is_ws_char(s[0]) {
        1 + leading_ws(s.subrange(1, s.len() as int))
    } else {
        0
    }
}

/// Number of whitespace characters at the back of `s`.
pub open spec fn trailing_ws(s: Seq<char>) -> nat
    decreases s.len(),
{
    if s.len() == 0 {
        0
    } else if is_ws_char(s[s.len() - 1]) {
        1 + trailing_ws(s.subrange(0, s.len() - 1))
    } else {
        0
    }
}

/// `s` with whitespace removed from both ends.
pub open spec fn trim_spec(s: Seq<char>) -> Seq<char> {
    if leading_ws(s) == s.len() {
        Seq::empty()
    } else {
        s.subrange(leading_ws(s) as int, s.len() - trailing_ws(s))
    }
}

proof fn lemma_leading_ws_at(s: Seq<char>, i: int)
    requires
        0 <= i <= s.len(),
        forall|j: int| 0 <= j < i ==> is_ws_char(s[j]),
        i == s.len() || !is_ws_char(s[i]),
    ensures
        leading_ws(s) == i,
    decreases i,
{
    if i == 0 {
    } else {
        let t = s.subrange(1, s.len() as int);
        assert forall|j: int| 0 <= j < i - 1 implies is_ws_char(t[j]) by {
            assert(t[j] == s[j + 1]);
        }
        if i - 1 < t.len() {
            assert(t[i - 1] == s[i]);
        }
        lemma_leading_ws_at(t, i - 1);
    }
}

proof fn lemma_trailing_ws_at(s: Seq<char>, i: int)
    requires
        0 <= i <= s.len(),
        forall|j: int| s.len() - i <= j < s.len() ==> is_ws_char(s[j]),
        i == s.len() || !is_ws_char(s[s.len() - i - 1]),
    ensures
        trailing_ws(s) == i,
    decreases i,
{
    if i == 0 {
    } else {
        let t = s.subrange(0, s.len() - 1);
        assert(is_ws_char(s[s.len() - 1]));
        assert forall|j: int| t.len() - (i - 1) <= j < t.len() implies is_ws_char(t[j]) by {
            assert(t[j] == s[j]);
        }
        lemma_trailing_ws_at(t, i - 1);
    }
}

/// Removes whitespace from both ends of `s`.
pub fn trim_str(s: &str) -> (r: String)
    ensures
        r@ == trim_spec(s@),
{
    let len = s.unicode_len();
    let mut a: usize = 0;
    while a < len && ws_char(s.get_char(a))
        invariant
            len == s@.len(),
            a <= len,
            forall|j: int| 0 <= j < a ==> is_ws_char(s@[j]),
        decreases len - a,
    {
        a += 1;
    }
    proof {
        lemma_leading_ws_at(s@, a as int);
    }
    if a == len {
        return String::new();
    }
    let mut b: usize = len;
    while b > a && ws_char(s.get_char(b - 1))
        invariant
            len == s@.len(),
            a <= b <= len,
            a < len,
            !is_ws_char(s@[a as int]),
            forall|j: int| b <= j < len ==> is_ws_char(s@[j]),
        decreases b,
    {
        b -= 1;
    }
    proof {
        if b == a {
            assert(!is_ws_char(s@[s@.len() - (len - b) - 1]));
        }
        lemma_trailing_ws_at(s@, len - b);
    }
    s.substring_char(a, b).to_owned()
}

/// Trimming the empty sequence yields the empty sequence.
pub proof fn lemma_trim_empty()
    ensures
        trim_spec(Seq::<char>::empty()) == Seq::<char>::empty(),
{
}

/// Number of non-whitespace characters at the front of `s`.
pub open spec fn token_len(s: Seq<char>) -> nat
    decreases s.len(),
{
    if s.len() == 0 || is_ws_char(s[0]) {
        0
    } else {
        1 + token_len(s.subrange(1, s.len() as int))
    }
}

proof fn lemma_token_len_le(s: Seq<char>)
    ensures
        token_len(s) <= s.len(),
    decreases s.len(),
{
    if s.len() > 0 && !is_ws_char(s[0]) {
        lemma_token_len_le(s.subrange(1, s.len() as int));
    }
}

proof fn lemma_token_len_at(s: Seq<char>, i: int)
    requires
        0 <= i <= s.len(),
        forall|j: int| 0 <= j < i ==> !is_ws_char(s[j]),
        i == s.len() || is_ws_char(s[i]),
    ensures
        token_len(s) == i,
    decreases i,
{
    if i == 0 {
    } else {
        let t = s.subrange(1, s.len() as int);
        assert forall|j: int| 0 <= j < i - 1 implies !is_ws_char(t[j]) by {
            assert(t[j] == s[j + 1]);
        }
        if i - 1 < t.len() {
            assert(t[i - 1] == s[i]);
        }
        lemma_token_len_at(t, i - 1);
    }
}

/// The whitespace-separated tokens of `s`, in order.
pub open spec fn tokens_of(s: Seq<char>) -> Seq<Seq<char>>
    decreases s.len(),
    via tokens_of_decreases
{
    if s.len() == 0 {
        Seq::empty()
    } else if is_ws_char(s[0]) {
        tokens_of(s.subrange(1, s.len() as int))
    } else {
        seq![s.subrange(0, token_len(s) as int)] + tokens_of(
            s.subrange(token_len(s) as int, s.len() as int),
        )
    }
}

#[via_fn]
proof fn tokens_of_decreases(s: Seq<char>) {
    if s.len() > 0 && !is_ws_char(s[0]) {
        lemma_token_len_le(s);
        assert(token_len(s) >= 1);
    }
}

/// Splits `s` into its whitespace-separated tokens.
pub fn split_ws(s: &str) -> (r: Vec<String>)
    ensures
        r.deep_view() == tokens_of(s@),
{
    let len = s.unicode_len();
    let mut out: Vec<String> = Vec::new();
    let mut i: usize = 0;
    proof {
        assert(s@.subrange(0, len as int) =~= s@);
        assert(out.deep_view() + tokens_of(s@) =~= tokens_of(s@));
    }
    while i < len
        invariant
            len == s@.len(),
            i <= len,
            out.deep_view() + tokens_of(s@.subrange(i as int, len as int)) == tokens_of(s@),
        decreases len - i,
    {
        let ghost rest = s@.subrange(i as int, len as int);
        if ws_char(s.get_char(i)) {
            proof {
                assert(rest[0] == s@[i as int]);
                assert(rest.subrange(1, rest.len() as int) =~= s@.subrange(i + 1, len as int));
            }
            i += 1;
        } else {
            let mut j = i + 1;
            while j < len && !ws_char(s.get_char(j))
                invariant
                    len == s@.len(),
                    i < j <= len,
                    forall|m: int| i <= m < j ==> !is_ws_char(s@[m]),
                decreases len - j,
            {
                j += 1;
            }
            let tok = s.substring_char(i, j).to_owned();
            proof {
                assert forall|m: int| 0 <= m < j - i implies !is_ws_char(rest[m]) by {
                    assert(rest[m] == s@[i + m]);
                }
                if j - i < rest.len() {
                    assert(rest[j - i] == s@[j as int]);
                }
                lemma_token_len_at(rest, j - i);
                assert(rest.subrange(0, token_len(rest) as int) =~= s@.subrange(i as int, j as int));
                assert(rest.subrange(token_len(rest) as int, rest.len() as int) =~= s@.subrange(
                    j as int,
                    len as int,
                ));
                assert(tokens_of(rest) == seq![s@.subrange(i as int, j as int)] + tokens_of(
                    s@.subrange(j as int, len as int),
                ));
            }
            let ghost dv = out.deep_view();
            out.push(tok);
            proof {
                assert(out.deep_view() =~= dv.push(tok@));
                assert(dv.push(tok@) + tokens_of(s@.subrange(j as int, len as int)) =~= dv + (
                seq![s@.subrange(i as int, j as int)] + tokens_of(
                    s@.subrange(j as int, len as int),
                )));
            }
            i = j;
        }
    }
    proof {
        assert(s@.subrange(len as int, len as int) =~= Seq::<char>::empty());
        assert(out.deep_view() + Seq::<Seq<char>>::empty() =~= out.deep_view());
    }
    out
}

/// The items of `items` concatenated with `sep` between neighbours.
pub open spec fn join_seq(items: Seq<Seq<char>>, sep: Seq<char>) -> Seq<char>
    decreases items.len(),
{
    if items.len() == 0 {
        Seq::empty()
    } else if items.len() == 1 {
        items[0]
    } else {
        items[0] + sep + join_seq(items.subrange(1, items.len() as int), sep)
    }
}

proof fn lemma_join_snoc(items: Seq<Seq<char>>, sep: Seq<char>, x: Seq<char>)
    ensures
        join_seq(items.push(x), sep) == if items.len() == 0 {
            x
        } else {
            join_seq(items, sep) + sep + x
        },
    decreases items.len(),
{
    let p = items.push(x);
    if items.len() == 0 {
        assert(p[0] == x);
    } else {
        assert(p.subrange(1, p.len() as int) =~= items.subrange(1, items.len() as int).push(x));
        lemma_join_snoc(items.subrange(1, items.len() as int), sep, x);
        if items.len() == 1 {
            assert(join_seq(items, sep) == items[0]);
        } else {
            assert(join_seq(items, sep) == items[0] + sep + join_seq(
                items.subrange(1, items.len() as int),
                sep,
            ));
            assert((items[0] + sep + join_seq(items.subrange(1, items.len() as int), sep)) + sep + x
                =~= items[0] + sep + (join_seq(items.subrange(1, items.len() as int), sep) + sep
                + x));
        }
    }
}

/// Concatenates `items`, writing `sep` between neighbours.
pub fn join_strings(items: &Vec<String>, sep: &str) -> (r: String)
    ensures
        r@ == join_seq(items.deep_view(), sep@),
{
    let mut out = String::new();
    let mut i: usize = 0;
    while i < items.len()
        invariant
            i <= items.len(),
            out@ == join_seq(items.deep_view().subrange(0, i as int), sep@),
        decreases items.len() - i,
    {
        if i > 0 {
            out.append(sep);
        }
        out.append(items[i].as_str());
        proof {
            let dv = items.deep_view();
            assert(dv.subrange(0, i + 1) =~= dv.subrange(0, i as int).push(dv[i as int]));
            lemma_join_snoc(dv.subrange(0, i as int), sep@, dv[i as int]);
        }
        i += 1;
    }
    proof {
        assert(items.deep_view().subrange(0, items.deep_view().len() as int) =~= items.deep_view());
    }
    out
}

/// The character for decimal digit `d`.
pub open spec fn digit_char(d: nat) -> char {
    ((48 + d) as u8) as char
}

/// The decimal representation of `n`, most significant digit first.
pub open spec fn dec_str(n: nat) -> Seq<char>
    decreases n,
{
    if n < 10 {
        seq![digit_char(n)]
    } else {
        dec_str(n / 10).push(digit_char(n % 10))
    }
}

/// Appends the decimal representation of `n` to `out`.
pub fn push_u64_dec(out: &mut String, n: u64)
    ensures
        final(out)@ == old(out)@ + dec_str(n as nat),
    decreases n,
{
    if n < 10 {
        push_char(out, ((48 + n as u8)) as char);
        assert(old(out)@ + dec_str(n as nat) =~= old(out)@.push(digit_char(n as nat)));
    } else {
        push_u64_dec(out, n / 10);
        push_char(out, (48 + (n % 10) as u8) as char);
        assert(old(out)@ + dec_str(n as nat) =~= (old(out)@ + dec_str((n / 10) as nat)).push(
            digit_char((n % 10) as nat),
        ));
    }
}

/// The decimal representation of `n` as a string.
pub fn u64_to_string(n: u64) -> (r: String)
    ensures
        r@ == dec_str(n as nat),
{
    let mut out = String::new();
    push_u64_dec(&mut out, n);
    proof {
        assert(Seq::<char>::empty() + dec_str(n as nat) =~= dec_str(n as nat));
    }
    out
}

} // verus!
