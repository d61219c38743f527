//! Text helpers with exact specifications over character sequences.

use vstd::prelude::*;
use vstd::string::*;

verus! {

broadcast use vstd::string::group_string_axioms;

/// The characters of `s`, in order.
pub fn chars_of(s: &str) -> (v: Vec<char>)
    ensures
        v@ == s@,
{
    let mut v: Vec<char> = Vec::new();
    for c in it: s.chars()
        invariant
            it.seq() == s@,
            v@ == it.seq().take(it.index() as int),
    {
        v.push(c);
    }
    v
}

/// Whether `p` occurs in `s` starting at index `i`.
pub open spec fn occurs_at(s: Seq<char>, p: Seq<char>, i: int) -> bool {
    0 <= i && i + p.len() <= s.len() && s.subrange(i, i + p.len()) == p
}

/// Whether `p` occurs anywhere in `s`.
pub open spec fn contains_seq(s: Seq<char>, p: Seq<char>) -> bool {
    exists|i: int| occurs_at(s, p, i)
}

/// `s` with every occurrence of `p` replaced by `r`, scanning left to right
/// and never letting two replaced occurrences overlap.
pub open spec fn replaced(s: Seq<char>, p: Seq<char>, r: Seq<char>) -> Seq<char>
    decreases s.len(),
{
    if p.len() == 0 || s.len() < p.len() {
        s
    } else if s.subrange(0, p.len() as int) == p {
        r + replaced(s.skip(p.len() as int), p, r)
    } else {
        seq![s[0]] + replaced(s.skip(1), p, r)
    }
}

/// Text in which `p` does not occur is left as it is.
pub proof fn lemma_replaced_absent(s: Seq<char>, p: Seq<char>, r: Seq<char>)
    requires
        !contains_seq(s, p),
    ensures
        replaced(s, p, r) == s,
    decreases s.len(),
{
    if p.len() == 0 || s.len() < p.len() {
    } else {
        assert(!occurs_at(s, p, 0));
        assert(!contains_seq(s.skip(1), p)) by {
            if contains_seq(s.skip(1), p) {
                let i = choose|i: int| occurs_at(s.skip(1), p, i);
                assert(s.skip(1).subrange(i, i + p.len()) =~= s.subrange(i + 1, i + 1 + p.len()));
                assert(occurs_at(s, p, i + 1));
            }
        }
        lemma_replaced_absent(s.skip(1), p, r);
        assert(seq![s[0]] + s.skip(1) =~= s);
    }
}

/// Whether `p` occurs in `sv` at index `i`.
pub fn matches_at(sv: &Vec<char>, pv: &Vec<char>, i: usize) -> (r: bool)
    ensures
        r == occurs_at(sv@, pv@, i as int),
{
    if i > sv.len() || pv.len() > sv.len() - i {
        return false;
    }
    let mut j: usize = 0;
    while j < pv.len()
        invariant
            i + pv.len() <= sv.len(),
            j <= pv.len(),
            forall|k: int| 0 <= k < j ==> sv@[i + k] == pv@[k],
        decreases pv.len() - j,
    {
        if sv[i + j] != pv[j] {
            assert(sv@.subrange(i as int, i + pv@.len())[j as int] != pv@[j as int]);
            return false;
        }
        j = j + 1;
    }
    assert(sv@.subrange(i as int, i + pv@.len()) =~= pv@);
    true
}

/// Whether `p` occurs in `s`.
pub fn contains_str(s: &str, p: &str) -> (r: bool)
    ensures
        r == contains_seq(s@, p@),
{
    let sv = chars_of(s);
    let pv = chars_of(p);
    let mut i: usize = 0;
    while i < sv.len()
        invariant
            sv@ == s@,
            pv@ == p@,
            i <= sv.len(),
            forall|k: int| 0 <= k < i ==> !occurs_at(s@, p@, k),
        decreases sv.len() - i,
    {
        if matches_at(&sv, &pv, i) {
            return true;
        }
        i = i + 1;
    }
    if matches_at(&sv, &pv, i) {
        return true;
    }
    assert forall|k: int| !occurs_at(s@, p@, k) by {
        if 0 <= k <= i {
        }
    }
    false
}

proof fn lemma_replaced_step(s: Seq<char>, p: Seq<char>, r: Seq<char>, i: int)
    requires
        0 <= i < s.len(),
        p.len() > 0,
    ensures
        occurs_at(s, p, i) ==> replaced(s.skip(i), p, r) == r + replaced(s.skip(i + p.len()), p, r),
        !occurs_at(s, p, i) ==> replaced(s.skip(i), p, r) == seq![s[i]] + replaced(s.skip(i + 1), p, r),
{
    let t = s.skip(i);
    if t.len() >= p.len() {
        assert(t.subrange(0, p.len() as int) =~= s.subrange(i, i + p.len()));
    } else {
        assert(!occurs_at(s, p, i));
        if t.len() > 0 {
        }
    }
    if i + p.len() <= s.len() {
        assert(t.skip(p.len() as int) =~= s.skip(i + p.len()));
    }
    assert(t.skip(1) =~= s.skip(i + 1));
    if !occurs_at(s, p, i) && t.len() < p.len() {
        // the tail is too short to hold `p` anywhere
        assert(replaced(t, p, r) == t);
        assert(replaced(s.skip(i + 1), p, r) == s.skip(i + 1));
        assert(t =~= seq![s[i]] + s.skip(i + 1));
    }
}

/// `s` with every occurrence of `p` replaced by `r`.
pub fn replace_all(s: &str, p: &str, r: &str) -> (out: String)
    requires
        p@.len() > 0,
    ensures
        out@ == replaced(s@, p@, r@),
{
    let sv = chars_of(s);
    let pv = chars_of(p);
    let mut out = String::new();
    let mut i: usize = 0;
    let mut start: usize = 0;
    assert(s@.skip(0) =~= s@);
    assert(out@ + s@.subrange(0, 0) =~= Seq::<char>::empty());
    while i < sv.len()
        invariant
            sv@ == s@,
            pv@ == p@,
            p@.len() > 0,
            start <= i <= sv.len(),
            out@ + s@.subrange(start as int, i as int) + replaced(s@.skip(i as int), p@, r@)
                == replaced(s@, p@, r@),
        decreases sv.len() - i,
    {
        proof {
            lemma_replaced_step(s@, p@, r@, i as int);
        }
        if matches_at(&sv, &pv, i) {
            let piece = s.substring_char(start, i);
            let ghost before = out@;
            out.append(piece);
            out.append(r);
            assert(out@ =~= before + s@.subrange(start as int, i as int) + r@);
            i = i + pv.len();
            start = i;
            assert(s@.subrange(start as int, i as int) =~= Seq::<char>::empty());
        } else {
            assert(s@.subrange(start as int, i + 1) =~= s@.subrange(start as int, i as int) + seq![s@[i as int]]);
            i = i + 1;
        }
    }
    assert(s@.skip(i as int) =~= Seq::<char>::empty());
    let piece = s.substring_char(start, sv.len());
    let ghost before = out@;
    out.append(piece);
    assert(out@ =~= before + s@.subrange(start as int, i as int));
    out
}

/// The pieces of `s` between occurrences of `sep`, where `cur` is the text
/// already gathered for the current piece.
pub open spec fn split_from(s: Seq<char>, sep: Seq<char>, cur: Seq<char>) -> Seq<Seq<char>>
    decreases s.len(),
{
    if sep.len() == 0 || s.len() < sep.len() {
        seq![cur + s]
    } else if s.subrange(0, sep.len() as int) == sep {
        seq![cur] + split_from(s.skip(sep.len() as int), sep, Seq::empty())
    } else {
        split_from(s.skip(1), sep, cur.push(s[0]))
    }
}

/// The pieces of `s` separated by `sep`, as `str::split` yields them.
pub open spec fn pieces(s: Seq<char>, sep: Seq<char>) -> Seq<Seq<char>> {
    split_from(s, sep, Seq::empty())
}

/// Each string of `v` taken by its view.
pub open spec fn strings_view(v: Seq<String>) -> Seq<Seq<char>> {
    Seq::new(v.len(), |i: int| v[i]@)
}

proof fn lemma_split_step(s: Seq<char>, sep: Seq<char>, cur: Seq<char>, i: int)
    requires
        0 <= i < s.len(),
        sep.len() > 0,
    ensures
        occurs_at(s, sep, i) ==> split_from(s.skip(i), sep, cur) == seq![cur] + split_from(
            s.skip(i + sep.len()),
            sep,
            Seq::empty(),
        ),
        !occurs_at(s, sep, i) ==> split_from(s.skip(i), sep, cur) == split_from(
            s.skip(i + 1),
            sep,
            cur.push(s[i]),
        ),
{
    let t = s.skip(i);
    if t.len() >= sep.len() {
        assert(t.subrange(0, sep.len() as int) =~= s.subrange(i, i + sep.len()));
    }
    if i + sep.len() <= s.len() {
        assert(t.skip(sep.len() as int) =~= s.skip(i + sep.len()));
    }
    assert(t.skip(1) =~= s.skip(i + 1));
    if !occurs_at(s, sep, i) && t.len() < sep.len() {
        assert(split_from(s.skip(i + 1), sep, cur.push(s[i])) == seq![cur.push(s[i]) + s.skip(i + 1)]);
        assert(cur.push(s[i]) + s.skip(i + 1) =~= cur + t);
    }
}

/// The pieces of `s` separated by `sep`.
pub fn split_str(s: &str, sep: &str) -> (out: Vec<String>)
    requires
        sep@.len() > 0,
    ensures
        strings_view(out@) == pieces(s@, sep@),
        out@.len() >= 1,
{
    let sv = chars_of(s);
    let pv = chars_of(sep);
    let mut out: Vec<String> = Vec::new();
    let mut i: usize = 0;
    let mut start: usize = 0;
    assert(s@.skip(0) =~= s@);
    assert(s@.subrange(0, 0) =~= Seq::<char>::empty());
    assert(strings_view(out@) =~= Seq::<Seq<char>>::empty());
    while i < sv.len()
        invariant
            sv@ == s@,
            pv@ == sep@,
            sep@.len() > 0,
            start <= i <= sv.len(),
            strings_view(out@) + split_from(s@.skip(i as int), sep@, s@.subrange(start as int, i as int))
                == pieces(s@, sep@),
        decreases sv.len() - i,
    {
        proof {
            lemma_split_step(s@, sep@, s@.subrange(start as int, i as int), i as int);
        }
        if matches_at(&sv, &pv, i) {
            let piece = s.substring_char(start, i).to_owned();
            let ghost before = out@;
            out.push(piece);
            assert(strings_view(out@) =~= strings_view(before) + seq![s@.subrange(start as int, i as int)]);
            i = i + pv.len();
            start = i;
            assert(s@.subrange(start as int, i as int) =~= Seq::<char>::empty());
        } else {
            assert(s@.subrange(start as int, i + 1) =~= s@.subrange(start as int, i as int).push(s@[i as int]));
            i = i + 1;
        }
    }
    assert(s@.skip(i as int) =~= Seq::<char>::empty());
    assert(s@.subrange(start as int, i as int) + Seq::<char>::empty() =~= s@.subrange(start as int, i as int));
    let piece = s.substring_char(start, sv.len()).to_owned();
    let ghost before = out@;
    out.push(piece);
    assert(strings_view(out@) =~= strings_view(before) + seq![s@.subrange(start as int, i as int)]);
    out
}

/// The texts of `parts` joined with `sep` between neighbours.
pub open spec fn joined(parts: Seq<Seq<char>>, sep: Seq<char>) -> Seq<char>
    decreases parts.len(),
{
    if parts.len() == 0 {
        Seq::empty()
    } else if parts.len() == 1 {
        parts[0]
    } else {
        joined(parts.drop_last(), sep) + sep + parts.last()
    }
}

/// The texts of `parts` joined with `sep` between neighbours.
pub fn join_strings(parts: &Vec<String>, sep: &str) -> (s: String)
    ensures
        s@ == joined(strings_view(parts@), sep@),
{
    let ghost pv = strings_view(parts@);
    let mut s = String::new();
    let mut i: usize = 0;
    assert(pv.take(0) =~= Seq::<Seq<char>>::empty());
    while i < parts.len()
        invariant
            i <= parts.len(),
            pv == strings_view(parts@),
            s@ == joined(pv.take(i as int), sep@),
        decreases parts.len() - i,
    {
        assert(pv.take(i + 1).drop_last() =~= pv.take(i as int));
        assert(pv.take(i + 1).last() == parts@[i as int]@);
        if i > 0 {
            s.append(sep);
        } else {
            assert(s@ =~= Seq::<char>::empty());
        }
        s.append(parts[i].as_str());
        i = i + 1;
    }
    assert(pv.take(parts.len() as int) =~= pv);
    s
}

/// The character of decimal digit `d`.
pub open spec fn digit_char(d: nat) -> char {
    seq!['0', '1', '2', '3', '4', '5', '6', '7', '8', '9'][d as int]
}

/// The decimal digits of `n`, most significant first, without leading zeros.
pub open spec fn decimal(n: nat) -> Seq<char>
    decreases n,
{
    if n < 10 {
        seq![digit_char(n)]
    } else {
        decimal(n / 10).push(digit_char(n % 10))
    }
}

/// The decimal text of a signed integer.
pub open spec fn signed_decimal(n: int) -> Seq<char> {
    if n < 0 {
        seq!['-'] + decimal((-n) as nat)
    } else {
        decimal(n as nat)
    }
}

fn digit_str(d: u64) -> (s: &'static str)
    requires
        d < 10,
    ensures
        s@ == seq![digit_char(d as nat)],
{
    proof {
        reveal_strlit("0");
        reveal_strlit("1");
        reveal_strlit("2");
        reveal_strlit("3");
        reveal_strlit("4");
        reveal_strlit("5");
        reveal_strlit("6");
        reveal_strlit("7");
        reveal_strlit("8");
        reveal_strlit("9");
    }
    match d {
        0 => "0",
        1 => "1",
        2 => "2",
        3 => "3",
        4 => "4",
        5 => "5",
        6 => "6",
        7 => "7",
        8 => "8",
        _ => "9",
    }
}

/// Appends the decimal text of `n` to `out`.
pub fn push_decimal(out: &mut String, n: u64)
    ensures
        final(out)@ == old(out)@ + decimal(n as nat),
    decreases n,
{
    if n >= 10 {
        push_decimal(out, n / 10);
    }
    let ghost mid = out@;
    out.append(digit_str(n % 10));
    proof {
        if n >= 10 {
            assert(decimal(n as nat) == decimal((n / 10) as nat).push(digit_char((n % 10) as nat)));
        }
        assert(out@ =~= old(out)@ + decimal(n as nat));
    }
}

/// Appends the decimal text of the signed integer `n` to `out`.
pub fn push_signed_decimal(out: &mut String, n: i64)
    ensures
        final(out)@ == old(out)@ + signed_decimal(n as int),
{
    if n < 0 {
        let ghost before = out@;
        proof {
            reveal_strlit("-");
        }
        out.append("-");
        let magnitude: u64 = (-(n + 1)) as u64 + 1;
        push_decimal(out, magnitude);
        assert(out@ =~= before + signed_decimal(n as int));
    } else {
        push_decimal(out, n as u64);
    }
}

/// The text of an optional string.
pub open spec fn opt_text(o: Option<String>) -> Option<Seq<char>> {
    match o {
        Some(s) => Some(s@),
        None => None,
    }
}

/// Whether `a` and `b` hold the same text.
pub fn same_text(a: &str, b: &str) -> (r: bool)
    ensures
        r == (a@ == b@),
{
    String::from_str(a) == String::from_str(b)
}

/// `a` followed by `b`.
pub fn concat(a: &str, b: &str) -> (s: String)
    ensures
        s@ == a@ + b@,
{
    let mut s = String::from_str(a);
    s.append(b);
    s
}

/// The text the bytes `bytes` encode in UTF-8, when they are valid UTF-8.
/// Calls `String::from_utf8`, which std documents as succeeding exactly on
/// valid UTF-8 and keeping the characters the bytes encode.
#[verifier::external_body]
pub fn utf8_string(bytes: Vec<u8>) -> (r: Option<String>)
    ensures
        r is Some <==> vstd::utf8::valid_utf8(bytes@),
        r matches Some(s) ==> s@ == vstd::utf8::decode_utf8(bytes@),
{
    String::from_utf8(bytes).ok()
}


/// Whether `c` is white space, as `char::is_whitespace` says: the
/// characters of Unicode's `White_Space` property.
pub open spec fn is_white(c: char) -> bool {
    ('\u{9}' <= c <= '\u{d}') || c == ' ' || c == '\u{85}' || c == '\u{a0}' || c == '\u{1680}' || (
    '\u{2000}' <= c <= '\u{200a}') || c == '\u{2028}' || c == '\u{2029}' || c == '\u{202f}' || c == '\u{205f}'
        || c == '\u{3000}'
}

/// Whether `c` is white space.
pub fn white(c: char) -> (b: bool)
    ensures
        b == is_white(c),
{
    ('\u{9}' <= c && c <= '\u{d}') || c == ' ' || c == '\u{85}' || c == '\u{a0}' || c == '\u{1680}' || (
    '\u{2000}' <= c && c <= '\u{200a}') || c == '\u{2028}' || c == '\u{2029}' || c == '\u{202f}' || c
        == '\u{205f}' || c == '\u{3000}'
}

/// `s` without its leading white space.
pub open spec fn trim_start(s: Seq<char>) -> Seq<char>
    decreases s.len(),
{
    if s.len() > 0 && is_white(s[0]) {
        trim_start(s.drop_first())
    } else {
        s
    }
}

/// `s` without its trailing white space.
pub open spec fn trim_end(s: Seq<char>) -> Seq<char>
    decreases s.len(),
{
    if s.len() > 0 && is_white(s.last()) {
        trim_end(s.drop_last())
    } else {
        s
    }
}

/// `s` without leading and trailing white space, as `str::trim` gives it.
pub open spec fn trimmed(s: Seq<char>) -> Seq<char> {
    trim_end(trim_start(s))
}

/// `s` without leading and trailing white space.
pub fn trim_text(s: &str) -> (r: String)
    ensures
        r@ == trimmed(s@),
{
    let v = chars_of(s);
    let mut i: usize = 0;
    assert(s@.skip(0) =~= s@);
    while i < v.len() && white(v[i])
        invariant
            i <= v.len(),
            v@ == s@,
            trim_start(s@) == trim_start(s@.skip(i as int)),
        decreases v.len() - i,
    {
        assert(s@.skip(i as int).drop_first() =~= s@.skip(i + 1));
        i = i + 1;
    }
    assert(trim_start(s@.skip(i as int)) == s@.skip(i as int));
    assert(s@.skip(i as int) =~= s@.subrange(i as int, v.len() as int));
    let mut j: usize = v.len();
    while j > i && white(v[j - 1])
        invariant
            i <= j <= v.len(),
            v@ == s@,
            trimmed(s@) == trim_end(s@.subrange(i as int, j as int)),
        decreases j,
    {
        assert(s@.subrange(i as int, j as int).drop_last() =~= s@.subrange(i as int, j - 1));
        j = j - 1;
    }
    String::from_str(s.substring_char(i, j))
}

} // verus!
