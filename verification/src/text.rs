//! Text building blocks with exact specifications over `Seq<char>`.

use vstd::prelude::*;

verus! {

/// The character of a decimal digit.
pub open spec fn digit_char(d: nat) -> char {
    (d + 48) as char
}

/// The decimal representation of a natural number, without leading zeros.
pub open spec fn decimal(n: nat) -> Seq<char>
    decreases n,
{
    if n < 10 {
        seq![digit_char(n)]
    } else {
        decimal(n / 10).push(digit_char(n % 10))
    }
}

/// Calls `String::push`, which std documents as appending `c` to the end of
/// `s`: the characters of `s` afterwards are those before, then `c`.
#[verifier::external_body]
pub(crate) fn push_char(s: &mut String, c: char)
    ensures
        final(s)@ == old(s)@.push(c),
{
    s.push(c);
}

/// The number of bytes of the UTF-8 encoding of `s`.
pub open spec fn byte_len(s: Seq<char>) -> nat {
    vstd::utf8::encode_utf8(s).len()
}

/// The text whose UTF-8 encoding is the first `n` bytes of that of `s`.
pub open spec fn byte_prefix(s: Seq<char>, n: nat) -> Seq<char> {
    vstd::utf8::decode_utf8(vstd::utf8::encode_utf8(s).take(n as int))
}

/// The first `n` bytes of `s` end between two characters.
pub open spec fn cut_fits(s: Seq<char>, n: nat) -> bool {
    vstd::utf8::is_char_boundary(vstd::utf8::encode_utf8(s), n as int)
}

/// The largest cut at most `n` bytes into `s` that falls between two
/// characters.
pub open spec fn last_cut(s: Seq<char>, n: nat) -> nat
    decreases n,
{
    if n == 0 || cut_fits(s, n) {
        n
    } else {
        last_cut(s, (n - 1) as nat)
    }
}

/// The last cut falls between two characters, no further than `n`.
pub proof fn lemma_last_cut(s: Seq<char>, n: nat)
    ensures
        last_cut(s, n) <= n,
        cut_fits(s, last_cut(s, n)),
    decreases n,
{
    vstd::utf8::encode_utf8_valid_utf8(s);
    if n != 0 && !cut_fits(s, n) {
        lemma_last_cut(s, (n - 1) as nat);
    }
}

/// The largest cut at most `n` bytes into `s` that falls between two
/// characters.
pub fn last_cut_at(s: &str, n: usize) -> (k: usize)
    ensures
        k as nat == last_cut(s@, n as nat),
{
    let mut k = n;
    while k > 0 && !s.is_char_boundary(k)
        invariant
            k <= n,
            last_cut(s@, k as nat) == last_cut(s@, n as nat),
        decreases k,
    {
        k = k - 1;
    }
    k
}

/// The encoding of two texts one after the other is their encodings one
/// after the other.
pub proof fn lemma_encode_concat(a: Seq<char>, b: Seq<char>)
    ensures
        vstd::utf8::encode_utf8(a + b) == vstd::utf8::encode_utf8(a) + vstd::utf8::encode_utf8(b),
    decreases a.len(),
{
    if a.len() == 0 {
        assert(a + b =~= b);
        assert(vstd::utf8::encode_utf8(a) =~= Seq::<u8>::empty());
        assert(Seq::<u8>::empty() + vstd::utf8::encode_utf8(b) =~= vstd::utf8::encode_utf8(b));
    } else {
        assert((a + b).drop_first() =~= a.drop_first() + b);
        assert((a + b)[0] == a[0]);
        lemma_encode_concat(a.drop_first(), b);
        let h = vstd::utf8::encode_scalar(a[0] as u32);
        assert(h + (vstd::utf8::encode_utf8(a.drop_first()) + vstd::utf8::encode_utf8(b)) =~= (h
            + vstd::utf8::encode_utf8(a.drop_first())) + vstd::utf8::encode_utf8(b));
    }
}

/// Cut between two characters, the first `n` bytes of a text are the
/// encoding of its `byte_prefix`.
pub proof fn lemma_byte_prefix(s: Seq<char>, n: nat)
    requires
        n <= byte_len(s),
        cut_fits(s, n),
    ensures
        vstd::utf8::encode_utf8(byte_prefix(s, n)) == vstd::utf8::encode_utf8(s).take(n as int),
{
    let bytes = vstd::utf8::encode_utf8(s);
    vstd::utf8::encode_utf8_valid_utf8(s);
    vstd::utf8::valid_utf8_split(bytes, n as int);
    assert(bytes.take(n as int) =~= bytes.subrange(0, n as int));
    vstd::utf8::decode_utf8_encode_utf8(bytes.take(n as int));
}

/// Calls `str::len`, which std documents as the length of `s` in bytes; that
/// the answer is a `usize` also tells that the length fits one.
#[verifier::external_body]
pub(crate) fn byte_count(s: &str) -> (n: usize)
    ensures
        n as nat == byte_len(s@),
{
    s.len()
}

/// The decimal text of `n`, as `format!("{}", n)` writes it.
pub fn u64_to_decimal(n: u64) -> (s: String)
    ensures
        s@ == decimal(n as nat),
    decreases n,
{
    let d: u8 = (n % 10) as u8;
    let c: char = (d + 48u8) as char;
    if n < 10 {
        let mut s = String::new();
        push_char(&mut s, c);
        s
    } else {
        let mut s = u64_to_decimal(n / 10);
        push_char(&mut s, c);
        s
    }
}


/// The decimal text of a signed number, with a leading `-` when negative.
pub open spec fn signed_decimal(i: int) -> Seq<char> {
    if i < 0 {
        seq!['-'] + decimal((-i) as nat)
    } else {
        decimal(i as nat)
    }
}

/// The decimal text of `n`, as `format!("{}", n)` writes it.
pub fn i32_to_decimal(n: i32) -> (s: String)
    ensures
        s@ == signed_decimal(n as int),
{
    if n < 0 {
        let m: i64 = n as i64;
        let abs: u64 = (-m) as u64;
        let digits = u64_to_decimal(abs);
        let mut s = String::new();
        push_char(&mut s, '-');
        s.append(digits.as_str());
        s
    } else {
        u64_to_decimal(n as u64)
    }
}

/// The characters of `s`, in order.
pub fn chars_of(s: &str) -> (v: Vec<char>)
    ensures
        v@ == s@,
{
    let mut v: Vec<char> = Vec::new();
    for c in it: s.chars()
        invariant
            v@ == it.seq().take(it.index() as int),
            it.seq() == s@,
    {
        v.push(c);
    }
    v
}


/// The text whose characters are `v`.
pub fn string_of(v: &Vec<char>) -> (s: String)
    ensures
        s@ == v@,
{
    string_of_range(v, 0, v.len())
}

/// The text whose characters are `v[lo..hi]`.
pub fn string_of_range(v: &Vec<char>, lo: usize, hi: usize) -> (s: String)
    requires
        lo <= hi <= v@.len(),
    ensures
        s@ == v@.subrange(lo as int, hi as int),
{
    let mut s = String::new();
    let mut i = lo;
    while i < hi
        invariant
            lo <= i <= hi <= v@.len(),
            s@ == v@.subrange(lo as int, i as int),
        decreases hi - i,
    {
        push_char(&mut s, v[i]);
        assert(v@.subrange(lo as int, i + 1) =~= v@.subrange(lo as int, i as int).push(v@[i as int]));
        i = i + 1;
    }
    s
}

/// Whether `a` and `b` hold the same characters.
pub fn str_equal(a: &str, b: &str) -> (same: bool)
    ensures
        same == (a@ == b@),
{
    String::from_str(a) == String::from_str(b)
}

/// `p` is a prefix of `s`.
pub open spec fn starts_with(s: Seq<char>, p: Seq<char>) -> bool {
    p.len() <= s.len() && s.take(p.len() as int) =~= p
}

/// `p` is a suffix of `s`.
pub open spec fn ends_with(s: Seq<char>, p: Seq<char>) -> bool {
    p.len() <= s.len() && s.skip(s.len() - p.len()) =~= p
}

/// Whether `p` occurs in `s` at position `i`.
pub(crate) fn occurs_at(s: &Vec<char>, i: usize, p: &Vec<char>) -> (b: bool)
    requires
        i <= s@.len(),
    ensures
        b == starts_with(s@.skip(i as int), p@),
{
    let n = s.len();
    if p.len() > n - i {
        return false;
    }
    let mut j: usize = 0;
    while j < p.len()
        invariant
            n == s@.len(),
            i <= s@.len(),
            i + p@.len() <= s@.len(),
            j <= p@.len(),
            forall|k: int| 0 <= k < j ==> s@[i + k] == p@[k],
        decreases p.len() - j,
    {
        if s[i + j] != p[j] {
            assert(s@.skip(i as int).take(p@.len() as int)[j as int] != p@[j as int]);
            return false;
        }
        j = j + 1;
    }
    assert(s@.skip(i as int).take(p@.len() as int) =~= p@);
    true
}

/// Whether `s` starts with `p` (std's `str::starts_with` with a `&str` pattern).
pub fn str_starts_with(s: &str, p: &str) -> (b: bool)
    ensures
        b == starts_with(s@, p@),
{
    let sv = chars_of(s);
    let pv = chars_of(p);
    assert(sv@.skip(0) =~= sv@);
    occurs_at(&sv, 0, &pv)
}

/// Whether `s` ends with `p` (std's `str::ends_with` with a `&str` pattern).
pub fn str_ends_with(s: &str, p: &str) -> (b: bool)
    ensures
        b == ends_with(s@, p@),
{
    let sv = chars_of(s);
    let pv = chars_of(p);
    if pv.len() > sv.len() {
        return false;
    }
    let b = occurs_at(&sv, sv.len() - pv.len(), &pv);
    assert(sv@.skip(sv@.len() - pv@.len()).take(pv@.len() as int) =~= sv@.skip(sv@.len() - pv@.len()));
    b
}

/// Every non-overlapping occurrence of `from` in `s`, scanned from the left,
/// replaced by `to` (std's `str::replace` with a non-empty pattern).
pub open spec fn replace_all(s: Seq<char>, from: Seq<char>, to: Seq<char>) -> Seq<char>
    decreases s.len(),
{
    if s.len() == 0 {
        seq![]
    } else if from.len() > 0 && starts_with(s, from) {
        to + replace_all(s.skip(from.len() as int), from, to)
    } else {
        seq![s[0]] + replace_all(s.drop_first(), from, to)
    }
}

/// `s` with every occurrence of `from` replaced by `to`, as `s.replace(from, to)`.
pub fn replace(s: &str, from: &str, to: &str) -> (r: String)
    requires
        from@.len() > 0,
    ensures
        r@ == replace_all(s@, from@, to@),
{
    let sv = chars_of(s);
    let fv = chars_of(from);
    let mut r = String::new();
    let mut i: usize = 0;
    assert(sv@.skip(0) =~= sv@);
    while i < sv.len()
        invariant
            i <= sv@.len(),
            fv@ == from@,
            fv@.len() > 0,
            r@ + replace_all(sv@.skip(i as int), from@, to@) =~= replace_all(sv@, from@, to@),
        decreases sv.len() - i,
    {
        let ghost rest = sv@.skip(i as int);
        if occurs_at(&sv, i, &fv) {
            assert(rest.len() == sv@.len() - i);
            assert(fv@.len() <= sv@.len() - i);
            assert(rest.skip(fv@.len() as int) =~= sv@.skip(i + fv@.len()));
            r.append(to);
            i = i + fv.len();
        } else {
            assert(rest.drop_first() =~= sv@.skip(i + 1));
            assert(rest[0] == sv@[i as int]);
            push_char(&mut r, sv[i]);
            i = i + 1;
        }
    }
    assert(sv@.skip(i as int) =~= Seq::<char>::empty());
    r
}


/// The Unicode `White_Space` property, which `char::is_whitespace` tests:
/// U+0009..=U+000D, U+0020, U+0085, U+00A0, U+1680, U+2000..=U+200A,
/// U+2028, U+2029, U+202F, U+205F and U+3000.
pub open spec fn is_white_space(c: char) -> bool {
    let u = c as u32;
    ||| 0x09 <= u <= 0x0D
    ||| u == 0x20
    ||| u == 0x85
    ||| u == 0xA0
    ||| u == 0x1680
    ||| 0x2000 <= u <= 0x200A
    ||| u == 0x2028
    ||| u == 0x2029
    ||| u == 0x202F
    ||| u == 0x205F
    ||| u == 0x3000
}

/// Whether `c` is white space, as `c.is_whitespace()` tells.
pub fn white_space(c: char) -> (b: bool)
    ensures
        b == is_white_space(c),
{
    let u = c as u32;
    (0x09 <= u && u <= 0x0D) || u == 0x20 || u == 0x85 || u == 0xA0 || u == 0x1680 || (0x2000
        <= u && u <= 0x200A) || u == 0x2028 || u == 0x2029 || u == 0x202F || u == 0x205F || u
        == 0x3000
}

/// `s` without its leading white space.
pub open spec fn trim_start(s: Seq<char>) -> Seq<char>
    decreases s.len(),
{
    if s.len() > 0 && is_white_space(s[0]) {
        trim_start(s.drop_first())
    } else {
        s
    }
}

/// `s` without its leading white space, as `s.trim_start()`.
pub fn str_trim_start(s: &str) -> (r: String)
    ensures
        r@ == trim_start(s@),
{
    let v = chars_of(s);
    let mut i: usize = 0;
    assert(v@.skip(0) =~= v@);
    while i < v.len() && white_space(v[i])
        invariant
            i <= v@.len(),
            trim_start(v@.skip(i as int)) == trim_start(v@),
        decreases v.len() - i,
    {
        assert(v@.skip(i as int).drop_first() =~= v@.skip(i + 1));
        i = i + 1;
    }
    let r = string_of_range(&v, i, v.len());
    assert(v@.subrange(i as int, v@.len() as int) =~= v@.skip(i as int));
    r
}

/// `s` with every trailing repetition of the non-empty `suffix` removed.
pub open spec fn trim_end_matches(s: Seq<char>, suffix: Seq<char>) -> Seq<char>
    decreases s.len(),
{
    if suffix.len() > 0 && ends_with(s, suffix) {
        trim_end_matches(s.take(s.len() - suffix.len()), suffix)
    } else {
        s
    }
}

/// `s` with every trailing repetition of `suffix` removed, as `s.trim_end_matches(suffix)`.
pub fn str_trim_end_matches(s: &str, suffix: &str) -> (r: String)
    requires
        suffix@.len() > 0,
    ensures
        r@ == trim_end_matches(s@, suffix@),
{
    let v = chars_of(s);
    let p = chars_of(suffix);
    let mut end: usize = v.len();
    assert(v@.take(end as int) =~= v@);
    loop
        invariant
            end <= v@.len(),
            p@ == suffix@,
            p@.len() > 0,
            trim_end_matches(v@.take(end as int), suffix@) == trim_end_matches(v@, suffix@),
        ensures
            end <= v@.len(),
            v@.take(end as int) == trim_end_matches(v@, suffix@),
        decreases end,
    {
        let ghost t = v@.take(end as int);
        if p.len() > end {
            assert(!ends_with(t, suffix@));
            break;
        }
        let here = occurs_at(&v, end - p.len(), &p);
        assert(v@.skip(end - p@.len()).take(p@.len() as int) =~= t.skip(t.len() - p@.len()));
        if !here {
            assert(!ends_with(t, suffix@));
            break;
        }
        assert(t.take(t.len() - p@.len()) =~= v@.take(end - p@.len()));
        end = end - p.len();
    }
    let r = string_of_range(&v, 0, end);
    assert(v@.subrange(0, end as int) =~= v@.take(end as int));
    r
}

/// `lines` joined with `sep` between neighbours.
pub open spec fn join(lines: Seq<Seq<char>>, sep: Seq<char>) -> Seq<char>
    decreases lines.len(),
{
    if lines.len() == 0 {
        seq![]
    } else if lines.len() == 1 {
        lines[0]
    } else {
        join(lines.drop_last(), sep) + sep + lines.last()
    }
}

/// The views of a sequence of strings.
pub open spec fn views(v: Seq<String>) -> Seq<Seq<char>> {
    v.map_values(|s: String| s@)
}

/// `lines[..n]` joined with `sep`, as `lines.join(sep)` on the first `n`.
pub fn join_first(lines: &Vec<String>, n: usize, sep: &str) -> (r: String)
    requires
        n <= lines@.len(),
    ensures
        r@ == join(views(lines@.take(n as int)), sep@),
{
    let mut r = String::new();
    let mut i: usize = 0;
    while i < n
        invariant
            i <= n <= lines@.len(),
            r@ == join(views(lines@.take(i as int)), sep@),
        decreases n - i,
    {
        let ghost before = views(lines@.take(i as int));
        let ghost after = views(lines@.take(i + 1));
        assert(after.drop_last() =~= before);
        assert(after.last() == lines@[i as int]@);
        if i > 0 {
            r.append(sep);
        } else {
            assert(before.len() == 0);
        }
        r.append(lines[i].as_str());
        i = i + 1;
    }
    r
}


/// Once every trailing `suffix` is gone, the text no longer ends with it.
pub proof fn lemma_trim_end_matches_done(s: Seq<char>, suffix: Seq<char>)
    requires
        suffix.len() > 0,
    ensures
        !ends_with(trim_end_matches(s, suffix), suffix),
    decreases s.len(),
{
    if ends_with(s, suffix) {
        lemma_trim_end_matches_done(s.take(s.len() - suffix.len()), suffix);
    }
}

/// `s` written `k` times in a row.
pub open spec fn repeated(s: Seq<char>, k: nat) -> Seq<char>
    decreases k,
{
    if k == 0 {
        Seq::<char>::empty()
    } else {
        repeated(s, (k - 1) as nat) + s
    }
}

/// What `trim_end_matches` removes is a run of copies of the suffix.
pub proof fn lemma_trim_end_matches_repeats(s: Seq<char>, suffix: Seq<char>)
    requires
        suffix.len() > 0,
    ensures
        exists|k: nat| s == trim_end_matches(s, suffix) + #[trigger] repeated(suffix, k),
    decreases s.len(),
{
    if ends_with(s, suffix) {
        let t = s.take(s.len() - suffix.len());
        lemma_trim_end_matches_repeats(t, suffix);
        let k = choose|k: nat| t == trim_end_matches(t, suffix) + #[trigger] repeated(suffix, k);
        assert(s =~= t + suffix);
        assert(repeated(suffix, k + 1) == repeated(suffix, k) + suffix);
        assert(s =~= trim_end_matches(s, suffix) + repeated(suffix, k + 1));
    } else {
        assert(s =~= trim_end_matches(s, suffix) + repeated(suffix, 0));
    }
}

} // verus!
