//! Character-level text helpers shared by the parsers and the game logic.
use vstd::prelude::*;
use vstd::slice::slice_subrange;

verus! {

/// The view of an optional string.
pub open spec fn opt_view(o: Option<String>) -> Option<Seq<char>> {
    match o {
        Some(s) => Some(s@),
        None => None,
    }
}

/// Unicode `White_Space` code points: what `char::is_whitespace` accepts.
pub open spec fn is_white(c: char) -> bool {
    let u = c as u32;
    ||| (0x09 <= u && u <= 0x0D)
    ||| u == 0x20
    ||| u == 0x85
    ||| u == 0xA0
    ||| u == 0x1680
    ||| (0x2000 <= u && u <= 0x200A)
    ||| u == 0x2028
    ||| u == 0x2029
    ||| u == 0x202F
    ||| u == 0x205F
    ||| u == 0x3000
}

/// The text with its leading white space removed.
pub open spec fn trim_start_spec(s: Seq<char>) -> Seq<char>
    decreases s.len(),
{
    if s.len() > 0 && is_white(s[0]) {
        trim_start_spec(s.drop_first())
    } else {
        s
    }
}

/// The text with its trailing white space removed.
pub open spec fn trim_end_spec(s: Seq<char>) -> Seq<char>
    decreases s.len(),
{
    if s.len() > 0 && is_white(s.last()) {
        trim_end_spec(s.drop_last())
    } else {
        s
    }
}

/// The text with white space removed at both ends.
pub open spec fn trim_spec(s: Seq<char>) -> Seq<char> {
    trim_end_spec(trim_start_spec(s))
}

/// `c` with an ASCII capital letter mapped to its small letter.
pub open spec fn ascii_lower(c: char) -> char {
    if 'A' <= c && c <= 'Z' {
        ((c as u32) + 32) as char
    } else {
        c
    }
}

/// Every ASCII capital letter of `s` mapped to its small letter.
pub open spec fn lower_spec(s: Seq<char>) -> Seq<char> {
    s.map_values(|c: char| ascii_lower(c))
}

/// Trimmed and ASCII-lowercased: how free-text input is compared with known names.
pub open spec fn normalize_spec(s: Seq<char>) -> Seq<char> {
    lower_spec(trim_spec(s))
}

/// `p` is a prefix of `s`.
pub open spec fn has_prefix(s: Seq<char>, p: Seq<char>) -> bool {
    p.len() <= s.len() && s.subrange(0, p.len() as int) == p
}

/// `needle` occurs somewhere in `hay` as a contiguous run.
pub open spec fn occurs_in(hay: Seq<char>, needle: Seq<char>) -> bool {
    exists|i: int|
        0 <= i && i + needle.len() <= hay.len() && #[trigger] hay.subrange(i, i + needle.len())
            == needle
}

pub proof fn lemma_trim_start_skip(s: Seq<char>, k: int)
    requires
        0 <= k <= s.len(),
        forall|j: int| 0 <= j < k ==> is_white(#[trigger] s[j]),
    ensures
        trim_start_spec(s) == trim_start_spec(s.subrange(k, s.len() as int)),
    decreases k,
{
    if k == 0 {
        assert(s.subrange(0, s.len() as int) =~= s);
    } else {
        let t = s.drop_first();
        assert forall|j: int| 0 <= j < k - 1 implies is_white(#[trigger] t[j]) by {
            assert(t[j] == s[j + 1]);
        }
        lemma_trim_start_skip(t, k - 1);
        assert(t.subrange(k - 1, t.len() as int) =~= s.subrange(k, s.len() as int));
    }
}

pub proof fn lemma_trim_end_skip(s: Seq<char>, k: int)
    requires
        0 <= k <= s.len(),
        forall|j: int| k <= j < s.len() ==> is_white(#[trigger] s[j]),
    ensures
        trim_end_spec(s) == trim_end_spec(s.subrange(0, k)),
    decreases s.len() - k,
{
    if k == s.len() {
        assert(s.subrange(0, s.len() as int) =~= s);
    } else {
        let t = s.drop_last();
        assert forall|j: int| k <= j < t.len() implies is_white(#[trigger] t[j]) by {
            assert(t[j] == s[j]);
        }
        lemma_trim_end_skip(t, k);
        assert(t.subrange(0, k) =~= s.subrange(0, k));
    }
}

/// Whether `c` is Unicode white space.
pub fn is_white_char(c: char) -> (r: bool)
    ensures
        r == is_white(c),
{
    let u = c as u32;
    (0x09 <= u && u <= 0x0D) || u == 0x20 || u == 0x85 || u == 0xA0 || u == 0x1680 || (0x2000
        <= u && u <= 0x200A) || u == 0x2028 || u == 0x2029 || u == 0x202F || u == 0x205F || u
        == 0x3000
}

/// The characters of `s`, in order.
pub fn chars_of(s: &str) -> (r: Vec<char>)
    ensures
        r@ == s@,
{
    let mut v: Vec<char> = Vec::new();
    for c in it: s.chars()
        invariant
            v@ == it.seq().take(it.index() as int),
    {
        v.push(c);
    }
    v
}

/// Start and end of the trimmed part of `v`.
pub fn trim_bounds(v: &Vec<char>) -> (r: (usize, usize))
    ensures
        r.0 <= r.1 <= v.len(),
        v@.subrange(r.0 as int, r.1 as int) == trim_spec(v@),
        v@.subrange(r.0 as int, v.len() as int) == trim_start_spec(v@),
{
    let n = v.len();
    let mut a: usize = 0;
    while a < n && is_white_char(v[a])
        invariant
            a <= n == v.len(),
            forall|j: int| 0 <= j < a ==> is_white(#[trigger] v@[j]),
        decreases n - a,
    {
        a = a + 1;
    }
    let ghost t = v@.subrange(a as int, n as int);
    proof {
        lemma_trim_start_skip(v@, a as int);
        if a < n {
            assert(t[0] == v@[a as int]);
        }
        assert(trim_start_spec(t) == t);
    }
    let mut b: usize = n;
    while b > a && is_white_char(v[b - 1])
        invariant
            a <= b <= n == v.len(),
            t == v@.subrange(a as int, n as int),
            forall|j: int| b - a <= j < t.len() ==> is_white(#[trigger] t[j]),
        decreases b,
    {
        assert(t[b - 1 - a] == v@[b - 1]);
        b = b - 1;
    }
    proof {
        lemma_trim_end_skip(t, b - a);
        let u = t.subrange(0, b - a);
        assert(u =~= v@.subrange(a as int, b as int));
        if b > a {
            assert(u.last() == v@[b - 1]);
        }
        assert(trim_end_spec(u) == u);
    }
    (a, b)
}

/// The ASCII small letter for an ASCII capital letter; any other character unchanged.
pub fn lower_char(c: char) -> (r: char)
    ensures
        r == ascii_lower(c),
{
    if 'A' <= c && c <= 'Z' {
        ((c as u8) + 32) as char
    } else {
        c
    }
}

/// `v` with every ASCII capital letter made small.
pub fn lower_chars(v: &[char]) -> (r: Vec<char>)
    ensures
        r@ == lower_spec(v@),
{
    let mut out: Vec<char> = Vec::new();
    for i in 0..v.len()
        invariant
            out@ == lower_spec(v@.take(i as int)),
    {
        out.push(lower_char(v[i]));
        assert(lower_spec(v@.take(i + 1)) =~= lower_spec(v@.take(i as int)).push(ascii_lower(v@[i as int])));
    }
    assert(v@.take(v.len() as int) =~= v@);
    out
}

/// The characters of `s`, trimmed and ASCII-lowercased.
pub fn normalize(s: &str) -> (r: Vec<char>)
    ensures
        r@ == normalize_spec(s@),
{
    let v = chars_of(s);
    let (a, b) = trim_bounds(&v);
    let mid = slice_subrange(v.as_slice(), a, b);
    lower_chars(mid)
}

/// Whether the characters `v` spell out `lit` exactly.
pub fn chars_eq_str(v: &[char], lit: &str) -> (r: bool)
    ensures
        r == (v@ == lit@),
{
    let n = lit.unicode_len();
    if n != v.len() {
        return false;
    }
    for i in 0..n
        invariant
            n == lit@.len() == v@.len(),
            forall|j: int| 0 <= j < i ==> v@[j] == lit@[j],
    {
        if lit.get_char(i) != v[i] {
            return false;
        }
    }
    assert(v@ =~= lit@);
    true
}

/// Whether the characters `v` begin with `p`.
pub fn chars_start_with(v: &[char], p: &str) -> (r: bool)
    ensures
        r == has_prefix(v@, p@),
{
    let n = p.unicode_len();
    if n > v.len() {
        return false;
    }
    for i in 0..n
        invariant
            n == p@.len() <= v@.len(),
            forall|j: int| 0 <= j < i ==> v@[j] == p@[j],
    {
        if p.get_char(i) != v[i] {
            return false;
        }
    }
    assert(v@.subrange(0, n as int) =~= p@);
    true
}

/// Whether `needle` occurs in `hay`.
pub fn chars_contain(hay: &[char], needle: &[char]) -> (r: bool)
    ensures
        r == occurs_in(hay@, needle@),
{
    let n = hay.len();
    let m = needle.len();
    if m > n {
        return false;
    }
    let mut i: usize = 0;
    while i <= n - m
        invariant
            m <= n == hay@.len(),
            m == needle@.len(),
            i <= n - m + 1,
            forall|k: int| 0 <= k < i ==> #[trigger] hay@.subrange(k, k + m) != needle@,
        decreases n - m + 1 - i,
    {
        let mut j: usize = 0;
        while j < m && hay[i + j] == needle[j]
            invariant
                m <= n == hay@.len(),
                m == needle@.len(),
                i + m <= n,
                j <= m,
                forall|k: int| 0 <= k < j ==> hay@[i + k] == needle@[k],
            decreases m - j,
        {
            j = j + 1;
        }
        if j == m {
            assert(hay@.subrange(i as int, i + m) =~= needle@);
            return true;
        }
        assert(hay@.subrange(i as int, i + m)[j as int] != needle@[j as int]);
        i = i + 1;
    }
    assert forall|k: int| 0 <= k && k + m <= n implies #[trigger] hay@.subrange(k, k + m)
        != needle@ by {}
    false
}

/// `c` with an ASCII small letter mapped to its capital letter.
pub open spec fn ascii_upper(c: char) -> char {
    if 'a' <= c && c <= 'z' {
        ((c as u32) - 32) as char
    } else {
        c
    }
}

/// Every ASCII small letter of `s` mapped to its capital letter.
pub open spec fn upper_spec(s: Seq<char>) -> Seq<char> {
    s.map_values(|c: char| ascii_upper(c))
}

/// Two spaces before and after a text.
pub open spec fn padded(s: Seq<char>) -> Seq<char> {
    seq![' ', ' '] + s + seq![' ', ' ']
}

proof fn lemma_trim_start_map(s: Seq<char>, f: spec_fn(char) -> char)
    requires
        forall|c: char| #[trigger] is_white(f(c)) == is_white(c),
    ensures
        trim_start_spec(s.map_values(f)) == trim_start_spec(s).map_values(f),
    decreases s.len(),
{
    let m = s.map_values(f);
    if s.len() > 0 {
        assert(m[0] == f(s[0]));
        if is_white(s[0]) {
            assert(m.drop_first() =~= s.drop_first().map_values(f));
            lemma_trim_start_map(s.drop_first(), f);
        }
    } else {
        assert(m =~= s.map_values(f));
    }
}

proof fn lemma_trim_end_map(s: Seq<char>, f: spec_fn(char) -> char)
    requires
        forall|c: char| #[trigger] is_white(f(c)) == is_white(c),
    ensures
        trim_end_spec(s.map_values(f)) == trim_end_spec(s).map_values(f),
    decreases s.len(),
{
    let m = s.map_values(f);
    if s.len() > 0 {
        assert(m.last() == f(s.last()));
        if is_white(s.last()) {
            assert(m.drop_last() =~= s.drop_last().map_values(f));
            lemma_trim_end_map(s.drop_last(), f);
        }
    }
}

/// Trimming commutes with a character mapping that keeps white space white and the rest not.
proof fn lemma_trim_map(s: Seq<char>, f: spec_fn(char) -> char)
    requires
        forall|c: char| #[trigger] is_white(f(c)) == is_white(c),
    ensures
        trim_spec(s.map_values(f)) == trim_spec(s).map_values(f),
{
    lemma_trim_start_map(s, f);
    lemma_trim_end_map(trim_start_spec(s), f);
}

proof fn lemma_trim_start_first(s: Seq<char>)
    ensures
        trim_start_spec(s).len() > 0 ==> !is_white(trim_start_spec(s)[0]),
    decreases s.len(),
{
    if s.len() > 0 && is_white(s[0]) {
        lemma_trim_start_first(s.drop_first());
    }
}

proof fn lemma_trim_end_shape(s: Seq<char>)
    ensures
        trim_end_spec(s).len() <= s.len(),
        trim_end_spec(s) == s.subrange(0, trim_end_spec(s).len() as int),
        trim_end_spec(s).len() > 0 ==> !is_white(trim_end_spec(s).last()),
    decreases s.len(),
{
    if s.len() > 0 && is_white(s.last()) {
        lemma_trim_end_shape(s.drop_last());
        let t = trim_end_spec(s.drop_last());
        assert(s.drop_last().subrange(0, t.len() as int) =~= s.subrange(0, t.len() as int));
    } else {
        assert(s.subrange(0, s.len() as int) =~= s);
    }
}

/// Trimming twice is trimming once.
pub proof fn lemma_trim_idempotent(s: Seq<char>)
    ensures
        trim_spec(trim_spec(s)) == trim_spec(s),
{
    let t = trim_start_spec(s);
    let u = trim_end_spec(t);
    lemma_trim_start_first(s);
    lemma_trim_end_shape(t);
    if u.len() > 0 {
        assert(u[0] == t[0]);
    }
    assert(trim_start_spec(u) == u);
    assert(trim_end_spec(u) == u);
}

/// White space around a text does not change its trimmed form.
pub proof fn lemma_trim_padding(w1: Seq<char>, x: Seq<char>, w2: Seq<char>)
    requires
        forall|i: int| 0 <= i < w1.len() ==> is_white(#[trigger] w1[i]),
        forall|i: int| 0 <= i < w2.len() ==> is_white(#[trigger] w2[i]),
    ensures
        trim_spec(w1 + x + w2) == trim_spec(x),
{
    let y = w1 + x + w2;
    assert forall|j: int| 0 <= j < w1.len() implies is_white(#[trigger] y[j]) by {
        assert(y[j] == w1[j]);
    }
    lemma_trim_start_skip(y, w1.len() as int);
    assert(y.subrange(w1.len() as int, y.len() as int) =~= x + w2);
    lemma_trim_tail(x, w2);
}

proof fn lemma_trim_tail(x: Seq<char>, w2: Seq<char>)
    requires
        forall|i: int| 0 <= i < w2.len() ==> is_white(#[trigger] w2[i]),
    ensures
        trim_end_spec(trim_start_spec(x + w2)) == trim_end_spec(trim_start_spec(x)),
    decreases x.len(),
{
    let y = x + w2;
    if x.len() == 0 {
        assert(y =~= w2);
        lemma_trim_start_skip(w2, w2.len() as int);
        assert(w2.subrange(w2.len() as int, w2.len() as int) =~= Seq::<char>::empty());
    } else if is_white(x[0]) {
        assert(y[0] == x[0]);
        assert(y.drop_first() =~= x.drop_first() + w2);
        lemma_trim_tail(x.drop_first(), w2);
    } else {
        assert(y[0] == x[0]);
        assert forall|j: int| x.len() <= j < y.len() implies is_white(#[trigger] y[j]) by {
            assert(y[j] == w2[j - x.len()]);
        }
        lemma_trim_end_skip(y, x.len() as int);
        assert(y.subrange(0, x.len() as int) =~= x);
    }
}

/// Normalizing a normalized text changes nothing; nor do two spaces on each side and ASCII
/// capitals.
pub proof fn lemma_normalize_stable(s: Seq<char>)
    ensures
        normalize_spec(lower_spec(trim_spec(s))) == normalize_spec(s),
        normalize_spec(padded(upper_spec(s))) == normalize_spec(s),
{
    let lo = |c: char| ascii_lower(c);
    let up = |c: char| ascii_upper(c);
    assert forall|c: char| #[trigger] is_white(lo(c)) == is_white(c) by {
        if 'A' <= c && c <= 'Z' {
            assert((((c as u32) + 32) as char) as u32 == (c as u32) + 32);
        }
    }
    assert forall|c: char| #[trigger] is_white(up(c)) == is_white(c) by {
        if 'a' <= c && c <= 'z' {
            assert((((c as u32) - 32) as char) as u32 == (c as u32) - 32);
        }
    }
    assert forall|c: char| #[trigger] ascii_lower(ascii_lower(c)) == ascii_lower(c) by {
        if 'A' <= c && c <= 'Z' {
            assert((((c as u32) + 32) as char) as u32 == (c as u32) + 32);
        }
    }
    assert forall|c: char| #[trigger] ascii_lower(ascii_upper(c)) == ascii_lower(c) by {
        if 'a' <= c && c <= 'z' {
            let d = ((c as u32) - 32) as char;
            assert(d as u32 == (c as u32) - 32);
            assert((((d as u32) + 32) as char) == c);
        }
    }
    let t = trim_spec(s);
    // first law
    lemma_trim_map(t, lo);
    lemma_trim_idempotent(s);
    assert(lower_spec(t) =~= t.map_values(lo));
    assert(lower_spec(t.map_values(lo)) =~= lower_spec(t));
    // second law
    let u = upper_spec(s);
    assert(u =~= s.map_values(up));
    let sp = seq![' ', ' '];
    assert forall|i: int| 0 <= i < sp.len() implies is_white(#[trigger] sp[i]) by {}
    lemma_trim_padding(sp, u, sp);
    lemma_trim_map(s, up);
    assert(lower_spec(t.map_values(up)) =~= lower_spec(t));
}

} // verus!
