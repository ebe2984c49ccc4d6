//! Character-level helpers on strings: splitting a string into its chars,
//! Unicode whitespace trimming, ASCII case-insensitive comparison and the
//! "looks like an absolute path" rule.

use vstd::prelude::*;

verus! {

broadcast use vstd::string::group_string_axioms;

/// The chars of `s`, in order.
pub fn chars_of(s: &str) -> (v: Vec<char>)
    ensures
        v@ == s@,
{
    let mut v: Vec<char> = Vec::new();
    for c in it: s.chars()
        invariant
            v@.len() == it.index(),
            forall|i: int| 0 <= i < v@.len() ==> v@[i] == it.seq()[i],
    {
        v.push(c);
    }
    assert(v@ =~= s@);
    v
}


/// The Unicode `White_Space` property, the set that `char::is_whitespace`
/// and `str::trim` use.
pub open spec fn is_white_space(c: char) -> bool {
    let u = c as u32;
    ||| 0x09 <= u <= 0x0D
    ||| u == 0x20
    ||| u == 0x85
    ||| u == 0xA0
    ||| u == 0x1680
    ||| 0x2000 <= u <= 0x200A
    ||| u == 0x2028
    ||| u == 0x2029
    ||| u == 0x202F
    ||| u == 0x205F
    ||| u == 0x3000
}

/// `s` without its leading whitespace.
pub open spec fn trim_start(s: Seq<char>) -> Seq<char>
    decreases s.len(),
{
    if s.len() > 0 && is_white_space(s[0]) {
        trim_start(s.drop_first())
    } else {
        s
    }
}

/// `s` without its trailing whitespace.
pub open spec fn trim_end(s: Seq<char>) -> Seq<char>
    decreases s.len(),
{
    if s.len() > 0 && is_white_space(s.last()) {
        trim_end(s.drop_last())
    } else {
        s
    }
}

/// `s` without leading and trailing whitespace (what `str::trim` gives).
pub open spec fn trim(s: Seq<char>) -> Seq<char> {
    trim_end(trim_start(s))
}

/// A trimmed text is taken for a file path when it is one line that starts
/// like an absolute path: `/` or `~/`.
pub open spec fn looks_like_absolute_path(t: Seq<char>) -> bool {
    &&& t.len() > 0
    &&& !t.contains('\n')
    &&& (t[0] == '/' || (t.len() >= 2 && t[0] == '~' && t[1] == '/'))
}

/// Whether clipboard text is a file path: its trimmed form looks like an
/// absolute path.
pub open spec fn spec_is_file_path(s: Seq<char>) -> bool {
    looks_like_absolute_path(trim(s))
}

/// The code of `c` with ASCII upper-case letters mapped to lower case.
pub open spec fn ascii_lower_code(c: char) -> u32 {
    let u = c as u32;
    if 65 <= u <= 90 {
        (u + 32) as u32
    } else {
        u
    }
}

/// ASCII case-insensitive equality (the relation of `str::eq_ignore_ascii_case`).
pub open spec fn eq_ignore_ascii_case(a: Seq<char>, b: Seq<char>) -> bool {
    &&& a.len() == b.len()
    &&& forall|i: int| 0 <= i < a.len() ==> #[trigger] ascii_lower_code(a[i]) == ascii_lower_code(b[i])
}

pub fn is_white_space_char(c: char) -> (b: bool)
    ensures
        b == is_white_space(c),
{
    let u = c as u32;
    (0x09 <= u && u <= 0x0D) || u == 0x20 || u == 0x85 || u == 0xA0 || u == 0x1680 || (0x2000
        <= u && u <= 0x200A) || u == 0x2028 || u == 0x2029 || u == 0x202F || u == 0x205F || u
        == 0x3000
}

pub fn ascii_lower_code_of(c: char) -> (u: u32)
    ensures
        u == ascii_lower_code(c),
{
    let u = c as u32;
    if 65 <= u && u <= 90 {
        u + 32
    } else {
        u
    }
}

proof fn lemma_trim_start_at(s: Seq<char>, i: int)
    requires
        0 <= i <= s.len(),
        forall|k: int| 0 <= k < i ==> is_white_space(#[trigger] s[k]),
        i == s.len() || !is_white_space(s[i]),
    ensures
        trim_start(s) == s.subrange(i, s.len() as int),
    decreases i,
{
    if i == 0 {
        assert(s.subrange(0, s.len() as int) =~= s);
    } else {
        let t = s.drop_first();
        assert forall|k: int| 0 <= k < i - 1 implies is_white_space(#[trigger] t[k]) by {
            assert(t[k] == s[k + 1]);
        }
        lemma_trim_start_at(t, i - 1);
        assert(t.subrange(i - 1, t.len() as int) =~= s.subrange(i, s.len() as int));
    }
}

proof fn lemma_trim_end_at(s: Seq<char>, j: int)
    requires
        0 <= j <= s.len(),
        forall|k: int| j <= k < s.len() ==> is_white_space(#[trigger] s[k]),
        j == 0 || !is_white_space(s[j - 1]),
    ensures
        trim_end(s) == s.subrange(0, j),
    decreases s.len() - j,
{
    if j == s.len() {
        assert(s.subrange(0, j) =~= s);
    } else {
        let t = s.drop_last();
        assert(is_white_space(s[s.len() - 1]));
        assert forall|k: int| j <= k < t.len() implies is_white_space(#[trigger] t[k]) by {
            assert(t[k] == s[k]);
        }
        lemma_trim_end_at(t, j);
        assert(t.subrange(0, j) =~= s.subrange(0, j));
    }
}

/// The bounds `lo..hi` of the trimmed part of `v`.
pub fn trim_bounds(v: &Vec<char>) -> (r: (usize, usize))
    ensures
        r.0 <= r.1 <= v@.len(),
        v@.subrange(r.0 as int, r.1 as int) == trim(v@),
{
    let n = v.len();
    let mut i: usize = 0;
    while i < n && is_white_space_char(v[i])
        invariant
            i <= n,
            n == v@.len(),
            forall|k: int| 0 <= k < i ==> is_white_space(#[trigger] v@[k]),
        decreases n - i,
    {
        i = i + 1;
    }
    let mut j: usize = n;
    while j > i && is_white_space_char(v[j - 1])
        invariant
            i <= j <= n,
            n == v@.len(),
            forall|k: int| j <= k < n ==> is_white_space(#[trigger] v@[k]),
        decreases j,
    {
        j = j - 1;
    }
    proof {
        lemma_trim_start_at(v@, i as int);
        let t = v@.subrange(i as int, n as int);
        assert forall|k: int| j - i <= k < t.len() implies is_white_space(#[trigger] t[k]) by {
            assert(t[k] == v@[k + i]);
        }
        if j > i {
            assert(t[j - i - 1] == v@[j - 1]);
        }
        lemma_trim_end_at(t, j - i);
        assert(t.subrange(0, j - i) =~= v@.subrange(i as int, j as int));
    }
    (i, j)
}

/// Whether every char of `s` is whitespace.
pub open spec fn all_white_space(s: Seq<char>) -> bool {
    forall|k: int| 0 <= k < s.len() ==> is_white_space(#[trigger] s[k])
}

/// The file-path rule over every text, written as whitespace `a`, a core
/// `p` that begins and ends with non-whitespace, and whitespace `b`: the
/// text is a file path exactly when the core holds no newline and starts
/// with `/` or `~/`. Spaces, tabs and any other chars inside the core do
/// not matter.
pub proof fn lemma_file_path_rule(a: Seq<char>, p: Seq<char>, b: Seq<char>)
    requires
        all_white_space(a),
        all_white_space(b),
        p.len() > 0,
        !is_white_space(p[0]),
        !is_white_space(p[p.len() - 1]),
    ensures
        spec_is_file_path(a + p + b) <==> ((forall|k: int| 0 <= k < p.len() ==> p[k] != '\n') && (
        p[0] == '/' || (p.len() >= 2 && p[0] == '~' && p[1] == '/'))),
{
    let s = a + p + b;
    let i = a.len() as int;
    assert forall|k: int| 0 <= k < i implies is_white_space(#[trigger] s[k]) by {
        assert(s[k] == a[k]);
    }
    assert(s[i] == p[0]);
    lemma_trim_start_at(s, i);
    let t = s.subrange(i, s.len() as int);
    assert(t =~= p + b);
    let j = p.len() as int;
    assert forall|k: int| j <= k < t.len() implies is_white_space(#[trigger] t[k]) by {
        assert(t[k] == b[k - j]);
    }
    assert(t[j - 1] == p[j - 1]);
    lemma_trim_end_at(t, j);
    assert(t.subrange(0, j) =~= p);
    assert(trim(s) == p);
    if (forall|k: int| 0 <= k < p.len() ==> p[k] != '\n') {
        assert(!p.contains('\n'));
    }
    if p.contains('\n') {
        let k = choose|k: int| 0 <= k < p.len() && p[k] == '\n';
        assert(p[k] == '\n');
    }
}

/// A text made only of whitespace (the empty text included) is never a
/// file path.
pub proof fn lemma_blank_is_not_file_path(s: Seq<char>)
    requires
        all_white_space(s),
    ensures
        !spec_is_file_path(s),
{
    lemma_trim_start_at(s, s.len() as int);
    assert(s.subrange(s.len() as int, s.len() as int) =~= Seq::<char>::empty());
}

/// Whether clipboard text names a file: after trimming whitespace it is a
/// single non-empty line that starts with `/` or `~/`.
pub fn is_file_path(text: &str) -> (b: bool)
    ensures
        b == spec_is_file_path(text@),
{
    let v = chars_of(text);
    let (lo, hi) = trim_bounds(&v);
    let ghost t = v@.subrange(lo as int, hi as int);
    if lo == hi {
        return false;
    }
    let mut k: usize = lo;
    while k < hi
        invariant
            lo <= k <= hi <= v@.len(),
            t == v@.subrange(lo as int, hi as int),
            t == trim(v@),
            v@ == text@,
            forall|m: int| lo <= m < k ==> v@[m] != '\n',
        decreases hi - k,
    {
        if v[k] == '\n' {
            assert(t[k - lo] == '\n');
            return false;
        }
        k = k + 1;
    }
    assert(!t.contains('\n')) by {
        assert forall|m: int| 0 <= m < t.len() implies t[m] != '\n' by {
            assert(t[m] == v@[m + lo]);
        }
    }
    v[lo] == '/' || (hi - lo >= 2 && v[lo] == '~' && v[lo + 1] == '/')
}

/// ASCII case-insensitive comparison of two strings.
pub fn str_eq_ignore_ascii_case(a: &str, b: &str) -> (r: bool)
    ensures
        r == eq_ignore_ascii_case(a@, b@),
{
    let va = chars_of(a);
    let vb = chars_of(b);
    if va.len() != vb.len() {
        return false;
    }
    let n = va.len();
    let mut i: usize = 0;
    while i < n
        invariant
            n == va@.len() == vb@.len(),
            va@ == a@,
            vb@ == b@,
            i <= n,
            forall|k: int| 0 <= k < i ==> #[trigger] ascii_lower_code(va@[k]) == ascii_lower_code(vb@[k]),
        decreases n - i,
    {
        if ascii_lower_code_of(va[i]) != ascii_lower_code_of(vb[i]) {
            assert(ascii_lower_code(a@[i as int]) != ascii_lower_code(b@[i as int]));
            return false;
        }
        i = i + 1;
    }
    true
}

/// Whether two char sequences are equal.
pub fn chars_equal(a: &Vec<char>, b: &Vec<char>) -> (r: bool)
    ensures
        r == (a@ == b@),
{
    if a.len() != b.len() {
        return false;
    }
    let n = a.len();
    let mut i: usize = 0;
    while i < n
        invariant
            n == a@.len() == b@.len(),
            i <= n,
            forall|k: int| 0 <= k < i ==> a@[k] == b@[k],
        decreases n - i,
    {
        if a[i] != b[i] {
            return false;
        }
        i = i + 1;
    }
    assert(a@ =~= b@);
    true
}

/// Whether the string `s` reads exactly `lit`.
pub fn str_equals(s: &str, lit: &str) -> (r: bool)
    ensures
        r == (s@ == lit@),
{
    let a = chars_of(s);
    let b = chars_of(lit);
    chars_equal(&a, &b)
}

} // verus!
