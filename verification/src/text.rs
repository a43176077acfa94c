//! Character-level text helpers shared by the rest of the library.

use vstd::prelude::*;
use vstd::string::*;

verus! {

/// Unicode `White_Space` characters, the set that `char::is_whitespace` and
/// `str::trim` use.
pub open spec fn is_ws(c: char) -> bool {
    let u = c as u32;
    ||| 9 <= u <= 13
    ||| u == 32
    ||| u == 0x85
    ||| u == 0xA0
    ||| u == 0x1680
    ||| 0x2000 <= u <= 0x200A
    ||| u == 0x2028
    ||| u == 0x2029
    ||| u == 0x202F
    ||| u == 0x205F
    ||| u == 0x3000
}

/// Every character of `s` is whitespace.
pub open spec fn all_ws(s: Seq<char>) -> bool {
    forall|i: int| 0 <= i < s.len() ==> is_ws(#[trigger] s[i])
}

/// Number of leading whitespace characters of `s`.
pub open spec fn lead_ws(s: Seq<char>) -> nat
    decreases s.len(),
{
    if s.len() > 0 && is_ws(s[0]) {
        1 + lead_ws(s.drop_first())
    } else {
        0
    }
}

/// Number of trailing whitespace characters of `s`.
pub open spec fn trail_ws(s: Seq<char>) -> nat
    decreases s.len(),
{
    if s.len() > 0 && is_ws(s.last()) {
        1 + trail_ws(s.drop_last())
    } else {
        0
    }
}

/// `s` without leading whitespace, as `str::trim_start` gives it.
pub open spec fn trim_start(s: Seq<char>) -> Seq<char> {
    s.skip(lead_ws(s) as int)
}

/// `s` without trailing whitespace, as `str::trim_end` gives it.
pub open spec fn trim_end(s: Seq<char>) -> Seq<char> {
    s.take(s.len() - trail_ws(s))
}

/// `s` without leading and trailing whitespace, as `str::trim` gives it.
pub open spec fn trim(s: Seq<char>) -> Seq<char> {
    trim_end(trim_start(s))
}

/// `s` is empty once trimmed.
pub open spec fn is_blank(s: Seq<char>) -> bool {
    trim(s).len() == 0
}

pub proof fn lemma_lead_ws(s: Seq<char>)
    ensures
        lead_ws(s) <= s.len(),
        forall|i: int| 0 <= i < lead_ws(s) ==> is_ws(#[trigger] s[i]),
        lead_ws(s) < s.len() ==> !is_ws(s[lead_ws(s) as int]),
    decreases s.len(),
{
    if s.len() > 0 && is_ws(s[0]) {
        lemma_lead_ws(s.drop_first());
        assert forall|i: int| 0 <= i < lead_ws(s) implies is_ws(#[trigger] s[i]) by {
            if i > 0 {
                assert(s[i] == s.drop_first()[i - 1]);
            }
        }
    }
}

pub proof fn lemma_trail_ws(s: Seq<char>)
    ensures
        trail_ws(s) <= s.len(),
        forall|i: int| s.len() - trail_ws(s) <= i < s.len() ==> is_ws(#[trigger] s[i]),
        trail_ws(s) < s.len() ==> !is_ws(s[s.len() - trail_ws(s) - 1]),
    decreases s.len(),
{
    if s.len() > 0 && is_ws(s.last()) {
        lemma_trail_ws(s.drop_last());
        assert forall|i: int| s.len() - trail_ws(s) <= i < s.len() implies is_ws(#[trigger] s[i]) by {
            if i < s.len() - 1 {
                assert(s[i] == s.drop_last()[i]);
            }
        }
    }
}

/// The leading-whitespace count is the first index of a non-whitespace char.
pub proof fn lemma_lead_ws_is_first(s: Seq<char>, k: int)
    requires
        0 <= k <= s.len(),
        forall|i: int| 0 <= i < k ==> is_ws(#[trigger] s[i]),
        k < s.len() ==> !is_ws(s[k]),
    ensures
        lead_ws(s) == k,
    decreases s.len(),
{
    if k > 0 {
        assert(is_ws(s[0]));
        assert forall|i: int| 0 <= i < k - 1 implies is_ws(#[trigger] s.drop_first()[i]) by {
            assert(s.drop_first()[i] == s[i + 1]);
        }
        if k < s.len() {
            assert(s.drop_first()[k - 1] == s[k]);
        }
        lemma_lead_ws_is_first(s.drop_first(), k - 1);
    } else if s.len() > 0 {
        assert(!is_ws(s[0]));
    }
}

/// The trailing-whitespace count is fixed by the last non-whitespace char.
pub proof fn lemma_trail_ws_is_last(s: Seq<char>, k: int)
    requires
        0 <= k <= s.len(),
        forall|i: int| s.len() - k <= i < s.len() ==> is_ws(#[trigger] s[i]),
        k < s.len() ==> !is_ws(s[s.len() - k - 1]),
    ensures
        trail_ws(s) == k,
    decreases s.len(),
{
    if k > 0 {
        assert(is_ws(s[s.len() - 1]));
        let t = s.drop_last();
        assert forall|i: int| t.len() - (k - 1) <= i < t.len() implies is_ws(#[trigger] t[i]) by {
            assert(t[i] == s[i]);
        }
        if k < s.len() {
            assert(t[t.len() - (k - 1) - 1] == s[s.len() - k - 1]);
        }
        lemma_trail_ws_is_last(t, k - 1);
    } else if s.len() > 0 {
        assert(!is_ws(s.last()));
    }
}

pub proof fn lemma_blank_iff_all_ws(s: Seq<char>)
    ensures
        is_blank(s) <==> all_ws(s),
{
    lemma_lead_ws(s);
    let t = trim_start(s);
    lemma_trail_ws(t);
    if all_ws(s) {
        lemma_lead_ws_is_first(s, s.len() as int);
    }
    if is_blank(s) {
        assert forall|i: int| 0 <= i < s.len() implies is_ws(#[trigger] s[i]) by {
            if i >= lead_ws(s) {
                assert(t[i - lead_ws(s)] == s[i]);
            }
        }
    }
}

/// Copies the characters of a string into a vector.
pub(crate) fn chars_of(s: &str) -> (r: Vec<char>)
    ensures
        r@ == s@,
{
    let mut r: Vec<char> = Vec::new();
    for c in it: s.chars()
        invariant
            it.seq() == s@,
            r@ == it.seq().take(it.index() as int),
    {
        r.push(c);
        assert(r@ =~= it.seq().take(it.index() + 1));
    }
    assert(r@ =~= s@);
    r
}

/// Builds a string from a vector of characters (`Iterator::collect` into `String`).
#[verifier::external_body]
pub(crate) fn string_of(v: &Vec<char>) -> (r: String)
    ensures
        r@ == v@,
{
    v.iter().collect()
}

/// Whether the character is whitespace (`char::is_whitespace`).
pub fn char_is_ws(c: char) -> (r: bool)
    ensures
        r == is_ws(c),
{
    let u: u32 = c as u32;
    (9 <= u && u <= 13) || u == 32 || u == 0x85 || u == 0xA0 || u == 0x1680 || (0x2000 <= u && u
        <= 0x200A) || u == 0x2028 || u == 0x2029 || u == 0x202F || u == 0x205F || u == 0x3000
}

/// Copies `v[from..to]`.
pub fn slice_chars(v: &Vec<char>, from: usize, to: usize) -> (r: Vec<char>)
    requires
        from <= to <= v.len(),
    ensures
        r@ == v@.subrange(from as int, to as int),
{
    let mut r: Vec<char> = Vec::new();
    let mut i: usize = from;
    while i < to
        invariant
            from <= i <= to <= v.len(),
            r@ == v@.subrange(from as int, i as int),
        decreases to - i,
    {
        r.push(v[i]);
        i = i + 1;
    }
    r
}

/// The characters of `v` without leading and trailing whitespace.
pub fn trim_chars(v: &Vec<char>) -> (r: Vec<char>)
    ensures
        r@ == trim(v@),
{
    let n = v.len();
    let mut a: usize = 0;
    while a < n && char_is_ws(v[a])
        invariant
            a <= n == v.len(),
            forall|i: int| 0 <= i < a ==> is_ws(#[trigger] v@[i]),
        decreases n - a,
    {
        a = a + 1;
    }
    proof {
        lemma_lead_ws_is_first(v@, a as int);
    }
    let ghost t = v@.skip(a as int);
    let mut b: usize = n;
    while b > a && char_is_ws(v[b - 1])
        invariant
            a <= b <= n == v.len(),
            t == v@.skip(a as int),
            forall|i: int| b <= i < n ==> is_ws(#[trigger] v@[i]),
        decreases b - a,
    {
        b = b - 1;
    }
    proof {
        assert forall|i: int| t.len() - (n - b) <= i < t.len() implies is_ws(#[trigger] t[i]) by {
            assert(t[i] == v@[i + a]);
        }
        if b > a {
            assert(t[t.len() - (n - b) - 1] == v@[b - 1]);
        }
        lemma_trail_ws_is_last(t, (n - b) as int);
        assert(t.take(t.len() - (n - b)) =~= v@.subrange(a as int, b as int));
    }
    slice_chars(v, a, b)
}

/// `s` trimmed of leading and trailing whitespace (`str::trim`).
pub fn trimmed(s: &str) -> (r: String)
    ensures
        r@ == trim(s@),
{
    let v = chars_of(s);
    let t = trim_chars(&v);
    string_of(&t)
}

/// Whether `s` is empty once trimmed (`s.trim().is_empty()`).
pub fn blank(s: &str) -> (r: bool)
    ensures
        r == is_blank(s@),
{
    let v = chars_of(s);
    let mut i: usize = 0;
    while i < v.len()
        invariant
            i <= v.len(),
            v@ == s@,
            forall|j: int| 0 <= j < i ==> is_ws(#[trigger] v@[j]),
        decreases v.len() - i,
    {
        if !char_is_ws(v[i]) {
            proof {
                lemma_blank_iff_all_ws(s@);
            }
            return false;
        }
        i = i + 1;
    }
    proof {
        lemma_blank_iff_all_ws(s@);
    }
    true
}

/// Whether two character sequences are equal.
pub fn chars_eq(a: &Vec<char>, b: &Vec<char>) -> (r: bool)
    ensures
        r == (a@ == b@),
{
    if a.len() != b.len() {
        return false;
    }
    let mut i: usize = 0;
    while i < a.len()
        invariant
            i <= a.len() == b.len(),
            forall|j: int| 0 <= j < i ==> a@[j] == b@[j],
        decreases a.len() - i,
    {
        if a[i] != b[i] {
            return false;
        }
        i = i + 1;
    }
    assert(a@ =~= b@);
    true
}

/// Whether two strings are equal.
pub fn str_eq(a: &str, b: &str) -> (r: bool)
    ensures
        r == (a@ == b@),
{
    let x = chars_of(a);
    let y = chars_of(b);
    chars_eq(&x, &y)
}

/// Whether `p` is a prefix of `v` starting at `at`.
pub fn has_at(v: &Vec<char>, at: usize, p: &Vec<char>) -> (r: bool)
    requires
        at <= v.len(),
    ensures
        r == (at + p.len() <= v.len() && v@.subrange(at as int, at + p.len()) == p@),
{
    if p.len() > v.len() - at {
        return false;
    }
    let mut i: usize = 0;
    while i < p.len()
        invariant
            i <= p.len(),
            at + p.len() <= v.len(),
            forall|j: int| 0 <= j < i ==> v@[at + j] == p@[j],
        decreases p.len() - i,
    {
        if v[at + i] != p[i] {
            return false;
        }
        i = i + 1;
    }
    assert(v@.subrange(at as int, at + p.len()) =~= p@);
    true
}

/// Appends all of `b` to `a`.
pub fn append_chars(a: &mut Vec<char>, b: &Vec<char>)
    ensures
        final(a)@ == old(a)@ + b@,
{
    let mut i: usize = 0;
    while i < b.len()
        invariant
            i <= b.len(),
            a@ == old(a)@ + b@.take(i as int),
        decreases b.len() - i,
    {
        a.push(b[i]);
        i = i + 1;
        assert(b@.take(i as int) =~= b@.take(i - 1).push(b@[i - 1]));
    }
    assert(b@.take(b.len() as int) =~= b@);
}

} // verus!

verus! {

/// `a` followed by `b`.
pub fn concat2(a: &str, b: &str) -> (r: String)
    ensures
        r@ == a@ + b@,
{
    let mut r = a.to_owned();
    r.append(b);
    r
}

/// `a`, `b` and `c` one after another.
pub fn concat3(a: &str, b: &str, c: &str) -> (r: String)
    ensures
        r@ == a@ + b@ + c@,
{
    let mut r = a.to_owned();
    r.append(b);
    r.append(c);
    r
}

} // verus!

verus! {

/// `x` without one trailing carriage return.
pub open spec fn strip_cr(x: Seq<char>) -> Seq<char> {
    if x.len() > 0 && x.last() == '\r' {
        x.drop_last()
    } else {
        x
    }
}

/// Index of the first `c` in `s` at or after `from`, if any.
pub open spec fn find_from(s: Seq<char>, c: char, from: int) -> Option<int>
    decreases s.len() - from,
{
    if from < 0 || from >= s.len() {
        None
    } else if s[from] == c {
        Some(from)
    } else {
        find_from(s, c, from + 1)
    }
}

/// The lines of `s` as `str::lines` yields them: split at `\n`, a `\r` before
/// the `\n` dropped, no empty line after a final `\n`.
pub open spec fn lines_of(s: Seq<char>) -> Seq<Seq<char>>
    decreases s.len(),
{
    if s.len() == 0 {
        Seq::empty()
    } else {
        match find_from(s, '\n', 0) {
            None => seq![s],
            Some(k) => {
                if 0 <= k < s.len() {
                    seq![strip_cr(s.take(k))] + lines_of(s.skip(k + 1))
                } else {
                    Seq::empty()
                }
            },
        }
    }
}

/// The pieces of `ls` joined with `sep` between them (`[T]::join`).
pub open spec fn join(ls: Seq<Seq<char>>, sep: Seq<char>) -> Seq<char>
    decreases ls.len(),
{
    if ls.len() == 0 {
        Seq::empty()
    } else if ls.len() == 1 {
        ls[0]
    } else {
        join(ls.drop_last(), sep) + sep + ls.last()
    }
}

pub proof fn lemma_find_from(s: Seq<char>, c: char, from: int)
    requires
        0 <= from <= s.len(),
    ensures
        match find_from(s, c, from) {
            Some(k) => from <= k < s.len() && s[k] == c && forall|j: int| from <= j < k ==> s[j] != c,
            None => forall|j: int| from <= j < s.len() ==> s[j] != c,
        },
    decreases s.len() - from,
{
    if from < s.len() && s[from] != c {
        lemma_find_from(s, c, from + 1);
    }
}

/// `find_from` gives the first occurrence.
pub proof fn lemma_find_from_is(s: Seq<char>, c: char, from: int, k: int)
    requires
        0 <= from <= k <= s.len(),
        forall|j: int| from <= j < k ==> s[j] != c,
        k < s.len() ==> s[k] == c,
    ensures
        find_from(s, c, from) == (if k < s.len() { Some(k) } else { None::<int> }),
    decreases k - from,
{
    if from < k {
        lemma_find_from_is(s, c, from + 1, k);
    }
}

/// Splits `v` into its lines (`str::lines`).
pub fn lines_vec(v: &Vec<char>) -> (r: Vec<Vec<char>>)
    ensures
        r@.len() == lines_of(v@).len(),
        forall|i: int| 0 <= i < r@.len() ==> (#[trigger] r@[i])@ == lines_of(v@)[i],
{
    let mut r: Vec<Vec<char>> = Vec::new();
    let mut start: usize = 0;
    let n = v.len();
    proof {
        assert(v@.skip(0) =~= v@);
        assert(r@.map_values(|l: Vec<char>| l@) + lines_of(v@.skip(0)) =~= lines_of(v@));
    }
    while start < n
        invariant
            start <= n == v.len(),
            lines_of(v@) == r@.map_values(|l: Vec<char>| l@) + lines_of(v@.skip(start as int)),
        decreases n - start,
    {
        let ghost rest = v@.skip(start as int);
        let mut k: usize = start;
        while k < n && v[k] != '\n'
            invariant
                start <= k <= n == v.len(),
                rest == v@.skip(start as int),
                forall|j: int| start <= j < k ==> v@[j] != '\n',
            decreases n - k,
        {
            k = k + 1;
        }
        proof {
            assert forall|j: int| 0 <= j < k - start implies rest[j] != '\n' by {
                assert(rest[j] == v@[j + start as int]);
            }
            if k < n {
                assert(rest[k - start] == v@[k as int]);
            }
            lemma_find_from_is(rest, '\n', 0, (k - start) as int);
        }
        if k == n {
            let piece = slice_chars(v, start, n);
            proof {
                assert(piece@ =~= rest);
                assert(lines_of(rest) == seq![rest]);
                assert(v@.skip(n as int) =~= Seq::<char>::empty());
                assert(lines_of(v@.skip(n as int)) =~= Seq::<Seq<char>>::empty());
            }
            let ghost before = r@.map_values(|l: Vec<char>| l@);
            r.push(piece);
            proof {
                assert(r@.map_values(|l: Vec<char>| l@) =~= before.push(rest));
                assert(lines_of(v@) =~= r@.map_values(|l: Vec<char>| l@) + lines_of(v@.skip(n as int)));
            }
            start = n;
        } else {
            let mut end: usize = k;
            if end > start && v[end - 1] == '\r' {
                end = end - 1;
            }
            let piece = slice_chars(v, start, end);
            proof {
                assert(rest.take((k - start) as int) =~= v@.subrange(start as int, k as int));
                assert(piece@ =~= strip_cr(rest.take((k - start) as int)));
                assert(rest.skip((k - start) + 1) =~= v@.skip(k + 1));
            }
            let ghost before = r@.map_values(|l: Vec<char>| l@);
            r.push(piece);
            proof {
                assert(r@.map_values(|l: Vec<char>| l@) =~= before.push(piece@));
                assert(lines_of(rest) == seq![piece@] + lines_of(v@.skip(k + 1)));
                assert(lines_of(v@) =~= r@.map_values(|l: Vec<char>| l@) + lines_of(v@.skip(k + 1)));
            }
            start = k + 1;
        }
    }
    proof {
        assert(v@.skip(start as int) =~= Seq::<char>::empty());
        assert(lines_of(v@.skip(start as int)) =~= Seq::<Seq<char>>::empty());
        assert(lines_of(v@) =~= r@.map_values(|l: Vec<char>| l@));
    }
    r
}

/// Joins `ls` with `sep` between the pieces.
pub fn join_vec(ls: &Vec<Vec<char>>, sep: &Vec<char>) -> (r: Vec<char>)
    ensures
        r@ == join(ls@.map_values(|l: Vec<char>| l@), sep@),
{
    let ghost all = ls@.map_values(|l: Vec<char>| l@);
    let mut r: Vec<char> = Vec::new();
    let mut i: usize = 0;
    while i < ls.len()
        invariant
            i <= ls.len(),
            all == ls@.map_values(|l: Vec<char>| l@),
            r@ == join(all.take(i as int), sep@),
        decreases ls.len() - i,
    {
        if i > 0 {
            append_chars(&mut r, sep);
        }
        append_chars(&mut r, &ls[i]);
        proof {
            let t = all.take(i + 1);
            assert(t.drop_last() =~= all.take(i as int));
            assert(t.last() == ls@[i as int]@);
            if i == 0 {
                assert(r@ =~= t[0]);
            }
        }
        i = i + 1;
    }
    assert(all.take(ls.len() as int) =~= all);
    r
}

} // verus!

verus! {

/// The pieces of `s` between occurrences of `c` (`str::split` on a char).
pub open spec fn split_on(s: Seq<char>, c: char) -> Seq<Seq<char>>
    decreases s.len(),
{
    match find_from(s, c, 0) {
        None => seq![s],
        Some(k) => {
            if 0 <= k < s.len() {
                seq![s.take(k)] + split_on(s.skip(k + 1), c)
            } else {
                seq![s]
            }
        },
    }
}

/// Splits `v` at every `c`.
pub fn split_vec(v: &Vec<char>, c: char) -> (r: Vec<Vec<char>>)
    ensures
        r@.map_values(|l: Vec<char>| l@) == split_on(v@, c),
{
    let mut r: Vec<Vec<char>> = Vec::new();
    let mut start: usize = 0;
    let n = v.len();
    proof {
        assert(v@.skip(0) =~= v@);
        assert(r@.map_values(|l: Vec<char>| l@) + split_on(v@.skip(0), c) =~= split_on(v@, c));
    }
    loop
        invariant
            start <= n == v.len(),
            split_on(v@, c) == r@.map_values(|l: Vec<char>| l@) + split_on(v@.skip(start as int), c),
        decreases n - start,
    {
        let ghost rest = v@.skip(start as int);
        let mut k: usize = start;
        while k < n && v[k] != c
            invariant
                start <= k <= n == v.len(),
                rest == v@.skip(start as int),
                forall|j: int| start <= j < k ==> v@[j] != c,
            decreases n - k,
        {
            k = k + 1;
        }
        proof {
            assert forall|j: int| 0 <= j < k - start implies rest[j] != c by {
                assert(rest[j] == v@[j + start as int]);
            }
            if k < n {
                assert(rest[k - start] == v@[k as int]);
            }
            lemma_find_from_is(rest, c, 0, (k - start) as int);
        }
        let piece = slice_chars(v, start, k);
        let ghost before = r@.map_values(|l: Vec<char>| l@);
        r.push(piece);
        if k == n {
            proof {
                assert(piece@ =~= rest);
                assert(r@.map_values(|l: Vec<char>| l@) =~= before.push(rest));
                assert(split_on(v@, c) =~= r@.map_values(|l: Vec<char>| l@));
            }
            return r;
        }
        proof {
            assert(piece@ =~= rest.take((k - start) as int));
            assert(rest.skip((k - start) + 1) =~= v@.skip(k + 1));
            assert(r@.map_values(|l: Vec<char>| l@) =~= before.push(piece@));
            assert(split_on(v@, c) =~= r@.map_values(|l: Vec<char>| l@) + split_on(v@.skip(k + 1), c));
        }
        start = k + 1;
    }
}

/// `s` with every non-overlapping occurrence of `pat`, from the left, replaced by `rep`
/// (`str::replace`).
pub open spec fn replace_all(s: Seq<char>, pat: Seq<char>, rep: Seq<char>) -> Seq<char>
    decreases s.len(),
{
    if pat.len() == 0 || s.len() < pat.len() {
        s
    } else if s.take(pat.len() as int) == pat {
        rep + replace_all(s.skip(pat.len() as int), pat, rep)
    } else {
        seq![s[0]] + replace_all(s.drop_first(), pat, rep)
    }
}

/// Replaces every occurrence of `pat` in `s` by `rep`.
pub fn replace_vec(s: &Vec<char>, pat: &Vec<char>, rep: &Vec<char>) -> (r: Vec<char>)
    requires
        pat.len() > 0,
    ensures
        r@ == replace_all(s@, pat@, rep@),
{
    let mut out: Vec<char> = Vec::new();
    let mut i: usize = 0;
    let n = s.len();
    assert(s@.skip(0) =~= s@);
    while i < n
        invariant
            i <= n == s.len(),
            pat.len() > 0,
            replace_all(s@, pat@, rep@) == out@ + replace_all(s@.skip(i as int), pat@, rep@),
        decreases n - i,
    {
        let ghost rest = s@.skip(i as int);
        if has_at(s, i, pat) {
            proof {
                assert(rest.take(pat.len() as int) =~= s@.subrange(i as int, i + pat.len()));
                assert(rest.skip(pat.len() as int) =~= s@.skip(i + pat.len()));
            }
            append_chars(&mut out, rep);
            i = i + pat.len();
            assert(replace_all(s@, pat@, rep@) =~= out@ + replace_all(s@.skip(i as int), pat@, rep@));
        } else {
            proof {
                if rest.len() >= pat.len() {
                    assert(rest.take(pat.len() as int) =~= s@.subrange(i as int, i + pat.len()));
                }
                assert(rest.drop_first() =~= s@.skip(i + 1));
                if rest.len() < pat.len() {
                    assert(replace_all(rest, pat@, rep@) == rest);
                }
            }
            if n - i < pat.len() {
                let tail = slice_chars(s, i, n);
                append_chars(&mut out, &tail);
                proof {
                    assert(tail@ =~= rest);
                    assert(s@.skip(n as int) =~= Seq::<char>::empty());
                    assert(replace_all(s@, pat@, rep@) =~= out@ + replace_all(s@.skip(n as int), pat@, rep@));
                }
                i = n;
            } else {
                out.push(s[i]);
                i = i + 1;
                assert(replace_all(s@, pat@, rep@) =~= out@ + replace_all(s@.skip(i as int), pat@, rep@));
            }
        }
    }
    assert(s@.skip(n as int) =~= Seq::<char>::empty());
    out
}

} // verus!

verus! {

/// Trimming twice is trimming once.
pub proof fn lemma_trim_idempotent(s: Seq<char>)
    ensures
        trim(trim(s)) == trim(s),
{
    let t0 = trim_start(s);
    let t = trim(s);
    lemma_lead_ws(s);
    lemma_trail_ws(t0);
    if t.len() > 0 {
        assert(t[0] == t0[0]);
        assert(t0[0] == s[lead_ws(s) as int]);
        assert(t[t.len() - 1] == t0[t0.len() - trail_ws(t0) - 1]);
        lemma_lead_ws_is_first(t, 0);
        lemma_trail_ws_is_last(t, 0);
        assert(t.skip(0) =~= t);
        assert(t.take(t.len() as int) =~= t);
    } else {
        assert(t.skip(0) =~= t);
        assert(trim_start(t).len() == 0);
        assert(trim_start(t).take(0) =~= trim_start(t));
    }
}

/// A string without whitespace characters is its own trim.
pub proof fn lemma_trim_no_ws(s: Seq<char>)
    requires
        forall|i: int| 0 <= i < s.len() ==> !is_ws(#[trigger] s[i]),
    ensures
        trim(s) == s,
{
    lemma_lead_ws_is_first(s, 0);
    assert(s.skip(0) =~= s);
    if s.len() > 0 {
        lemma_trail_ws_is_last(s, 0);
    } else {
        lemma_trail_ws_is_last(s, 0);
    }
    assert(s.take(s.len() as int) =~= s);
}

} // verus!

verus! {

/// The decimal digit character for `d`.
pub open spec fn digit_char(d: nat) -> char {
    if d == 0 { '0' }
    else if d == 1 { '1' }
    else if d == 2 { '2' }
    else if d == 3 { '3' }
    else if d == 4 { '4' }
    else if d == 5 { '5' }
    else if d == 6 { '6' }
    else if d == 7 { '7' }
    else if d == 8 { '8' }
    else { '9' }
}

/// The decimal notation of `n`, without leading zeros.
pub open spec fn decimal(n: nat) -> Seq<char>
    decreases n,
{
    if n < 10 {
        seq![digit_char(n)]
    } else {
        decimal(n / 10).push(digit_char(n % 10))
    }
}

/// The decimal notation of a signed number: a minus sign before negative ones.
pub open spec fn signed_decimal(n: int) -> Seq<char> {
    if n < 0 {
        seq!['-'] + decimal((-n) as nat)
    } else {
        decimal(n as nat)
    }
}

fn digit_of(d: u64) -> (r: char)
    requires
        d < 10,
    ensures
        r == digit_char(d as nat),
{
    if d == 0 { '0' }
    else if d == 1 { '1' }
    else if d == 2 { '2' }
    else if d == 3 { '3' }
    else if d == 4 { '4' }
    else if d == 5 { '5' }
    else if d == 6 { '6' }
    else if d == 7 { '7' }
    else if d == 8 { '8' }
    else { '9' }
}

fn push_decimal(n: u64, out: &mut Vec<char>)
    ensures
        final(out)@ == old(out)@ + decimal(n as nat),
    decreases n,
{
    if n >= 10 {
        push_decimal(n / 10, out);
    }
    let c = digit_of(n % 10);
    out.push(c);
    proof {
        if n < 10 {
            assert(n % 10 == n);
        }
    }
}

/// The decimal notation of an unsigned number (`u64::to_string`).
pub fn decimal_string(n: u64) -> (r: String)
    ensures
        r@ == decimal(n as nat),
{
    let mut v: Vec<char> = Vec::new();
    push_decimal(n, &mut v);
    assert(v@ =~= decimal(n as nat));
    string_of(&v)
}

/// The decimal notation of a signed number (`i64::to_string`).
pub fn signed_decimal_string(n: i64) -> (r: String)
    ensures
        r@ == signed_decimal(n as int),
{
    let mut v: Vec<char> = Vec::new();
    if n < 0 {
        v.push('-');
        let m: u64 = if n == i64::MIN { 9223372036854775808u64 } else { (-n) as u64 };
        push_decimal(m, &mut v);
    } else {
        push_decimal(n as u64, &mut v);
    }
    assert(v@ =~= signed_decimal(n as int));
    string_of(&v)
}

} // verus!

verus! {

/// A copy of an optional string.
pub fn clone_opt(v: &Option<String>) -> (r: Option<String>)
    ensures
        r == *v,
{
    match v {
        Some(s) => Some(s.clone()),
        None => None,
    }
}

} // verus!
