//! Character classification, small string utilities and the order of
//! strings, specified over the `Seq<char>` view of strings.
use vstd::prelude::*;
use crate::sanitize::views;

verus! {

/// Unicode `White_Space` code points: the set that `char::is_whitespace`
/// accepts and that `str::trim` strips.
pub open spec fn is_ws(c: char) -> bool {
    let u = c as u32;
    ||| 0x09 <= u <= 0x0D
    ||| u == 0x20
    ||| u == 0x85
    ||| u == 0xA0
    ||| u == 0x1680
    ||| 0x2000 <= u <= 0x200A
    ||| u == 0x2028
    ||| u == 0x2029
    ||| u == 0x202F
    ||| u == 0x205F
    ||| u == 0x3000
}

/// Unicode general category `Cc` (control codes): the set that
/// `char::is_control` accepts.
pub open spec fn is_cc(c: char) -> bool {
    let u = c as u32;
    u <= 0x1F || (0x7F <= u <= 0x9F)
}

/// Whether `c` is white space in the sense of `char::is_whitespace`.
pub fn is_whitespace(c: char) -> (r: bool)
    ensures
        r == is_ws(c),
{
    let u = c as u32;
    (0x09 <= u && u <= 0x0D) || u == 0x20 || u == 0x85 || u == 0xA0 || u == 0x1680 || (0x2000
        <= u && u <= 0x200A) || u == 0x2028 || u == 0x2029 || u == 0x202F || u == 0x205F || u
        == 0x3000
}

/// Whether `c` is a control code in the sense of `char::is_control`.
pub fn is_control(c: char) -> (r: bool)
    ensures
        r == is_cc(c),
{
    let u = c as u32;
    u <= 0x1F || (0x7F <= u && u <= 0x9F)
}

/// Every character of `s` is white space.
pub open spec fn all_ws(s: Seq<char>) -> bool {
    forall|i: int| 0 <= i < s.len() ==> is_ws(#[trigger] s[i])
}

/// `s` without its leading white space.
pub open spec fn trim_start(s: Seq<char>) -> Seq<char>
    decreases s.len(),
{
    if s.len() > 0 && is_ws(s[0]) {
        trim_start(s.drop_first())
    } else {
        s
    }
}

/// `s` without its trailing white space.
pub open spec fn trim_end(s: Seq<char>) -> Seq<char>
    decreases s.len(),
{
    if s.len() > 0 && is_ws(s.last()) {
        trim_end(s.drop_last())
    } else {
        s
    }
}

/// `s` without leading and trailing white space, as `str::trim` gives it.
pub open spec fn trim(s: Seq<char>) -> Seq<char> {
    trim_end(trim_start(s))
}

proof fn lemma_trim_start_skip(s: Seq<char>, i: int)
    requires
        0 <= i <= s.len(),
        forall|j: int| 0 <= j < i ==> is_ws(#[trigger] s[j]),
    ensures
        trim_start(s) == trim_start(s.skip(i)),
    decreases i,
{
    if i > 0 {
        assert(s.drop_first().skip(i - 1) =~= s.skip(i));
        lemma_trim_start_skip(s.drop_first(), i - 1);
    } else {
        assert(s.skip(0) =~= s);
    }
}

proof fn lemma_trim_end_take(s: Seq<char>, j: int)
    requires
        0 <= j <= s.len(),
        forall|k: int| j <= k < s.len() ==> is_ws(#[trigger] s[k]),
    ensures
        trim_end(s) == trim_end(s.take(j)),
    decreases s.len() - j,
{
    if j < s.len() {
        assert(s.drop_last().take(j) =~= s.take(j));
        lemma_trim_end_take(s.drop_last(), j);
    } else {
        assert(s.take(j) =~= s);
    }
}

/// The trimmed string is empty exactly when every character is white space.
pub proof fn lemma_trim_empty_iff_all_ws(s: Seq<char>)
    ensures
        trim(s).len() == 0 <==> all_ws(s),
    decreases s.len(),
{
    if s.len() > 0 && is_ws(s[0]) {
        lemma_trim_empty_iff_all_ws(s.drop_first());
        if all_ws(s.drop_first()) {
            assert forall|i: int| 0 <= i < s.len() implies is_ws(#[trigger] s[i]) by {
                if i > 0 {
                    assert(s[i] == s.drop_first()[i - 1]);
                }
            }
        }
    } else if s.len() > 0 {
        lemma_trim_end_keeps_nonws_last(s);
    }
}

proof fn lemma_trim_end_keeps_nonws_last(s: Seq<char>)
    requires
        s.len() > 0,
        !is_ws(s[0]),
    ensures
        trim_end(s).len() > 0,
    decreases s.len(),
{
    if is_ws(s.last()) {
        lemma_trim_end_keeps_nonws_last(s.drop_last());
    }
}

/// Bounds of the trimmed part: `trim(s) == s[lo..hi]`.
pub fn trim_bounds(s: &Vec<char>) -> (r: (usize, usize))
    ensures
        r.0 <= r.1 <= s@.len(),
        trim(s@) == s@.subrange(r.0 as int, r.1 as int),
{
    let n = s.len();
    let mut lo: usize = 0;
    while lo < n && is_whitespace(s[lo])
        invariant
            lo <= n == s@.len(),
            forall|j: int| 0 <= j < lo ==> is_ws(#[trigger] s@[j]),
        decreases n - lo,
    {
        lo = lo + 1;
    }
    proof {
        lemma_trim_start_skip(s@, lo as int);
        assert(trim_start(s@.skip(lo as int)) == s@.skip(lo as int));
    }
    let ghost rest = s@.skip(lo as int);
    let mut hi: usize = n;
    while hi > lo && is_whitespace(s[hi - 1])
        invariant
            lo <= hi <= n == s@.len(),
            rest == s@.skip(lo as int),
            forall|k: int| hi - lo <= k < rest.len() ==> is_ws(#[trigger] rest[k]),
        decreases hi - lo,
    {
        hi = hi - 1;
    }
    proof {
        lemma_trim_end_take(rest, hi - lo);
        assert(rest.take(hi - lo) =~= s@.subrange(lo as int, hi as int));
    }
    (lo, hi)
}

/// Whether `s` holds nothing but white space (`s.trim().is_empty()`).
pub fn is_blank(s: &str) -> (r: bool)
    ensures
        r == all_ws(s@),
        r == (trim(s@).len() == 0),
{
    proof {
        lemma_trim_empty_iff_all_ws(s@);
    }
    let v = chars_of(s);
    let mut i: usize = 0;
    while i < v.len()
        invariant
            i <= v@.len(),
            v@ == s@,
            trim(s@).len() == 0 <==> all_ws(s@),
            forall|j: int| 0 <= j < i ==> is_ws(#[trigger] v@[j]),
        decreases v@.len() - i,
    {
        if !is_whitespace(v[i]) {
            assert(!is_ws(s@[i as int]));
            return false;
        }
        i = i + 1;
    }
    true
}

/// The characters of `s`, in order.
pub fn chars_of(s: &str) -> (r: Vec<char>)
    ensures
        r@ == s@,
{
    let mut out: Vec<char> = Vec::new();
    for c in it: s.chars()
        invariant
            it.seq() == s@,
            out@ == it.seq().take(it.index()),
    {
        out.push(c);
    }
    out
}

/// Appends one character (`String::push`).
#[verifier::external_body]
pub fn push_char(s: &mut String, c: char)
    ensures
        final(s)@ == old(s)@.push(c),
{
    s.push(c);
}

/// Appends the characters `v[from..to]` to `s`.
pub fn push_chars(s: &mut String, v: &Vec<char>, from: usize, to: usize)
    requires
        from <= to <= v@.len(),
    ensures
        final(s)@ == old(s)@ + v@.subrange(from as int, to as int),
{
    let ghost start = s@;
    let mut i = from;
    while i < to
        invariant
            from <= i <= to <= v@.len(),
            s@ == start + v@.subrange(from as int, i as int),
        decreases to - i,
    {
        push_char(s, v[i]);
        assert(v@.subrange(from as int, i + 1) =~= v@.subrange(from as int, i as int).push(
            v@[i as int],
        ));
        i = i + 1;
    }
}

/// Appends all of `t` to `s`.
pub fn push_str(s: &mut String, t: &str)
    ensures
        final(s)@ == old(s)@ + t@,
{
    let v = chars_of(t);
    push_chars(s, &v, 0, v.len());
    assert(v@.subrange(0, v@.len() as int) =~= t@);
}

/// A new `String` holding `v[from..to]`.
pub fn string_from_chars(v: &Vec<char>, from: usize, to: usize) -> (r: String)
    requires
        from <= to <= v@.len(),
    ensures
        r@ == v@.subrange(from as int, to as int),
{
    let mut s = String::new();
    push_chars(&mut s, v, from, to);
    assert(Seq::<char>::empty() + v@.subrange(from as int, to as int) =~= v@.subrange(
        from as int,
        to as int,
    ));
    s
}

/// A new `String` equal to `t`.
pub fn owned(t: &str) -> (r: String)
    ensures
        r@ == t@,
{
    let mut s = String::new();
    push_str(&mut s, t);
    assert(Seq::<char>::empty() + t@ =~= t@);
    s
}

/// The decimal digit character for `d < 10`.
pub open spec fn digit_char(d: nat) -> char {
    ((48 + d) as u32) as char
}

/// Decimal notation of a natural number, without leading zeros.
pub open spec fn dec_nat(n: nat) -> Seq<char>
    decreases n,
{
    if n < 10 {
        seq![digit_char(n)]
    } else {
        dec_nat(n / 10).push(digit_char(n % 10))
    }
}

/// Decimal notation of an integer, as `i64::to_string` writes it.
pub open spec fn dec_int(i: int) -> Seq<char> {
    if i < 0 {
        seq!['-'] + dec_nat((-i) as nat)
    } else {
        dec_nat(i as nat)
    }
}

fn digit(d: u64) -> (c: char)
    requires
        d < 10,
    ensures
        c == digit_char(d as nat),
{
    let b: u8 = 48u8 + (d as u8);
    b as char
}

/// Appends the decimal notation of `n`.
pub fn push_decimal_u64(s: &mut String, n: u64)
    ensures
        final(s)@ == old(s)@ + dec_nat(n as nat),
    decreases n,
{
    if n >= 10 {
        push_decimal_u64(s, n / 10);
    }
    push_char(s, digit(n % 10));
    proof {
        if n >= 10 {
            assert(old(s)@ + dec_nat(n as nat / 10) + seq![digit_char(n as nat % 10)] =~= old(
                s,
            )@ + dec_nat(n as nat));
        } else {
            assert(old(s)@.push(digit_char(n as nat)) =~= old(s)@ + dec_nat(n as nat));
        }
    }
}

/// Appends the decimal notation of `i`.
pub fn push_decimal_i64(s: &mut String, i: i64)
    ensures
        final(s)@ == old(s)@ + dec_int(i as int),
{
    if i < 0 {
        push_char(s, '-');
        let mag: u64 = ((-(i + 1)) as u64) + 1;
        push_decimal_u64(s, mag);
        assert(old(s)@.push('-') + dec_nat(mag as nat) =~= old(s)@ + (seq!['-'] + dec_nat(
            mag as nat,
        )));
    } else {
        push_decimal_u64(s, i as u64);
    }
}

/// `t` occurs in `s` as a contiguous run of characters.
pub open spec fn has_substr(s: Seq<char>, t: Seq<char>) -> bool {
    exists|i: int| 0 <= i && i + t.len() <= s.len() && #[trigger] s.subrange(i, i + t.len()) == t
}

/// Whether `t` occurs at position `i` of `s`.
fn occurs_at(s: &Vec<char>, t: &Vec<char>, i: usize) -> (r: bool)
    requires
        i + t@.len() <= s@.len(),
    ensures
        r == (s@.subrange(i as int, i + t@.len()) == t@),
{
    let n = s.len();
    let mut k: usize = 0;
    while k < t.len()
        invariant
            k <= t@.len(),
            n == s@.len(),
            i + t@.len() <= s@.len(),
            forall|j: int| 0 <= j < k ==> s@[i + j] == t@[j],
        decreases t@.len() - k,
    {
        if s[i + k] != t[k] {
            assert(s@.subrange(i as int, i + t@.len())[k as int] != t@[k as int]);
            return false;
        }
        k = k + 1;
    }
    assert(s@.subrange(i as int, i + t@.len()) =~= t@);
    true
}

/// Whether `t` occurs in `s` (`str::contains` with a string pattern).
pub fn contains_str(s: &str, t: &str) -> (r: bool)
    ensures
        r == has_substr(s@, t@),
{
    let sv = chars_of(s);
    let tv = chars_of(t);
    if tv.len() > sv.len() {
        return false;
    }
    let last = sv.len() - tv.len();
    let mut i: usize = 0;
    loop
        invariant
            i <= last,
            last + tv@.len() == sv@.len(),
            sv@ == s@,
            tv@ == t@,
            forall|j: int|
                0 <= j < i ==> #[trigger] sv@.subrange(j, j + tv@.len()) != tv@,
        decreases last - i,
    {
        if occurs_at(&sv, &tv, i) {
            return true;
        }
        if i == last {
            return false;
        }
        i = i + 1;
    }
}

/// Lower-case mapping of a whole string as `str::to_lowercase` computes it
/// (Unicode `Lowercase_Mapping`, with the final-sigma rule).
pub uninterp spec fn lowercase(s: Seq<char>) -> Seq<char>;

/// Calls `str::to_lowercase`; its result is `lowercase` of the input.
#[verifier::external_body]
pub fn to_lowercase(s: &str) -> (r: String)
    ensures
        r@ == lowercase(s@),
{
    s.to_lowercase()
}

/// Whether `a` and `b` hold the same characters.
pub fn str_eq(a: &str, b: &str) -> (r: bool)
    ensures
        r == (a@ == b@),
{
    let av = chars_of(a);
    let bv = chars_of(b);
    if av.len() != bv.len() {
        return false;
    }
    let mut i: usize = 0;
    while i < av.len()
        invariant
            i <= av@.len() == bv@.len(),
            av@ == a@,
            bv@ == b@,
            forall|j: int| 0 <= j < i ==> av@[j] == bv@[j],
        decreases av@.len() - i,
    {
        if av[i] != bv[i] {
            return false;
        }
        i = i + 1;
    }
    assert(av@ =~= bv@);
    true
}

/// `a` and `b` agree on their first `k` characters.
pub open spec fn common_prefix(a: Seq<char>, b: Seq<char>, k: int) -> bool {
    &&& 0 <= k <= a.len()
    &&& k <= b.len()
    &&& forall|j: int| 0 <= j < k ==> a[j] == b[j]
}

/// `a` comes before `b` in the order in which `str` compares: at the first
/// position where they differ `a` has the smaller code point, or `a` is a
/// proper prefix of `b`.
pub open spec fn str_lt(a: Seq<char>, b: Seq<char>) -> bool {
    exists|k: int|
        #[trigger] common_prefix(a, b, k) && ((k == a.len() && k < b.len()) || (k < a.len() && k
            < b.len() && (a[k] as u32) < (b[k] as u32)))
}

/// No string comes before itself.
pub proof fn lemma_str_lt_irreflexive(a: Seq<char>)
    ensures
        !str_lt(a, a),
{
}

/// The order of strings is transitive.
pub proof fn lemma_str_lt_transitive(a: Seq<char>, b: Seq<char>, c: Seq<char>)
    requires
        str_lt(a, b),
        str_lt(b, c),
    ensures
        str_lt(a, c),
{
    let k1 = choose|k: int|
        #[trigger] common_prefix(a, b, k) && ((k == a.len() && k < b.len()) || (k < a.len() && k
            < b.len() && (a[k] as u32) < (b[k] as u32)));
    let k2 = choose|k: int|
        #[trigger] common_prefix(b, c, k) && ((k == b.len() && k < c.len()) || (k < b.len() && k
            < c.len() && (b[k] as u32) < (c[k] as u32)));
    if k1 <= k2 {
        assert(common_prefix(a, c, k1));
    } else {
        assert(common_prefix(a, c, k2));
    }
}

/// Where one string stands relative to another.
#[derive(Debug, Clone, Copy, PartialEq, Eq, Structural)]
pub enum StrOrder {
    Before,
    Same,
    After,
}

/// Compares two strings in the order of `str_lt`.
pub fn compare_strs(a: &str, b: &str) -> (r: StrOrder)
    ensures
        r == StrOrder::Before ==> str_lt(a@, b@),
        r == StrOrder::Same ==> a@ == b@,
        r == StrOrder::After ==> str_lt(b@, a@),
{
    let x = chars_of(a);
    let y = chars_of(b);
    let mut i: usize = 0;
    while i < x.len() && i < y.len() && x[i] == y[i]
        invariant
            i <= x@.len(),
            i <= y@.len(),
            x@ == a@,
            y@ == b@,
            forall|j: int| 0 <= j < i ==> x@[j] == y@[j],
        decreases x@.len() - i,
    {
        i = i + 1;
    }
    assert(common_prefix(a@, b@, i as int));
    assert(common_prefix(b@, a@, i as int));
    if i == x.len() && i == y.len() {
        assert(x@ =~= y@);
        return StrOrder::Same;
    }
    if i == x.len() {
        return StrOrder::Before;
    }
    if i == y.len() {
        return StrOrder::After;
    }
    if (x[i] as u32) < (y[i] as u32) {
        return StrOrder::Before;
    }
    proof {
        vstd::utf8::char_u32_cast(x@[i as int], x@[i as int] as u32);
        vstd::utf8::char_u32_cast(y@[i as int], y@[i as int] as u32);
    }
    StrOrder::After
}

/// `r` holds the strings of `src`, each once, in increasing order.
pub open spec fn sorted_distinct_of(r: Seq<Seq<char>>, src: Seq<Seq<char>>) -> bool {
    &&& forall|i: int, j: int| 0 <= i < j < r.len() ==> str_lt(#[trigger] r[i], #[trigger] r[j])
    &&& forall|i: int| 0 <= i < r.len() ==> src.contains(#[trigger] r[i])
    &&& forall|k: int| 0 <= k < src.len() ==> r.contains(#[trigger] src[k])
}

/// Where `x` belongs in the increasing list `v`: every string before the
/// position comes before `x`; the flag says whether `x` is already there.
fn insertion_point(v: &Vec<String>, x: &str) -> (r: (usize, bool))
    ensures
        r.0 <= v@.len(),
        forall|i: int| 0 <= i < r.0 ==> str_lt(v@[i]@, x@),
        r.1 ==> r.0 < v@.len() && v@[r.0 as int]@ == x@,
        !r.1 && r.0 < v@.len() ==> str_lt(x@, v@[r.0 as int]@),
{
    let mut p: usize = 0;
    while p < v.len()
        invariant
            p <= v@.len(),
            forall|i: int| 0 <= i < p ==> str_lt(v@[i]@, x@),
        decreases v@.len() - p,
    {
        match compare_strs(v[p].as_str(), x) {
            StrOrder::Before => {
                p = p + 1;
            },
            StrOrder::Same => {
                return (p, true);
            },
            StrOrder::After => {
                return (p, false);
            },
        }
    }
    (p, false)
}

/// The distinct strings of `v`, in increasing order.
pub fn sorted_unique(v: &Vec<String>) -> (r: Vec<String>)
    ensures
        sorted_distinct_of(views(r@), views(v@)),
{
    let ghost all = views(v@);
    let mut out: Vec<String> = Vec::new();
    let mut t: usize = 0;
    while t < v.len()
        invariant
            t <= v@.len(),
            all == views(v@),
            sorted_distinct_of(views(out@), all.take(t as int)),
        decreases v@.len() - t,
    {
        let x = &v[t];
        let ghost pre = all.take(t as int);
        let ghost post = all.take(t + 1);
        let ghost old_out = views(out@);
        assert(post[t as int] == x@);
        let (p, found) = insertion_point(&out, x.as_str());
        if found {
            proof {
                assert forall|k: int| 0 <= k < post.len() implies old_out.contains(
                    #[trigger] post[k],
                ) by {
                    if k < t {
                        assert(pre[k] == post[k]);
                    } else {
                        assert(old_out[p as int] == post[k]);
                    }
                }
                assert forall|i: int| 0 <= i < old_out.len() implies post.contains(
                    #[trigger] old_out[i],
                ) by {
                    let k = choose|k: int| 0 <= k < pre.len() && pre[k] == old_out[i];
                    assert(post[k] == pre[k]);
                }
            }
        } else {
            out.insert(p, x.clone());
            let ghost new_out = views(out@);
            proof {
                assert(new_out =~= old_out.insert(p as int, x@));
                assert forall|i: int, j: int| 0 <= i < j < new_out.len() implies str_lt(
                    #[trigger] new_out[i],
                    #[trigger] new_out[j],
                ) by {
                    if j < p {
                        assert(str_lt(old_out[i], old_out[j]));
                    } else if j == p {
                        assert(str_lt(old_out[i], x@));
                    } else if i < p {
                        assert(str_lt(old_out[i], x@));
                        assert(str_lt(x@, old_out[p as int]));
                        if j - 1 > p {
                            assert(str_lt(old_out[p as int], old_out[j - 1]));
                            lemma_str_lt_transitive(x@, old_out[p as int], old_out[j - 1]);
                        }
                        lemma_str_lt_transitive(old_out[i], x@, old_out[j - 1]);
                    } else if i == p {
                        assert(str_lt(x@, old_out[p as int]));
                        if j - 1 > p {
                            assert(str_lt(old_out[p as int], old_out[j - 1]));
                            lemma_str_lt_transitive(x@, old_out[p as int], old_out[j - 1]);
                        }
                    } else {
                        assert(str_lt(old_out[i - 1], old_out[j - 1]));
                    }
                }
                assert forall|k: int| 0 <= k < post.len() implies new_out.contains(
                    #[trigger] post[k],
                ) by {
                    if k < t {
                        assert(pre[k] == post[k]);
                        let i = choose|i: int| 0 <= i < old_out.len() && old_out[i] == pre[k];
                        if i < p {
                            assert(new_out[i] == old_out[i]);
                        } else {
                            assert(new_out[i + 1] == old_out[i]);
                        }
                    } else {
                        assert(new_out[p as int] == post[k]);
                    }
                }
                assert forall|i: int| 0 <= i < new_out.len() implies post.contains(
                    #[trigger] new_out[i],
                ) by {
                    if i == p {
                        assert(post[t as int] == new_out[i]);
                    } else {
                        let o = if i < p {
                            i
                        } else {
                            i - 1
                        };
                        assert(new_out[i] == old_out[o]);
                        let k = choose|k: int| 0 <= k < pre.len() && pre[k] == old_out[o];
                        assert(post[k] == pre[k]);
                    }
                }
            }
        }
        t = t + 1;
    }
    assert(all.take(v@.len() as int) =~= all);
    out
}

} // verus!
