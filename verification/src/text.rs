use vstd::prelude::*;

verus! {

broadcast use vstd::string::group_string_axioms;

/// The Unicode `White_Space` property, which `char::is_whitespace` and
/// `str::trim` go by.
pub open spec fn is_whitespace_spec(c: char) -> bool {
    let u: u32 = c as u32;
    ||| 0x09 <= u <= 0x0d
    ||| u == 0x20
    ||| u == 0x85
    ||| u == 0xa0
    ||| u == 0x1680
    ||| 0x2000 <= u <= 0x200a
    ||| u == 0x2028
    ||| u == 0x2029
    ||| u == 0x202f
    ||| u == 0x205f
    ||| u == 0x3000
}

/// `s` without its leading whitespace.
pub open spec fn trim_start_spec(s: Seq<char>) -> Seq<char>
    decreases s.len(),
{
    if s.len() > 0 && is_whitespace_spec(s[0]) {
        trim_start_spec(s.drop_first())
    } else {
        s
    }
}

/// `s` without its trailing whitespace.
pub open spec fn trim_end_spec(s: Seq<char>) -> Seq<char>
    decreases s.len(),
{
    if s.len() > 0 && is_whitespace_spec(s.last()) {
        trim_end_spec(s.drop_last())
    } else {
        s
    }
}

/// `s` without leading and trailing whitespace.
pub open spec fn trim_spec(s: Seq<char>) -> Seq<char> {
    trim_end_spec(trim_start_spec(s))
}

/// The pieces of `s` between occurrences of `sep`: one more piece than
/// `s` holds separators, each free of `sep`.
pub open spec fn split_spec(s: Seq<char>, sep: char) -> Seq<Seq<char>>
    decreases s.len(),
{
    if s.len() == 0 {
        seq![Seq::<char>::empty()]
    } else {
        let pieces = split_spec(s.drop_last(), sep);
        if s.last() == sep {
            pieces.push(Seq::<char>::empty())
        } else {
            pieces.update(pieces.len() - 1, pieces.last().push(s.last()))
        }
    }
}

/// The views of a sequence of string slices.
pub open spec fn views(parts: Seq<&str>) -> Seq<Seq<char>> {
    parts.map_values(|p: &str| p@)
}

/// The decimal digit character of `d`.
pub open spec fn digit_spec(d: nat) -> char {
    if d == 0 {
        '0'
    } else if d == 1 {
        '1'
    } else if d == 2 {
        '2'
    } else if d == 3 {
        '3'
    } else if d == 4 {
        '4'
    } else if d == 5 {
        '5'
    } else if d == 6 {
        '6'
    } else if d == 7 {
        '7'
    } else if d == 8 {
        '8'
    } else {
        '9'
    }
}

/// The decimal notation of `n`, without leading zeros.
pub open spec fn decimal_spec(n: nat) -> Seq<char>
    decreases n,
{
    if n < 10 {
        seq![digit_spec(n)]
    } else {
        decimal_spec(n / 10).push(digit_spec(n % 10))
    }
}

/// The characters of `s`, in order.
pub fn chars_of(s: &str) -> (chars: Vec<char>)
    ensures
        chars@ == s@,
{
    let mut chars: Vec<char> = Vec::new();
    for c in it: s.chars()
        invariant
            chars@ == it.seq().take(it.index() as int),
    {
        chars.push(c);
    }
    chars
}

/// Whether `c` is Unicode whitespace.
pub fn is_whitespace(c: char) -> (b: bool)
    ensures
        b == is_whitespace_spec(c),
{
    let u: u32 = c as u32;
    (0x09 <= u && u <= 0x0d) || u == 0x20 || u == 0x85 || u == 0xa0 || u == 0x1680 || (0x2000 <= u
        && u <= 0x200a) || u == 0x2028 || u == 0x2029 || u == 0x202f || u == 0x205f || u == 0x3000
}

/// Whether two strings hold the same characters.
pub fn str_eq(a: &str, b: &str) -> (eq: bool)
    ensures
        eq == (a@ == b@),
{
    let x = chars_of(a);
    let y = chars_of(b);
    if x.len() != y.len() {
        return false;
    }
    let mut i: usize = 0;
    while i < x.len()
        invariant
            x@ == a@,
            y@ == b@,
            x.len() == y.len(),
            i <= x.len(),
            forall|j: int| 0 <= j < i ==> x@[j] == y@[j],
        decreases x.len() - i,
    {
        if x[i] != y[i] {
            return false;
        }
        i += 1;
    }
    assert(x@ =~= y@);
    true
}

proof fn lemma_trim_start_skip(s: Seq<char>, i: int)
    requires
        0 <= i <= s.len(),
        forall|j: int| 0 <= j < i ==> is_whitespace_spec(#[trigger] s[j]),
    ensures
        trim_start_spec(s) == trim_start_spec(s.skip(i)),
    decreases i,
{
    if i > 0 {
        assert(s.drop_first().skip(i - 1) =~= s.skip(i));
        assert forall|j: int| 0 <= j < i - 1 implies is_whitespace_spec(
            #[trigger] s.drop_first()[j],
        ) by {
            assert(s.drop_first()[j] == s[j + 1]);
        }
        lemma_trim_start_skip(s.drop_first(), i - 1);
    } else {
        assert(s.skip(0) =~= s);
    }
}

proof fn lemma_trim_end_take(s: Seq<char>, k: int)
    requires
        0 <= k <= s.len(),
        forall|j: int| k <= j < s.len() ==> is_whitespace_spec(#[trigger] s[j]),
    ensures
        trim_end_spec(s) == trim_end_spec(s.take(k)),
    decreases s.len() - k,
{
    if k < s.len() {
        assert(s.drop_last().take(k) =~= s.take(k));
        lemma_trim_end_take(s.drop_last(), k);
    } else {
        assert(s.take(k) =~= s);
    }
}

/// `s` without leading and trailing whitespace, as `str::trim` gives it.
pub fn trim(s: &str) -> (t: &str)
    ensures
        t@ == trim_spec(s@),
{
    let chars = chars_of(s);
    let n: usize = chars.len();
    let mut start: usize = 0;
    while start < n && is_whitespace(chars[start])
        invariant
            chars@ == s@,
            n == chars.len(),
            start <= n,
            forall|j: int| 0 <= j < start ==> is_whitespace_spec(#[trigger] s@[j]),
        decreases n - start,
    {
        start += 1;
    }
    proof {
        lemma_trim_start_skip(s@, start as int);
    }
    let ghost rest = s@.skip(start as int);
    assert(trim_start_spec(rest) == rest);
    let mut end: usize = n;
    while end > start && is_whitespace(chars[end - 1])
        invariant
            chars@ == s@,
            n == chars.len(),
            start <= end <= n,
            rest == s@.skip(start as int),
            forall|j: int| end <= j < n ==> is_whitespace_spec(#[trigger] s@[j]),
        decreases end,
    {
        end -= 1;
    }
    proof {
        assert forall|j: int| end - start <= j < rest.len() implies is_whitespace_spec(
            #[trigger] rest[j],
        ) by {
            assert(rest[j] == s@[j + start]);
        }
        lemma_trim_end_take(rest, end - start);
        let kept = rest.take(end - start);
        assert(kept =~= s@.subrange(start as int, end as int));
        if kept.len() > 0 {
            assert(kept.last() == s@[end - 1]);
        }
    }
    s.substring_char(start, end)
}

/// The pieces of `s` between occurrences of `sep`, as `str::split` gives them.
pub fn split_on<'a>(s: &'a str, sep: char) -> (parts: Vec<&'a str>)
    ensures
        views(parts@) == split_spec(s@, sep),
{
    let chars = chars_of(s);
    let n: usize = chars.len();
    let mut parts: Vec<&'a str> = Vec::new();
    let mut start: usize = 0;
    let mut i: usize = 0;
    assert(s@.take(0) =~= Seq::<char>::empty());
    assert(views(parts@) + seq![s@.subrange(0, 0)] =~= split_spec(s@.take(0), sep));
    while i < n
        invariant
            chars@ == s@,
            n == chars.len(),
            start <= i <= n,
            views(parts@) + seq![s@.subrange(start as int, i as int)] == split_spec(
                s@.take(i as int),
                sep,
            ),
        decreases n - i,
    {
        let ghost prefix = s@.take(i + 1);
        assert(prefix.drop_last() =~= s@.take(i as int));
        assert(prefix.last() == chars@[i as int]);
        let ghost pieces = split_spec(s@.take(i as int), sep);
        assert(prefix.len() > 0);
        assert(split_spec(prefix, sep) == (if prefix.last() == sep {
            pieces.push(Seq::<char>::empty())
        } else {
            pieces.update(pieces.len() - 1, pieces.last().push(prefix.last()))
        }));
        if chars[i] == sep {
            let piece = s.substring_char(start, i);
            let ghost before = parts@;
            parts.push(piece);
            assert(views(parts@) =~= views(before).push(piece@));
            assert(views(parts@) =~= pieces);
            assert(s@.subrange((i + 1) as int, (i + 1) as int) =~= Seq::<char>::empty());
            assert(views(parts@) + seq![s@.subrange((i + 1) as int, (i + 1) as int)] =~= split_spec(
                prefix,
                sep,
            ));
            start = i + 1;
        } else {
            assert(s@.subrange(start as int, (i + 1) as int) =~= s@.subrange(
                start as int,
                i as int,
            ).push(chars@[i as int]));
            assert(views(parts@) + seq![s@.subrange(start as int, (i + 1) as int)] =~= split_spec(
                prefix,
                sep,
            ));
        }
        i += 1;
    }
    let last = s.substring_char(start, n);
    let ghost before = parts@;
    parts.push(last);
    assert(views(parts@) =~= views(before).push(last@));
    assert(s@.take(n as int) =~= s@);
    parts
}

/// `s` without trailing whitespace, as `str::trim_end` gives it.
pub fn trim_end(s: &str) -> (t: &str)
    ensures
        t@ == trim_end_spec(s@),
{
    let chars = chars_of(s);
    let n: usize = chars.len();
    let mut end: usize = n;
    while end > 0 && is_whitespace(chars[end - 1])
        invariant
            chars@ == s@,
            n == chars.len(),
            end <= n,
            forall|j: int| end <= j < n ==> is_whitespace_spec(#[trigger] s@[j]),
        decreases end,
    {
        end -= 1;
    }
    proof {
        lemma_trim_end_take(s@, end as int);
        let kept = s@.take(end as int);
        assert(kept =~= s@.subrange(0, end as int));
        if kept.len() > 0 {
            assert(kept.last() == s@[end - 1]);
        }
    }
    s.substring_char(0, end)
}

/// The pieces joined again, with `sep` between neighbours.
pub open spec fn join_spec(pieces: Seq<Seq<char>>, sep: char) -> Seq<char>
    decreases pieces.len(),
{
    if pieces.len() <= 1 {
        if pieces.len() == 1 {
            pieces[0]
        } else {
            Seq::<char>::empty()
        }
    } else {
        join_spec(pieces.drop_last(), sep).push(sep) + pieces.last()
    }
}

/// Splitting loses nothing and keeps no separator: the pieces, joined with
/// the separator, give the text back, and no piece holds the separator.
pub proof fn lemma_split_join(s: Seq<char>, sep: char)
    ensures
        split_spec(s, sep).len() >= 1,
        join_spec(split_spec(s, sep), sep) == s,
        forall|i: int, j: int|
            0 <= i < split_spec(s, sep).len() && 0 <= j < split_spec(s, sep)[i].len() ==> #[trigger] split_spec(s, sep)[i][j]
                != sep,
    decreases s.len(),
{
    if s.len() == 0 {
        assert(join_spec(split_spec(s, sep), sep) =~= s);
    } else {
        let pieces = split_spec(s.drop_last(), sep);
        lemma_split_join(s.drop_last(), sep);
        let whole = split_spec(s, sep);
        if s.last() == sep {
            assert(whole.drop_last() =~= pieces);
            assert(join_spec(whole, sep) =~= s);
        } else {
            let n: nat = pieces.len();
            if n == 1 {
                assert(join_spec(whole, sep) =~= s);
            } else {
                assert(whole.drop_last() =~= pieces.drop_last());
                assert(join_spec(pieces, sep) == join_spec(pieces.drop_last(), sep).push(sep)
                    + pieces.last());
                let front = join_spec(pieces.drop_last(), sep).push(sep);
                assert(whole.last() == pieces.last().push(s.last()));
                assert(join_spec(whole, sep) == front + whole.last());
                assert(s =~= s.drop_last().push(s.last()));
                assert((front + pieces.last()).push(s.last()) =~= front + pieces.last().push(
                    s.last(),
                ));
                assert(join_spec(whole, sep) =~= s);
            }
            assert forall|i: int, j: int|
                0 <= i < whole.len() && 0 <= j < whole[i].len() implies #[trigger] whole[i][j]
                != sep by {
                if i < n - 1 {
                    assert(whole[i] == pieces[i]);
                } else if j < pieces.last().len() {
                    assert(whole[i][j] == pieces[n - 1][j]);
                }
            }
        }
    }
}

/// Text free of the separator is a single piece.
pub proof fn lemma_split_single(s: Seq<char>, sep: char)
    requires
        forall|j: int| 0 <= j < s.len() ==> #[trigger] s[j] != sep,
    ensures
        split_spec(s, sep) == seq![s],
    decreases s.len(),
{
    if s.len() > 0 {
        assert forall|j: int| 0 <= j < s.drop_last().len() implies #[trigger] s.drop_last()[j]
            != sep by {
            assert(s.drop_last()[j] == s[j]);
        }
        lemma_split_single(s.drop_last(), sep);
        assert(s[s.len() - 1] != sep);
        assert(s.drop_last().push(s.last()) =~= s);
        let pieces = split_spec(s.drop_last(), sep);
        assert(pieces.len() == 1 && pieces.last() == s.drop_last());
        let t = s.drop_last().push(s.last());
        assert(t == s);
        assert(split_spec(s, sep) == pieces.update(0, t));
        assert(pieces.update(0, t) =~= seq![t]);
    } else {
        assert(s =~= Seq::<char>::empty());
    }
}

/// A separator splits the text into the pieces before it and those after it.
pub proof fn lemma_split_concat(x: Seq<char>, y: Seq<char>, sep: char)
    ensures
        split_spec(x.push(sep) + y, sep) == split_spec(x, sep) + split_spec(y, sep),
    decreases y.len(),
{
    let whole = x.push(sep) + y;
    if y.len() == 0 {
        assert(whole =~= x.push(sep));
        assert(whole.drop_last() =~= x);
        assert(split_spec(whole, sep) =~= split_spec(x, sep) + split_spec(y, sep));
    } else {
        let y0 = y.drop_last();
        lemma_split_concat(x, y0, sep);
        lemma_split_join(y0, sep);
        assert(whole.drop_last() =~= x.push(sep) + y0);
        assert(whole.last() == y.last());
        let a = split_spec(x, sep);
        let b = split_spec(y0, sep);
        if y.last() == sep {
            assert(split_spec(whole, sep) =~= a + split_spec(y, sep));
        } else {
            assert(split_spec(y, sep) == b.update(b.len() - 1, b.last().push(y.last())));
            assert(split_spec(whole, sep) =~= a + split_spec(y, sep));
        }
    }
}

proof fn lemma_trim_start_shape(s: Seq<char>) -> (a: int)
    ensures
        0 <= a <= s.len(),
        trim_start_spec(s) == s.skip(a),
        forall|j: int| 0 <= j < a ==> is_whitespace_spec(#[trigger] s[j]),
        a < s.len() ==> !is_whitespace_spec(s[a]),
    decreases s.len(),
{
    if s.len() > 0 && is_whitespace_spec(s[0]) {
        let a0 = lemma_trim_start_shape(s.drop_first());
        assert(s.drop_first().skip(a0) =~= s.skip(a0 + 1));
        assert forall|j: int| 0 <= j < a0 + 1 implies is_whitespace_spec(#[trigger] s[j]) by {
            if j > 0 {
                assert(s[j] == s.drop_first()[j - 1]);
            }
        }
        a0 + 1
    } else {
        assert(s.skip(0) =~= s);
        0
    }
}

proof fn lemma_trim_end_shape(s: Seq<char>) -> (b: int)
    ensures
        0 <= b <= s.len(),
        trim_end_spec(s) == s.take(b),
        forall|j: int| b <= j < s.len() ==> is_whitespace_spec(#[trigger] s[j]),
        b > 0 ==> !is_whitespace_spec(s[b - 1]),
    decreases s.len(),
{
    if s.len() > 0 && is_whitespace_spec(s.last()) {
        let b0 = lemma_trim_end_shape(s.drop_last());
        assert(s.drop_last().take(b0) =~= s.take(b0));
        assert forall|j: int| b0 <= j < s.len() implies is_whitespace_spec(#[trigger] s[j]) by {
            if j < s.len() - 1 {
                assert(s[j] == s.drop_last()[j]);
            }
        }
        if b0 > 0 {
            assert(s[b0 - 1] == s.drop_last()[b0 - 1]);
        }
        b0
    } else {
        assert(s.take(s.len() as int) =~= s);
        s.len() as int
    }
}

/// Trimming removes exactly the whitespace at both ends: what is left is a
/// stretch of the text, everything before and after it is whitespace, and
/// it neither starts nor ends with whitespace.
pub proof fn lemma_trim_removes_outer_whitespace(s: Seq<char>)
    ensures
        exists|a: int, b: int|
            {
                &&& 0 <= a <= b <= s.len()
                &&& trim_spec(s) == s.subrange(a, b)
                &&& forall|j: int| 0 <= j < a ==> is_whitespace_spec(#[trigger] s[j])
                &&& forall|j: int| b <= j < s.len() ==> is_whitespace_spec(#[trigger] s[j])
                &&& a < b ==> !is_whitespace_spec(s[a]) && !is_whitespace_spec(s[b - 1])
            },
{
    let a = lemma_trim_start_shape(s);
    let rest = s.skip(a);
    let k = lemma_trim_end_shape(rest);
    let b = a + k;
    assert(rest.take(k) =~= s.subrange(a, b));
    assert forall|j: int| b <= j < s.len() implies is_whitespace_spec(#[trigger] s[j]) by {
        assert(s[j] == rest[j - a]);
    }
    if a < b {
        assert(s[a] == rest[0]);
        assert(s[b - 1] == rest[k - 1]);
    }
}

} // verus!
