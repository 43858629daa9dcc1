//! Character-level text operations with their specifications: the
//! subset of `str`'s behaviour (trimming, line splitting, searching,
//! joining, decimal rendering) that the diagnostics and forge output
//! are built from.
use vstd::prelude::*;
use vstd::string::StringExecFns;

verus! {

/// Trusted: std's `String::push` appends the character `ch` at the end
/// of the string and changes nothing else (as its documentation says).
/// vstd gives this method no specification of its own.
pub assume_specification[ String::push ](s: &mut String, ch: char)
    ensures
        final(s)@ == old(s)@.push(ch),
;

// ---------------------------------------------------------------------
// Specifications
// ---------------------------------------------------------------------

/// Unicode `White_Space`, the property behind `char::is_whitespace`.
pub open spec fn is_whitespace(c: char) -> bool {
    let u = c as u32;
    ||| 0x09 <= u <= 0x0D
    ||| u == 0x20
    ||| u == 0x85
    ||| u == 0xA0
    ||| u == 0x1680
    ||| 0x2000 <= u <= 0x200A
    ||| u == 0x2028
    ||| u == 0x2029
    ||| u == 0x202F
    ||| u == 0x205F
    ||| u == 0x3000
}

/// The character sequences held by a list of character vectors.
pub open spec fn char_views(v: Seq<Vec<char>>) -> Seq<Seq<char>> {
    v.map_values(|x: Vec<char>| x@)
}

/// `s` without its leading whitespace.
pub open spec fn trim_start(s: Seq<char>) -> Seq<char>
    decreases s.len(),
{
    if s.len() > 0 && is_whitespace(s[0]) {
        trim_start(s.drop_first())
    } else {
        s
    }
}

/// `s` without its trailing whitespace.
pub open spec fn trim_end(s: Seq<char>) -> Seq<char>
    decreases s.len(),
{
    if s.len() > 0 && is_whitespace(s.last()) {
        trim_end(s.drop_last())
    } else {
        s
    }
}

/// `str::trim`: both ends stripped of whitespace.
pub open spec fn trim(s: Seq<char>) -> Seq<char> {
    trim_end(trim_start(s))
}

/// `str::split('\n')`: the pieces between newlines, always at least one.
pub open spec fn split_newlines(s: Seq<char>) -> Seq<Seq<char>>
    decreases s.len(),
{
    if s.len() == 0 {
        seq![Seq::empty()]
    } else {
        let before = split_newlines(s.drop_last());
        if s.last() == '\n' {
            before.push(Seq::empty())
        } else {
            before.update(before.len() - 1, before.last().push(s.last()))
        }
    }
}

/// One `'\r'` removed from the end of `s`, if it ends with one.
pub open spec fn strip_cr(s: Seq<char>) -> Seq<char> {
    if s.len() > 0 && s.last() == '\r' {
        s.drop_last()
    } else {
        s
    }
}

/// `str::lines`: the pieces of `split('\n')`, where each piece that a
/// newline ended loses one trailing `'\r'`, and a final empty piece
/// (the text ends with a newline, or is empty) is not a line.
pub open spec fn lines(s: Seq<char>) -> Seq<Seq<char>> {
    let pieces = split_newlines(s);
    let ended = pieces.drop_last().map_values(|p: Seq<char>| strip_cr(p));
    if pieces.last().len() == 0 {
        ended
    } else {
        ended.push(pieces.last())
    }
}

/// The pieces of `list` with `sep` between each neighbouring pair.
pub open spec fn join(list: Seq<Seq<char>>, sep: Seq<char>) -> Seq<char>
    decreases list.len(),
{
    if list.len() == 0 {
        Seq::empty()
    } else if list.len() == 1 {
        list[0]
    } else {
        join(list.drop_last(), sep) + sep + list.last()
    }
}

/// The first `n` items of `s`, or all of them when there are fewer.
pub open spec fn first_n<A>(s: Seq<A>, n: nat) -> Seq<A> {
    if s.len() <= n {
        s
    } else {
        s.take(n as int)
    }
}

/// `needle` occurs in `hay` as a contiguous run.
pub open spec fn contains(hay: Seq<char>, needle: Seq<char>) -> bool {
    exists|i: int|
        0 <= i && i + needle.len() <= hay.len() && #[trigger] hay.subrange(i, i + needle.len())
            == needle
}

/// The decimal digit for `d < 10`.
pub open spec fn digit_char(d: nat) -> char {
    ((d + 48) as u32) as char
}

/// The decimal rendering of `n`, without leading zeros.
pub open spec fn decimal(n: nat) -> Seq<char>
    decreases n,
{
    if n < 10 {
        seq![digit_char(n)]
    } else {
        decimal(n / 10).push(digit_char(n % 10))
    }
}

/// The decimal rendering of a signed integer, `'-'` first when negative.
pub open spec fn signed_decimal(n: int) -> Seq<char> {
    if n < 0 {
        seq!['-'] + decimal((-n) as nat)
    } else {
        decimal(n as nat)
    }
}

// ---------------------------------------------------------------------
// Lemmas
// ---------------------------------------------------------------------

proof fn lemma_trim_start_skip(s: Seq<char>, i: int)
    requires
        0 <= i <= s.len(),
        forall|j: int| 0 <= j < i ==> is_whitespace(#[trigger] s[j]),
    ensures
        trim_start(s) == trim_start(s.skip(i)),
    decreases i,
{
    if i > 0 {
        assert(s.skip(1) =~= s.drop_first());
        lemma_trim_start_skip(s.drop_first(), i - 1);
        assert(s.drop_first().skip(i - 1) =~= s.skip(i));
    } else {
        assert(s.skip(0) =~= s);
    }
}

proof fn lemma_trim_end_take(s: Seq<char>, i: int)
    requires
        0 <= i <= s.len(),
        forall|j: int| i <= j < s.len() ==> is_whitespace(#[trigger] s[j]),
    ensures
        trim_end(s) == trim_end(s.take(i)),
    decreases s.len() - i,
{
    if i < s.len() {
        lemma_trim_end_take(s.drop_last(), i);
        assert(s.drop_last().take(i) =~= s.take(i));
    } else {
        assert(s.take(i) =~= s);
    }
}

pub proof fn lemma_split_newlines_nonempty(s: Seq<char>)
    ensures
        split_newlines(s).len() >= 1,
    decreases s.len(),
{
    if s.len() > 0 {
        lemma_split_newlines_nonempty(s.drop_last());
    }
}

// ---------------------------------------------------------------------
// Executable operations
// ---------------------------------------------------------------------

/// The characters of `s`, in order.
pub fn chars_of(s: &str) -> (v: Vec<char>)
    ensures
        v@ == s@,
{
    let mut v: Vec<char> = Vec::new();
    for c in it: s.chars()
        invariant
            v@ == it.seq().take(it.index() as int),
    {
        v.push(c);
    }
    v
}

/// A string holding exactly the characters of `v`.
pub fn string_from_chars(v: &Vec<char>) -> (s: String)
    ensures
        s@ == v@,
{
    let mut s = String::new();
    let n = v.len();
    for i in 0..n
        invariant
            n == v@.len(),
            s@ == v@.take(i as int),
    {
        s.push(v[i]);
        assert(v@.take(i + 1) == v@.take(i as int).push(v@[i as int]));
    }
    assert(v@.take(n as int) == v@);
    s
}

/// `char::is_whitespace`.
pub fn char_is_whitespace(c: char) -> (b: bool)
    ensures
        b == is_whitespace(c),
{
    let u = c as u32;
    (0x09 <= u && u <= 0x0D) || u == 0x20 || u == 0x85 || u == 0xA0 || u == 0x1680 || (0x2000
        <= u && u <= 0x200A) || u == 0x2028 || u == 0x2029 || u == 0x202F || u == 0x205F || u
        == 0x3000
}

/// `v` with whitespace stripped from both ends.
pub fn trim_chars(v: &Vec<char>) -> (t: Vec<char>)
    ensures
        t@ == trim(v@),
{
    let n = v.len();
    let mut lo: usize = 0;
    while lo < n && char_is_whitespace(v[lo])
        invariant
            n == v@.len(),
            lo <= n,
            forall|j: int| 0 <= j < lo ==> is_whitespace(#[trigger] v@[j]),
        decreases n - lo,
    {
        lo = lo + 1;
    }
    proof {
        lemma_trim_start_skip(v@, lo as int);
        if lo < n {
            assert(!is_whitespace(v@.skip(lo as int)[0]));
        }
    }
    let ghost rest = v@.skip(lo as int);
    assert(trim_start(v@) == rest);
    let mut hi: usize = n;
    while hi > lo && char_is_whitespace(v[hi - 1])
        invariant
            n == v@.len(),
            lo <= hi <= n,
            rest == v@.skip(lo as int),
            forall|j: int| hi - lo <= j < rest.len() ==> is_whitespace(#[trigger] rest[j]),
        decreases hi,
    {
        hi = hi - 1;
    }
    proof {
        lemma_trim_end_take(rest, hi - lo);
    }
    let mut t: Vec<char> = Vec::new();
    let mut k: usize = lo;
    while k < hi
        invariant
            n == v@.len(),
            lo <= k <= hi <= n,
            t@ == v@.subrange(lo as int, k as int),
        decreases hi - k,
    {
        t.push(v[k]);
        assert(v@.subrange(lo as int, k + 1) == v@.subrange(lo as int, k as int).push(v@[k as int]));
        k = k + 1;
    }
    assert(t@ == rest.take(hi - lo));
    t
}

/// `s.split('\n')`, each piece as its characters.
pub fn split_newline_chars(v: &Vec<char>) -> (pieces: Vec<Vec<char>>)
    ensures
        char_views(pieces@) == split_newlines(v@),
{
    let mut done: Vec<Vec<char>> = Vec::new();
    let mut cur: Vec<char> = Vec::new();
    let n = v.len();
    for i in 0..n
        invariant
            n == v@.len(),
            char_views(done@).push(cur@) == split_newlines(v@.take(i as int)),
    {
        proof {
            assert(v@.take(i + 1).drop_last() == v@.take(i as int));
            lemma_split_newlines_nonempty(v@.take(i as int));
        }
        let ghost before_done = char_views(done@);
        let ghost before_cur = cur@;
        let c = v[i];
        if c == '\n' {
            let finished = cur;
            cur = Vec::new();
            done.push(finished);
            assert(char_views(done@) =~= before_done.push(before_cur));
        } else {
            cur.push(c);
            assert(char_views(done@).push(cur@) =~= before_done.push(before_cur).update(
                before_done.len() as int,
                before_cur.push(c),
            ));
        }
        assert(char_views(done@).push(cur@) =~= split_newlines(v@.take(i + 1)));
    }
    assert(v@.take(n as int) == v@);
    let ghost before_done = char_views(done@);
    let ghost last = cur@;
    done.push(cur);
    assert(char_views(done@) =~= before_done.push(last));
    done
}

/// Appends the characters of `src` to `out`.
pub fn push_all(out: &mut Vec<char>, src: &Vec<char>)
    ensures
        final(out)@ == old(out)@ + src@,
{
    let n = src.len();
    for i in 0..n
        invariant
            n == src@.len(),
            out@ == old(out)@ + src@.take(i as int),
    {
        out.push(src[i]);
        assert(src@.take(i + 1) == src@.take(i as int).push(src@[i as int]));
    }
    assert(src@.take(n as int) == src@);
}

/// Appends the characters of `s` to `out`.
pub fn push_str(out: &mut Vec<char>, s: &str)
    ensures
        final(out)@ == old(out)@ + s@,
{
    let cs = chars_of(s);
    push_all(out, &cs);
}

/// The characters `v[lo..hi]`.
pub fn subrange_chars(v: &Vec<char>, lo: usize, hi: usize) -> (r: Vec<char>)
    requires
        lo <= hi <= v@.len(),
    ensures
        r@ == v@.subrange(lo as int, hi as int),
{
    let mut r: Vec<char> = Vec::new();
    let mut k: usize = lo;
    while k < hi
        invariant
            lo <= k <= hi <= v@.len(),
            r@ == v@.subrange(lo as int, k as int),
        decreases hi - k,
    {
        r.push(v[k]);
        assert(v@.subrange(lo as int, k + 1) == v@.subrange(lo as int, k as int).push(
            v@[k as int],
        ));
        k = k + 1;
    }
    r
}

/// `v` with one trailing `'\r'` removed, if present.
fn strip_cr_chars(v: &Vec<char>) -> (r: Vec<char>)
    ensures
        r@ == strip_cr(v@),
{
    let n = v.len();
    if n > 0 && v[n - 1] == '\r' {
        subrange_chars(v, 0, n - 1)
    } else {
        subrange_chars(v, 0, n)
    }
}

/// `str::lines`, each line as its characters.
pub fn lines_of(v: &Vec<char>) -> (ls: Vec<Vec<char>>)
    ensures
        char_views(ls@) == lines(v@),
{
    let pieces = split_newline_chars(v);
    proof {
        lemma_split_newlines_nonempty(v@);
    }
    let ghost ps = split_newlines(v@);
    let n = pieces.len();
    let mut ls: Vec<Vec<char>> = Vec::new();
    for i in 0..n - 1
        invariant
            n == pieces@.len(),
            n >= 1,
            char_views(pieces@) == ps,
            char_views(ls@) == ps.drop_last().map_values(|p: Seq<char>| strip_cr(p)).take(
                i as int,
            ),
    {
        assert(pieces@[i as int]@ == ps[i as int]);
        assert(ps.drop_last()[i as int] == ps[i as int]);
        let line = strip_cr_chars(&pieces[i]);
        let ghost before = char_views(ls@);
        ls.push(line);
        assert(char_views(ls@) =~= before.push(strip_cr(ps[i as int])));
        assert(char_views(ls@) =~= ps.drop_last().map_values(|p: Seq<char>| strip_cr(p)).take(
            i + 1,
        ));
    }
    let ghost ended = ps.drop_last().map_values(|p: Seq<char>| strip_cr(p));
    assert(char_views(ls@) =~= ended);
    assert(pieces@[n - 1]@ == ps.last());
    if pieces[n - 1].len() > 0 {
        let ghost before = char_views(ls@);
        let last = subrange_chars(&pieces[n - 1], 0, pieces[n - 1].len());
        assert(last@ =~= ps.last());
        ls.push(last);
        assert(char_views(ls@) =~= before.push(ps.last()));
    }
    ls
}

/// The pieces of `list` joined with `sep` between neighbours.
pub fn join_chars(list: &Vec<Vec<char>>, sep: &Vec<char>) -> (r: Vec<char>)
    ensures
        r@ == join(char_views(list@), sep@),
{
    let mut r: Vec<char> = Vec::new();
    let n = list.len();
    for i in 0..n
        invariant
            n == list@.len(),
            r@ == join(char_views(list@).take(i as int), sep@),
    {
        let ghost prefix = char_views(list@).take(i + 1);
        assert(prefix.drop_last() =~= char_views(list@).take(i as int));
        if i > 0 {
            push_all(&mut r, sep);
        } else {
            assert(char_views(list@).take(0) =~= Seq::<Seq<char>>::empty());
        }
        push_all(&mut r, &list[i]);
    }
    assert(char_views(list@).take(n as int) =~= char_views(list@));
    r
}

/// Whether `needle` occurs in `hay`.
pub fn contains_chars(hay: &Vec<char>, needle: &Vec<char>) -> (b: bool)
    ensures
        b == contains(hay@, needle@),
{
    let h = hay.len();
    let m = needle.len();
    if m > h {
        return false;
    }
    let mut i: usize = 0;
    while i <= h - m
        invariant
            h == hay@.len(),
            m == needle@.len(),
            m <= h,
            i <= h - m + 1,
            forall|k: int| 0 <= k < i ==> #[trigger] hay@.subrange(k, k + m) != needle@,
        decreases h - i,
    {
        let mut j: usize = 0;
        while j < m && hay[i + j] == needle[j]
            invariant
                h == hay@.len(),
                m == needle@.len(),
                i + m <= h,
                j <= m,
                forall|k: int| 0 <= k < j ==> hay@[i + k] == needle@[k],
            decreases m - j,
        {
            j = j + 1;
        }
        if j == m {
            assert(hay@.subrange(i as int, i + m) =~= needle@);
            return true;
        }
        assert(hay@.subrange(i as int, i + m)[j as int] != needle@[j as int]);
        i = i + 1;
    }
    false
}

/// Appends the decimal digits of `n`.
pub fn push_decimal(out: &mut Vec<char>, n: u128)
    ensures
        final(out)@ == old(out)@ + decimal(n as nat),
    decreases n,
{
    if n >= 10 {
        push_decimal(out, n / 10);
    }
    let d = (n % 10) as u32;
    let c = char_from_digit(d);
    out.push(c);
    assert(decimal(n as nat) == if n < 10 {
        seq![digit_char(n as nat)]
    } else {
        decimal((n / 10) as nat).push(digit_char((n % 10) as nat))
    });
}

/// The digit character for `d < 10`.
fn char_from_digit(d: u32) -> (c: char)
    requires
        d < 10,
    ensures
        c == digit_char(d as nat),
{
    if d == 0 { '0' }
    else if d == 1 { '1' }
    else if d == 2 { '2' }
    else if d == 3 { '3' }
    else if d == 4 { '4' }
    else if d == 5 { '5' }
    else if d == 6 { '6' }
    else if d == 7 { '7' }
    else if d == 8 { '8' }
    else { '9' }
}

/// Appends the decimal rendering of a signed integer.
pub fn push_signed_decimal(out: &mut Vec<char>, n: i64)
    ensures
        final(out)@ == old(out)@ + signed_decimal(n as int),
{
    if n < 0 {
        out.push('-');
        let m: u128 = (0i128 - (n as i128)) as u128;
        push_decimal(out, m);
        assert(out@ =~= old(out)@ + signed_decimal(n as int));
    } else {
        push_decimal(out, n as u128);
    }
}

/// Whether `a` and `b` hold the same characters.
pub fn chars_equal(a: &Vec<char>, b: &Vec<char>) -> (eq: bool)
    ensures
        eq == (a@ == b@),
{
    if a.len() != b.len() {
        return false;
    }
    let n = a.len();
    for i in 0..n
        invariant
            n == a@.len(),
            n == b@.len(),
            forall|k: int| 0 <= k < i ==> a@[k] == b@[k],
    {
        if a[i] != b[i] {
            return false;
        }
    }
    assert(a@ =~= b@);
    true
}

/// `s` holds no newline.
pub open spec fn no_newline(s: Seq<char>) -> bool {
    forall|i: int| 0 <= i < s.len() ==> s[i] != '\n'
}

pub proof fn lemma_split_without_newline(x: Seq<char>)
    requires
        no_newline(x),
    ensures
        split_newlines(x) == seq![x],
    decreases x.len(),
{
    if x.len() > 0 {
        lemma_split_without_newline(x.drop_last());
        assert(x.drop_last().push(x.last()) =~= x);
        assert(seq![x.drop_last()].update(0, x.drop_last().push(x.last())) =~= seq![x]);
    } else {
        assert(x =~= Seq::<char>::empty());
    }
}

pub proof fn lemma_split_after_newline(a: Seq<char>, b: Seq<char>)
    requires
        no_newline(b),
    ensures
        split_newlines(a + seq!['\n'] + b) == split_newlines(a).push(b),
    decreases b.len(),
{
    lemma_split_newlines_nonempty(a);
    if b.len() == 0 {
        let t = a + seq!['\n'];
        assert(a + seq!['\n'] + b =~= t);
        assert(t.drop_last() =~= a);
        assert(t.last() == '\n');
        assert(b =~= Seq::<char>::empty());
    } else {
        let b0 = b.drop_last();
        lemma_split_after_newline(a, b0);
        let t = a + seq!['\n'] + b;
        assert(t.drop_last() =~= a + seq!['\n'] + b0);
        assert(t.last() == b.last());
        assert(b.last() != '\n');
        assert(b0.push(b.last()) =~= b);
        let before = split_newlines(a).push(b0);
        assert(before.update(before.len() - 1, b0.push(b.last())) =~= split_newlines(a).push(b));
    }
}

pub proof fn lemma_split_join(list: Seq<Seq<char>>)
    requires
        list.len() > 0,
        forall|i: int| 0 <= i < list.len() ==> no_newline(#[trigger] list[i]),
    ensures
        split_newlines(join(list, seq!['\n'])) == list,
    decreases list.len(),
{
    if list.len() == 1 {
        lemma_split_without_newline(list[0]);
        assert(seq![list[0]] =~= list);
    } else {
        let init = list.drop_last();
        lemma_split_join(init);
        lemma_split_after_newline(join(init, seq!['\n']), list.last());
        assert(init.push(list.last()) =~= list);
    }
}

pub proof fn lemma_split_pieces_have_no_newline(s: Seq<char>)
    ensures
        forall|i: int|
            0 <= i < split_newlines(s).len() ==> no_newline(#[trigger] split_newlines(s)[i]),
    decreases s.len(),
{
    if s.len() > 0 {
        lemma_split_pieces_have_no_newline(s.drop_last());
        lemma_split_newlines_nonempty(s.drop_last());
    }
}

pub proof fn lemma_lines_have_no_newline(s: Seq<char>)
    ensures
        forall|i: int| 0 <= i < lines(s).len() ==> no_newline(#[trigger] lines(s)[i]),
{
    lemma_split_pieces_have_no_newline(s);
    lemma_split_newlines_nonempty(s);
    let ps = split_newlines(s);
    assert forall|i: int| 0 <= i < lines(s).len() implies no_newline(#[trigger] lines(s)[i]) by {
        if i < ps.len() - 1 {
            assert(lines(s)[i] == strip_cr(ps[i]));
            assert(no_newline(ps[i]));
        } else {
            assert(lines(s)[i] == ps.last());
            assert(no_newline(ps[ps.len() - 1]));
        }
    }
}

/// Piece `i` of a flattened sequence sits right after the pieces before it.
pub proof fn lemma_flatten_piece<A>(s: Seq<Seq<A>>, i: int)
    requires
        0 <= i < s.len(),
    ensures
        s.flatten() == s.take(i).flatten() + s[i] + s.skip(i + 1).flatten(),
        s.flatten().subrange(s.take(i).flatten().len() as int, (s.take(i).flatten().len() + s[i].len()) as int)
            == s[i],
{
    let rest = seq![s[i]] + s.skip(i + 1);
    assert(s =~= s.take(i) + rest);
    vstd::seq_lib::lemma_flatten_concat(s.take(i), rest);
    vstd::seq_lib::lemma_flatten_concat(seq![s[i]], s.skip(i + 1));
    seq![s[i]].lemma_flatten_singleton();
    let f = s.flatten();
    assert(f =~= s.take(i).flatten() + s[i] + s.skip(i + 1).flatten());
    assert(f.subrange(s.take(i).flatten().len() as int, (s.take(i).flatten().len() + s[i].len()) as int)
        =~= s[i]);
}

proof fn lemma_trim_start_shape(s: Seq<char>) -> (lo: int)
    ensures
        0 <= lo <= s.len(),
        trim_start(s) == s.skip(lo),
        forall|i: int| 0 <= i < lo ==> is_whitespace(#[trigger] s[i]),
        lo < s.len() ==> !is_whitespace(s[lo]),
    decreases s.len(),
{
    if s.len() > 0 && is_whitespace(s[0]) {
        let k = lemma_trim_start_shape(s.drop_first());
        assert(s.drop_first().skip(k) =~= s.skip(k + 1));
        assert forall|i: int| 0 <= i < k + 1 implies is_whitespace(#[trigger] s[i]) by {
            if i > 0 {
                assert(s[i] == s.drop_first()[i - 1]);
            }
        }
        if k + 1 < s.len() {
            assert(s[k + 1] == s.drop_first()[k]);
        }
        k + 1
    } else {
        assert(s.skip(0) =~= s);
        0
    }
}

proof fn lemma_trim_end_shape(s: Seq<char>) -> (hi: int)
    ensures
        0 <= hi <= s.len(),
        trim_end(s) == s.take(hi),
        forall|i: int| hi <= i < s.len() ==> is_whitespace(#[trigger] s[i]),
        hi > 0 ==> !is_whitespace(s[hi - 1]),
    decreases s.len(),
{
    if s.len() > 0 && is_whitespace(s.last()) {
        let k = lemma_trim_end_shape(s.drop_last());
        assert(s.drop_last().take(k) =~= s.take(k));
        assert forall|i: int| k <= i < s.len() implies is_whitespace(#[trigger] s[i]) by {
            if i < s.len() - 1 {
                assert(s[i] == s.drop_last()[i]);
            }
        }
        if k > 0 {
            assert(s[k - 1] == s.drop_last()[k - 1]);
        }
        k
    } else {
        assert(s.take(s.len() as int) =~= s);
        s.len() as int
    }
}

/// `str::trim` removes exactly the whitespace around the text: the result
/// is a contiguous run of `s`, everything cut off before and after it is
/// whitespace, and it neither starts nor ends with whitespace.
pub proof fn law_trim_strips_only_surrounding_whitespace(s: Seq<char>)
    ensures
        exists|lo: int, hi: int|
            0 <= lo <= hi <= s.len() && trim(s) == s.subrange(lo, hi) && (forall|i: int|
                0 <= i < lo ==> is_whitespace(#[trigger] s[i])) && (forall|i: int|
                hi <= i < s.len() ==> is_whitespace(#[trigger] s[i])),
        trim(s).len() > 0 ==> !is_whitespace(trim(s)[0]) && !is_whitespace(trim(s).last()),
{
    let lo = lemma_trim_start_shape(s);
    let t = s.skip(lo);
    let k = lemma_trim_end_shape(t);
    assert(trim(s) == t.take(k));
    assert(t.take(k) =~= s.subrange(lo, lo + k));
    assert forall|i: int| lo + k <= i < s.len() implies is_whitespace(#[trigger] s[i]) by {
        assert(s[i] == t[i - lo]);
    }
    if k > 0 {
        assert(trim(s)[0] == s[lo]);
        assert(trim(s).last() == t[k - 1]);
    }
}

/// The value of a run of decimal digits.
pub open spec fn digits_value(s: Seq<char>) -> int
    decreases s.len(),
{
    if s.len() == 0 {
        0
    } else {
        digits_value(s.drop_last()) * 10 + ((s.last() as u32) as int - 48)
    }
}

/// A number's decimal rendering reads back as that number, and is made
/// of decimal digits only.
pub proof fn law_decimal_reads_back(n: nat)
    ensures
        digits_value(decimal(n)) == n,
        decimal(n).len() >= 1,
        forall|i: int| 0 <= i < decimal(n).len() ==> 48 <= (#[trigger] decimal(n)[i]) as u32 <= 57,
    decreases n,
{
    let d = (n % 10) as nat;
    let c = digit_char(d);
    assert((c as u32) == d + 48);
    if n >= 10 {
        law_decimal_reads_back(n / 10);
        let s = decimal(n);
        assert(s.drop_last() =~= decimal(n / 10));
        assert(n == (n / 10) * 10 + d);
        assert(s.last() == c);
        assert(digits_value(s) == digits_value(s.drop_last()) * 10 + d);
        assert forall|i: int| 0 <= i < s.len() implies 48 <= (#[trigger] s[i]) as u32 <= 57 by {
            if i < s.len() - 1 {
                assert(s[i] == decimal(n / 10)[i]);
            }
        }
    } else {
        assert(decimal(n).drop_last() =~= Seq::<char>::empty());
        assert(decimal(n).last() == c);
        assert(digits_value(decimal(n)) == digits_value(Seq::<char>::empty()) * 10 + d);
    }
}

/// `s` holds no carriage return.
pub open spec fn no_carriage_return(s: Seq<char>) -> bool {
    forall|i: int| 0 <= i < s.len() ==> s[i] != '\r'
}

proof fn lemma_join_split(s: Seq<char>)
    ensures
        join(split_newlines(s), seq!['\n']) == s,
        forall|i: int|
            0 <= i < split_newlines(s).len() && no_carriage_return(s) ==> no_carriage_return(
                #[trigger] split_newlines(s)[i],
            ),
    decreases s.len(),
{
    if s.len() == 0 {
        assert(split_newlines(s) =~= seq![Seq::<char>::empty()]);
        assert(s =~= Seq::<char>::empty());
    } else {
        let init = s.drop_last();
        lemma_join_split(init);
        lemma_split_newlines_nonempty(init);
        let p = split_newlines(init);
        let c = s.last();
        assert(init.push(c) =~= s);
        if no_carriage_return(s) {
            assert(no_carriage_return(init));
        }
        if c == '\n' {
            assert(split_newlines(s) == p.push(Seq::<char>::empty()));
            assert(p.push(Seq::<char>::empty()).drop_last() =~= p);
            assert(join(p.push(Seq::<char>::empty()), seq!['\n']) =~= join(p, seq!['\n']) + seq!['\n']);
        } else {
            let q = p.update(p.len() - 1, p.last().push(c));
            assert(split_newlines(s) == q);
            if p.len() == 1 {
                assert(join(q, seq!['\n']) == q[0]);
                assert(join(p, seq!['\n']) == p[0]);
            } else {
                assert(q.drop_last() =~= p.drop_last());
                assert(join(q, seq!['\n']) == join(p.drop_last(), seq!['\n']) + seq!['\n'] + q.last());
            }
            assert(join(q, seq!['\n']) =~= s);
            if no_carriage_return(s) {
                assert forall|i: int| 0 <= i < q.len() implies no_carriage_return(#[trigger] q[i]) by {
                    if i == q.len() - 1 {
                        assert(no_carriage_return(p[i]));
                    } else {
                        assert(q[i] == p[i]);
                    }
                }
            }
        }
    }
}

/// `str::lines` splits exactly at the line endings: its lines contain no
/// newline, and for text without carriage returns, joining them with
/// newlines gives back the text (less one final newline).
pub proof fn law_lines_rejoin_to_the_text(s: Seq<char>)
    ensures
        forall|i: int| 0 <= i < lines(s).len() ==> no_newline(#[trigger] lines(s)[i]),
        no_carriage_return(s) ==> join(lines(s), seq!['\n']) == if s.len() > 0 && s.last()
            == '\n' {
            s.drop_last()
        } else {
            s
        },
{
    lemma_lines_have_no_newline(s);
    if no_carriage_return(s) {
        lemma_join_split(s);
        lemma_split_newlines_nonempty(s);
        let ps = split_newlines(s);
        assert(ps.drop_last().map_values(|p: Seq<char>| strip_cr(p)) =~= ps.drop_last()) by {
            assert forall|i: int| 0 <= i < ps.len() - 1 implies strip_cr(#[trigger] ps[i])
                == ps[i] by {
                assert(no_carriage_return(ps[i]));
                if ps[i].len() > 0 {
                    assert(ps[i][ps[i].len() - 1] != '\r');
                }
            }
        }
        if ps.last().len() == 0 {
            assert(lines(s) =~= ps.drop_last());
            if ps.len() == 1 {
                assert(join(ps, seq!['\n']) == ps[0]);
                assert(s.len() == 0);
                assert(join(ps.drop_last(), seq!['\n']) =~= s);
            } else {
                assert(join(ps, seq!['\n']) == join(ps.drop_last(), seq!['\n']) + seq!['\n'] + ps.last());
                assert(s =~= join(ps.drop_last(), seq!['\n']) + seq!['\n']);
                assert(s.drop_last() =~= join(ps.drop_last(), seq!['\n']));
            }
        } else {
            assert(ps.drop_last().push(ps.last()) =~= ps);
            assert(lines(s) =~= ps);
            if s.len() > 0 && s.last() == '\n' {
                let init = s.drop_last();
                lemma_split_newlines_nonempty(init);
                assert(init.push(s.last()) =~= s);
                assert(ps == split_newlines(init).push(Seq::<char>::empty()));
            }
        }
    }
}

} // verus!
