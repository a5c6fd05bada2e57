//! Character-level string utilities: insertion and removal at a cursor,
//! joining and splitting line sequences, whitespace trimming, and the
//! search for the `": "` separator of a header line.
//!
//! All specifications are stated over `Seq<char>` views.

use vstd::prelude::*;
use vstd::string::*;

verus! {

// ---------------------------------------------------------------------------
// Whitespace

/// The whitespace characters stripped by trimming.
pub open spec fn is_ws(c: char) -> bool {
    c == ' ' || c == '\t' || c == '\n' || c == '\r'
}

/// Exec mirror of [`is_ws`].
pub fn is_ws_char(c: char) -> (r: bool)
    ensures
        r == is_ws(c),
{
    c == ' ' || c == '\t' || c == '\n' || c == '\r'
}

// ---------------------------------------------------------------------------
// Character primitives

/// Number of characters in a string slice.
pub fn char_count(s: &str) -> (n: usize)
    ensures
        n as nat == s@.len(),
{
    s.unicode_len()
}

/// Relies on `String::push`: appends exactly the given character to the
/// end of the string.
#[verifier::external_body]
pub(crate) fn push_char(s: &mut String, c: char)
    ensures
        final(s)@ == old(s)@ + seq![c],
{
    s.push(c);
}

/// Copy of `s` with `c` inserted at character position `i`.
pub fn insert_char_at(s: &str, i: usize, c: char) -> (r: String)
    requires
        i as nat <= s@.len(),
    ensures
        r@ == s@.subrange(0, i as int) + seq![c] + s@.subrange(i as int, s@.len() as int),
        r@.len() == s@.len() + 1,
{
    let n = char_count(s);
    let head = s.substring_char(0, i);
    let tail = s.substring_char(i, n);
    let mut r = String::from_str(head);
    push_char(&mut r, c);
    r.append(tail);
    proof {
        assert(r@ =~= s@.subrange(0, i as int) + seq![c] + s@.subrange(i as int, s@.len() as int));
    }
    r
}

/// Copy of `s` with the character at position `i` removed.
pub fn remove_char_at(s: &str, i: usize) -> (r: String)
    requires
        (i as nat) < s@.len(),
    ensures
        r@ == s@.subrange(0, i as int) + s@.subrange(i as int + 1, s@.len() as int),
        r@.len() == s@.len() - 1,
{
    let n = char_count(s);
    let head = s.substring_char(0, i);
    let tail = s.substring_char(i + 1, n);
    let mut r = String::from_str(head);
    r.append(tail);
    proof {
        assert(r@ =~= s@.subrange(0, i as int) + s@.subrange(i as int + 1, s@.len() as int));
    }
    r
}

// ---------------------------------------------------------------------------
// Line views

/// The character sequences behind a sequence of line strings.
pub open spec fn views_of(lines: Seq<String>) -> Seq<Seq<char>> {
    Seq::new(lines.len(), |i: int| lines[i]@)
}

// ---------------------------------------------------------------------------
// Joining and splitting lines

/// The lines joined with a newline between consecutive lines.
pub open spec fn join_lines(ls: Seq<Seq<char>>) -> Seq<char>
    decreases ls.len(),
{
    if ls.len() == 0 {
        Seq::empty()
    } else if ls.len() == 1 {
        ls[0]
    } else {
        join_lines(ls.drop_last()) + seq!['\n'] + ls.last()
    }
}

/// Position of the first newline in `s`, or `s.len()` if there is none.
pub open spec fn first_nl(s: Seq<char>) -> nat
    decreases s.len(),
{
    if s.len() == 0 {
        0
    } else if s[0] == '\n' {
        0
    } else {
        1 + first_nl(s.drop_first())
    }
}

pub proof fn lemma_first_nl(s: Seq<char>)
    ensures
        first_nl(s) <= s.len(),
        first_nl(s) < s.len() ==> s[first_nl(s) as int] == '\n',
        forall|j: int| 0 <= j < first_nl(s) ==> s[j] != '\n',
    decreases s.len(),
{
    if s.len() == 0 {
    } else if s[0] == '\n' {
    } else {
        lemma_first_nl(s.drop_first());
        assert forall|j: int| 0 <= j < first_nl(s) implies s[j] != '\n' by {
            if j > 0 {
                assert(s.drop_first()[j - 1] == s[j]);
            }
        }
        if first_nl(s) < s.len() {
            assert(s.drop_first()[first_nl(s.drop_first()) as int] == s[first_nl(s) as int]);
        }
    }
}

pub proof fn lemma_first_nl_is(s: Seq<char>, k: int)
    requires
        0 <= k < s.len(),
        s[k] == '\n',
        forall|j: int| 0 <= j < k ==> s[j] != '\n',
    ensures
        first_nl(s) == k,
{
    lemma_first_nl(s);
    if first_nl(s) < k {
        assert(s[first_nl(s) as int] != '\n');
    }
    if first_nl(s) > k {
        assert(s[k] != '\n');
    }
}

/// The text split at each newline; a text without newlines is a single
/// line, and every separator contributes one more line.
pub open spec fn split_lines(s: Seq<char>) -> Seq<Seq<char>>
    decreases s.len(),
{
    let i = first_nl(s);
    if i >= s.len() {
        seq![s]
    } else {
        seq![s.subrange(0, i as int)] + split_lines(
            s.subrange(i as int + 1, s.len() as int),
        )
    }
}

pub proof fn lemma_split_nonempty(s: Seq<char>)
    ensures
        split_lines(s).len() >= 1,
{
}

pub proof fn lemma_split_no_nl(s: Seq<char>)
    ensures
        forall|k: int, j: int|
            0 <= k < split_lines(s).len() && 0 <= j < split_lines(s)[k].len()
                ==> split_lines(s)[k][j] != '\n',
    decreases s.len(),
{
    lemma_first_nl(s);
    let i = first_nl(s);
    if i < s.len() {
        let rest = s.subrange(i as int + 1, s.len() as int);
        lemma_split_no_nl(rest);
        assert forall|k: int, j: int|
            0 <= k < split_lines(s).len() && 0 <= j < split_lines(s)[k].len() implies split_lines(
            s,
        )[k][j] != '\n' by {
            if k == 0 {
                assert(split_lines(s)[0] == s.subrange(0, i as int));
                assert(s.subrange(0, i as int)[j] == s[j]);
            } else {
                assert(split_lines(s)[k] == split_lines(rest)[k - 1]);
            }
        }
    }
}

/// Helper: joining a line consed onto a nonempty tail.
pub proof fn lemma_join_cons(h: Seq<char>, ls: Seq<Seq<char>>)
    requires
        ls.len() >= 1,
    ensures
        join_lines(seq![h] + ls) == h + seq!['\n'] + join_lines(ls),
    decreases ls.len(),
{
    let whole = seq![h] + ls;
    if ls.len() == 1 {
        assert(whole.drop_last() =~= seq![h]);
        assert(join_lines(seq![h]) == h);
        assert(whole.last() == ls[0]);
        assert(join_lines(ls) == ls[0]);
    } else {
        lemma_join_cons(h, ls.drop_last());
        assert(whole.drop_last() =~= seq![h] + ls.drop_last());
        assert(whole.last() == ls.last());
    }
}

/// Law: joining the lines that a text was split into restores the text.
pub proof fn lemma_join_split(s: Seq<char>)
    ensures
        join_lines(split_lines(s)) == s,
    decreases s.len(),
{
    lemma_first_nl(s);
    let i = first_nl(s);
    if i >= s.len() {
        assert(join_lines(seq![s]) == s);
    } else {
        let head = s.subrange(0, i as int);
        let rest = s.subrange(i as int + 1, s.len() as int);
        lemma_join_split(rest);
        lemma_split_nonempty(rest);
        lemma_join_cons(head, split_lines(rest));
        assert(head + seq!['\n'] + rest =~= s);
    }
}

/// Law: splitting the join of newline-free lines restores the lines.
pub proof fn lemma_split_join(ls: Seq<Seq<char>>)
    requires
        ls.len() >= 1,
        forall|k: int, j: int| 0 <= k < ls.len() && 0 <= j < ls[k].len() ==> ls[k][j] != '\n',
    ensures
        split_lines(join_lines(ls)) == ls,
    decreases ls.len(),
{
    if ls.len() == 1 {
        let s = join_lines(ls);
        assert(s == ls[0]);
        lemma_first_nl(s);
        if first_nl(s) < s.len() {
            assert(s[first_nl(s) as int] != '\n');
        }
        assert(split_lines(s) =~= ls);
    } else {
        let tail = ls.drop_first();
        assert(ls =~= seq![ls[0]] + tail);
        lemma_join_cons(ls[0], tail);
        let s = join_lines(ls);
        assert(s == ls[0] + seq!['\n'] + join_lines(tail));
        assert forall|j: int| 0 <= j < ls[0].len() implies s[j] != '\n' by {
            assert(s[j] == ls[0][j]);
        }
        assert(s[ls[0].len() as int] == '\n');
        lemma_first_nl_is(s, ls[0].len() as int);
        assert(s.subrange(0, ls[0].len() as int) =~= ls[0]);
        assert(s.subrange(ls[0].len() as int + 1, s.len() as int) =~= join_lines(tail));
        assert forall|k: int, j: int|
            0 <= k < tail.len() && 0 <= j < tail[k].len() implies tail[k][j] != '\n' by {
            assert(tail[k] == ls[k + 1]);
        }
        lemma_split_join(tail);
        assert(split_lines(s) =~= ls);
    }
}

/// Join the buffer lines with a newline between consecutive lines.
pub fn join_text(lines: &Vec<String>) -> (r: String)
    requires
        lines@.len() >= 1,
    ensures
        r@ == join_lines(views_of(lines@)),
{
    let ghost vs = views_of(lines@);
    let mut r = lines[0].clone();
    proof {
        assert(vs.take(1) =~= seq![vs[0]]);
    }
    let mut i: usize = 1;
    while i < lines.len()
        invariant
            1 <= i <= lines@.len(),
            vs == views_of(lines@),
            r@ == join_lines(vs.take(i as int)),
        decreases lines@.len() - i,
    {
        push_char(&mut r, '\n');
        r.append(lines[i].as_str());
        proof {
            assert(vs.take(i as int + 1).drop_last() =~= vs.take(i as int));
            assert(vs.take(i as int + 1).last() == vs[i as int]);
        }
        i += 1;
    }
    proof {
        assert(vs.take(lines@.len() as int) =~= vs);
    }
    r
}

/// Split the text into lines at each newline character.
pub fn split_text(s: &str) -> (r: Vec<String>)
    ensures
        views_of(r@) == split_lines(s@),
        r@.len() >= 1,
{
    let n = char_count(s);
    let mut out: Vec<String> = Vec::new();
    let mut start: usize = 0;
    let mut i: usize = 0;
    proof {
        assert(s@.subrange(0, n as int) =~= s@);
        assert(views_of(out@) =~= Seq::<Seq<char>>::empty());
        assert(views_of(out@) + split_lines(s@) =~= split_lines(s@));
    }
    while i < n
        invariant
            0 <= start as int <= i as int <= n as int,
            n as nat == s@.len(),
            forall|j: int| start <= j < i ==> s@[j] != '\n',
            split_lines(s@) =~= views_of(out@) + split_lines(
                s@.subrange(start as int, n as int),
            ),
        decreases n - i,
    {
        if s.get_char(i) == '\n' {
            let ghost old_out = out@;
            let piece = String::from_str(s.substring_char(start, i));
            out.push(piece);
            proof {
                let rem = s@.subrange(start as int, n as int);
                assert forall|j: int| 0 <= j < i - start implies rem[j] != '\n' by {
                    assert(rem[j] == s@[start + j]);
                }
                assert(rem[i - start] == s@[i as int]);
                lemma_first_nl_is(rem, i - start);
                assert(rem.subrange(0, i - start) =~= s@.subrange(start as int, i as int));
                assert(rem.subrange(i - start + 1, rem.len() as int) =~= s@.subrange(
                    i as int + 1,
                    n as int,
                ));
                assert(views_of(out@) =~= views_of(old_out) + seq![piece@]);
                assert(split_lines(rem) =~= seq![piece@] + split_lines(
                    s@.subrange(i as int + 1, n as int),
                ));
            }
            start = i + 1;
        }
        i += 1;
    }
    let ghost old_out = out@;
    let piece = String::from_str(s.substring_char(start, n));
    out.push(piece);
    proof {
        let rem = s@.subrange(start as int, n as int);
        lemma_first_nl(rem);
        if first_nl(rem) < rem.len() {
            assert(s@[start + first_nl(rem)] != '\n');
            assert(rem[first_nl(rem) as int] == s@[start + first_nl(rem)]);
        }
        assert(split_lines(rem) =~= seq![rem]);
        assert(piece@ == rem);
        assert(views_of(out@) =~= views_of(old_out) + seq![piece@]);
    }
    out
}

// ---------------------------------------------------------------------------
// Trimming

pub open spec fn trim_start_spec(s: Seq<char>) -> Seq<char>
    decreases s.len(),
{
    if s.len() > 0 && is_ws(s[0]) {
        trim_start_spec(s.drop_first())
    } else {
        s
    }
}

pub open spec fn trim_end_spec(s: Seq<char>) -> Seq<char>
    decreases s.len(),
{
    if s.len() > 0 && is_ws(s.last()) {
        trim_end_spec(s.drop_last())
    } else {
        s
    }
}

/// The text with leading and trailing whitespace removed.
pub open spec fn trim_spec(s: Seq<char>) -> Seq<char> {
    trim_end_spec(trim_start_spec(s))
}

pub proof fn lemma_trim_start_at(s: Seq<char>, a: int)
    requires
        0 <= a <= s.len(),
        forall|j: int| 0 <= j < a ==> is_ws(s[j]),
        a < s.len() ==> !is_ws(s[a]),
    ensures
        trim_start_spec(s) == s.subrange(a, s.len() as int),
    decreases a,
{
    if a == 0 {
        if s.len() > 0 && is_ws(s[0]) {
            assert(false);
        }
        assert(s.subrange(0, s.len() as int) =~= s);
    } else {
        assert(is_ws(s[0]));
        let d = s.drop_first();
        assert forall|j: int| 0 <= j < a - 1 implies is_ws(d[j]) by {
            assert(d[j] == s[j + 1]);
        }
        if a - 1 < d.len() {
            assert(d[a - 1] == s[a]);
        }
        lemma_trim_start_at(d, a - 1);
        assert(d.subrange(a - 1, d.len() as int) =~= s.subrange(a, s.len() as int));
    }
}

pub proof fn lemma_trim_end_at(s: Seq<char>, b: int)
    requires
        0 <= b <= s.len(),
        forall|j: int| b <= j < s.len() ==> is_ws(s[j]),
        b > 0 ==> !is_ws(s[b - 1]),
    ensures
        trim_end_spec(s) == s.subrange(0, b),
    decreases s.len() - b,
{
    if b == s.len() {
        if s.len() > 0 && is_ws(s.last()) {
            assert(!is_ws(s[b - 1]));
        }
        assert(s.subrange(0, s.len() as int) =~= s);
    } else {
        assert(is_ws(s.last()));
        let d = s.drop_last();
        lemma_trim_end_at(d, b);
        assert(d.subrange(0, b) =~= s.subrange(0, b));
    }
}

/// The string with leading and trailing whitespace removed.
pub fn trim_str(s: &str) -> (r: String)
    ensures
        r@ == trim_spec(s@),
{
    let n = char_count(s);
    let mut a: usize = 0;
    while a < n && is_ws_char(s.get_char(a))
        invariant
            0 <= a as int <= n as int,
            n as nat == s@.len(),
            forall|j: int| 0 <= j < a ==> is_ws(s@[j]),
        decreases n - a,
    {
        a += 1;
    }
    let mut b: usize = n;
    while b > a && is_ws_char(s.get_char(b - 1))
        invariant
            a as int <= b as int <= n as int,
            n as nat == s@.len(),
            forall|j: int| b <= j < n ==> is_ws(s@[j]),
        decreases b,
    {
        b -= 1;
    }
    let r = String::from_str(s.substring_char(a, b));
    proof {
        lemma_trim_start_at(s@, a as int);
        let t = trim_start_spec(s@);
        assert(t == s@.subrange(a as int, n as int));
        assert forall|j: int| b - a <= j < t.len() implies is_ws(t[j]) by {
            assert(t[j] == s@[a + j]);
        }
        if b > a {
            assert(t[b - a - 1] == s@[b - 1]);
        }
        lemma_trim_end_at(t, b as int - a as int);
        assert(t.subrange(0, b as int - a as int) =~= s@.subrange(a as int, b as int));
    }
    r
}

// ---------------------------------------------------------------------------
// Header separator

/// Position of the first `": "` separator in `s`, or `s.len()` if there
/// is none.
pub open spec fn first_sep(s: Seq<char>) -> nat
    decreases s.len(),
{
    if s.len() < 2 {
        s.len()
    } else if s[0] == ':' && s[1] == ' ' {
        0
    } else {
        1 + first_sep(s.drop_first())
    }
}

pub proof fn lemma_first_sep(s: Seq<char>)
    ensures
        first_sep(s) <= s.len(),
        first_sep(s) < s.len() ==> first_sep(s) + 1 < s.len() && s[first_sep(s) as int] == ':'
            && s[first_sep(s) as int + 1] == ' ',
        forall|j: int|
            0 <= j < first_sep(s) && j + 1 < s.len() ==> !(#[trigger] s[j] == ':' && s[j + 1]
                == ' '),
    decreases s.len(),
{
    if s.len() < 2 {
    } else if s[0] == ':' && s[1] == ' ' {
    } else {
        let d = s.drop_first();
        lemma_first_sep(d);
        assert forall|j: int|
            0 <= j < first_sep(s) && j + 1 < s.len() implies !(#[trigger] s[j] == ':' && s[j + 1]
            == ' ') by {
            if j > 0 {
                assert(d[j - 1] == s[j]);
                assert(d[j] == s[j + 1]);
            }
        }
        if first_sep(s) < s.len() {
            assert(d[first_sep(d) as int] == s[first_sep(s) as int]);
            assert(d[first_sep(d) as int + 1] == s[first_sep(s) as int + 1]);
        }
    }
}

pub proof fn lemma_first_sep_is(s: Seq<char>, k: int)
    requires
        0 <= k,
        k + 1 < s.len(),
        s[k] == ':',
        s[k + 1] == ' ',
        forall|j: int| 0 <= j < k ==> !(#[trigger] s[j] == ':' && s[j + 1] == ' '),
    ensures
        first_sep(s) == k,
{
    lemma_first_sep(s);
    if first_sep(s) < k {
        assert(!(s[first_sep(s) as int] == ':' && s[first_sep(s) as int + 1] == ' '));
    }
    if first_sep(s) > k {
        assert(!(s[k] == ':' && s[k + 1] == ' '));
    }
}

/// Position of the first `": "` separator, if any.
pub fn find_sep(s: &str) -> (r: Option<usize>)
    ensures
        match r {
            Some(i) => i as nat == first_sep(s@) && i as nat + 2 <= s@.len(),
            None => first_sep(s@) == s@.len(),
        },
{
    let n = char_count(s);
    if n < 2 {
        proof {
            lemma_first_sep(s@);
            if first_sep(s@) < s@.len() {
                assert(first_sep(s@) + 1 < s@.len());
            }
        }
        return None;
    }
    let mut i: usize = 0;
    while i + 1 < n
        invariant
            0 <= i as int,
            i as int + 1 <= n as int,
            n as nat == s@.len(),
            n >= 2,
            forall|j: int| 0 <= j < i ==> !(#[trigger] s@[j] == ':' && s@[j + 1] == ' '),
        decreases n - i,
    {
        if s.get_char(i) == ':' && s.get_char(i + 1) == ' ' {
            proof {
                lemma_first_sep_is(s@, i as int);
            }
            return Some(i);
        }
        i += 1;
    }
    proof {
        lemma_first_sep(s@);
        if first_sep(s@) < s@.len() {
            assert(!(s@[first_sep(s@) as int] == ':' && s@[first_sep(s@) as int + 1] == ' '));
        }
    }
    None
}

} // verus!
