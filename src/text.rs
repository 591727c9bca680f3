use vstd::prelude::*;

verus! {

/// Number of characters before the first line feed of `s` (all of `s` if it has none).
pub open spec fn first_line_len(s: Seq<char>) -> nat
    decreases s.len(),
{
    if s.len() == 0 || s[0] == '\n' {
        0
    } else {
        1 + first_line_len(s.drop_first())
    }
}

/// Drops one trailing carriage return.
pub open spec fn strip_cr(l: Seq<char>) -> Seq<char> {
    if l.len() > 0 && l.last() == '\r' {
        l.drop_last()
    } else {
        l
    }
}

/// The lines of `s`: split at each line feed, a carriage return before it dropped,
/// and no empty line after a final line feed.
pub open spec fn lines_of(s: Seq<char>) -> Seq<Seq<char>>
    decreases s.len(),
{
    if s.len() == 0 {
        seq![]
    } else {
        let n = first_line_len(s);
        if n < s.len() {
            seq![strip_cr(s.take(n as int))] + lines_of(s.skip(n + 1int))
        } else {
            seq![s]
        }
    }
}

pub proof fn lemma_first_line_len(s: Seq<char>)
    ensures
        first_line_len(s) <= s.len(),
        first_line_len(s) < s.len() ==> s[first_line_len(s) as int] == '\n',
        forall|j: int| 0 <= j < first_line_len(s) ==> s[j] != '\n',
    decreases s.len(),
{
    if s.len() > 0 && s[0] != '\n' {
        lemma_first_line_len(s.drop_first());
        let n = first_line_len(s);
        assert forall|j: int| 0 <= j < n implies s[j] != '\n' by {
            if j > 0 {
                assert(s[j] == s.drop_first()[j - 1]);
            }
        }
    }
}

/// No line holds a line feed, and a non-empty text has at least one line.
pub proof fn lemma_lines_of(s: Seq<char>)
    ensures
        s.len() > 0 ==> lines_of(s).len() >= 1,
        forall|i: int, j: int|
            0 <= i < lines_of(s).len() && 0 <= j < lines_of(s)[i].len() ==> lines_of(s)[i][j]
                != '\n',
    decreases s.len(),
{
    if s.len() > 0 {
        lemma_first_line_len(s);
        let n = first_line_len(s);
        if n < s.len() {
            lemma_lines_of(s.skip(n + 1int));
            let first = strip_cr(s.take(n as int));
            let rest = lines_of(s.skip(n + 1int));
            assert forall|i: int, j: int|
                0 <= i < lines_of(s).len() && 0 <= j < lines_of(s)[i].len() implies lines_of(
                s,
            )[i][j] != '\n' by {
                if i == 0 {
                    assert(lines_of(s)[0] == first);
                    assert(first[j] == s[j]);
                } else {
                    assert(lines_of(s)[i] == rest[i - 1]);
                }
            }
        } else {
            assert(lines_of(s) == seq![s]);
        }
    }
}

/// The concatenation of `ts`.
pub open spec fn joined(ts: Seq<Seq<char>>) -> Seq<char>
    decreases ts.len(),
{
    if ts.len() == 0 {
        seq![]
    } else {
        joined(ts.drop_last()) + ts.last()
    }
}

/// A piece of a text without line feeds is not a line feed itself.
pub proof fn lemma_joined_newline(ts: Seq<Seq<char>>, k: int)
    requires
        0 <= k < ts.len(),
        ts[k] == seq!['\n'],
    ensures
        joined(ts).contains('\n'),
    decreases ts.len(),
{
    let pre = joined(ts.drop_last());
    if k == ts.len() - 1 {
        assert(joined(ts)[pre.len() as int] == '\n');
    } else {
        lemma_joined_newline(ts.drop_last(), k);
        let w = choose|w: int| 0 <= w < pre.len() && pre[w] == '\n';
        assert(joined(ts)[w] == '\n');
    }
}

/// Relies on str::lines: lines split at "\n" or "\r\n", the final terminator optional.
#[verifier::external_body]
pub(crate) fn split_lines(s: &str) -> (r: Vec<String>)
    ensures
        r@.len() == lines_of(s@).len(),
        forall|i: int| 0 <= i < r@.len() ==> r@[i]@ == lines_of(s@)[i],
{
    s.lines().map(|l| l.to_string()).collect()
}

/// What str::to_lowercase makes of a text.
pub uninterp spec fn lower_of(s: Seq<char>) -> Seq<char>;

/// Relies on str::to_lowercase: the result depends on the characters alone.
#[verifier::external_body]
pub(crate) fn to_lowercase(s: &str) -> (r: String)
    ensures
        r@ == lower_of(s@),
{
    s.to_lowercase()
}

/// Whether two strings hold the same characters.
pub fn str_eq(a: &str, b: &str) -> (r: bool)
    ensures
        r == (a@ == b@),
{
    let n = a.unicode_len();
    if n != b.unicode_len() {
        return false;
    }
    let mut i: usize = 0;
    while i < n
        invariant
            n == a@.len(),
            n == b@.len(),
            i <= n,
            a@.take(i as int) == b@.take(i as int),
        decreases n - i,
    {
        if a.get_char(i) != b.get_char(i) {
            return false;
        }
        assert(a@.take(i as int + 1) == a@.take(i as int).push(a@[i as int]));
        assert(b@.take(i as int + 1) == b@.take(i as int).push(b@[i as int]));
        i = i + 1;
    }
    assert(a@ == a@.take(n as int));
    assert(b@ == b@.take(n as int));
    true
}

} // verus!
