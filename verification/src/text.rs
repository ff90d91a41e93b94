use vstd::prelude::*;
use vstd::string::StrSliceExecFns;

verus! {

// Text handled by this crate is modelled as a sequence of characters.
// Executable code carries it as `Vec<char>`, whose view is the same
// `Seq<char>` that the view of `str` and `String` gives, so contracts can
// speak of one model throughout.

/// `p` is a prefix of `s`.
pub open spec fn is_prefix_of(p: Seq<char>, s: Seq<char>) -> bool {
    p.len() <= s.len() && s.subrange(0, p.len() as int) == p
}

/// `sub` occurs in `s` starting exactly at index `i`.
pub open spec fn occurs_at(s: Seq<char>, sub: Seq<char>, i: int) -> bool {
    0 <= i && i + sub.len() <= s.len() && s.subrange(i, i + sub.len() as int) == sub
}

/// `sub` occurs somewhere in `s`.
pub open spec fn contains_seq(s: Seq<char>, sub: Seq<char>) -> bool {
    exists|i: int| occurs_at(s, sub, i)
}

/// The whitespace characters that trimming removes.
pub open spec fn is_space(c: char) -> bool {
    c == ' ' || c == '\t' || c == '\r' || c == '\n'
}

/// `s` with leading whitespace removed.
pub open spec fn trim_front_of(s: Seq<char>) -> Seq<char>
    decreases s.len(),
{
    if s.len() > 0 && is_space(s[0]) {
        trim_front_of(s.drop_first())
    } else {
        s
    }
}

/// `s` with trailing whitespace removed.
pub open spec fn trim_back_of(s: Seq<char>) -> Seq<char>
    decreases s.len(),
{
    if s.len() > 0 && is_space(s.last()) {
        trim_back_of(s.drop_last())
    } else {
        s
    }
}

/// `s` with leading and trailing whitespace removed.
pub open spec fn trim_of(s: Seq<char>) -> Seq<char> {
    trim_back_of(trim_front_of(s))
}

/// Index of the first line feed in `s`, or `s.len()` if there is none.
pub open spec fn line_break_at(s: Seq<char>) -> nat
    decreases s.len(),
{
    if s.len() == 0 {
        0
    } else if s[0] == '\n' {
        0
    } else {
        (1 + line_break_at(s.drop_first())) as nat
    }
}

/// A line with a trailing carriage return removed, as a line feed that
/// ends a `\r\n` pair removes the carriage return with it.
pub open spec fn strip_cr(l: Seq<char>) -> Seq<char> {
    if l.len() > 0 && l.last() == '\r' {
        l.drop_last()
    } else {
        l
    }
}

/// The lines of `s`: split at line feeds, each terminated line losing a
/// carriage return that immediately precedes its line feed; a final
/// unterminated segment is kept verbatim, and a trailing line feed adds
/// no empty line.
pub open spec fn lines_of(s: Seq<char>) -> Seq<Seq<char>>
    decreases s.len(),
{
    if s.len() == 0 {
        Seq::empty()
    } else {
        let b = line_break_at(s);
        if b >= s.len() {
            seq![s]
        } else {
            seq![strip_cr(s.take(b as int))] + lines_of(s.skip(b as int + 1))
        }
    }
}

/// The lines joined back together with single line feeds between them.
pub open spec fn join_of(ls: Seq<Seq<char>>) -> Seq<char>
    decreases ls.len(),
{
    if ls.len() == 0 {
        Seq::empty()
    } else if ls.len() == 1 {
        ls[0]
    } else {
        join_of(ls.drop_last()) + seq!['\n'] + ls.last()
    }
}

proof fn lemma_line_break_at_found(s: Seq<char>, b: int)
    requires
        0 <= b <= s.len(),
        forall|k: int| 0 <= k < b ==> s[k] != '\n',
        b < s.len() ==> s[b] == '\n',
    ensures
        line_break_at(s) == b,
    decreases b,
{
    if b == 0 {
    } else {
        lemma_line_break_at_found(s.drop_first(), b - 1);
    }
}

proof fn lemma_trim_front_skip(s: Seq<char>, lo: int)
    requires
        0 <= lo <= s.len(),
        forall|k: int| 0 <= k < lo ==> is_space(s[k]),
        lo < s.len() ==> !is_space(s[lo]),
    ensures
        trim_front_of(s) == s.skip(lo),
    decreases lo,
{
    if lo == 0 {
        assert(s.skip(0) =~= s);
    } else {
        lemma_trim_front_skip(s.drop_first(), lo - 1);
        assert(s.drop_first().skip(lo - 1) =~= s.skip(lo));
    }
}

proof fn lemma_trim_back_take(s: Seq<char>, hi: int)
    requires
        0 <= hi <= s.len(),
        forall|k: int| hi <= k < s.len() ==> is_space(s[k]),
        hi > 0 ==> !is_space(s[hi - 1]),
    ensures
        trim_back_of(s) == s.take(hi),
    decreases s.len() - hi,
{
    if hi == s.len() {
        assert(s.take(hi) =~= s);
    } else {
        lemma_trim_back_take(s.drop_last(), hi);
        assert(s.drop_last().take(hi) =~= s.take(hi));
    }
}

/// Occurrence of a pattern survives extending the text on the right.
pub proof fn lemma_contains_extend(s: Seq<char>, t: Seq<char>, sub: Seq<char>)
    requires
        contains_seq(s, sub),
    ensures
        contains_seq(s + t, sub),
{
    let i = choose|i: int| occurs_at(s, sub, i);
    assert((s + t).subrange(i, i + sub.len() as int) =~= sub);
    assert(occurs_at(s + t, sub, i));
}

/// The characters of a string slice, one for one.
pub fn str_to_chars(s: &str) -> (r: Vec<char>)
    ensures
        r@ == s@,
{
    let n = s.unicode_len();
    let mut r: Vec<char> = Vec::new();
    let mut i: usize = 0;
    while i < n
        invariant
            i <= n,
            n == s@.len(),
            r@ == s@.take(i as int),
        decreases n - i,
    {
        r.push(s.get_char(i));
        proof {
            assert(s@.take(i + 1) =~= s@.take(i as int).push(s@[i as int]));
        }
        i += 1;
    }
    proof {
        assert(s@.take(n as int) =~= s@);
    }
    r
}

/// Whether two string slices hold the same characters.
pub fn str_eq(a: &str, b: &str) -> (r: bool)
    ensures
        r == (a@ == b@),
{
    let n = a.unicode_len();
    if n != b.unicode_len() {
        return false;
    }
    let mut i: usize = 0;
    while i < n
        invariant
            i <= n,
            n == a@.len(),
            n == b@.len(),
            forall|k: int| 0 <= k < i ==> a@[k] == b@[k],
        decreases n - i,
    {
        if a.get_char(i) != b.get_char(i) {
            return false;
        }
        i += 1;
    }
    proof {
        assert(a@ =~= b@);
    }
    true
}

/// Whether two character vectors hold the same characters.
pub fn chars_eq(a: &Vec<char>, b: &Vec<char>) -> (r: bool)
    ensures
        r == (a@ == b@),
{
    if a.len() != b.len() {
        return false;
    }
    let mut i: usize = 0;
    while i < a.len()
        invariant
            i <= a@.len(),
            a@.len() == b@.len(),
            forall|k: int| 0 <= k < i ==> a@[k] == b@[k],
        decreases a@.len() - i,
    {
        if a[i] != b[i] {
            return false;
        }
        i += 1;
    }
    proof {
        assert(a@ =~= b@);
    }
    true
}

fn is_space_char(c: char) -> (b: bool)
    ensures
        b == is_space(c),
{
    c == ' ' || c == '\t' || c == '\r' || c == '\n'
}

fn occurs_at_idx(s: &Vec<char>, sub: &Vec<char>, i: usize) -> (b: bool)
    requires
        i + sub@.len() <= s@.len(),
    ensures
        b == occurs_at(s@, sub@, i as int),
{
    let slen = s.len();
    let mut j: usize = 0;
    while j < sub.len()
        invariant
            j <= sub@.len(),
            i + sub@.len() <= s@.len(),
            slen == s@.len(),
            forall|k: int| 0 <= k < j ==> s@[i + k] == sub@[k],
        decreases sub@.len() - j,
    {
        if s[i + j] != sub[j] {
            proof {
                assert(s@.subrange(i as int, i + sub@.len() as int)[j as int] != sub@[j as int]);
            }
            return false;
        }
        j += 1;
    }
    proof {
        assert(s@.subrange(i as int, i + sub@.len() as int) =~= sub@);
    }
    true
}

/// Whether `p` is a prefix of `s`.
pub fn starts_with_chars(s: &Vec<char>, p: &Vec<char>) -> (b: bool)
    ensures
        b == is_prefix_of(p@, s@),
{
    if p.len() > s.len() {
        return false;
    }
    occurs_at_idx(s, p, 0)
}

/// Whether `sub` occurs anywhere in `s`.
pub fn contains_chars(s: &Vec<char>, sub: &Vec<char>) -> (b: bool)
    ensures
        b == contains_seq(s@, sub@),
{
    if sub.len() > s.len() {
        return false;
    }
    let last: usize = s.len() - sub.len();
    let mut i: usize = 0;
    while i < last
        invariant
            i <= last,
            last == s@.len() - sub@.len(),
            forall|k: int| 0 <= k < i ==> !occurs_at(s@, sub@, k),
        decreases last - i,
    {
        if occurs_at_idx(s, sub, i) {
            return true;
        }
        i += 1;
    }
    if occurs_at_idx(s, sub, last) {
        return true;
    }
    false
}

/// `s` with leading and trailing whitespace removed.
pub fn trim_chars(s: &Vec<char>) -> (r: Vec<char>)
    ensures
        r@ == trim_of(s@),
{
    let mut lo: usize = 0;
    while lo < s.len() && is_space_char(s[lo])
        invariant
            lo <= s@.len(),
            forall|k: int| 0 <= k < lo ==> is_space(s@[k]),
        decreases s@.len() - lo,
    {
        lo += 1;
    }
    proof {
        lemma_trim_front_skip(s@, lo as int);
    }
    let ghost front = s@.skip(lo as int);
    let mut hi: usize = s.len();
    while hi > lo && is_space_char(s[hi - 1])
        invariant
            lo <= hi <= s@.len(),
            forall|k: int| hi <= k < s@.len() ==> is_space(s@[k]),
        decreases hi,
    {
        hi -= 1;
    }
    proof {
        assert(forall|k: int| hi - lo <= k < front.len() ==> is_space(#[trigger] front[k]));
        lemma_trim_back_take(front, hi - lo);
    }
    let mut r: Vec<char> = Vec::new();
    let mut i: usize = lo;
    while i < hi
        invariant
            lo <= i <= hi <= s@.len(),
            r@ == s@.subrange(lo as int, i as int),
        decreases hi - i,
    {
        r.push(s[i]);
        proof {
            assert(s@.subrange(lo as int, i + 1) =~= s@.subrange(lo as int, i as int).push(
                s@[i as int],
            ));
        }
        i += 1;
    }
    proof {
        assert(r@ =~= front.take(hi - lo));
    }
    r
}

/// The lines of `s`, as `lines_of` describes them.
pub fn split_lines(s: &Vec<char>) -> (r: Vec<Vec<char>>)
    ensures
        r.deep_view() == lines_of(s@),
{
    let mut r: Vec<Vec<char>> = Vec::new();
    let mut pos: usize = 0;
    proof {
        assert(s@.skip(0) =~= s@);
        assert(r.deep_view() =~~= Seq::<Seq<char>>::empty());
        assert(Seq::<Seq<char>>::empty() + lines_of(s@) =~= lines_of(s@));
    }
    while pos < s.len()
        invariant
            pos <= s@.len(),
            r.deep_view() + lines_of(s@.skip(pos as int)) == lines_of(s@),
        decreases s@.len() - pos,
    {
        let ghost rest = s@.skip(pos as int);
        let mut j: usize = pos;
        while j < s.len() && s[j] != '\n'
            invariant
                pos <= j <= s@.len(),
                forall|k: int| pos <= k < j ==> s@[k] != '\n',
            decreases s@.len() - j,
        {
            j += 1;
        }
        proof {
            assert(forall|k: int| 0 <= k < j - pos ==> #[trigger] rest[k] != '\n');
            lemma_line_break_at_found(rest, j - pos);
        }
        let terminated = j < s.len();
        let end: usize = if terminated && j > pos && s[j - 1] == '\r' {
            j - 1
        } else {
            j
        };
        let mut line: Vec<char> = Vec::new();
        let mut i: usize = pos;
        while i < end
            invariant
                pos <= i <= end <= s@.len(),
                line@ == s@.subrange(pos as int, i as int),
            decreases end - i,
        {
            line.push(s[i]);
            proof {
                assert(s@.subrange(pos as int, i + 1) =~= s@.subrange(pos as int, i as int).push(
                    s@[i as int],
                ));
            }
            i += 1;
        }
        let ghost old_view = r.deep_view();
        proof {
            if terminated {
                assert(line@ =~= strip_cr(rest.take(j - pos)));
                assert(rest.skip(j - pos + 1) =~= s@.skip(j + 1));
                assert(lines_of(rest) == seq![line@] + lines_of(s@.skip(j + 1)));
            } else {
                assert(line@ =~= rest);
                assert(lines_of(rest) == seq![line@]);
            }
        }
        r.push(line);
        proof {
            assert(r.deep_view() =~~= old_view.push(line@));
            assert(old_view.push(line@) =~= old_view + seq![line@]);
            if !terminated {
                assert(lines_of(s@.skip(s@.len() as int)) =~= Seq::<Seq<char>>::empty());
                assert(r.deep_view() + lines_of(s@.skip(s@.len() as int)) =~= r.deep_view());
            }
        }
        pos = if terminated {
            j + 1
        } else {
            j
        };
    }
    proof {
        assert(s@.skip(pos as int) =~= Seq::<char>::empty());
        assert(r.deep_view() + lines_of(s@.skip(pos as int)) =~= r.deep_view());
    }
    r
}

/// The lines joined with single line feeds, as `join_of` describes.
pub fn join_lines(ls: &Vec<Vec<char>>) -> (r: Vec<char>)
    ensures
        r@ == join_of(ls.deep_view()),
{
    let mut r: Vec<char> = Vec::new();
    let mut i: usize = 0;
    while i < ls.len()
        invariant
            i <= ls@.len(),
            ls.deep_view().len() == ls@.len(),
            r@ == join_of(ls.deep_view().take(i as int)),
        decreases ls@.len() - i,
    {
        if i > 0 {
            r.push('\n');
        }
        let line = &ls[i];
        let mut j: usize = 0;
        let ghost mid = r@;
        while j < line.len()
            invariant
                j <= line@.len(),
                r@ == mid + line@.take(j as int),
            decreases line@.len() - j,
        {
            r.push(line[j]);
            proof {
                assert(mid + line@.take(j + 1) =~= (mid + line@.take(j as int)).push(
                    line@[j as int],
                ));
            }
            j += 1;
        }
        proof {
            let lv = ls.deep_view();
            assert(line@.take(line@.len() as int) =~= lv[i as int]);
            assert(lv.take(i + 1).drop_last() =~= lv.take(i as int));
            assert(lv.take(i + 1).last() == lv[i as int]);
            if i == 0 {
                assert(r@ =~= join_of(lv.take(1)));
            } else {
                assert(r@ =~= join_of(lv.take(i as int)) + seq!['\n'] + lv[i as int]);
            }
        }
        i += 1;
    }
    proof {
        assert(ls.deep_view().take(ls@.len() as int) =~= ls.deep_view());
    }
    r
}

/// A `String` holding exactly the given characters.
///
/// Relies on `String`'s `FromIterator<char>`: collecting characters yields
/// the string of those characters in order.
#[verifier::external_body]
pub fn chars_to_string(v: &Vec<char>) -> (s: String)
    ensures
        s@ == v@,
{
    v.iter().collect()
}

} // verus!
