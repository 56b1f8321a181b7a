//! Splitting an input line into words, and reading a decimal exit code.
use vstd::prelude::*;

verus! {

/// The characters that separate words: space, tab, carriage return, newline.
pub open spec fn is_space(c: char) -> bool {
    c == ' ' || c == '\t' || c == '\r' || c == '\n'
}

/// The contents of a vector of strings, as character sequences.
pub open spec fn texts(v: Seq<String>) -> Seq<Seq<char>> {
    v.map_values(|t: String| t@)
}

/// The words completed so far and the word in progress after reading `s`.
pub open spec fn scan(s: Seq<char>) -> (Seq<Seq<char>>, Seq<char>)
    decreases s.len(),
{
    if s.len() == 0 {
        (Seq::empty(), Seq::empty())
    } else {
        let (done, cur) = scan(s.drop_last());
        if is_space(s.last()) {
            if cur.len() > 0 {
                (done.push(cur), Seq::empty())
            } else {
                (done, Seq::empty())
            }
        } else {
            (done, cur.push(s.last()))
        }
    }
}

/// The maximal runs of non-space characters of `s`, in order.
pub open spec fn words(s: Seq<char>) -> Seq<Seq<char>> {
    let (done, cur) = scan(s);
    if cur.len() > 0 {
        done.push(cur)
    } else {
        done
    }
}

/// A word is never empty and never holds a space.
pub open spec fn is_word(w: Seq<char>) -> bool {
    w.len() > 0 && forall|i: int| 0 <= i < w.len() ==> !is_space(#[trigger] w[i])
}

proof fn lemma_scan_words(s: Seq<char>)
    ensures
        forall|k: int| 0 <= k < scan(s).0.len() ==> is_word(#[trigger] scan(s).0[k]),
        forall|i: int| 0 <= i < scan(s).1.len() ==> !is_space(#[trigger] scan(s).1[i]),
    decreases s.len(),
{
    if s.len() > 0 {
        let t = s.drop_last();
        lemma_scan_words(t);
        let (done, cur) = scan(t);
        let x = s.last();
        if is_space(x) {
            if cur.len() > 0 {
                assert(is_word(cur));
                assert forall|k: int| 0 <= k < done.push(cur).len() implies is_word(
                    #[trigger] done.push(cur)[k],
                ) by {
                    if k < done.len() {
                        assert(done.push(cur)[k] == done[k]);
                    }
                }
            }
        } else {
            assert forall|i: int| 0 <= i < cur.push(x).len() implies !is_space(
                #[trigger] cur.push(x)[i],
            ) by {
                if i < cur.len() {
                    assert(cur.push(x)[i] == cur[i]);
                }
            }
        }
    }
}

/// Every word that `words` yields is non-empty and free of spaces.
pub proof fn lemma_words_are_words(s: Seq<char>)
    ensures
        forall|k: int| 0 <= k < words(s).len() ==> is_word(#[trigger] words(s)[k]),
{
    lemma_scan_words(s);
}

/// A line made of spaces alone has no words.
pub proof fn lemma_blank_has_no_words(s: Seq<char>)
    requires
        forall|i: int| 0 <= i < s.len() ==> is_space(#[trigger] s[i]),
    ensures
        words(s).len() == 0,
    decreases s.len(),
{
    if s.len() > 0 {
        let t = s.drop_last();
        assert forall|i: int| 0 <= i < t.len() implies is_space(#[trigger] t[i]) by {
            assert(t[i] == s[i]);
        }
        lemma_blank_has_no_words(t);
        if scan(t).1.len() > 0 {
            assert(scan(t).0.push(scan(t).1).len() > 0);
        }
    }
}

/// Splits `line` into its words: the maximal runs of characters other than
/// space, tab, carriage return and newline. No quoting is recognised.
pub fn tokenize(line: &str) -> (r: Vec<String>)
    ensures
        texts(r@) == words(line@),
{
    let n = line.unicode_len();
    let mut out: Vec<String> = Vec::new();
    let mut start: usize = 0;
    let mut i: usize = 0;
    while i < n
        invariant
            n == line@.len(),
            start <= i <= n,
            texts(out@) == scan(line@.subrange(0, i as int)).0,
            scan(line@.subrange(0, i as int)).1 == line@.subrange(start as int, i as int),
        decreases n - i,
    {
        let c = line.get_char(i);
        let ghost pre = line@.subrange(0, i as int);
        assert(line@.subrange(0, i + 1).drop_last() =~= pre);
        if c == ' ' || c == '\t' || c == '\r' || c == '\n' {
            if start < i {
                let w = String::from_str(line.substring_char(start, i));
                out.push(w);
                assert(texts(out@) =~= scan(pre).0.push(scan(pre).1));
            }
            start = i + 1;
        } else {
            assert(line@.subrange(start as int, i + 1) =~= line@.subrange(
                start as int,
                i as int,
            ).push(c));
        }
        i = i + 1;
    }
    assert(line@.subrange(0, n as int) =~= line@);
    if start < n {
        let w = String::from_str(line.substring_char(start, n));
        out.push(w);
        assert(texts(out@) =~= scan(line@).0.push(scan(line@).1));
    }
    out
}

/// An ASCII decimal digit.
pub open spec fn is_digit(c: char) -> bool {
    '0' <= c && c <= '9'
}

/// Every character of `s` is a decimal digit.
pub open spec fn all_digits(s: Seq<char>) -> bool {
    forall|i: int| 0 <= i < s.len() ==> is_digit(#[trigger] s[i])
}

/// The number that the decimal digits `s` denote.
pub open spec fn digits_value(s: Seq<char>) -> int
    decreases s.len(),
{
    if s.len() == 0 {
        0
    } else {
        digits_value(s.drop_last()) * 10 + (s.last() as int - '0' as int)
    }
}

/// The exit code that a word denotes: one or more decimal digits whose
/// value fits an `i32`.
pub open spec fn code_of(w: Seq<char>) -> Option<i32> {
    if w.len() > 0 && all_digits(w) && digits_value(w) <= i32::MAX {
        Some(digits_value(w) as i32)
    } else {
        None
    }
}

proof fn lemma_value_grows(s: Seq<char>, j: int)
    requires
        all_digits(s),
        0 <= j <= s.len(),
    ensures
        digits_value(s) >= digits_value(s.subrange(0, j)),
        digits_value(s) >= 0,
    decreases s.len(),
{
    if s.len() > 0 {
        let t = s.drop_last();
        assert(all_digits(t)) by {
            assert forall|i: int| 0 <= i < t.len() implies is_digit(#[trigger] t[i]) by {
                assert(t[i] == s[i]);
            }
        }
        assert(is_digit(s[s.len() - 1]));
        if j == s.len() {
            assert(s.subrange(0, j) =~= s);
            lemma_value_grows(t, 0);
        } else {
            assert(t.subrange(0, j) =~= s.subrange(0, j));
            lemma_value_grows(t, j);
        }
    } else {
        assert(s.subrange(0, j) =~= s);
    }
}

/// Reads the exit code that `w` denotes, if it denotes one.
pub fn parse_code(w: &str) -> (r: Option<i32>)
    ensures
        r == code_of(w@),
{
    let n = w.unicode_len();
    if n == 0 {
        return None;
    }
    let mut v: i32 = 0;
    let mut i: usize = 0;
    while i < n
        invariant
            n == w@.len(),
            i <= n,
            all_digits(w@.subrange(0, i as int)),
            v == digits_value(w@.subrange(0, i as int)),
        decreases n - i,
    {
        let c = w.get_char(i);
        let ghost pre = w@.subrange(0, i as int);
        let ghost next = w@.subrange(0, i + 1);
        assert(next.drop_last() =~= pre);
        if !('0' <= c && c <= '9') {
            assert(!all_digits(w@)) by {
                assert(w@[i as int] == c);
            }
            return None;
        }
        let d = (c as u32 - '0' as u32) as i32;
        assert(all_digits(next)) by {
            assert forall|k: int| 0 <= k < next.len() implies is_digit(#[trigger] next[k]) by {
                if k < i {
                    assert(next[k] == pre[k]);
                }
            }
        }
        if v > (i32::MAX - d) / 10 {
            assert(digits_value(next) > i32::MAX);
            proof {
                if all_digits(w@) {
                    lemma_value_grows(w@, i + 1);
                }
            }
            return None;
        }
        assert(v * 10 + d <= i32::MAX) by (nonlinear_arith)
            requires
                v <= (i32::MAX - d) / 10,
                0 <= d <= 9,
        ;
        assert(v >= 0) by {
            lemma_value_grows(pre, 0);
        }
        v = v * 10 + d;
        i = i + 1;
    }
    assert(w@.subrange(0, n as int) =~= w@);
    Some(v)
}

/// The words of `w` joined by single spaces.
pub open spec fn join_words(w: Seq<Seq<char>>) -> Seq<char>
    decreases w.len(),
{
    if w.len() == 0 {
        Seq::empty()
    } else if w.len() == 1 {
        w[0]
    } else {
        join_words(w.drop_last()) + " "@ + w.last()
    }
}

proof fn lemma_scan_append_word(s: Seq<char>, w: Seq<char>)
    requires
        forall|i: int| 0 <= i < w.len() ==> !is_space(#[trigger] w[i]),
    ensures
        scan(s + w) == (scan(s).0, scan(s).1 + w),
    decreases w.len(),
{
    if w.len() == 0 {
        assert(s + w =~= s);
        assert(scan(s).1 + w =~= scan(s).1);
    } else {
        let v = w.drop_last();
        assert forall|i: int| 0 <= i < v.len() implies !is_space(#[trigger] v[i]) by {
            assert(v[i] == w[i]);
        }
        lemma_scan_append_word(s, v);
        assert((s + w).drop_last() =~= s + v);
        assert((s + w).last() == w.last());
        assert(!is_space(w[w.len() - 1]));
        assert((scan(s).1 + v).push(w.last()) =~= scan(s).1 + w);
    }
}

proof fn lemma_scan_of_join(w: Seq<Seq<char>>)
    requires
        w.len() > 0,
        forall|k: int| 0 <= k < w.len() ==> is_word(#[trigger] w[k]),
    ensures
        scan(join_words(w)) == (w.drop_last(), w.last()),
    decreases w.len(),
{
    if w.len() == 1 {
        assert(is_word(w[0]));
        lemma_scan_append_word(Seq::empty(), w[0]);
        assert(Seq::<char>::empty() + w[0] =~= w[0]);
        assert(w.drop_last() =~= Seq::<Seq<char>>::empty());
    } else {
        let v = w.drop_last();
        assert forall|k: int| 0 <= k < v.len() implies is_word(#[trigger] v[k]) by {
            assert(v[k] == w[k]);
        }
        lemma_scan_of_join(v);
        let head = join_words(v);
        let spaced = head + " "@;
        reveal_strlit(" ");
        assert(spaced.drop_last() =~= head);
        assert(spaced.last() == ' ');
        assert(is_word(v.last()));
        assert(v.drop_last().push(v.last()) =~= v);
        assert(is_word(w.last()));
        lemma_scan_append_word(spaced, w.last());
        assert(scan(spaced).1 + w.last() =~= w.last());
    }
}

/// Splitting undoes joining: the words of a line made by joining words with
/// single spaces are those words.
pub proof fn lemma_words_of_join(w: Seq<Seq<char>>)
    requires
        forall|k: int| 0 <= k < w.len() ==> is_word(#[trigger] w[k]),
    ensures
        words(join_words(w)) == w,
{
    if w.len() > 0 {
        lemma_scan_of_join(w);
        assert(is_word(w.last()));
        assert(w.drop_last().push(w.last()) =~= w);
    }
}

} // verus!
