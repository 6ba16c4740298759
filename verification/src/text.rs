//! Splitting and trimming of command lines.
//!
//! Whitespace is Unicode White_Space, the set that `char::is_whitespace`
//! recognises.

use vstd::prelude::*;

verus! {

/// Unicode White_Space.
pub open spec fn is_space(c: char) -> bool {
    ||| '\u{9}' <= c <= '\u{d}'
    ||| c == ' '
    ||| c == '\u{85}'
    ||| c == '\u{a0}'
    ||| c == '\u{1680}'
    ||| '\u{2000}' <= c <= '\u{200a}'
    ||| c == '\u{2028}'
    ||| c == '\u{2029}'
    ||| c == '\u{202f}'
    ||| c == '\u{205f}'
    ||| c == '\u{3000}'
}

pub fn is_space_char(c: char) -> (b: bool)
    ensures
        b == is_space(c),
{
    ('\u{9}' <= c && c <= '\u{d}') || c == ' ' || c == '\u{85}' || c == '\u{a0}' || c == '\u{1680}'
        || ('\u{2000}' <= c && c <= '\u{200a}') || c == '\u{2028}' || c == '\u{2029}' || c
        == '\u{202f}' || c == '\u{205f}' || c == '\u{3000}'
}

/// The token in progress, as a list of finished tokens (empty or one).
pub open spec fn pending(cur: Seq<char>) -> Seq<Seq<char>> {
    if cur.len() > 0 {
        seq![cur]
    } else {
        Seq::empty()
    }
}

/// Words of `s`, given that `cur` has already been read of the current word.
pub open spec fn words_from(s: Seq<char>, cur: Seq<char>) -> Seq<Seq<char>>
    decreases s.len(),
{
    if s.len() == 0 {
        pending(cur)
    } else if is_space(s[0]) {
        pending(cur) + words_from(s.drop_first(), Seq::empty())
    } else {
        words_from(s.drop_first(), cur.push(s[0]))
    }
}

/// The maximal runs of non-whitespace characters of `s`, in order.
pub open spec fn words(s: Seq<char>) -> Seq<Seq<char>> {
    words_from(s, Seq::empty())
}

/// Arguments of a command line, given that `cur` has been read of the current
/// argument and `quoted` tells whether a double quote is open. A double quote
/// opens or closes quoting and is dropped; whitespace outside quotes ends an
/// argument; everything else belongs to the current argument.
pub open spec fn args_from(s: Seq<char>, cur: Seq<char>, quoted: bool) -> Seq<Seq<char>>
    decreases s.len(),
{
    if s.len() == 0 {
        pending(cur)
    } else if s[0] == '"' {
        args_from(s.drop_first(), cur, !quoted)
    } else if !quoted && is_space(s[0]) {
        pending(cur) + args_from(s.drop_first(), Seq::empty(), false)
    } else {
        args_from(s.drop_first(), cur.push(s[0]), quoted)
    }
}

/// The arguments of the command line `s`.
pub open spec fn shell_words(s: Seq<char>) -> Seq<Seq<char>> {
    args_from(s, Seq::empty(), false)
}

/// The views of a list of strings.
pub open spec fn strs(v: Seq<String>) -> Seq<Seq<char>> {
    v.map_values(|t: String| t@)
}

/// `s` without leading whitespace.
pub open spec fn trim_start(s: Seq<char>) -> Seq<char>
    decreases s.len(),
{
    if s.len() > 0 && is_space(s[0]) {
        trim_start(s.drop_first())
    } else {
        s
    }
}

/// `s` without trailing whitespace.
pub open spec fn trim_end(s: Seq<char>) -> Seq<char>
    decreases s.len(),
{
    if s.len() > 0 && is_space(s.last()) {
        trim_end(s.drop_last())
    } else {
        s
    }
}

/// `s` without leading and trailing whitespace.
pub open spec fn trimmed(s: Seq<char>) -> Seq<char> {
    trim_end(trim_start(s))
}

proof fn lemma_words_from_non_empty(s: Seq<char>, cur: Seq<char>)
    ensures
        forall|i: int| 0 <= i < words_from(s, cur).len() ==> #[trigger] words_from(s, cur)[i].len() > 0,
    decreases s.len(),
{
    if s.len() == 0 {
        if cur.len() > 0 {
            assert(pending(cur) =~= seq![cur]);
        }
        assert(words_from(s, cur) == pending(cur));
    } else {
        if is_space(s[0]) {
            lemma_words_from_non_empty(s.drop_first(), Seq::empty());
            let a = pending(cur);
            let b = words_from(s.drop_first(), Seq::empty());
            assert forall|i: int| 0 <= i < (a + b).len() implies #[trigger] (a + b)[i].len() > 0 by {
                if i >= a.len() {
                    assert((a + b)[i] == b[i - a.len()]);
                } else {
                    assert(a =~= seq![cur]);
                }
            }
            assert(words_from(s, cur) == a + b);
        } else {
            lemma_words_from_non_empty(s.drop_first(), cur.push(s[0]));
            assert(words_from(s, cur) == words_from(s.drop_first(), cur.push(s[0])));
        }
    }
}

/// Every word holds at least one character.
pub proof fn lemma_words_non_empty(s: Seq<char>)
    ensures
        forall|i: int| 0 <= i < words(s).len() ==> #[trigger] words(s)[i].len() > 0,
{
    lemma_words_from_non_empty(s, Seq::empty());
}

proof fn lemma_args_from_plain(s: Seq<char>, cur: Seq<char>)
    requires
        !s.contains('"'),
    ensures
        args_from(s, cur, false) == words_from(s, cur),
    decreases s.len(),
{
    if s.len() > 0 {
        assert(!s.drop_first().contains('"')) by {
            if s.drop_first().contains('"') {
                let j = choose|j: int| 0 <= j < s.drop_first().len() && s.drop_first()[j] == '"';
                assert(s[j + 1] == '"');
            }
        }
        assert(s[0] != '"') by {
            if s[0] == '"' {
                assert(s.contains('"'));
            }
        }
        if is_space(s[0]) {
            lemma_args_from_plain(s.drop_first(), Seq::empty());
        } else {
            lemma_args_from_plain(s.drop_first(), cur.push(s[0]));
        }
    }
}

/// A command line without double quotes splits exactly at whitespace.
pub proof fn lemma_shell_words_without_quotes(s: Seq<char>)
    requires
        !s.contains('"'),
    ensures
        shell_words(s) == words(s),
{
    lemma_args_from_plain(s, Seq::empty());
}

proof fn lemma_args_from_non_empty(s: Seq<char>, cur: Seq<char>, quoted: bool)
    ensures
        forall|i: int| 0 <= i < args_from(s, cur, quoted).len() ==> #[trigger] args_from(s, cur, quoted)[i].len() > 0,
    decreases s.len(),
{
    if s.len() == 0 {
        if cur.len() > 0 {
            assert(pending(cur) =~= seq![cur]);
        }
        assert(args_from(s, cur, quoted) == pending(cur));
    } else if s[0] == '"' {
        lemma_args_from_non_empty(s.drop_first(), cur, !quoted);
        assert(args_from(s, cur, quoted) == args_from(s.drop_first(), cur, !quoted));
    } else if !quoted && is_space(s[0]) {
        lemma_args_from_non_empty(s.drop_first(), Seq::empty(), false);
        let a = pending(cur);
        let b = args_from(s.drop_first(), Seq::empty(), false);
        assert forall|i: int| 0 <= i < (a + b).len() implies #[trigger] (a + b)[i].len() > 0 by {
            if i >= a.len() {
                assert((a + b)[i] == b[i - a.len()]);
            } else {
                assert(a =~= seq![cur]);
            }
        }
        assert(args_from(s, cur, quoted) == a + b);
    } else {
        lemma_args_from_non_empty(s.drop_first(), cur.push(s[0]), quoted);
        assert(args_from(s, cur, quoted) == args_from(s.drop_first(), cur.push(s[0]), quoted));
    }
}

/// Splitting never yields an empty argument.
pub proof fn lemma_shell_words_non_empty(s: Seq<char>)
    ensures
        forall|i: int| 0 <= i < shell_words(s).len() ==> #[trigger] shell_words(s)[i].len() > 0,
{
    lemma_args_from_non_empty(s, Seq::empty(), false);
}

proof fn lemma_args_from_no_quote(s: Seq<char>, cur: Seq<char>, quoted: bool)
    requires
        !cur.contains('"'),
    ensures
        forall|i: int| 0 <= i < args_from(s, cur, quoted).len() ==> !(#[trigger] args_from(s, cur, quoted)[i]).contains('"'),
    decreases s.len(),
{
    if s.len() == 0 {
        if cur.len() > 0 {
            assert(pending(cur) =~= seq![cur]);
        }
        assert(args_from(s, cur, quoted) == pending(cur));
    } else if s[0] == '"' {
        lemma_args_from_no_quote(s.drop_first(), cur, !quoted);
        assert(args_from(s, cur, quoted) == args_from(s.drop_first(), cur, !quoted));
    } else if !quoted && is_space(s[0]) {
        assert(!Seq::<char>::empty().contains('"'));
        lemma_args_from_no_quote(s.drop_first(), Seq::empty(), false);
        let a = pending(cur);
        let b = args_from(s.drop_first(), Seq::empty(), false);
        assert forall|i: int| 0 <= i < (a + b).len() implies !(#[trigger] (a + b)[i]).contains('"') by {
            if i >= a.len() {
                assert((a + b)[i] == b[i - a.len()]);
            } else {
                assert(a =~= seq![cur]);
            }
        }
        assert(args_from(s, cur, quoted) == a + b);
    } else {
        let next = cur.push(s[0]);
        assert(!next.contains('"')) by {
            if next.contains('"') {
                let j = choose|j: int| 0 <= j < next.len() && next[j] == '"';
                if j < cur.len() {
                    assert(cur[j] == '"');
                }
            }
        }
        lemma_args_from_no_quote(s.drop_first(), next, quoted);
        assert(args_from(s, cur, quoted) == args_from(s.drop_first(), next, quoted));
    }
}

/// Double quotes only group: no argument ever contains one, wherever it
/// stands in the command line, the end included.
pub proof fn lemma_shell_words_drop_quotes(s: Seq<char>)
    ensures
        forall|i: int| 0 <= i < shell_words(s).len() ==> !(#[trigger] shell_words(s)[i]).contains('"'),
{
    assert(!Seq::<char>::empty().contains('"'));
    lemma_args_from_no_quote(s, Seq::empty(), false);
}

/// The characters of `s` that end up in arguments: everything except double
/// quotes and whitespace outside quotes, in order.
pub open spec fn kept_chars(s: Seq<char>, quoted: bool) -> Seq<char>
    decreases s.len(),
{
    if s.len() == 0 {
        Seq::empty()
    } else if s[0] == '"' {
        kept_chars(s.drop_first(), !quoted)
    } else if !quoted && is_space(s[0]) {
        kept_chars(s.drop_first(), quoted)
    } else {
        seq![s[0]] + kept_chars(s.drop_first(), quoted)
    }
}

proof fn lemma_args_from_chars(s: Seq<char>, cur: Seq<char>, quoted: bool)
    ensures
        args_from(s, cur, quoted).flatten() == cur + kept_chars(s, quoted),
    decreases s.len(),
{
    if s.len() == 0 {
        if cur.len() > 0 {
            assert(pending(cur) =~= seq![cur]);
            assert(seq![cur].drop_first() =~= Seq::<Seq<char>>::empty());
            assert(seq![cur].flatten() == cur + Seq::<Seq<char>>::empty().flatten());
        } else {
            assert(pending(cur).len() == 0);
        }
        assert(cur + Seq::<char>::empty() =~= cur);
        assert(args_from(s, cur, quoted) == pending(cur));
        assert(kept_chars(s, quoted) == Seq::<char>::empty());
        assert(cur.len() == 0 ==> cur =~= Seq::<char>::empty());
    } else if s[0] == '"' {
        lemma_args_from_chars(s.drop_first(), cur, !quoted);
        assert(args_from(s, cur, quoted) == args_from(s.drop_first(), cur, !quoted));
    } else if !quoted && is_space(s[0]) {
        lemma_args_from_chars(s.drop_first(), Seq::empty(), false);
        lemma_args_from_chars(Seq::empty(), cur, false);
        let a = pending(cur);
        let b = args_from(s.drop_first(), Seq::empty(), false);
        vstd::seq_lib::lemma_flatten_concat(a, b);
        assert(args_from(s, cur, quoted) == a + b);
        assert(Seq::<char>::empty() + kept_chars(s.drop_first(), false) =~= kept_chars(s.drop_first(), false));
        assert(args_from(Seq::empty(), cur, false) == a);
        assert(cur + Seq::<char>::empty() =~= cur);
    } else {
        lemma_args_from_chars(s.drop_first(), cur.push(s[0]), quoted);
        assert(args_from(s, cur, quoted) == args_from(s.drop_first(), cur.push(s[0]), quoted));
        assert(cur.push(s[0]) + kept_chars(s.drop_first(), quoted) =~= cur + (seq![s[0]] + kept_chars(
            s.drop_first(),
            quoted,
        )));
    }
}

/// Splitting loses and adds no character: the arguments, joined, are the
/// command line without its double quotes and without whitespace outside
/// quotes.
pub proof fn lemma_shell_words_keep_text(s: Seq<char>)
    ensures
        shell_words(s).flatten() == kept_chars(s, false),
{
    lemma_args_from_chars(s, Seq::empty(), false);
    assert(Seq::<char>::empty() + kept_chars(s, false) =~= kept_chars(s, false));
}

proof fn lemma_push_strs(v: Seq<String>, t: String)
    ensures
        strs(v.push(t)) == strs(v).push(t@),
{
    assert(strs(v.push(t)) =~= strs(v).push(t@));
}

/// Appends the one-character string `s[i]` to `cur`.
fn push_char(cur: &mut String, s: &str, i: usize)
    requires
        i < s@.len() <= usize::MAX,
    ensures
        final(cur)@ == old(cur)@.push(s@[i as int]),
{
    let one = s.substring_char(i, i + 1);
    assert(one@ =~= seq![s@[i as int]]);
    cur.append(one);
    assert(final(cur)@ =~= old(cur)@.push(s@[i as int]));
}

/// Moves `cur` into `out` if it is not empty.
fn flush(out: &mut Vec<String>, cur: &mut String)
    ensures
        strs(final(out)@) == strs(old(out)@) + pending(old(cur)@),
        final(cur)@ == Seq::<char>::empty(),
{
    if cur.as_str().unicode_len() > 0 {
        let mut done = String::new();
        std::mem::swap(cur, &mut done);
        proof {
            lemma_push_strs(out@, done);
        }
        out.push(done);
        assert(strs(out@) =~= strs(old(out)@) + pending(old(cur)@));
    } else {
        assert(strs(out@) =~= strs(old(out)@) + pending(old(cur)@));
    }
}

/// Splits `s` at whitespace, dropping empty pieces.
pub fn split_words(s: &str) -> (out: Vec<String>)
    ensures
        strs(out@) == words(s@),
{
    let n = s.unicode_len();
    let mut out: Vec<String> = Vec::new();
    let mut cur = String::new();
    let mut i: usize = 0;
    assert(s@.skip(0) =~= s@);
    while i < n
        invariant
            n == s@.len(),
            i <= n,
            strs(out@) + words_from(s@.skip(i as int), cur@) == words(s@),
        decreases n - i,
    {
        let c = s.get_char(i);
        let ghost rest = s@.skip(i as int);
        assert(rest.drop_first() =~= s@.skip(i + 1));
        assert(rest[0] == c);
        if is_space_char(c) {
            let ghost before = strs(out@);
            let ghost pend = pending(cur@);
            flush(&mut out, &mut cur);
            assert(before + (pend + words_from(s@.skip(i + 1), Seq::empty())) =~= (before + pend)
                + words_from(s@.skip(i + 1), Seq::empty()));
        } else {
            push_char(&mut cur, s, i);
        }
        i = i + 1;
    }
    flush(&mut out, &mut cur);
    out
}

/// Splits a command line into arguments: whitespace separates arguments
/// except inside double quotes, and the quotes themselves are dropped.
pub fn shell_split(s: &str) -> (out: Vec<String>)
    ensures
        strs(out@) == shell_words(s@),
{
    let n = s.unicode_len();
    let mut out: Vec<String> = Vec::new();
    let mut cur = String::new();
    let mut quoted = false;
    let mut i: usize = 0;
    assert(s@.skip(0) =~= s@);
    while i < n
        invariant
            n == s@.len(),
            i <= n,
            strs(out@) + args_from(s@.skip(i as int), cur@, quoted) == shell_words(s@),
        decreases n - i,
    {
        let c = s.get_char(i);
        let ghost rest = s@.skip(i as int);
        assert(rest.drop_first() =~= s@.skip(i + 1));
        assert(rest[0] == c);
        if c == '"' {
            quoted = !quoted;
        } else if !quoted && is_space_char(c) {
            let ghost before = strs(out@);
            let ghost pend = pending(cur@);
            flush(&mut out, &mut cur);
            assert(before + (pend + args_from(s@.skip(i + 1), Seq::empty(), false)) =~= (before
                + pend) + args_from(s@.skip(i + 1), Seq::empty(), false));
        } else {
            push_char(&mut cur, s, i);
        }
        i = i + 1;
    }
    flush(&mut out, &mut cur);
    out
}

/// `s` without leading and trailing whitespace.
pub fn trim(s: &str) -> (t: String)
    ensures
        t@ == trimmed(s@),
{
    let n = s.unicode_len();
    let mut a: usize = 0;
    assert(s@.subrange(0, n as int) =~= s@);
    while a < n && is_space_char(s.get_char(a))
        invariant
            n == s@.len(),
            a <= n,
            trim_start(s@) == trim_start(s@.subrange(a as int, n as int)),
        decreases n - a,
    {
        assert(s@.subrange(a as int, n as int).drop_first() =~= s@.subrange(a + 1, n as int));
        a = a + 1;
    }
    let mut b: usize = n;
    assert(trim_start(s@.subrange(a as int, n as int)) == s@.subrange(a as int, n as int));
    while b > a && is_space_char(s.get_char(b - 1))
        invariant
            n == s@.len(),
            a <= b <= n,
            trimmed(s@) == trim_end(s@.subrange(a as int, b as int)),
        decreases b - a,
    {
        assert(s@.subrange(a as int, b as int).drop_last() =~= s@.subrange(a as int, b - 1));
        b = b - 1;
    }
    let piece = s.substring_char(a, b);
    String::from_str(piece)
}

} // verus!
