//! Character- and string-level helpers shared by the style grammar, the path
//! handling and the renderer. Strings cross the public API as `String`/`&str`;
//! internally most work happens on `Vec<char>`, whose view is the same
//! `Seq<char>` as the view of the originating string.

use vstd::prelude::*;

verus! {

/// The whitespace characters recognised when tokenizing and trimming.
pub open spec fn is_space_char(c: char) -> bool {
    c == ' ' || c == '\t' || c == '\n' || c == '\r' || c == '\u{b}' || c == '\u{c}'
}

/// Executable test matching `is_space_char`.
pub fn is_space(c: char) -> (r: bool)
    ensures
        r == is_space_char(c),
{
    c == ' ' || c == '\t' || c == '\n' || c == '\r' || c == '\u{b}' || c == '\u{c}'
}

/// Collect the characters of a string into a vector with the same view.
pub fn chars_of(s: &str) -> (r: Vec<char>)
    ensures
        r@ == s@,
{
    let n = s.unicode_len();
    let mut out: Vec<char> = Vec::new();
    let mut i: usize = 0;
    while i < n
        invariant
            n == s@.len(),
            i <= n,
            out@ == s@.take(i as int),
        decreases n - i,
    {
        out.push(s.get_char(i));
        i = i + 1;
        proof {
            assert(out@ =~= s@.take(i as int));
        }
    }
    proof {
        assert(out@ =~= s@);
    }
    out
}

/// Relies on std's `String::push`: appends one character to the string.
#[verifier::external_body]
pub fn push_char(s: &mut String, c: char)
    ensures
        final(s)@ == old(s)@.push(c),
{
    s.push(c)
}

/// Build a string whose view equals the view of the given character vector.
pub fn string_of(v: &Vec<char>) -> (r: String)
    ensures
        r@ == v@,
{
    let mut out = String::new();
    let mut i: usize = 0;
    while i < v.len()
        invariant
            i <= v@.len(),
            out@ == v@.take(i as int),
        decreases v@.len() - i,
    {
        push_char(&mut out, v[i]);
        i = i + 1;
        proof {
            assert(out@ =~= v@.take(i as int));
        }
    }
    proof {
        assert(out@ =~= v@);
    }
    out
}

/// ASCII lowercasing of one character; other characters pass through.
pub open spec fn lower_char(c: char) -> char {
    if 'A' <= c && c <= 'Z' {
        (((c as u32) + 32) as char)
    } else {
        c
    }
}

/// ASCII lowercasing of a character sequence.
pub open spec fn lower_seq(s: Seq<char>) -> Seq<char> {
    s.map_values(|c: char| lower_char(c))
}

/// Executable ASCII lowercasing of one character.
pub fn lower_char_exec(c: char) -> (r: char)
    ensures
        r == lower_char(c),
{
    if 'A' <= c && c <= 'Z' {
        let b: u8 = c as u8;
        proof {
            assert(c as u32 <= 90);
        }
        ((b + 32) as char)
    } else {
        c
    }
}

/// Executable ASCII lowercasing of a character vector.
pub fn lower_chars(v: &Vec<char>) -> (r: Vec<char>)
    ensures
        r@ == lower_seq(v@),
{
    let mut out: Vec<char> = Vec::new();
    let mut i: usize = 0;
    while i < v.len()
        invariant
            i <= v@.len(),
            out@ == lower_seq(v@.take(i as int)),
        decreases v@.len() - i,
    {
        out.push(lower_char_exec(v[i]));
        i = i + 1;
        proof {
            assert(out@ =~= lower_seq(v@.take(i as int)));
        }
    }
    proof {
        assert(v@.take(v@.len() as int) =~= v@);
    }
    out
}

/// Split a sequence at every occurrence of `sep`. The result always has one
/// more component than there are separators; components may be empty.
pub open spec fn split_at(s: Seq<char>, sep: char) -> Seq<Seq<char>>
    decreases s.len(),
{
    if s.len() == 0 {
        seq![Seq::<char>::empty()]
    } else if s[0] == sep {
        seq![Seq::<char>::empty()] + split_at(s.drop_first(), sep)
    } else {
        let rest = split_at(s.drop_first(), sep);
        seq![seq![s[0]] + rest[0]] + rest.drop_first()
    }
}

pub proof fn lemma_split_at_len(s: Seq<char>, sep: char)
    ensures
        split_at(s, sep).len() >= 1,
    decreases s.len(),
{
    if s.len() != 0 {
        lemma_split_at_len(s.drop_first(), sep);
    }
}

/// One unfolding step of `split_at` along a suffix of `s`.
proof fn lemma_split_at_step(s: Seq<char>, sep: char, i: int)
    requires
        0 <= i < s.len(),
    ensures
        s[i] == sep ==> split_at(s.skip(i), sep) == seq![Seq::<char>::empty()] + split_at(
            s.skip(i + 1),
            sep,
        ),
        s[i] != sep ==> split_at(s.skip(i), sep) == seq![seq![s[i]] + split_at(s.skip(i + 1), sep)[0]]
            + split_at(s.skip(i + 1), sep).drop_first(),
{
    assert(s.skip(i).len() > 0);
    assert(s.skip(i)[0] == s[i]);
    assert(s.skip(i).drop_first() =~= s.skip(i + 1));
}

/// Executable split of a character vector at a separator character.
pub fn split_chars(v: &Vec<char>, sep: char) -> (r: Vec<Vec<char>>)
    ensures
        r.deep_view() == split_at(v@, sep),
{
    let ghost full: Seq<Seq<char>> = split_at(v@, sep);
    let mut out: Vec<Vec<char>> = Vec::new();
    let mut cur: Vec<char> = Vec::new();
    let mut i: usize = 0;
    proof {
        assert(v@.skip(0) =~= v@);
    }
    while i < v.len()
        invariant
            i <= v@.len(),
            full == split_at(v@, sep),
            split_at(v@.skip(i as int), sep).len() >= 1,
            full == out.deep_view() + seq![cur@ + split_at(v@.skip(i as int), sep)[0]] + split_at(
                v@.skip(i as int),
                sep,
            ).drop_first(),
        decreases v@.len() - i,
    {
        let c = v[i];
        let ghost here = split_at(v@.skip(i as int), sep);
        let ghost next = split_at(v@.skip(i as int + 1), sep);
        let ghost out0 = out.deep_view();
        let ghost cur0 = cur@;
        proof {
            lemma_split_at_step(v@, sep, i as int);
            lemma_split_at_len(v@.skip(i as int + 1), sep);
        }
        if c == sep {
            out.push(cur);
            cur = Vec::new();
            proof {
                assert(out.deep_view() =~~= out0.push(cur0));
                assert(here[0] =~= Seq::<char>::empty());
                assert(here.drop_first() =~~= next);
                assert(cur0 + here[0] =~= cur0);
                assert(seq![next[0]] + next.drop_first() =~~= next);
                assert(full =~~= out.deep_view() + seq![cur@ + next[0]] + next.drop_first());
            }
        } else {
            cur.push(c);
            proof {
                assert(here[0] =~= seq![c] + next[0]);
                assert(here.drop_first() =~~= next.drop_first());
                assert(cur@ + next[0] =~= cur0 + here[0]);
                assert(full =~~= out.deep_view() + seq![cur@ + next[0]] + next.drop_first());
            }
        }
        i = i + 1;
    }
    proof {
        assert(v@.skip(v@.len() as int) =~= Seq::<char>::empty());
        let e = split_at(Seq::<char>::empty(), sep);
        assert(e =~~= seq![Seq::<char>::empty()]);
        assert(e[0] =~= Seq::<char>::empty());
        assert(e.drop_first() =~~= Seq::<Seq<char>>::empty());
        assert(cur@ + e[0] =~= cur@);
    }
    let ghost outpre = out.deep_view();
    let ghost curfinal = cur@;
    out.push(cur);
    proof {
        assert(out.deep_view() =~~= outpre.push(curfinal));
        assert(out.deep_view() =~~= full);
    }
    out
}

/// Join components with a single separator character between them.
pub open spec fn join_with(parts: Seq<Seq<char>>, sep: char) -> Seq<char>
    decreases parts.len(),
{
    if parts.len() == 0 {
        Seq::<char>::empty()
    } else if parts.len() == 1 {
        parts[0]
    } else {
        parts[0] + seq![sep] + join_with(parts.drop_first(), sep)
    }
}

proof fn lemma_join_with_step(parts: Seq<Seq<char>>, sep: char, i: int)
    requires
        0 <= i < parts.len(),
    ensures
        i + 1 < parts.len() ==> join_with(parts.skip(i), sep) == parts[i] + seq![sep] + join_with(
            parts.skip(i + 1),
            sep,
        ),
        i + 1 == parts.len() ==> join_with(parts.skip(i), sep) == parts[i],
{
    assert(parts.skip(i).len() == parts.len() - i);
    assert(parts.skip(i)[0] == parts[i]);
    assert(parts.skip(i).drop_first() =~= parts.skip(i + 1));
}

/// Executable join of character vectors with a separator character.
pub fn join_chars(parts: &Vec<Vec<char>>, sep: char) -> (r: Vec<char>)
    ensures
        r@ == join_with(parts.deep_view(), sep),
{
    let ghost ps: Seq<Seq<char>> = parts.deep_view();
    let mut out: Vec<char> = Vec::new();
    if parts.len() == 0 {
        return out;
    }
    let mut i: usize = 0;
    proof {
        assert(ps.skip(0) =~= ps);
    }
    while i < parts.len()
        invariant
            i <= ps.len(),
            parts.deep_view() == ps,
            ps.len() == parts@.len(),
            ps.len() >= 1,
            i < ps.len() ==> out@ + join_with(ps.skip(i as int), sep) == join_with(ps, sep),
            i == ps.len() ==> out@ == join_with(ps, sep),
        decreases ps.len() - i,
    {
        proof {
            lemma_join_with_step(ps, sep, i as int);
            assert(parts@[i as int]@ == ps[i as int]);
        }
        let part = &parts[i];
        let mut j: usize = 0;
        let ghost out0 = out@;
        while j < part.len()
            invariant
                j <= part@.len(),
                out@ == out0 + part@.take(j as int),
            decreases part@.len() - j,
        {
            out.push(part[j]);
            j = j + 1;
            proof {
                assert(out@ =~= out0 + part@.take(j as int));
            }
        }
        proof {
            assert(part@.take(part@.len() as int) =~= part@);
        }
        if i + 1 < parts.len() {
            out.push(sep);
        }
        i = i + 1;
    }
    out
}

/// The sequence without its leading whitespace.
pub open spec fn trim_start_spec(s: Seq<char>) -> Seq<char>
    decreases s.len(),
{
    if s.len() > 0 && is_space_char(s[0]) {
        trim_start_spec(s.drop_first())
    } else {
        s
    }
}

/// The sequence without its trailing whitespace.
pub open spec fn trim_end_spec(s: Seq<char>) -> Seq<char>
    decreases s.len(),
{
    if s.len() > 0 && is_space_char(s.last()) {
        trim_end_spec(s.drop_last())
    } else {
        s
    }
}

/// The sequence without leading and trailing whitespace.
pub open spec fn trim_spec(s: Seq<char>) -> Seq<char> {
    trim_end_spec(trim_start_spec(s))
}

proof fn lemma_trim_start_skip(s: Seq<char>, k: int)
    requires
        0 <= k <= s.len(),
        forall|i: int| 0 <= i < k ==> is_space_char(s[i]),
        k < s.len() ==> !is_space_char(s[k]),
    ensures
        trim_start_spec(s) == s.skip(k),
    decreases k,
{
    if k == 0 {
        assert(s.skip(0) =~= s);
    } else {
        assert(is_space_char(s[0]));
        let t = s.skip(1);
        assert(s.drop_first() =~= t);
        assert forall|i: int| 0 <= i < k - 1 implies is_space_char(t[i]) by {
            assert(t[i] == s[i + 1]);
        }
        assert(k - 1 < t.len() ==> !is_space_char(t[k - 1]));
        lemma_trim_start_skip(t, k - 1);
        assert(t.skip(k - 1) =~= s.skip(k));
    }
}

proof fn lemma_trim_end_take(s: Seq<char>, k: int)
    requires
        0 <= k <= s.len(),
        forall|i: int| k <= i < s.len() ==> is_space_char(s[i]),
        k > 0 ==> !is_space_char(s[k - 1]),
    ensures
        trim_end_spec(s) == s.take(k),
    decreases s.len() - k,
{
    if k == s.len() {
        assert(s.take(k) =~= s);
    } else {
        assert(is_space_char(s.last()));
        assert(s.drop_last() =~= s.take(s.len() - 1));
        lemma_trim_end_take(s.take(s.len() - 1), k);
        assert(s.take(s.len() - 1).take(k) =~= s.take(k));
    }
}

/// Executable trim of leading and trailing whitespace.
pub fn trim_chars(v: &Vec<char>) -> (r: Vec<char>)
    ensures
        r@ == trim_spec(v@),
{
    let mut lo: usize = 0;
    while lo < v.len() && is_space(v[lo])
        invariant
            lo <= v@.len(),
            forall|i: int| 0 <= i < lo ==> is_space_char(v@[i]),
        decreases v@.len() - lo,
    {
        lo = lo + 1;
    }
    proof {
        lemma_trim_start_skip(v@, lo as int);
    }
    let mut hi: usize = v.len();
    while hi > lo && is_space(v[hi - 1])
        invariant
            lo <= hi <= v@.len(),
            forall|i: int| hi <= i < v@.len() ==> is_space_char(v@[i]),
            forall|i: int| 0 <= i < lo ==> is_space_char(v@[i]),
        decreases hi,
    {
        hi = hi - 1;
    }
    let ghost mid = v@.skip(lo as int);
    proof {
        assert forall|i: int| hi - lo <= i < mid.len() implies is_space_char(mid[i]) by {
            assert(mid[i] == v@[i + lo]);
        }
        if hi > lo {
            assert(mid[hi - lo - 1] == v@[hi - 1]);
        }
        lemma_trim_end_take(mid, hi - lo);
    }
    let mut out: Vec<char> = Vec::new();
    let mut i: usize = lo;
    while i < hi
        invariant
            lo <= i <= hi <= v@.len(),
            out@ == v@.subrange(lo as int, i as int),
        decreases hi - i,
    {
        out.push(v[i]);
        i = i + 1;
        proof {
            assert(out@ =~= v@.subrange(lo as int, i as int));
        }
    }
    proof {
        assert(out@ =~= mid.take(hi - lo));
    }
    out
}

/// The longest whitespace-free prefix of `s`.
pub open spec fn take_token(s: Seq<char>) -> Seq<char>
    decreases s.len(),
{
    if s.len() > 0 && !is_space_char(s[0]) {
        seq![s[0]] + take_token(s.drop_first())
    } else {
        Seq::<char>::empty()
    }
}

/// What remains of `s` after its leading whitespace-free prefix.
pub open spec fn skip_token(s: Seq<char>) -> Seq<char>
    decreases s.len(),
{
    if s.len() > 0 && !is_space_char(s[0]) {
        skip_token(s.drop_first())
    } else {
        s
    }
}

pub proof fn lemma_skip_token_le(s: Seq<char>)
    ensures
        skip_token(s).len() <= s.len(),
    decreases s.len(),
{
    if s.len() > 0 && !is_space_char(s[0]) {
        lemma_skip_token_le(s.drop_first());
    }
}

/// The whitespace-separated tokens of `s`, in order, without empty tokens.
pub open spec fn tokens_of(s: Seq<char>) -> Seq<Seq<char>>
    decreases s.len(),
    via tokens_of_decreases
{
    if s.len() == 0 {
        Seq::<Seq<char>>::empty()
    } else if is_space_char(s[0]) {
        tokens_of(s.drop_first())
    } else {
        seq![take_token(s)] + tokens_of(skip_token(s))
    }
}

#[via_fn]
proof fn tokens_of_decreases(s: Seq<char>) {
    if s.len() > 0 && !is_space_char(s[0]) {
        lemma_skip_token_le(s.drop_first());
    }
}

/// One unfolding step of the token functions along a suffix of `s`.
proof fn lemma_token_step(s: Seq<char>, i: int)
    requires
        0 <= i < s.len(),
    ensures
        is_space_char(s[i]) ==> tokens_of(s.skip(i)) == tokens_of(s.skip(i + 1)),
        !is_space_char(s[i]) ==> take_token(s.skip(i)) == seq![s[i]] + take_token(s.skip(i + 1)),
        !is_space_char(s[i]) ==> skip_token(s.skip(i)) == skip_token(s.skip(i + 1)),
{
    assert(s.skip(i).len() > 0);
    assert(s.skip(i)[0] == s[i]);
    assert(s.skip(i).drop_first() =~= s.skip(i + 1));
}

/// Executable whitespace tokenizer: the tokens of `v`, in order, empty
/// tokens dropped.
pub fn tokenize_chars(v: &Vec<char>) -> (r: Vec<Vec<char>>)
    ensures
        r.deep_view() == tokens_of(v@),
{
    let ghost full: Seq<Seq<char>> = tokens_of(v@);
    let mut out: Vec<Vec<char>> = Vec::new();
    let mut cur: Vec<char> = Vec::new();
    let mut i: usize = 0;
    proof {
        assert(v@.skip(0) =~= v@);
    }
    while i < v.len()
        invariant
            i <= v@.len(),
            full == tokens_of(v@),
            cur@.len() == 0 ==> full == out.deep_view() + tokens_of(v@.skip(i as int)),
            cur@.len() > 0 ==> full == out.deep_view() + seq![cur@ + take_token(v@.skip(i as int))]
                + tokens_of(skip_token(v@.skip(i as int))),
        decreases v@.len() - i,
    {
        let c = v[i];
        let ghost out0 = out.deep_view();
        let ghost cur0 = cur@;
        proof {
            lemma_token_step(v@, i as int);
        }
        if is_space(c) {
            if cur.len() > 0 {
                proof {
                    assert(take_token(v@.skip(i as int)) =~= Seq::<char>::empty());
                    assert(skip_token(v@.skip(i as int)) =~= v@.skip(i as int));
                    assert(cur0 + Seq::<char>::empty() =~= cur0);
                }
                out.push(cur);
                cur = Vec::new();
                proof {
                    assert(out.deep_view() =~~= out0.push(cur0));
                    assert(full =~~= out.deep_view() + tokens_of(v@.skip(i as int + 1)));
                }
            }
        } else {
            if cur.len() == 0 {
                proof {
                    assert(tokens_of(v@.skip(i as int)) =~~= seq![take_token(v@.skip(i as int))]
                        + tokens_of(skip_token(v@.skip(i as int))));
                }
            }
            cur.push(c);
            proof {
                assert(cur@ =~= cur0 + seq![c]);
                assert(cur@ + take_token(v@.skip(i as int + 1)) =~= cur0 + take_token(
                    v@.skip(i as int),
                ));
                assert(skip_token(v@.skip(i as int)) == skip_token(v@.skip(i as int + 1)));
            }
        }
        i = i + 1;
    }
    proof {
        assert(v@.skip(v@.len() as int) =~= Seq::<char>::empty());
    }
    if cur.len() > 0 {
        let ghost out0 = out.deep_view();
        let ghost cur0 = cur@;
        proof {
            assert(take_token(Seq::<char>::empty()) =~= Seq::<char>::empty());
            assert(skip_token(Seq::<char>::empty()) =~= Seq::<char>::empty());
            assert(cur0 + Seq::<char>::empty() =~= cur0);
        }
        out.push(cur);
        proof {
            assert(out.deep_view() =~~= out0.push(cur0));
            assert(out.deep_view() =~~= full);
        }
    } else {
        proof {
            assert(out.deep_view() + tokens_of(Seq::<char>::empty()) =~~= out.deep_view());
        }
    }
    out
}

/// The position of the first occurrence of `pat` in `s`, if any.
pub open spec fn find_sub(s: Seq<char>, pat: Seq<char>) -> Option<int>
    decreases s.len(),
{
    if s.len() < pat.len() {
        None
    } else if s.take(pat.len() as int) == pat {
        Some(0)
    } else if s.len() == 0 {
        None
    } else {
        match find_sub(s.drop_first(), pat) {
            Some(i) => Some(i + 1),
            None => None,
        }
    }
}

/// One unfolding step of `find_sub` along a suffix of `s`.
proof fn lemma_find_sub_step(s: Seq<char>, pat: Seq<char>, i: int)
    requires
        0 <= i,
        i + pat.len() <= s.len(),
        pat.len() > 0,
    ensures
        s.subrange(i, i + pat.len()) == pat ==> find_sub(s.skip(i), pat) == Some(0int),
        s.subrange(i, i + pat.len()) != pat ==> find_sub(s.skip(i), pat) == (match find_sub(
            s.skip(i + 1),
            pat,
        ) {
            Some(k) => Some(k + 1),
            None => None,
        }),
{
    assert(s.skip(i).len() >= pat.len());
    assert(s.skip(i).take(pat.len() as int) =~= s.subrange(i, i + pat.len()));
    assert(s.skip(i).drop_first() =~= s.skip(i + 1));
}

/// Whether `pat` occurs at position `i` of `v`.
fn match_at(v: &Vec<char>, pat: &str, i: usize) -> (r: bool)
    requires
        i + pat@.len() <= v@.len(),
    ensures
        r == (v@.subrange(i as int, i + pat@.len()) == pat@),
{
    let n = pat.unicode_len();
    let total = v.len();
    let mut j: usize = 0;
    while j < n
        invariant
            n == pat@.len(),
            total == v@.len(),
            i + n <= total,
            j <= n,
            forall|k: int| 0 <= k < j ==> v@[i + k] == pat@[k],
        decreases n - j,
    {
        if v[i + j] != pat.get_char(j) {
            proof {
                assert(v@.subrange(i as int, i + pat@.len())[j as int] != pat@[j as int]);
            }
            return false;
        }
        j = j + 1;
    }
    proof {
        assert(v@.subrange(i as int, i + pat@.len()) =~= pat@);
    }
    true
}

/// Find the first occurrence of `pat` in `v`.
pub fn find_sub_chars(v: &Vec<char>, pat: &str) -> (r: Option<usize>)
    requires
        pat@.len() > 0,
    ensures
        match r {
            Some(i) => find_sub(v@, pat@) == Some(i as int) && i + pat@.len() <= v@.len(),
            None => find_sub(v@, pat@) is None,
        },
{
    let n = v.len();
    let plen = pat.unicode_len();
    let mut i: usize = 0;
    proof {
        assert(v@.skip(0) =~= v@);
    }
    if n < plen {
        return None;
    }
    while i <= n - plen
        invariant
            n == v@.len(),
            plen == pat@.len(),
            plen > 0,
            plen <= n,
            i <= n,
            find_sub(v@, pat@) == (match find_sub(v@.skip(i as int), pat@) {
                Some(k) => Some(k + i),
                None => None,
            }),
        decreases n - i,
    {
        proof {
            lemma_find_sub_step(v@, pat@, i as int);
        }
        if match_at(v, pat, i) {
            return Some(i);
        }
        i = i + 1;
    }
    proof {
        assert(v@.skip(i as int).len() < pat@.len());
    }
    None
}

/// The sequence with every successive copy of `pat` removed from its front.
pub open spec fn strip_repeated_prefix(s: Seq<char>, pat: Seq<char>) -> Seq<char>
    decreases s.len(),
{
    if pat.len() > 0 && has_prefix(s, pat) {
        strip_repeated_prefix(s.skip(pat.len() as int), pat)
    } else {
        s
    }
}

/// Executable counterpart of `strip_repeated_prefix`.
pub fn strip_repeated_prefix_chars(v: Vec<char>, pat: &str) -> (r: Vec<char>)
    ensures
        r@ == strip_repeated_prefix(v@, pat@),
{
    let ghost v0 = v@;
    let mut cur = v;
    if pat.unicode_len() == 0 {
        return cur;
    }
    loop
        invariant_except_break
            pat@.len() > 0,
            strip_repeated_prefix(cur@, pat@) == strip_repeated_prefix(v0, pat@),
        ensures
            cur@ == strip_repeated_prefix(v0, pat@),
        decreases cur@.len(),
    {
        if !chars_have_prefix(&cur, pat) {
            break;
        }
        cur = skip_chars(&cur, pat.unicode_len());
    }
    cur
}

/// Decimal digits.
pub open spec fn is_digit_char(c: char) -> bool {
    '0' <= c && c <= '9'
}

pub open spec fn digit_val(c: char) -> int {
    c as u32 - 48
}

/// The numeric value of a digit string, most significant digit first.
pub open spec fn dec_val(s: Seq<char>) -> int
    decreases s.len(),
{
    if s.len() == 0 {
        0
    } else {
        dec_val(s.drop_last()) * 10 + digit_val(s.last())
    }
}

pub open spec fn all_digits(s: Seq<char>) -> bool {
    forall|i: int| 0 <= i < s.len() ==> is_digit_char(s[i])
}

/// What std's `parse::<u64>` accepts: an optional leading `+`, then one or
/// more decimal digits, with a value that fits the type.
pub open spec fn parse_u64_spec(s: Seq<char>) -> Option<u64> {
    let body = if s.len() >= 1 && s[0] == '+' {
        s.drop_first()
    } else {
        s
    };
    if body.len() > 0 && all_digits(body) && dec_val(body) <= u64::MAX {
        Some(dec_val(body) as u64)
    } else {
        None
    }
}

proof fn lemma_dec_val_nonneg(s: Seq<char>)
    requires
        all_digits(s),
    ensures
        dec_val(s) >= 0,
    decreases s.len(),
{
    if s.len() > 0 {
        assert(all_digits(s.drop_last()));
        lemma_dec_val_nonneg(s.drop_last());
    }
}

proof fn lemma_dec_val_take_step(s: Seq<char>, i: int)
    requires
        0 <= i < s.len(),
    ensures
        dec_val(s.take(i + 1)) == dec_val(s.take(i)) * 10 + digit_val(s[i]),
{
    assert(s.take(i + 1).drop_last() =~= s.take(i));
    assert(s.take(i + 1).last() == s[i]);
}

proof fn lemma_dec_val_grows(s: Seq<char>, i: int)
    requires
        all_digits(s),
        0 <= i <= s.len(),
    ensures
        dec_val(s.take(i)) <= dec_val(s),
    decreases s.len() - i,
{
    if i < s.len() {
        lemma_dec_val_take_step(s, i);
        assert(all_digits(s.take(i)));
        lemma_dec_val_nonneg(s.take(i));
        assert(dec_val(s.take(i)) <= dec_val(s.take(i + 1)));
        lemma_dec_val_grows(s, i + 1);
    } else {
        assert(s.take(i) =~= s);
    }
}

/// Parse a digit body (no sign) as in std, tracking overflow exactly.
fn parse_digits(v: &Vec<char>, from: usize) -> (r: Option<u64>)
    requires
        from <= v@.len(),
    ensures
        ({
            let body = v@.skip(from as int);
            match r {
                Some(n) => body.len() > 0 && all_digits(body) && dec_val(body) == n,
                None => !(body.len() > 0 && all_digits(body) && dec_val(body) <= u64::MAX),
            }
        }),
{
    let ghost body = v@.skip(from as int);
    if from == v.len() {
        return None;
    }
    let mut val: u64 = 0;
    let mut i: usize = from;
    while i < v.len()
        invariant
            from <= i <= v@.len(),
            body == v@.skip(from as int),
            all_digits(body.take(i - from)),
            dec_val(body.take(i - from)) == val,
        decreases v@.len() - i,
    {
        let c = v[i];
        proof {
            assert(body[i - from] == v@[i as int]);
        }
        if !('0' <= c && c <= '9') {
            proof {
                assert(!is_digit_char(body[i - from]));
            }
            return None;
        }
        let d: u64 = (c as u8 - 48) as u64;
        proof {
            assert(c as u32 >= 48 && c as u32 <= 57);
            assert(d == digit_val(c));
            lemma_dec_val_take_step(body, i - from);
        }
        if val > 1844674407370955161 || (val == 1844674407370955161 && d > 5) {
            proof {
                assert(dec_val(body.take(i - from + 1)) > u64::MAX);
                if body.len() > 0 && all_digits(body) {
                    lemma_dec_val_grows(body, i - from + 1);
                }
            }
            return None;
        }
        val = val * 10 + d;
        i = i + 1;
        proof {
            assert(all_digits(body.take(i - from)));
        }
    }
    proof {
        assert(body.take(v@.len() - from) =~= body);
    }
    Some(val)
}

/// Executable equivalent of std's `parse::<u64>`.
pub fn parse_u64_chars(v: &Vec<char>) -> (r: Option<u64>)
    ensures
        r == parse_u64_spec(v@),
{
    if v.len() >= 1 && v[0] == '+' {
        proof {
            assert(v@.skip(1) =~= v@.drop_first());
        }
        parse_digits(v, 1)
    } else {
        proof {
            assert(v@.skip(0) =~= v@);
        }
        parse_digits(v, 0)
    }
}

/// What std's `parse::<i64>` accepts: an optional sign, then digits, with a
/// value that fits the type.
pub open spec fn parse_i64_spec(s: Seq<char>) -> Option<i64> {
    if s.len() >= 1 && s[0] == '-' {
        let body = s.drop_first();
        if body.len() > 0 && all_digits(body) && dec_val(body) <= 9223372036854775808 {
            Some((-dec_val(body)) as i64)
        } else {
            None
        }
    } else {
        let body = if s.len() >= 1 && s[0] == '+' {
            s.drop_first()
        } else {
            s
        };
        if body.len() > 0 && all_digits(body) && dec_val(body) <= i64::MAX {
            Some(dec_val(body) as i64)
        } else {
            None
        }
    }
}

/// Executable equivalent of std's `parse::<i64>`.
pub fn parse_i64_chars(v: &Vec<char>) -> (r: Option<i64>)
    ensures
        r == parse_i64_spec(v@),
{
    if v.len() >= 1 && v[0] == '-' {
        proof {
            assert(v@.skip(1) =~= v@.drop_first());
        }
        match parse_digits(v, 1) {
            Some(n) => {
                if n <= 9223372036854775807u64 {
                    Some(-(n as i64))
                } else if n == 9223372036854775808u64 {
                    Some(i64::MIN)
                } else {
                    None
                }
            },
            None => {
                proof {
                    let body = v@.drop_first();
                    if body.len() > 0 && all_digits(body) {
                        lemma_dec_val_nonneg(body);
                    }
                }
                None
            },
        }
    } else if v.len() >= 1 && v[0] == '+' {
        proof {
            assert(v@.skip(1) =~= v@.drop_first());
        }
        match parse_digits(v, 1) {
            Some(n) => if n <= i64::MAX as u64 {
                Some(n as i64)
            } else {
                None
            },
            None => None,
        }
    } else {
        proof {
            assert(v@.skip(0) =~= v@);
        }
        match parse_digits(v, 0) {
            Some(n) => if n <= i64::MAX as u64 {
                Some(n as i64)
            } else {
                None
            },
            None => None,
        }
    }
}

/// What std's `parse::<usize>` accepts.
pub open spec fn parse_usize_spec(s: Seq<char>) -> Option<usize> {
    match parse_u64_spec(s) {
        Some(n) => if n <= usize::MAX as u64 {
            Some(n as usize)
        } else {
            None
        },
        None => None,
    }
}

/// Executable equivalent of std's `parse::<usize>`.
pub fn parse_usize_chars(v: &Vec<char>) -> (r: Option<usize>)
    ensures
        r == parse_usize_spec(v@),
{
    match parse_u64_chars(v) {
        Some(n) => if n <= usize::MAX as u64 {
            Some(n as usize)
        } else {
            None
        },
        None => None,
    }
}

/// The decimal digit character for a value in 0..10.
pub open spec fn dec_digit_char(d: int) -> char {
    (((d + 48) as u32) as char)
}

/// The decimal rendering of a non-negative number, without sign or padding.
pub open spec fn dec_digits(n: int) -> Seq<char>
    decreases n,
{
    if n < 10 {
        seq![dec_digit_char(if n >= 0 {
            n
        } else {
            0
        })]
    } else {
        dec_digits(n / 10) + seq![dec_digit_char(n % 10)]
    }
}

/// Render a `u64` in decimal, as std's formatting does.
pub fn u64_to_chars(n: u64) -> (r: Vec<char>)
    ensures
        r@ == dec_digits(n as int),
{
    let mut rev: Vec<char> = Vec::new();
    let mut m: u64 = n;
    loop
        invariant_except_break
            dec_digits(n as int) == dec_digits(m as int) + rev@.reverse(),
        ensures
            dec_digits(n as int) == rev@.reverse(),
        decreases m,
    {
        let d: u8 = (m % 10) as u8;
        let c: char = ((d + 48) as char);
        let ghost rev0 = rev@;
        proof {
            assert(c == dec_digit_char(m as int % 10));
        }
        rev.push(c);
        proof {
            assert(rev@.reverse() =~= seq![c] + rev0.reverse());
        }
        if m < 10 {
            proof {
                assert(dec_digits(m as int) =~= seq![c]);
                assert(dec_digits(n as int) =~= rev@.reverse());
            }
            break;
        }
        m = m / 10;
        proof {
            assert(dec_digits(m as int * 10 + d) == dec_digits(m as int) + seq![c]);
        }
    }
    let mut out: Vec<char> = Vec::new();
    let mut i: usize = rev.len();
    while i > 0
        invariant
            i <= rev@.len(),
            out@ == rev@.reverse().take(rev@.len() - i),
        decreases i,
    {
        i = i - 1;
        out.push(rev[i]);
        proof {
            assert(rev@.reverse()[rev@.len() - 1 - i] == rev@[i as int]);
            assert(out@ =~= rev@.reverse().take(rev@.len() - i));
        }
    }
    proof {
        assert(out@ =~= rev@.reverse());
    }
    out
}

/// The decimal rendering of a signed number, as std's formatting writes it.
pub open spec fn signed_dec_digits(n: int) -> Seq<char> {
    if n < 0 {
        seq!['-'] + dec_digits(-n)
    } else {
        dec_digits(n)
    }
}

/// Render an `i64` in decimal, as std's formatting does.
pub fn i64_to_chars(n: i64) -> (r: Vec<char>)
    ensures
        r@ == signed_dec_digits(n as int),
{
    if n >= 0 {
        u64_to_chars(n as u64)
    } else {
        let magnitude: u64 = if n == i64::MIN {
            9223372036854775808u64
        } else {
            (-n) as u64
        };
        let digits = u64_to_chars(magnitude);
        let mut out: Vec<char> = Vec::new();
        out.push('-');
        let mut i: usize = 0;
        while i < digits.len()
            invariant
                i <= digits@.len(),
                out@ == seq!['-'] + digits@.take(i as int),
            decreases digits@.len() - i,
        {
            out.push(digits[i]);
            i = i + 1;
            proof {
                assert(out@ =~= seq!['-'] + digits@.take(i as int));
            }
        }
        proof {
            assert(digits@.take(digits@.len() as int) =~= digits@);
            assert(out@ =~= seq!['-'] + dec_digits(-n as int));
        }
        out
    }
}

/// Relies on std's `PartialEq` for `str`: equal exactly when the character
/// sequences are equal.
#[verifier::external_body]
pub fn str_eq(a: &str, b: &str) -> (r: bool)
    ensures
        r == (a@ == b@),
{
    a == b
}

/// Element-wise equality of two character vectors.
pub fn chars_eq(a: &Vec<char>, b: &Vec<char>) -> (r: bool)
    ensures
        r == (a@ == b@),
{
    if a.len() != b.len() {
        proof {
            assert(a@.len() != b@.len());
        }
        return false;
    }
    let mut i: usize = 0;
    while i < a.len()
        invariant
            a@.len() == b@.len(),
            i <= a@.len(),
            forall|j: int| 0 <= j < i ==> a@[j] == b@[j],
        decreases a@.len() - i,
    {
        if a[i] != b[i] {
            return false;
        }
        i = i + 1;
    }
    proof {
        assert(a@ =~= b@);
    }
    true
}

/// Element-wise equality of a character vector against a string literal.
pub fn chars_eq_str(a: &Vec<char>, b: &str) -> (r: bool)
    ensures
        r == (a@ == b@),
{
    let n = b.unicode_len();
    if a.len() != n {
        proof {
            assert(a@.len() != b@.len());
        }
        return false;
    }
    let mut i: usize = 0;
    while i < n
        invariant
            a@.len() == b@.len(),
            n == b@.len(),
            i <= n,
            forall|j: int| 0 <= j < i ==> a@[j] == b@[j],
        decreases n - i,
    {
        if a[i] != b.get_char(i) {
            return false;
        }
        i = i + 1;
    }
    proof {
        assert(a@ =~= b@);
    }
    true
}

/// The views of a sequence of string slices.
pub open spec fn views_of_strs<'a>(ss: Seq<&'a str>) -> Seq<Seq<char>> {
    ss.map_values(|s: &'a str| s@)
}

/// The view of an optional string.
pub open spec fn view_of_opt(o: Option<String>) -> Option<Seq<char>> {
    match o {
        Some(s) => Some(s@),
        None => None,
    }
}

/// The view of an optional string reference.
pub open spec fn view_of_opt_ref<'a>(o: Option<&'a String>) -> Option<Seq<char>> {
    match o {
        Some(s) => Some(s@),
        None => None,
    }
}

/// A borrowed option (as `Option::as_ref` yields it) has the view of the
/// owned one.
pub proof fn lemma_view_as_ref(o: Option<String>, a: Option<&String>)
    requires
        a is Some <==> o is Some,
        a is Some ==> o->0 == a->0,
    ensures
        view_of_opt_ref(a) == view_of_opt(o),
{
}

/// Copy of a character vector without its first `k` characters.
pub fn skip_chars(v: &Vec<char>, k: usize) -> (r: Vec<char>)
    requires
        k <= v@.len(),
    ensures
        r@ == v@.skip(k as int),
{
    let mut out: Vec<char> = Vec::new();
    let mut i: usize = k;
    while i < v.len()
        invariant
            k <= i <= v@.len(),
            out@ == v@.subrange(k as int, i as int),
        decreases v@.len() - i,
    {
        out.push(v[i]);
        i = i + 1;
        proof {
            assert(out@ =~= v@.subrange(k as int, i as int));
        }
    }
    proof {
        assert(out@ =~= v@.skip(k as int));
    }
    out
}

/// Whether `pre` is a prefix of `s`.
pub open spec fn has_prefix(s: Seq<char>, pre: Seq<char>) -> bool {
    pre.len() <= s.len() && s.take(pre.len() as int) == pre
}

/// Executable prefix test of a character vector against a string literal.
pub fn chars_have_prefix(a: &Vec<char>, pre: &str) -> (r: bool)
    ensures
        r == has_prefix(a@, pre@),
{
    let n = pre.unicode_len();
    if a.len() < n {
        return false;
    }
    let mut i: usize = 0;
    while i < n
        invariant
            n == pre@.len(),
            n <= a@.len(),
            i <= n,
            forall|j: int| 0 <= j < i ==> a@[j] == pre@[j],
        decreases n - i,
    {
        if a[i] != pre.get_char(i) {
            proof {
                assert(a@.take(pre@.len() as int)[i as int] != pre@[i as int]);
            }
            return false;
        }
        i = i + 1;
    }
    proof {
        assert(a@.take(pre@.len() as int) =~= pre@);
    }
    true
}

} // verus!
