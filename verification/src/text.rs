//! Blanks, words and trimming on text, the lexical layer of a command.
use vstd::prelude::*;
use vstd::std_specs::iter::IteratorSpec;
use vstd::string::*;
use vstd::utf8::*;

verus! {

/// The characters that separate the words of a command: space, tab, line
/// feed and carriage return.
pub open spec fn is_blank(c: char) -> bool {
    c == ' ' || c == '\t' || c == '\n' || c == '\r'
}

/// How many blanks `s` starts with.
pub open spec fn leading_blanks(s: Seq<char>) -> nat
    decreases s.len(),
{
    if s.len() > 0 && is_blank(s[0]) {
        1 + leading_blanks(s.drop_first())
    } else {
        0
    }
}

/// How many characters `s` holds before its first blank.
pub open spec fn word_len(s: Seq<char>) -> nat
    decreases s.len(),
{
    if s.len() > 0 && !is_blank(s[0]) {
        1 + word_len(s.drop_first())
    } else {
        0
    }
}

/// `s` without the blanks it starts with.
pub open spec fn trimmed_start(s: Seq<char>) -> Seq<char> {
    s.skip(leading_blanks(s) as int)
}

/// `s` without the blanks it ends with.
pub open spec fn trimmed_end(s: Seq<char>) -> Seq<char>
    decreases s.len(),
{
    if s.len() > 0 && is_blank(s.last()) {
        trimmed_end(s.drop_last())
    } else {
        s
    }
}

/// `s` without the blanks at either end.
pub open spec fn trimmed(s: Seq<char>) -> Seq<char> {
    trimmed_end(trimmed_start(s))
}

/// The characters of `s` up to its first blank.
pub open spec fn first_word(s: Seq<char>) -> Seq<char> {
    s.take(word_len(s) as int)
}

/// What follows the first word of `s`, from the blank that ends it.
pub open spec fn after_first_word(s: Seq<char>) -> Seq<char> {
    s.skip(word_len(s) as int)
}

/// Whether `s` holds nothing but blanks; the empty text does.
pub open spec fn is_all_blank(s: Seq<char>) -> bool {
    forall|i: int| 0 <= i < s.len() ==> is_blank(#[trigger] s[i])
}

/// Tests one character for being a blank.
pub fn blank(c: char) -> (b: bool)
    ensures
        b == is_blank(c),
{
    c == ' ' || c == '\t' || c == '\n' || c == '\r'
}

/// Drops the blanks that `s` starts with.
pub fn trim_start(s: &str) -> (t: &str)
    ensures
        t@ == trimmed_start(s@),
{
    broadcast use group_string_axioms;

    let n: usize = s.unicode_len();
    let mut rest = s.chars();
    let mut k: usize = 0;
    assert(s@.skip(0) =~= s@);
    loop
        invariant_except_break
            rest.remaining() == s@.skip(k as int),
        invariant
            k <= n,
            n == s@.len(),
            leading_blanks(s@) == k + leading_blanks(s@.skip(k as int)),
        ensures
            leading_blanks(s@) == k,
        decreases n - k,
    {
        match rest.next() {
            Some(c) => {
                if !blank(c) {
                    break ;
                }
                assert(s@.skip(k as int).drop_first() =~= s@.skip(k + 1));
                k += 1;
            },
            None => {
                break ;
            },
        }
    }
    s.substring_char(k, n)
}

/// Drops the blanks that `s` ends with.
pub fn trim_end(s: &str) -> (t: &str)
    ensures
        t@ == trimmed_end(s@),
{
    broadcast use group_string_axioms;

    let n: usize = s.unicode_len();
    let mut rest = s.chars();
    let mut seen: usize = 0;
    let mut kept: usize = 0;
    loop
        invariant_except_break
            rest.remaining() == s@.skip(seen as int),
        invariant
            kept <= seen <= n,
            n == s@.len(),
            trimmed_end(s@.take(seen as int)) == s@.take(kept as int),
        ensures
            trimmed_end(s@) == s@.take(kept as int),
        decreases n - seen,
    {
        match rest.next() {
            Some(c) => {
                assert(s@.take(seen + 1).drop_last() =~= s@.take(seen as int));
                assert(s@.take(seen + 1).last() == c);
                seen += 1;
                if !blank(c) {
                    kept = seen;
                }
            },
            None => {
                assert(s@.take(seen as int) =~= s@);
                break ;
            },
        }
    }
    s.substring_char(0, kept)
}

/// Drops the blanks at both ends of `s`.
pub fn trim(s: &str) -> (t: &str)
    ensures
        t@ == trimmed(s@),
{
    trim_end(trim_start(s))
}

/// Cuts `s` in two in front of its first blank.
pub fn split_first_word(s: &str) -> (parts: (&str, &str))
    ensures
        parts.0@ == first_word(s@),
        parts.1@ == after_first_word(s@),
{
    broadcast use group_string_axioms;

    let n: usize = s.unicode_len();
    let mut rest = s.chars();
    let mut k: usize = 0;
    assert(s@.skip(0) =~= s@);
    loop
        invariant_except_break
            rest.remaining() == s@.skip(k as int),
        invariant
            k <= n,
            n == s@.len(),
            word_len(s@) == k + word_len(s@.skip(k as int)),
        ensures
            word_len(s@) == k,
        decreases n - k,
    {
        match rest.next() {
            Some(c) => {
                if blank(c) {
                    break ;
                }
                assert(s@.skip(k as int).drop_first() =~= s@.skip(k + 1));
                k += 1;
            },
            None => {
                break ;
            },
        }
    }
    (s.substring_char(0, k), s.substring_char(k, n))
}

/// Whether two texts hold the same characters.
pub fn same_text(a: &str, b: &str) -> (same: bool)
    ensures
        same == (a@ == b@),
{
    broadcast use encode_utf8_decode_utf8;

    let x = a.as_bytes();
    let y = b.as_bytes();
    if x.len() != y.len() {
        return false;
    }
    let mut i: usize = 0;
    while i < x.len()
        invariant
            i <= x.len(),
            x.len() == y.len(),
            x@ == a.spec_bytes(),
            y@ == b.spec_bytes(),
            forall|j: int| 0 <= j < i ==> x@[j] == y@[j],
        decreases x.len() - i,
    {
        if x[i] != y[i] {
            return false;
        }
        i += 1;
    }
    assert(x@ =~= y@);
    assert(decode_utf8(encode_utf8(a@)) == a@);
    assert(decode_utf8(encode_utf8(b@)) == b@);
    true
}

/// The blanks that `s` starts with are blanks, and what follows them is none.
pub proof fn lemma_leading_blanks(s: Seq<char>)
    ensures
        leading_blanks(s) <= s.len(),
        forall|i: int| 0 <= i < leading_blanks(s) ==> is_blank(#[trigger] s[i]),
        leading_blanks(s) < s.len() ==> !is_blank(s[leading_blanks(s) as int]),
    decreases s.len(),
{
    if s.len() > 0 && is_blank(s[0]) {
        let rest = s.drop_first();
        lemma_leading_blanks(rest);
        assert forall|i: int| 0 <= i < leading_blanks(s) implies is_blank(#[trigger] s[i]) by {
            if i > 0 {
                assert(s[i] == rest[i - 1]);
            }
        }
        if leading_blanks(s) < s.len() {
            assert(s[leading_blanks(s) as int] == rest[leading_blanks(rest) as int]);
        }
    }
}

/// Trimming the end leaves a beginning of the text that does not end in a
/// blank, and takes away blanks only.
pub proof fn lemma_trimmed_end(s: Seq<char>)
    ensures
        trimmed_end(s).len() <= s.len(),
        trimmed_end(s) == s.take(trimmed_end(s).len() as int),
        trimmed_end(s).len() > 0 ==> !is_blank(trimmed_end(s).last()),
        forall|i: int| trimmed_end(s).len() <= i < s.len() ==> is_blank(#[trigger] s[i]),
    decreases s.len(),
{
    if s.len() > 0 && is_blank(s.last()) {
        let front = s.drop_last();
        lemma_trimmed_end(front);
        let n = trimmed_end(front).len() as int;
        assert(front.take(n) =~= s.take(n));
        assert forall|i: int| trimmed_end(s).len() <= i < s.len() implies is_blank(
            #[trigger] s[i],
        ) by {
            if i < s.len() - 1 {
                assert(s[i] == front[i]);
            }
        }
    } else {
        assert(s.take(s.len() as int) =~= s);
    }
}

/// Trimming leaves nothing exactly of the texts that hold nothing but blanks.
pub proof fn lemma_trimmed_to_nothing(s: Seq<char>)
    ensures
        trimmed(s).len() == 0 <==> is_all_blank(s),
{
    lemma_leading_blanks(s);
    let k = leading_blanks(s) as int;
    let rest = trimmed_start(s);
    lemma_trimmed_end(rest);
    if is_all_blank(s) {
        if k < s.len() {
            assert(is_blank(s[k]));
        }
        assert(rest.len() == 0);
    }
    if trimmed(s).len() == 0 {
        assert forall|i: int| 0 <= i < s.len() implies is_blank(#[trigger] s[i]) by {
            if i >= k {
                assert(s[i] == rest[i - k]);
            }
        }
    }
}

/// The first word holds no blank, and what follows it starts with one.
pub proof fn lemma_first_word(s: Seq<char>)
    ensures
        word_len(s) <= s.len(),
        forall|i: int| 0 <= i < word_len(s) ==> !is_blank(#[trigger] s[i]),
        word_len(s) < s.len() ==> is_blank(s[word_len(s) as int]),
    decreases s.len(),
{
    if s.len() > 0 && !is_blank(s[0]) {
        let rest = s.drop_first();
        lemma_first_word(rest);
        assert forall|i: int| 0 <= i < word_len(s) implies !is_blank(#[trigger] s[i]) by {
            if i > 0 {
                assert(s[i] == rest[i - 1]);
            }
        }
        if word_len(s) < s.len() {
            assert(s[word_len(s) as int] == rest[word_len(rest) as int]);
        }
    }
}

/// A text without blanks at its ends is left whole by trimming.
pub proof fn lemma_trimmed_already(s: Seq<char>)
    requires
        s.len() > 0 ==> !is_blank(s.first()) && !is_blank(s.last()),
    ensures
        trimmed(s) == s,
{
    assert(s.skip(0) =~= s);
}

/// The first word of a text is the `n` characters in front of a blank, or of
/// the end, that are no blanks themselves.
pub proof fn lemma_first_word_is(s: Seq<char>, n: int)
    requires
        0 <= n <= s.len(),
        forall|i: int| 0 <= i < n ==> !is_blank(#[trigger] s[i]),
        n < s.len() ==> is_blank(s[n]),
    ensures
        word_len(s) == n,
{
    lemma_first_word(s);
    let k = word_len(s) as int;
    if k < n {
        assert(!is_blank(s[k]));
    }
    if n < k {
        assert(is_blank(s[n]));
    }
}

/// Blanks in front of a text are trimmed away with its own.
pub proof fn lemma_blanks_in_front(blanks: Seq<char>, s: Seq<char>)
    requires
        is_all_blank(blanks),
    ensures
        trimmed_start(blanks + s) == trimmed_start(s),
    decreases blanks.len(),
{
    if blanks.len() > 0 {
        let rest = blanks.drop_first();
        assert(is_blank(blanks[0]));
        assert((blanks + s)[0] == blanks[0]);
        assert((blanks + s).drop_first() =~= rest + s);
        assert forall|i: int| 0 <= i < rest.len() implies is_blank(#[trigger] rest[i]) by {
            assert(rest[i] == blanks[i + 1]);
        }
        lemma_blanks_in_front(rest, s);
        lemma_leading_blanks(rest + s);
        let k = leading_blanks(rest + s) as int;
        assert((blanks + s).skip(1 + k) =~= (rest + s).skip(k));
    } else {
        assert(blanks + s =~= s);
    }
}

/// Blanks behind a text are trimmed away with its own.
pub proof fn lemma_blanks_behind(s: Seq<char>, blanks: Seq<char>)
    requires
        is_all_blank(blanks),
    ensures
        trimmed_end(s + blanks) == trimmed_end(s),
    decreases blanks.len(),
{
    if blanks.len() > 0 {
        let front = blanks.drop_last();
        assert(is_blank(blanks.last()));
        assert((s + blanks).last() == blanks.last());
        assert((s + blanks).drop_last() =~= s + front);
        assert forall|i: int| 0 <= i < front.len() implies is_blank(#[trigger] front[i]) by {
            assert(front[i] == blanks[i]);
        }
        lemma_blanks_behind(s, front);
    } else {
        assert(s + blanks =~= s);
    }
}

/// What is put behind a text that holds more than blanks has no part in
/// the trimming of its start.
proof fn lemma_start_of_longer(s: Seq<char>, tail: Seq<char>)
    requires
        !is_all_blank(s),
    ensures
        leading_blanks(s + tail) == leading_blanks(s),
        trimmed_start(s + tail) == trimmed_start(s) + tail,
    decreases s.len(),
{
    let other = choose|i: int| 0 <= i < s.len() && !is_blank(#[trigger] s[i]);
    assert((s + tail)[0] == s[0]);
    if is_blank(s[0]) {
        let rest = s.drop_first();
        assert(rest[other - 1] == s[other]);
        assert((s + tail).drop_first() =~= rest + tail);
        lemma_start_of_longer(rest, tail);
    }
    lemma_leading_blanks(s);
    let k = leading_blanks(s) as int;
    assert((s + tail).skip(k) =~= s.skip(k) + tail);
}

/// Blanks around a text do not show in what trimming leaves of it.
pub proof fn lemma_blanks_around(before: Seq<char>, s: Seq<char>, behind: Seq<char>)
    requires
        is_all_blank(before),
        is_all_blank(behind),
    ensures
        trimmed(before + s + behind) == trimmed(s),
{
    assert(before + s + behind =~= before + (s + behind));
    lemma_blanks_in_front(before, s + behind);
    if is_all_blank(s) {
        assert forall|i: int| 0 <= i < (s + behind).len() implies is_blank(
            #[trigger] (s + behind)[i],
        ) by {
            if i < s.len() {
                assert((s + behind)[i] == s[i]);
            } else {
                assert((s + behind)[i] == behind[i - s.len()]);
            }
        }
        lemma_trimmed_to_nothing(s + behind);
        lemma_trimmed_to_nothing(s);
        assert(trimmed(s + behind) =~= trimmed(s));
    } else {
        lemma_start_of_longer(s, behind);
        lemma_blanks_behind(trimmed_start(s), behind);
    }
}

} // verus!
