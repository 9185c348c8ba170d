//! Text: what strings are compared with, cut into and built from.

use vstd::prelude::*;
use vstd::string::*;
use vstd::utf8::is_ascii_chars;

verus! {

/// `String::push` appends one character.
pub assume_specification[ String::push ](s: &mut String, ch: char)
    ensures
        final(s)@ == old(s)@.push(ch),
;

/// Whether `c` has the Unicode property White_Space.
pub open spec fn white_space(c: char) -> bool {
    ||| '\u{9}' <= c <= '\u{d}'
    ||| c == ' ' || c == '\u{85}' || c == '\u{a0}' || c == '\u{1680}'
    ||| '\u{2000}' <= c <= '\u{200a}'
    ||| c == '\u{2028}' || c == '\u{2029}' || c == '\u{202f}' || c == '\u{205f}' || c == '\u{3000}'
}

/// `s` without its leading and trailing white space.
pub open spec fn trimmed(s: Seq<char>) -> Seq<char>
    decreases s.len(),
{
    if s.len() > 0 && white_space(s.first()) {
        trimmed(s.drop_first())
    } else if s.len() > 0 && white_space(s.last()) {
        trimmed(s.drop_last())
    } else {
        s
    }
}

/// `str::trim` removes leading and trailing white space, which is what Unicode
/// calls White_Space.
pub assume_specification[ str::trim ](s: &str) -> (r: &str)
    ensures
        r@ == trimmed(s@),
;

/// `s` in lower case.
pub uninterp spec fn lowercase_of(s: Seq<char>) -> Seq<char>;

/// The lower-case form of an ASCII character.
pub open spec fn ascii_lowercase(c: char) -> char {
    if 'A' <= c <= 'Z' {
        (c as u8 + 32) as u8 as char
    } else {
        c
    }
}

/// `str::to_lowercase`: the lower-case form as Unicode has it, in which no ASCII
/// capital is left; of an ASCII string that is the lower-case form of each character.
pub assume_specification[ str::to_lowercase ](s: &str) -> (r: String)
    ensures
        r@ == lowercase_of(s@),
        forall|i: int| 0 <= i < r@.len() ==> !('A' <= #[trigger] r@[i] <= 'Z'),
        is_ascii_chars(s@) ==> r@ == s@.map_values(|c: char| ascii_lowercase(c)),
;

/// The characters of `s`.
pub fn chars_of(s: &str) -> (v: Vec<char>)
    ensures
        v@ == s@,
{
    let mut v: Vec<char> = Vec::new();
    for c in it: s.chars()
        invariant
            v@ == it.seq().take(it.index() as int),
            it.seq() == s@,
    {
        v.push(c);
    }
    v
}

/// The string made of `chars`.
pub fn string_of(chars: &Vec<char>) -> (s: String)
    ensures
        s@ == chars@,
{
    let mut s = String::new();
    let mut i: usize = 0;
    while i < chars.len()
        invariant
            i <= chars.len(),
            s@ == chars@.take(i as int),
        decreases chars.len() - i,
    {
        s.push(chars[i]);
        i += 1;
        assert(chars@.take(i as int) == chars@.take(i - 1).push(chars@[i - 1]));
    }
    assert(chars@.take(i as int) == chars@);
    s
}

/// A copy of `s`.
pub fn copy_opt(s: &Option<String>) -> (r: Option<String>)
    ensures
        r == *s,
{
    match s {
        Some(x) => Some(x.clone()),
        None => None,
    }
}

/// Whether `s` holds nothing but white space.
pub fn is_blank(s: &str) -> (r: bool)
    ensures
        r == (trimmed(s@).len() == 0),
{
    s.trim().is_empty()
}

/// Whether `a` and `b` hold the same characters.
pub fn same(a: &str, b: &str) -> (r: bool)
    ensures
        r == (a@ == b@),
{
    a.to_owned() == b.to_owned()
}

/// Whether `x` is one of `list`.
pub open spec fn listed(list: Seq<&'static str>, x: Seq<char>) -> bool {
    exists|i: int| 0 <= i < list.len() && #[trigger] list[i]@ == x
}

/// Whether `x` is one of `list`.
pub fn is_one_of(x: &str, list: &[&'static str]) -> (r: bool)
    ensures
        r == listed(list@, x@),
        r ==> exists|i: int| 0 <= i < list@.len() && #[trigger] list@[i]@ == x@,
        !r ==> forall|i: int| 0 <= i < list@.len() ==> #[trigger] list@[i]@ != x@,
{
    let mut i: usize = 0;
    while i < list.len()
        invariant
            i <= list.len(),
            forall|j: int| 0 <= j < i ==> #[trigger] list@[j]@ != x@,
        decreases list.len() - i,
    {
        if same(x, list[i]) {
            assert(list@[i as int]@ == x@);
            return true;
        }
        i += 1;
    }
    false
}

/// The words of `s`: what stands between white space.
pub open spec fn words(s: Seq<char>) -> Seq<Seq<char>>
    decreases s.len(),
{
    if s.len() == 0 {
        Seq::empty()
    } else {
        let c = s.last();
        let before = words(s.drop_last());
        if white_space(c) {
            before
        } else if s.len() == 1 || white_space(s[s.len() - 2]) {
            before.push(seq![c])
        } else {
            before.drop_last().push(before.last().push(c))
        }
    }
}

/// Whether `c` is white space.
pub fn is_white_space(c: char) -> (r: bool)
    ensures
        r == white_space(c),
{
    ('\u{9}' <= c && c <= '\u{d}') || c == ' ' || c == '\u{85}' || c == '\u{a0}' || c == '\u{1680}' || ('\u{2000}' <= c && c
        <= '\u{200a}') || c == '\u{2028}' || c == '\u{2029}' || c == '\u{202f}' || c == '\u{205f}' || c == '\u{3000}'
}

/// What the strings in `list` hold.
pub open spec fn texts(list: Seq<String>) -> Seq<Seq<char>> {
    list.map_values(|s: String| s@)
}

/// The words of `s`.
pub fn split_words(s: &str) -> (list: Vec<String>)
    ensures
        texts(list@) == words(s@),
{
    let chars = chars_of(s);
    let mut list: Vec<String> = Vec::new();
    let mut word = String::new();
    let mut i: usize = 0;
    while i < chars.len()
        invariant
            chars@ == s@,
            i <= chars@.len(),
            word@.len() == 0 <==> i == 0 || white_space(chars@[i - 1]),
            words(chars@.take(i as int)) == if word@.len() == 0 {
                texts(list@)
            } else {
                texts(list@).push(word@)
            },
        decreases chars@.len() - i,
    {
        let c = chars[i];
        let ghost prefix = chars@.take(i as int);
        let ghost longer = chars@.take(i + 1);
        assert(longer.drop_last() =~= prefix);
        assert(longer.last() == c);
        assert(i > 0 ==> longer[longer.len() - 2] == chars@[i - 1]);
        if is_white_space(c) {
            if !word.as_str().is_empty() {
                let ghost kept = texts(list@);
                let ghost w = word@;
                list.push(word);
                word = String::new();
                assert(texts(list@) =~= kept.push(w));
            }
        } else {
            let ghost w = word@;
            word.push(c);
            assert(w.len() == 0 ==> word@ =~= seq![c]);
            assert(texts(list@).push(w).drop_last() =~= texts(list@));
        }
        i += 1;
    }
    assert(chars@.take(i as int) =~= s@);
    if !word.as_str().is_empty() {
        let ghost kept = texts(list@);
        let ghost w = word@;
        list.push(word);
        assert(texts(list@) =~= kept.push(w));
    }
    list
}

/// The place of the first `c` in `s`, if there is one.
pub open spec fn first_place(s: Seq<char>, c: char) -> Option<int>
    decreases s.len(),
{
    if s.len() == 0 {
        None
    } else if s[0] == c {
        Some(0)
    } else {
        match first_place(s.drop_first(), c) {
            Some(i) => Some(i + 1),
            None => None,
        }
    }
}

/// The first place of `c` is the only one up to there.
pub proof fn lemma_first_place(s: Seq<char>, c: char, i: int)
    requires
        0 <= i <= s.len(),
        forall|j: int| 0 <= j < i ==> s[j] != c,
    ensures
        i < s.len() && s[i] == c ==> first_place(s, c) == Some(i),
        i == s.len() ==> first_place(s, c) is None,
    decreases s.len(),
{
    if s.len() > 0 && i > 0 {
        assert forall|j: int| 0 <= j < i - 1 implies s.drop_first()[j] != c by {
            assert(s.drop_first()[j] == s[j + 1]);
        }
        lemma_first_place(s.drop_first(), c, i - 1);
        if i < s.len() {
            assert(s.drop_first()[i - 1] == s[i]);
        }
    }
}

/// The place of the first `c` in `s`, if there is one.
pub fn find_char(s: &Vec<char>, c: char) -> (r: Option<usize>)
    ensures
        match r {
            Some(i) => i < s@.len() && s@[i as int] == c && first_place(s@, c) == Some(i as int),
            None => first_place(s@, c) is None,
        },
        match r {
            Some(i) => forall|j: int| 0 <= j < i ==> s@[j] != c,
            None => forall|j: int| 0 <= j < s@.len() ==> s@[j] != c,
        },
{
    let mut i: usize = 0;
    while i < s.len()
        invariant
            i <= s@.len(),
            forall|j: int| 0 <= j < i ==> s@[j] != c,
        decreases s@.len() - i,
    {
        if s[i] == c {
            proof {
                lemma_first_place(s@, c, i as int);
            }
            return Some(i);
        }
        i += 1;
    }
    proof {
        lemma_first_place(s@, c, i as int);
    }
    None
}

/// The string made of the characters of `chars` from `from` up to `to`.
pub fn string_between(chars: &Vec<char>, from: usize, to: usize) -> (s: String)
    requires
        from <= to <= chars@.len(),
    ensures
        s@ == chars@.subrange(from as int, to as int),
{
    let mut s = String::new();
    let mut i: usize = from;
    while i < to
        invariant
            from <= i <= to <= chars@.len(),
            s@ == chars@.subrange(from as int, i as int),
        decreases to - i,
    {
        s.push(chars[i]);
        i += 1;
        assert(chars@.subrange(from as int, i as int) =~= chars@.subrange(from as int, i - 1).push(chars@[i - 1]));
    }
    s
}

/// The parts of `s` before and after the first `c`.
pub open spec fn split_at_first(s: Seq<char>, c: char) -> Option<(Seq<char>, Seq<char>)> {
    match first_place(s, c) {
        Some(i) => Some((s.take(i), s.skip(i + 1))),
        None => None,
    }
}

/// The parts of `s` before and after the first `c`.
pub fn split_once(s: &str, c: char) -> (r: Option<(String, String)>)
    ensures
        match r {
            Some((a, b)) => split_at_first(s@, c) == Some((a@, b@)),
            None => split_at_first(s@, c) is None,
        },
        match r {
            Some((a, b)) => s@ == a@ + seq![c] + b@ && !a@.contains(c),
            None => !s@.contains(c),
        },
{
    let chars = chars_of(s);
    let n: usize = chars.len();
    match find_char(&chars, c) {
        None => None,
        Some(i) => {
            let a = string_between(&chars, 0, i);
            let b = string_between(&chars, i + 1, n);
            assert(a@ =~= s@.take(i as int));
            assert(b@ =~= s@.skip(i + 1));
            assert(s@ =~= a@ + seq![c] + b@);
            Some((a, b))
        },
    }
}

/// `s` without the slashes at its end.
pub open spec fn without_trailing_slashes(s: Seq<char>) -> Seq<char>
    decreases s.len(),
{
    if s.len() > 0 && s.last() == '/' {
        without_trailing_slashes(s.drop_last())
    } else {
        s
    }
}

/// Drops the slashes at the end.
pub fn trim_slashes(s: &str) -> (r: String)
    ensures
        r@ == without_trailing_slashes(s@),
        r@.len() <= s@.len(),
        r@ == s@.subrange(0, r@.len() as int),
        r@.len() > 0 ==> r@.last() != '/',
        forall|i: int| r@.len() <= i < s@.len() ==> s@[i] == '/',
{
    let chars = chars_of(s);
    let mut n: usize = chars.len();
    assert(chars@.take(n as int) =~= chars@);
    while n > 0 && chars[n - 1] == '/'
        invariant
            n <= chars@.len(),
            chars@ == s@,
            without_trailing_slashes(chars@.take(n as int)) == without_trailing_slashes(s@),
            forall|i: int| n <= i < s@.len() ==> s@[i] == '/',
        decreases n,
    {
        assert(chars@.take(n as int).drop_last() =~= chars@.take(n - 1));
        n = n - 1;
    }
    assert(chars@.subrange(0, n as int) =~= chars@.take(n as int));
    string_between(&chars, 0, n)
}

/// The decimal digits of `n`.
pub open spec fn digits(n: nat) -> Seq<char>
    decreases n,
{
    let low = ((n % 10) as u8 + 48u8) as char;
    if n < 10 {
        seq![low]
    } else {
        digits(n / 10).push(low)
    }
}

/// `n` in decimal, with a leading `-` where it is negative.
pub open spec fn decimal(n: int) -> Seq<char> {
    if n < 0 {
        seq!['-'] + digits((-n) as nat)
    } else {
        digits(n as nat)
    }
}

/// `n` in decimal.
pub fn decimal_of_u64(n: u64) -> (s: String)
    ensures
        s@ == decimal(n as int),
    decreases n,
{
    let d: u8 = (n % 10) as u8 + 48;
    let mut s = if n < 10 {
        String::new()
    } else {
        decimal_of_u64(n / 10)
    };
    s.push(d as char);
    assert(n < 10 ==> s@ == seq![d as char]);
    s
}

/// `n` in decimal.
pub fn decimal_of_i64(n: i64) -> (s: String)
    ensures
        s@ == decimal(n as int),
{
    if n >= 0 {
        decimal_of_u64(n as u64)
    } else {
        let magnitude: u64 = (-(n as i128)) as u64;
        let mut s = String::new();
        s.push('-');
        let d = decimal_of_u64(magnitude);
        s.append(d.as_str());
        s
    }
}

proof fn lemma_words_add(a: Seq<char>, c: char, b: Seq<char>)
    requires
        white_space(c),
    ensures
        words(a.push(c) + b) == words(a) + words(b),
        words(b).len() == 0 ==> forall|i: int| 0 <= i < b.len() ==> white_space(#[trigger] b[i]),
    decreases b.len(),
{
    let all = a.push(c) + b;
    if b.len() == 0 {
        assert(all.drop_last() =~= a);
        assert(words(a) + words(b) =~= words(a));
    } else {
        let rest = b.drop_last();
        lemma_words_add(a, c, rest);
        assert(all.drop_last() =~= a.push(c) + rest);
        assert(all[all.len() - 2] == if b.len() == 1 {
            c
        } else {
            b[b.len() - 2]
        });
        let last = b.last();
        if white_space(last) {
            assert forall|i: int| words(b).len() == 0 && 0 <= i < b.len() implies white_space(#[trigger] b[i]) by {
                if i < rest.len() {
                    assert(rest[i] == b[i]);
                }
            }
        } else if b.len() == 1 || white_space(b[b.len() - 2]) {
            assert(words(all) =~= words(a) + words(b));
        } else {
            assert(!white_space(rest[rest.len() - 1]));
            assert(words(rest).len() > 0);
            assert((words(a) + words(rest)).drop_last() =~= words(a) + words(rest).drop_last());
            assert(words(all) =~= words(a) + words(b));
        }
    }
}

/// White space parts words: the words of two texts with white space between them are
/// those of the one and then those of the other.
pub proof fn white_space_parts_words(a: Seq<char>, c: char, b: Seq<char>)
    requires
        white_space(c),
    ensures
        words(a + seq![c] + b) == words(a) + words(b),
{
    lemma_words_add(a, c, b);
    assert(a + seq![c] + b =~= a.push(c) + b);
}

/// Text without white space is one word, and no text is none.
pub proof fn one_word_is_a_word(w: Seq<char>)
    requires
        forall|i: int| 0 <= i < w.len() ==> !white_space(w[i]),
    ensures
        w.len() == 0 ==> words(w) == Seq::<Seq<char>>::empty(),
        w.len() > 0 ==> words(w) == seq![w],
    decreases w.len(),
{
    if w.len() > 0 {
        let rest = w.drop_last();
        assert forall|i: int| 0 <= i < rest.len() implies !white_space(rest[i]) by {
            assert(rest[i] == w[i]);
        }
        one_word_is_a_word(rest);
        if w.len() == 1 {
            assert(words(w) =~= seq![w]) by {
                assert(words(rest) =~= Seq::empty());
                assert(seq![w.last()] =~= w);
            }
        } else {
            assert(!white_space(w[w.len() - 2]));
            assert(rest.push(w.last()) =~= w);
            assert(words(w) =~= seq![w]);
        }
    }
}

/// The number that decimal digits stand for.
pub open spec fn value_of(s: Seq<char>) -> int
    decreases s.len(),
{
    if s.len() == 0 {
        0
    } else {
        value_of(s.drop_last()) * 10 + (s.last() as int - 48)
    }
}

/// What is written in decimal stands for the number: digits alone, the first of them 0
/// only where the number is, and a minus sign in front where it is negative.
pub proof fn decimals_stand_for_their_numbers(n: int)
    ensures
        n >= 0 ==> value_of(decimal(n)) == n,
        n < 0 ==> decimal(n).len() > 1 && decimal(n)[0] == '-' && value_of(decimal(n).drop_first()) == -n,
        n >= 0 ==> forall|i: int| 0 <= i < decimal(n).len() ==> '0' <= #[trigger] decimal(n)[i] <= '9',
        n > 0 ==> decimal(n)[0] != '0',
        n == 0 ==> decimal(n) == seq!['0'],
{
    if n >= 0 {
        lemma_digits(n as nat);
    } else {
        lemma_digits((-n) as nat);
        assert(decimal(n).drop_first() =~= digits((-n) as nat));
    }
}

proof fn lemma_digits(n: nat)
    ensures
        digits(n).len() > 0,
        value_of(digits(n)) == n,
        forall|i: int| 0 <= i < digits(n).len() ==> '0' <= #[trigger] digits(n)[i] <= '9',
        n > 0 ==> digits(n)[0] != '0',
        n == 0 ==> digits(n) == seq!['0'],
    decreases n,
{
    let d = digits(n);
    if n < 10 {
        assert(d.drop_last() =~= Seq::empty());
        assert(value_of(d.drop_last()) == 0);
    } else {
        lemma_digits(n / 10);
        assert(d.drop_last() =~= digits(n / 10));
        assert(n == (n / 10) * 10 + n % 10);
    }
}

} // verus!
