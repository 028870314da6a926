//! Small operations on text.

use vstd::prelude::*;

verus! {

/// The characters of each string of a list.
pub open spec fn views(strings: Seq<String>) -> Seq<Seq<char>> {
    strings.map_values(|s: String| s@)
}

/// The characters of an optional string.
pub open spec fn option_view(s: Option<String>) -> Option<Seq<char>> {
    match s {
        Some(s) => Some(s@),
        None => None,
    }
}

/// The characters with the Unicode property White_Space.
pub open spec fn is_white_space(c: char) -> bool {
    let code = c as u32;
    ||| 0x9 <= code <= 0xd
    ||| code == 0x20
    ||| code == 0x85
    ||| code == 0xa0
    ||| code == 0x1680
    ||| 0x2000 <= code <= 0x200a
    ||| code == 0x2028
    ||| code == 0x2029
    ||| code == 0x202f
    ||| code == 0x205f
    ||| code == 0x3000
}

/// Not proved here: `char::is_whitespace` tells whether a character has the
/// property White_Space of the Unicode Character Database.
pub assume_specification[ char::is_whitespace ](c: char) -> (res: bool)
    ensures
        res == is_white_space(c),
;

/// Not proved here: `String::push` appends one character.
pub assume_specification[ String::push ](s: &mut String, c: char)
    ensures
        final(s)@ == old(s)@.push(c),
;

/// How many characters stand before the first white space, or the end.
pub open spec fn first_gap(s: Seq<char>) -> nat
    decreases s.len(),
{
    if s.len() == 0 || is_white_space(s[0]) {
        0
    } else {
        1 + first_gap(s.drop_first())
    }
}

/// The words of a text: what is left of it between stretches of white space.
pub open spec fn split_words(s: Seq<char>) -> Seq<Seq<char>>
    decreases s.len(),
{
    if s.len() == 0 {
        Seq::empty()
    } else if is_white_space(s[0]) {
        split_words(s.drop_first())
    } else {
        let end = first_gap(s) as int;
        if 0 < end <= s.len() {
            seq![s.take(end)] + split_words(s.skip(end))
        } else {
            Seq::empty()
        }
    }
}

/// `before` and `after` are what stands around the first `c` of `s`.
pub open spec fn is_split_once(s: Seq<char>, c: char, before: Seq<char>, after: Seq<char>) -> bool {
    &&& s == before + seq![c] + after
    &&& !before.contains(c)
}

/// `first_gap` is where the first white space stands.
proof fn lemma_first_gap(s: Seq<char>, n: int)
    requires
        0 <= n <= s.len(),
        forall|i: int| 0 <= i < n ==> !is_white_space(s[i]),
        n == s.len() || is_white_space(s[n]),
    ensures
        first_gap(s) == n,
    decreases s.len(),
{
    if n > 0 {
        lemma_first_gap(s.drop_first(), n - 1);
    }
}

/// The characters of a text as a vector.
fn to_chars(text: &str) -> (res: Vec<char>)
    ensures
        res@ == text@,
{
    let mut chars: Vec<char> = Vec::new();
    for c in it: text.chars()
        invariant
            chars@ == it.seq().take(it.index() as int),
            it.seq() == text@,
    {
        chars.push(c);
    }
    chars
}

/// The characters from `from` up to `to` as a string.
fn slice_string(chars: &Vec<char>, from: usize, to: usize) -> (res: String)
    requires
        from <= to <= chars@.len(),
    ensures
        res@ == chars@.subrange(from as int, to as int),
{
    let mut s = String::new();
    let mut i: usize = from;
    while i < to
        invariant
            from <= i <= to <= chars@.len(),
            s@ == chars@.subrange(from as int, i as int),
        decreases to - i,
    {
        s.push(chars[i]);
        i += 1;
    }
    s
}

/// Splits a text into its words.
pub fn words(text: &str) -> (res: Vec<String>)
    ensures
        views(res@) == split_words(text@),
{
    let chars = to_chars(text);
    let mut res: Vec<String> = Vec::new();
    let mut i: usize = 0;
    assert(text@.skip(0) == text@);
    assert(views(res@) + split_words(text@.skip(0)) == split_words(text@));
    while i < chars.len()
        invariant
            chars@ == text@,
            i <= chars@.len(),
            views(res@) + split_words(text@.skip(i as int)) == split_words(text@),
        decreases chars@.len() - i,
    {
        let ghost rest = text@.skip(i as int);
        if chars[i].is_whitespace() {
            assert(rest.drop_first() == text@.skip(i + 1));
            i += 1;
        } else {
            let start: usize = i;
            while i < chars.len() && !chars[i].is_whitespace()
                invariant
                    start <= i <= chars@.len(),
                    forall|j: int| start <= j < i ==> !is_white_space(chars@[j]),
                decreases chars@.len() - i,
            {
                i += 1;
            }
            let word = slice_string(&chars, start, i);
            proof {
                lemma_first_gap(rest, i - start);
                assert(rest.take(i - start) == word@);
                assert(rest.skip(i - start) == text@.skip(i as int));
                assert(views(res@.push(word)) == views(res@).push(word@));
                assert(views(res@).push(word@) + split_words(text@.skip(i as int)) == views(res@)
                    + (seq![word@] + split_words(text@.skip(i as int))));
            }
            res.push(word);
        }
    }
    assert(text@.skip(i as int).len() == 0);
    assert(views(res@) + Seq::<Seq<char>>::empty() == views(res@));
    res
}

/// Splits a text at the first `c`, which goes to neither part.
pub fn split_once(text: &str, c: char) -> (res: Option<(String, String)>)
    ensures
        match res {
            Some((before, after)) => is_split_once(text@, c, before@, after@),
            None => !text@.contains(c),
        },
{
    let chars = to_chars(text);
    let mut i: usize = 0;
    while i < chars.len()
        invariant
            chars@ == text@,
            i <= chars@.len(),
            forall|j: int| 0 <= j < i ==> chars@[j] != c,
        decreases chars@.len() - i,
    {
        if chars[i] == c {
            let before = slice_string(&chars, 0, i);
            let after = slice_string(&chars, i + 1, chars.len());
            assert(text@ =~= before@ + seq![c] + after@);
            return Some((before, after));
        }
        i += 1;
    }
    None
}

/// Whether two texts are the same.
pub fn same(a: &str, b: &str) -> (res: bool)
    ensures
        res == (a@ == b@),
{
    a.to_string() == b.to_string()
}

/// Two texts in one.
pub fn join(a: &str, b: &str) -> (res: String)
    ensures
        res@ == a@ + b@,
{
    let mut res = a.to_string();
    res.append(b);
    res
}

/// A copy of a list of strings.
pub fn copy_strings(strings: &Vec<String>) -> (res: Vec<String>)
    ensures
        views(res@) == views(strings@),
{
    let mut res: Vec<String> = Vec::new();
    let mut i: usize = 0;
    while i < strings.len()
        invariant
            i <= strings@.len(),
            views(res@) == views(strings@.take(i as int)),
        decreases strings@.len() - i,
    {
        let copy = strings[i].clone();
        assert(views(res@.push(copy)) == views(res@).push(copy@));
        assert(views(strings@.take(i + 1)) == views(strings@.take(i as int)).push(strings@[i as int]@));
        res.push(copy);
        i += 1;
    }
    assert(strings@.take(i as int) == strings@);
    res
}

} // verus!
