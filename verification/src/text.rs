//! The text form of vectors and quaternions: numerals parted by white space or
//! commas, each with or without brackets around it.

use vstd::prelude::*;
use vstd::std_specs::iter::IteratorSpec;
use vstd::string::StrSliceExecFns;

verus! {

/// Whether the character is white space: the characters of Unicode's
/// `White_Space` property.
pub open spec fn is_space(c: char) -> bool {
    let n = c as u32;
    ||| 0x09 <= n <= 0x0D
    ||| n == 0x20
    ||| n == 0x85
    ||| n == 0xA0
    ||| n == 0x1680
    ||| 0x2000 <= n <= 0x200A
    ||| n == 0x2028
    ||| n == 0x2029
    ||| n == 0x202F
    ||| n == 0x205F
    ||| n == 0x3000
}

/// Whether the character parts two numerals: white space or a comma.
pub open spec fn is_separator(c: char) -> bool {
    is_space(c) || c == ','
}

/// Whether the character is one of the brackets `( ) [ ] { }`.
pub open spec fn is_bracket(c: char) -> bool {
    c == '(' || c == ')' || c == '[' || c == ']' || c == '{' || c == '}'
}

/// The place of the first separator, or the length where there is none.
pub open spec fn first_separator(s: Seq<char>) -> nat
    decreases s.len(),
{
    if s.len() == 0 || is_separator(s[0]) {
        0
    } else {
        1 + first_separator(s.drop_first())
    }
}

/// The number of brackets that the text starts with.
pub open spec fn leading_brackets(s: Seq<char>) -> nat
    decreases s.len(),
{
    if s.len() > 0 && is_bracket(s[0]) {
        1 + leading_brackets(s.drop_first())
    } else {
        0
    }
}

/// The number of brackets that the text ends with.
pub open spec fn trailing_brackets(s: Seq<char>) -> nat
    decreases s.len(),
{
    if s.len() > 0 && is_bracket(s.last()) {
        1 + trailing_brackets(s.drop_last())
    } else {
        0
    }
}

/// The text without the brackets at its start and at its end. Brackets inside
/// stay.
pub open spec fn trimmed(s: Seq<char>) -> Seq<char> {
    if leading_brackets(s) == s.len() {
        Seq::empty()
    } else {
        s.subrange(leading_brackets(s) as int, s.len() - trailing_brackets(s))
    }
}

/// The numerals of a text: what stands between its separators, each without
/// the brackets around it, and only what is not empty then.
pub open spec fn tokens_spec(s: Seq<char>) -> Seq<Seq<char>>
    decreases s.len(),
{
    let n = first_separator(s);
    let rest = if n >= s.len() {
        Seq::empty()
    } else {
        tokens_spec(s.skip(n as int + 1))
    };
    if trimmed(s.take(n as int)).len() > 0 {
        seq![trimmed(s.take(n as int))] + rest
    } else {
        rest
    }
}

/// The first `n` numerals of a text; the empty text stands for each one that
/// is missing.
pub open spec fn components_spec(s: Seq<char>, n: nat) -> Seq<Seq<char>> {
    Seq::new(
        n,
        |i: int|
            if i < tokens_spec(s).len() {
                tokens_spec(s)[i]
            } else {
                Seq::empty()
            },
    )
}

/// The characters of each string.
pub open spec fn views(words: Seq<String>) -> Seq<Seq<char>> {
    Seq::new(words.len(), |i: int| words[i]@)
}

/// Whether `parse`, given a string of the characters `word`, can return `r`.
pub open spec fn parses<T, E, F: Fn(&str) -> Result<T, E>>(parse: F, word: Seq<char>, r: Result<T, E>) -> bool {
    exists|s: &str| s@ == word && call_ensures(parse, (s,), r)
}

/// The first separator is where no separator stands before and one stands, or
/// the text ends.
proof fn lemma_first_separator(s: Seq<char>, n: int)
    requires
        0 <= n <= s.len(),
        forall|k: int| 0 <= k < n ==> !is_separator(s[k]),
        n == s.len() || is_separator(s[n]),
    ensures
        first_separator(s) == n,
    decreases s.len(),
{
    if n > 0 {
        lemma_first_separator(s.drop_first(), n - 1);
    }
}

/// The leading brackets end where brackets stand before and none stands, or
/// the text ends.
proof fn lemma_leading_brackets(s: Seq<char>, n: int)
    requires
        0 <= n <= s.len(),
        forall|k: int| 0 <= k < n ==> is_bracket(s[k]),
        n == s.len() || !is_bracket(s[n]),
    ensures
        leading_brackets(s) == n,
    decreases s.len(),
{
    if n > 0 {
        lemma_leading_brackets(s.drop_first(), n - 1);
    }
}

/// The trailing brackets start where brackets stand behind and none stands
/// before, or at the start of the text.
proof fn lemma_trailing_brackets(s: Seq<char>, n: int)
    requires
        0 <= n <= s.len(),
        forall|k: int| s.len() - n <= k < s.len() ==> is_bracket(s[k]),
        n == s.len() || !is_bracket(s[s.len() - n - 1]),
    ensures
        trailing_brackets(s) == n,
    decreases s.len(),
{
    if n > 0 {
        lemma_trailing_brackets(s.drop_last(), n - 1);
    }
}

/// The characters of a string, in a vector.
pub fn to_chars(s: &str) -> (v: Vec<char>)
    ensures
        v@ == s@,
{
    broadcast use vstd::string::group_string_axioms;

    let mut it = s.chars();
    let mut v: Vec<char> = Vec::new();
    loop
        invariant
            v@ + it.remaining() == s@,
            it.obeys_prophetic_iter_laws(),
        ensures
            v@ == s@,
        decreases s@.len() - v@.len(),
    {
        let ghost before = it.remaining();
        match it.next() {
            Some(c) => {
                v.push(c);
                assert(v@ + it.remaining() == s@) by {
                    assert(before == seq![c] + it.remaining());
                    assert(v@ + it.remaining() =~= s@);
                }
            },
            None => {
                assert(v@ =~= s@);
                break ;
            },
        }
    }
    v
}

/// Whether the character is white space, as `char::is_whitespace` tells it.
pub fn white_space(c: char) -> (r: bool)
    ensures
        r == is_space(c),
{
    let n = c as u32;
    (0x09 <= n && n <= 0x0D) || n == 0x20 || n == 0x85 || n == 0xA0 || n == 0x1680 || (0x2000 <= n
        && n <= 0x200A) || n == 0x2028 || n == 0x2029 || n == 0x202F || n == 0x205F || n == 0x3000
}

/// Whether the character parts two numerals.
pub fn separator(c: char) -> (r: bool)
    ensures
        r == is_separator(c),
{
    white_space(c) || c == ','
}

/// Whether the character is a bracket.
pub fn bracket(c: char) -> (r: bool)
    ensures
        r == is_bracket(c),
{
    c == '(' || c == ')' || c == '[' || c == ']' || c == '{' || c == '}'
}

/// The bounds of the piece from `from` to `to` without the brackets around it:
/// both are `to` where the piece holds brackets only.
fn trim(chars: &Vec<char>, from: usize, to: usize) -> (r: (usize, usize))
    requires
        from <= to <= chars.len(),
    ensures
        from <= r.0 <= r.1 <= to,
        chars@.subrange(r.0 as int, r.1 as int) == trimmed(chars@.subrange(from as int, to as int)),
{
    let ghost piece = chars@.subrange(from as int, to as int);
    let mut a = from;
    while a < to && bracket(chars[a])
        invariant
            from <= a <= to <= chars.len(),
            piece == chars@.subrange(from as int, to as int),
            forall|k: int| 0 <= k < a - from ==> is_bracket(piece[k]),
        decreases to - a,
    {
        a = a + 1;
    }
    proof {
        lemma_leading_brackets(piece, a - from);
    }
    if a == to {
        assert(chars@.subrange(to as int, to as int) =~= Seq::<char>::empty());
        return (to, to);
    }
    let mut b = to;
    while b > a + 1 && bracket(chars[b - 1])
        invariant
            from <= a < b <= to <= chars.len(),
            piece == chars@.subrange(from as int, to as int),
            !is_bracket(chars@[a as int]),
            forall|k: int| b - from <= k < to - from ==> is_bracket(piece[k]),
        decreases b,
    {
        b = b - 1;
    }
    proof {
        assert(!is_bracket(piece[b - from - 1]));
        lemma_trailing_brackets(piece, to - b);
        assert(chars@.subrange(a as int, b as int) =~= piece.subrange(a - from, b - from));
    }
    (a, b)
}

/// The numerals of a text, in order.
pub fn tokens(input: &str) -> (r: Vec<String>)
    ensures
        views(r@) == tokens_spec(input@),
{
    let chars = to_chars(input);
    let n = chars.len();
    let mut out: Vec<String> = Vec::new();
    let mut start: usize = 0;
    let mut i: usize = 0;
    proof {
        assert(input@.skip(0) =~= input@);
        assert(views(out@) + tokens_spec(input@) =~= tokens_spec(input@));
    }
    loop
        invariant_except_break
            chars@ == input@,
            n == chars.len(),
            start <= i <= n,
            forall|k: int| start <= k < i ==> !is_separator(chars@[k]),
            views(out@) + tokens_spec(input@.skip(start as int)) == tokens_spec(input@),
        ensures
            views(out@) == tokens_spec(input@),
        decreases n - i,
    {
        if i == n || separator(chars[i]) {
            let ghost tail = input@.skip(start as int);
            let ghost before = views(out@);
            proof {
                lemma_first_separator(tail, i - start);
                assert(tail.take(i - start) =~= chars@.subrange(start as int, i as int));
            }
            let (a, b) = trim(&chars, start, i);
            if a < b {
                let word = input.substring_char(a, b).to_owned();
                out.push(word);
                assert(views(out@) =~= before + seq![trimmed(tail.take(i - start))]);
            }
            if i == n {
                assert(views(out@) + Seq::<Seq<char>>::empty() =~= views(out@));
                break ;
            }
            proof {
                assert(tail.skip(i - start + 1) =~= input@.skip(i + 1));
                assert(views(out@) + tokens_spec(input@.skip(i + 1)) =~= before + tokens_spec(tail));
            }
            start = i + 1;
        }
        i = i + 1;
    }
    out
}

/// The first `n` numerals of a text, with the empty string for each one that is
/// missing.
pub fn components(input: &str, n: usize) -> (r: Vec<String>)
    ensures
        r.len() == n,
        views(r@) == components_spec(input@, n as nat),
{
    let words = tokens(input);
    let mut out: Vec<String> = Vec::new();
    let mut i: usize = 0;
    while i < n
        invariant
            i <= n,
            out.len() == i,
            views(words@) == tokens_spec(input@),
            forall|k: int| 0 <= k < i ==> out@[k]@ == components_spec(input@, n as nat)[k],
        decreases n - i,
    {
        if i < words.len() {
            assert(views(words@)[i as int] == words@[i as int]@);
            out.push(words[i].clone());
        } else {
            out.push(String::new());
        }
        i = i + 1;
    }
    proof {
        assert(views(out@) =~= components_spec(input@, n as nat));
    }
    out
}

} // verus!
