use vstd::prelude::*;
use vstd::std_specs::iter::IteratorSpec;

verus! {

/// `String::push` appends one character to the end of the string.
pub assume_specification[ String::push ](s: &mut String, c: char)
    ensures
        final(s)@ == old(s)@.push(c),
;

/// The position of the first occurrence of `sep` in `s`, or the length of
/// `s` when there is none.
pub open spec fn first_index_of(s: Seq<char>, sep: char) -> int
    decreases s.len(),
{
    if s.len() == 0 {
        0
    } else if s[0] == sep {
        0
    } else {
        1 + first_index_of(s.drop_first(), sep)
    }
}

/// The first occurrence lies within the text, nothing before it is the
/// separator, and it is the separator if it lies before the end.
pub proof fn lemma_first_index_of(s: Seq<char>, sep: char)
    ensures
        0 <= first_index_of(s, sep) <= s.len(),
        forall|i: int| 0 <= i < first_index_of(s, sep) ==> s[i] != sep,
        first_index_of(s, sep) < s.len() ==> s[first_index_of(s, sep)] == sep,
    decreases s.len(),
{
    if s.len() == 0 {
    } else if s[0] == sep {
    } else {
        lemma_first_index_of(s.drop_first(), sep);
        let k = first_index_of(s.drop_first(), sep);
        assert forall|i: int| 0 <= i < 1 + k implies s[i] != sep by {
            if i > 0 {
                assert(s[i] == s.drop_first()[i - 1]);
            }
        }
        if 1 + k < s.len() {
            assert(s[1 + k] == s.drop_first()[k]);
        }
    }
}

/// Finds the first occurrence of `sep` in `s`.
pub fn find_char(s: &str, sep: char) -> (r: usize)
    ensures
        r as int == first_index_of(s@, sep),
{
    let n = s.unicode_len();
    let mut it = s.chars();
    let mut i: usize = 0;
    loop
        invariant
            n == s@.len(),
            i <= n,
            it.remaining() == s@.subrange(i as int, n as int),
            forall|j: int| 0 <= j < i ==> s@[j] != sep,
        decreases n - i,
    {
        match it.next() {
            None => {
                proof {
                    lemma_first_index_unique(s@, sep, i as int);
                }
                return i;
            },
            Some(c) => {
                assert(c == s@[i as int]);
                if c == sep {
                    proof {
                        lemma_first_index_unique(s@, sep, i as int);
                    }
                    return i;
                }
                assert(s@.subrange(i as int, n as int).drop_first() == s@.subrange(i + 1, n as int));
                i += 1;
            },
        }
    }
}

/// A position is the first occurrence if nothing before it is the
/// separator and it is the separator or the end.
pub proof fn lemma_first_index_unique(s: Seq<char>, sep: char, k: int)
    requires
        0 <= k <= s.len(),
        forall|j: int| 0 <= j < k ==> s[j] != sep,
        k < s.len() ==> s[k] == sep,
    ensures
        first_index_of(s, sep) == k,
{
    lemma_first_index_of(s, sep);
}

/// The command name of a command line: what stands before its first space.
pub open spec fn command_name(text: Seq<char>) -> Seq<char> {
    text.subrange(0, first_index_of(text, ' '))
}

/// The argument tail of a command line: what stands after its first space,
/// and nothing when it holds no space.
pub open spec fn command_tail(text: Seq<char>) -> Seq<char> {
    let i = first_index_of(text, ' ');
    if i < text.len() {
        text.subrange(i + 1, text.len() as int)
    } else {
        Seq::empty()
    }
}

/// Splits a command line at its first space into name and argument tail.
pub fn split_command(text: &str) -> (r: (String, String))
    ensures
        r.0@ == command_name(text@),
        r.1@ == command_tail(text@),
{
    let n = text.unicode_len();
    let i = find_char(text, ' ');
    proof {
        lemma_first_index_of(text@, ' ');
    }
    let name = text.substring_char(0, i).to_owned();
    let tail = if i < n {
        text.substring_char(i + 1, n).to_owned()
    } else {
        String::new()
    };
    (name, tail)
}

/// The pieces of `s` between the occurrences of `sep`, empty pieces included:
/// a text without `sep` is one piece, and so is the empty text.
pub open spec fn split_on(s: Seq<char>, sep: char) -> Seq<Seq<char>>
    decreases s.len(),
    via split_on_decreases
{
    let i = first_index_of(s, sep);
    if i < s.len() {
        seq![s.subrange(0, i)] + split_on(s.subrange(i + 1, s.len() as int), sep)
    } else {
        seq![s]
    }
}

#[via_fn]
proof fn split_on_decreases(s: Seq<char>, sep: char) {
    lemma_first_index_of(s, sep);
}

/// Splits `text` at every space.
pub fn split_words(text: &str) -> (r: Vec<String>)
    ensures
        r.deep_view() == split_on(text@, ' '),
{
    let mut out: Vec<String> = Vec::new();
    let mut rest: &str = text;
    assert(out.deep_view() == Seq::<Seq<char>>::empty());
    loop
        invariant
            split_on(text@, ' ') == out.deep_view() + split_on(rest@, ' '),
        decreases rest@.len(),
    {
        let n = rest.unicode_len();
        let i = find_char(rest, ' ');
        proof {
            lemma_first_index_of(rest@, ' ');
        }
        let ghost before = out.deep_view();
        if i >= n {
            out.push(rest.to_owned());
            assert(out.deep_view() == before.push(rest@));
            return out;
        }
        out.push(rest.substring_char(0, i).to_owned());
        assert(out.deep_view() == before.push(rest@.subrange(0, i as int)));
        rest = rest.substring_char(i + 1, n);
    }
}

/// Whether two texts hold the same characters.
pub fn str_eq(a: &str, b: &str) -> (r: bool)
    ensures
        r == (a@ == b@),
{
    let x = a.to_owned();
    let y = b.to_owned();
    x == y
}

/// A text splits into at least one piece, and the first piece is what
/// stands before the first separator.
pub proof fn lemma_split_on_first(s: Seq<char>, sep: char)
    ensures
        split_on(s, sep).len() >= 1,
        split_on(s, sep)[0] == s.subrange(0, first_index_of(s, sep)),
{
    lemma_first_index_of(s, sep);
    let i = first_index_of(s, sep);
    if i < s.len() {
    } else {
        assert(s.subrange(0, i) == s);
    }
}

/// The pieces put together again, with `sep` between them.
pub open spec fn join(pieces: Seq<Seq<char>>, sep: char) -> Seq<char>
    decreases pieces.len(),
{
    if pieces.len() == 0 {
        Seq::empty()
    } else if pieces.len() == 1 {
        pieces[0]
    } else {
        pieces[0] + seq![sep] + join(pieces.drop_first(), sep)
    }
}

/// Splitting loses nothing: the pieces of a text, joined, are the text.
pub proof fn lemma_join_split(s: Seq<char>, sep: char)
    ensures
        join(split_on(s, sep), sep) == s,
    decreases s.len(),
{
    lemma_first_index_of(s, sep);
    let i = first_index_of(s, sep);
    if i < s.len() {
        let rest = s.subrange(i + 1, s.len() as int);
        lemma_join_split(rest, sep);
        lemma_split_on_first(rest, sep);
        let pieces = split_on(s, sep);
        assert(pieces.drop_first() =~= split_on(rest, sep));
        assert(s.subrange(0, i) + seq![sep] + rest =~= s);
    }
}

/// The argument tail of a command line is what its words after the first
/// give when they are joined by spaces.
pub proof fn lemma_tail_is_joined_rest(text: Seq<char>)
    ensures
        command_tail(text) == join(split_on(text, ' ').drop_first(), ' '),
{
    lemma_first_index_of(text, ' ');
    let i = first_index_of(text, ' ');
    if i < text.len() {
        let rest = text.subrange(i + 1, text.len() as int);
        lemma_join_split(rest, ' ');
        assert(split_on(text, ' ').drop_first() =~= split_on(rest, ' '));
    } else {
        assert(split_on(text, ' ').drop_first() =~= Seq::<Seq<char>>::empty());
    }
}

} // verus!
