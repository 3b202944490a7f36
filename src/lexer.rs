//! Splits one source line into tokens. Whitespace separates tokens, except
//! inside double quotes; the quotes stay part of the token.
use vstd::prelude::*;
use vstd::string::*;
use crate::text::{chars_of, texts};

verus! {

/// Characters that end a token when they stand outside quotes.
pub open spec fn is_break(c: char) -> bool {
    c == ' ' || c == '\t' || c == '\r' || c == '\n'
}

/// The scanner after reading `s`: the finished tokens, the pending token, and
/// whether an odd number of quotes has been read.
pub open spec fn scan(s: Seq<char>) -> (Seq<Seq<char>>, Seq<char>, bool)
    decreases s.len(),
{
    if s.len() == 0 {
        (Seq::empty(), Seq::empty(), false)
    } else {
        let (done, cur, quoted) = scan(s.drop_last());
        let c = s.last();
        if c == '"' {
            (done, cur.push(c), !quoted)
        } else if is_break(c) && !quoted {
            if cur.len() > 0 {
                (done.push(cur), Seq::empty(), quoted)
            } else {
                (done, cur, quoted)
            }
        } else {
            (done, cur.push(c), quoted)
        }
    }
}

/// The tokens of a line: those the scanner finished, then the pending one if
/// it is not empty.
pub open spec fn tokens_of(s: Seq<char>) -> Seq<Seq<char>> {
    let (done, cur, _) = scan(s);
    if cur.len() > 0 {
        done.push(cur)
    } else {
        done
    }
}

/// Splits a line into tokens; quoted text stays in one token, quotes
/// included. An unmatched quote keeps the rest of the line in one token.
pub fn insert_token(input: &str) -> (r: Vec<String>)
    ensures
        texts(r@) == tokens_of(input@),
{
    let cs = chars_of(input);
    let mut tokens: Vec<String> = Vec::new();
    let mut start: usize = 0;
    let mut quoted = false;
    let mut i: usize = 0;
    assert(input@.take(0) =~= Seq::<char>::empty());
    assert(input@.subrange(0, 0) =~= Seq::<char>::empty());
    assert(texts(tokens@) =~= Seq::<Seq<char>>::empty());
    while i < cs.len()
        invariant
            start <= i <= cs.len(),
            cs@ == input@,
            scan(input@.take(i as int)) == (texts(tokens@), input@.subrange(
                start as int,
                i as int,
            ), quoted),
        decreases cs.len() - i,
    {
        let c = cs[i];
        assert(input@.take(i + 1).drop_last() =~= input@.take(i as int));
        assert(input@.take(i + 1).last() == c);
        if c == '"' {
            quoted = !quoted;
            assert(input@.subrange(start as int, i + 1) =~= input@.subrange(
                start as int,
                i as int,
            ).push(c));
        } else if (c == ' ' || c == '\t' || c == '\r' || c == '\n') && !quoted {
            if start < i {
                let t = String::from_str(input.substring_char(start, i));
                let ghost before = tokens@;
                tokens.push(t);
                assert(texts(tokens@) =~= texts(before).push(t@));
            }
            assert(input@.subrange(i + 1, i + 1) =~= Seq::<char>::empty());
            start = i + 1;
        } else {
            assert(input@.subrange(start as int, i + 1) =~= input@.subrange(
                start as int,
                i as int,
            ).push(c));
        }
        i += 1;
    }
    assert(input@.take(cs.len() as int) =~= input@);
    if start < cs.len() {
        let t = String::from_str(input.substring_char(start, cs.len()));
        let ghost before = tokens@;
        tokens.push(t);
        assert(texts(tokens@) =~= texts(before).push(t@));
    }
    tokens
}

} // verus!
