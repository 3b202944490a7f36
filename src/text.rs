//! Character-level helpers: whitespace, trimming, joining, keyword
//! comparison and the decimal texts that the statement compilers read and
//! write.
use vstd::prelude::*;
use vstd::string::*;
use vstd::std_specs::iter::IteratorSpec;

verus! {

/// Characters that Rust's `char::is_whitespace` accepts (Unicode `White_Space`).
pub open spec fn is_space(c: char) -> bool {
    ('\u{9}' <= c && c <= '\u{d}') || c == ' ' || c == '\u{85}' || c == '\u{a0}'
        || c == '\u{1680}' || ('\u{2000}' <= c && c <= '\u{200a}') || c == '\u{2028}'
        || c == '\u{2029}' || c == '\u{202f}' || c == '\u{205f}' || c == '\u{3000}'
}

pub fn char_is_space(c: char) -> (r: bool)
    ensures
        r == is_space(c),
{
    ('\u{9}' <= c && c <= '\u{d}') || c == ' ' || c == '\u{85}' || c == '\u{a0}'
        || c == '\u{1680}' || ('\u{2000}' <= c && c <= '\u{200a}') || c == '\u{2028}'
        || c == '\u{2029}' || c == '\u{202f}' || c == '\u{205f}' || c == '\u{3000}'
}

/// The views of a sequence of strings.
pub open spec fn texts(v: Seq<String>) -> Seq<Seq<char>> {
    v.map_values(|t: String| t@)
}

/// The characters of `s`, in order, read through its character iterator.
pub fn chars_of(s: &str) -> (r: Vec<char>)
    ensures
        r@ == s@,
{
    broadcast use vstd::string::group_string_axioms;

    let mut it = s.chars();
    let mut r: Vec<char> = Vec::new();
    assert(r@ + it.remaining() =~= s@);
    loop
        invariant
            r@ + it.remaining() == s@,
            it.obeys_prophetic_iter_laws(),
            it.decrease() is Some,
        ensures
            r@ == s@,
        decreases it.decrease()->0,
    {
        let ghost before = it.remaining();
        match it.next() {
            Some(c) => {
                let ghost prev = r@;
                r.push(c);
                assert(r@ + it.remaining() =~= prev + before);
            },
            None => {
                assert(before.len() == 0);
                assert(r@ =~= s@);
                break;
            },
        }
    }
    r
}

/// Whether two strings hold the same characters.
pub fn same_text(a: &str, b: &str) -> (r: bool)
    ensures
        r == (a@ == b@),
{
    a.to_owned() == b.to_owned()
}

/// `s` without its leading whitespace.
pub open spec fn trim_start_of(s: Seq<char>) -> Seq<char>
    decreases s.len(),
{
    if s.len() > 0 && is_space(s[0]) {
        trim_start_of(s.drop_first())
    } else {
        s
    }
}

/// `s` without its trailing whitespace.
pub open spec fn trim_end_of(s: Seq<char>) -> Seq<char>
    decreases s.len(),
{
    if s.len() > 0 && is_space(s.last()) {
        trim_end_of(s.drop_last())
    } else {
        s
    }
}

/// `s` without leading and trailing whitespace, as `str::trim` gives it.
pub open spec fn trim_of(s: Seq<char>) -> Seq<char> {
    trim_end_of(trim_start_of(s))
}

/// Removes leading and trailing whitespace.
pub fn trim(s: &str) -> (r: &str)
    ensures
        r@ == trim_of(s@),
{
    let cs = chars_of(s);
    let n = cs.len();
    let mut a: usize = 0;
    assert(s@.subrange(0, n as int) =~= s@);
    while a < n && char_is_space(cs[a])
        invariant
            a <= n,
            n == s@.len(),
            cs@ == s@,
            trim_start_of(s@) == trim_start_of(s@.subrange(a as int, n as int)),
        decreases n - a,
    {
        assert(s@.subrange(a + 1, n as int) =~= s@.subrange(a as int, n as int).drop_first());
        a += 1;
    }
    assert(trim_start_of(s@) == s@.subrange(a as int, n as int));
    let mut b: usize = n;
    while b > a && char_is_space(cs[b - 1])
        invariant
            a <= b <= n,
            n == s@.len(),
            cs@ == s@,
            trim_of(s@) == trim_end_of(s@.subrange(a as int, b as int)),
        decreases b,
    {
        assert(s@.subrange(a as int, b - 1) =~= s@.subrange(a as int, b as int).drop_last());
        b -= 1;
    }
    s.substring_char(a, b)
}

/// `s` without the double quotes at either end, as `str::trim_matches('"')` gives it.
pub open spec fn unquote_start(s: Seq<char>) -> Seq<char>
    decreases s.len(),
{
    if s.len() > 0 && s[0] == '"' {
        unquote_start(s.drop_first())
    } else {
        s
    }
}

pub open spec fn unquote_end(s: Seq<char>) -> Seq<char>
    decreases s.len(),
{
    if s.len() > 0 && s.last() == '"' {
        unquote_end(s.drop_last())
    } else {
        s
    }
}

pub open spec fn unquote_of(s: Seq<char>) -> Seq<char> {
    unquote_end(unquote_start(s))
}

/// Removes every double quote at the start and at the end.
pub fn unquote(s: &str) -> (r: &str)
    ensures
        r@ == unquote_of(s@),
{
    let cs = chars_of(s);
    let n = cs.len();
    let mut a: usize = 0;
    assert(s@.subrange(0, n as int) =~= s@);
    while a < n && cs[a] == '"'
        invariant
            a <= n,
            n == s@.len(),
            cs@ == s@,
            unquote_start(s@) == unquote_start(s@.subrange(a as int, n as int)),
        decreases n - a,
    {
        assert(s@.subrange(a + 1, n as int) =~= s@.subrange(a as int, n as int).drop_first());
        a += 1;
    }
    assert(unquote_start(s@) == s@.subrange(a as int, n as int));
    let mut b: usize = n;
    while b > a && cs[b - 1] == '"'
        invariant
            a <= b <= n,
            n == s@.len(),
            cs@ == s@,
            unquote_of(s@) == unquote_end(s@.subrange(a as int, b as int)),
        decreases b,
    {
        assert(s@.subrange(a as int, b - 1) =~= s@.subrange(a as int, b as int).drop_last());
        b -= 1;
    }
    s.substring_char(a, b)
}

/// The parts joined with `sep` between each two neighbours.
pub open spec fn join(parts: Seq<Seq<char>>, sep: Seq<char>) -> Seq<char>
    decreases parts.len(),
{
    if parts.len() == 0 {
        Seq::empty()
    } else if parts.len() == 1 {
        parts[0]
    } else {
        join(parts.drop_last(), sep) + sep + parts.last()
    }
}

/// The tokens from index `from` on, joined by single spaces.
pub fn join_from(tokens: &Vec<String>, from: usize) -> (r: String)
    requires
        from <= tokens.len(),
    ensures
        r@ == join(texts(tokens@).skip(from as int), " "@),
{
    let r = join_range(tokens, from, tokens.len());
    assert(texts(tokens@).subrange(from as int, tokens.len() as int) =~= texts(tokens@).skip(
        from as int,
    ));
    r
}

/// The tokens from index `from` up to `to`, joined by single spaces.
pub fn join_range(tokens: &Vec<String>, from: usize, to: usize) -> (r: String)
    requires
        from <= to <= tokens.len(),
    ensures
        r@ == join(texts(tokens@).subrange(from as int, to as int), " "@),
{
    let mut r = String::new();
    let mut i = from;
    assert(texts(tokens@).subrange(from as int, from as int) =~= Seq::<Seq<char>>::empty());
    while i < to
        invariant
            from <= i <= to <= tokens.len(),
            r@ == join(texts(tokens@).subrange(from as int, i as int), " "@),
        decreases to - i,
    {
        let ghost before = texts(tokens@).subrange(from as int, i as int);
        let ghost after = texts(tokens@).subrange(from as int, i + 1);
        assert(after.drop_last() =~= before);
        if i > from {
            r.append(" ");
        } else {
            assert(before.len() == 0);
        }
        r.append(tokens[i].as_str());
        i += 1;
    }
    r
}

/// Whether `ns` occurs in `hs` starting at index `i`.
fn matches_at(hs: &Vec<char>, ns: &Vec<char>, i: usize) -> (r: bool)
    requires
        i + ns.len() <= hs.len(),
    ensures
        r == (hs@.subrange(i as int, i + ns.len()) == ns@),
{
    let mut j: usize = 0;
    while j < ns.len()
        invariant
            j <= ns.len(),
            i + ns.len() <= hs.len(),
            forall|k: int| 0 <= k < j ==> hs@[i + k] == ns@[k],
        decreases ns.len() - j,
    {
        if hs[i + j] != ns[j] {
            assert(hs@.subrange(i as int, i + ns.len())[j as int] != ns@[j as int]);
            return false;
        }
        j += 1;
    }
    assert(hs@.subrange(i as int, i + ns.len()) =~= ns@);
    true
}

/// Whether `s` ends with `suffix`, as `str::ends_with` tells.
pub open spec fn ends_with(s: Seq<char>, suffix: Seq<char>) -> bool {
    s.len() >= suffix.len() && s.skip(s.len() - suffix.len()) == suffix
}

/// Whether `s` starts with `prefix`, as `str::starts_with` tells.
pub open spec fn starts_with(s: Seq<char>, prefix: Seq<char>) -> bool {
    s.len() >= prefix.len() && s.take(prefix.len() as int) == prefix
}

pub fn ends_with_text(s: &str, suffix: &str) -> (r: bool)
    ensures
        r == ends_with(s@, suffix@),
{
    let hs = chars_of(s);
    let ns = chars_of(suffix);
    if ns.len() > hs.len() {
        return false;
    }
    let r = matches_at(&hs, &ns, hs.len() - ns.len());
    assert(s@.subrange(s@.len() - suffix@.len(), s@.len() as int) =~= s@.skip(
        s@.len() - suffix@.len(),
    ));
    r
}

pub fn starts_with_text(s: &str, prefix: &str) -> (r: bool)
    ensures
        r == starts_with(s@, prefix@),
{
    let hs = chars_of(s);
    let ns = chars_of(prefix);
    if ns.len() > hs.len() {
        return false;
    }
    let r = matches_at(&hs, &ns, 0);
    assert(s@.subrange(0, prefix@.len() as int) =~= s@.take(prefix@.len() as int));
    r
}

/// `s` with every occurrence of `from`, scanned left to right without
/// overlaps, replaced by `to`, as `str::replace` gives it.
pub open spec fn replace_all(s: Seq<char>, from: Seq<char>, to: Seq<char>) -> Seq<char>
    decreases s.len(),
{
    if s.len() == 0 {
        Seq::empty()
    } else if from.len() > 0 && starts_with(s, from) {
        to + replace_all(s.skip(from.len() as int), from, to)
    } else {
        seq![s[0]] + replace_all(s.drop_first(), from, to)
    }
}

/// Replaces every occurrence of a nonempty `from` by `to`.
pub fn replace_text(s: &str, from: &str, to: &str) -> (r: String)
    requires
        from@.len() > 0,
    ensures
        r@ == replace_all(s@, from@, to@),
{
    let hs = chars_of(s);
    let ns = chars_of(from);
    let n = hs.len();
    let mut out = String::new();
    let mut start: usize = 0;
    let mut i: usize = 0;
    assert(s@.subrange(0, 0) =~= Seq::<char>::empty());
    assert(s@.skip(0) =~= s@);
    while i < n
        invariant
            start <= i <= n == hs.len(),
            hs@ == s@,
            ns@ == from@,
            ns.len() > 0,
            replace_all(s@, from@, to@) == out@ + s@.subrange(start as int, i as int) + replace_all(
                s@.skip(i as int),
                from@,
                to@,
            ),
        decreases n - i,
    {
        let ghost rest = s@.skip(i as int);
        if ns.len() <= n - i && matches_at(&hs, &ns, i) {
            assert(rest.take(from@.len() as int) =~= s@.subrange(i as int, i + from@.len()));
            assert(rest.skip(from@.len() as int) =~= s@.skip(i + from@.len()));
            let piece = s.substring_char(start, i);
            out.append(piece);
            out.append(to);
            i = i + ns.len();
            start = i;
            assert(s@.subrange(start as int, start as int) =~= Seq::<char>::empty());
            assert(out@ + s@.subrange(start as int, i as int) =~= out@);
        } else {
            assert(!starts_with(rest, from@)) by {
                if ns.len() <= n - i {
                    assert(rest.take(from@.len() as int) =~= s@.subrange(i as int, i + from@.len()));
                }
            }
            assert(rest.drop_first() =~= s@.skip(i + 1));
            assert(s@.subrange(start as int, i + 1) =~= s@.subrange(start as int, i as int) + seq![
                s@[i as int],
            ]);
            assert(rest[0] == s@[i as int]);
            i += 1;
        }
    }
    let piece = s.substring_char(start, n);
    out.append(piece);
    assert(s@.skip(n as int) =~= Seq::<char>::empty());
    assert(out@ =~= replace_all(s@, from@, to@));
    out
}


/// The pieces of `s` between line breaks: the finished lines and the pending one.
pub open spec fn line_scan(s: Seq<char>) -> (Seq<Seq<char>>, Seq<char>)
    decreases s.len(),
{
    if s.len() == 0 {
        (Seq::empty(), Seq::empty())
    } else {
        let (done, cur) = line_scan(s.drop_last());
        if s.last() == '\n' {
            (done.push(cur), Seq::empty())
        } else {
            (done, cur.push(s.last()))
        }
    }
}

/// The lines of a source text, split at each `\n`.
pub open spec fn source_lines(s: Seq<char>) -> Seq<Seq<char>> {
    line_scan(s).0.push(line_scan(s).1)
}

} // verus!
