//! Splitting text into pieces and looking up `key=value` entries among them.
use vstd::prelude::*;

verus! {

/// What separates the pieces of a text.
#[derive(Clone, Copy, Debug, PartialEq, Eq, Structural)]
pub enum Separator {
    /// ASCII whitespace, as between kernel boot arguments.
    Whitespace,
    /// A line break, as between lines of an environment file.
    Newline,
}

impl Separator {
    pub open spec fn separates(self, c: char) -> bool {
        match self {
            Separator::Whitespace => c == ' ' || c == '\t' || c == '\n' || c == '\r' || c
                == '\x0c',
            Separator::Newline => c == '\n' || c == '\r',
        }
    }

    pub fn is_separator(self, c: char) -> (r: bool)
        ensures
            r == self.separates(c),
    {
        match self {
            Separator::Whitespace => c == ' ' || c == '\t' || c == '\n' || c == '\r' || c
                == '\x0c',
            Separator::Newline => c == '\n' || c == '\r',
        }
    }
}

/// The pieces completed so far and the piece being read, after reading `s`.
pub open spec fn split_state(s: Seq<char>, sep: Separator) -> (Seq<Seq<char>>, Seq<char>)
    decreases s.len(),
{
    if s.len() == 0 {
        (Seq::empty(), Seq::empty())
    } else {
        let (done, cur) = split_state(s.drop_last(), sep);
        if sep.separates(s.last()) {
            if cur.len() > 0 {
                (done.push(cur), Seq::empty())
            } else {
                (done, Seq::empty())
            }
        } else {
            (done, cur.push(s.last()))
        }
    }
}

/// The non-empty maximal runs of non-separator characters of `s`, in order.
pub open spec fn pieces(s: Seq<char>, sep: Separator) -> Seq<Seq<char>> {
    let (done, cur) = split_state(s, sep);
    if cur.len() > 0 {
        done.push(cur)
    } else {
        done
    }
}

/// The value of a piece `key=value` with a non-empty value, if the piece is one.
pub open spec fn entry_value(piece: Seq<char>, key: Seq<char>) -> Option<Seq<char>> {
    if piece.len() > key.len() + 1 && piece.take(key.len() as int) == key && piece[key.len() as int]
        == '=' {
        Some(piece.skip(key.len() + 1 as int))
    } else {
        None
    }
}

/// The value of the first piece that is an entry for `key`.
pub open spec fn lookup(ps: Seq<Seq<char>>, key: Seq<char>) -> Option<Seq<char>>
    decreases ps.len(),
{
    if ps.len() == 0 {
        None
    } else {
        match lookup(ps.drop_last(), key) {
            Some(v) => Some(v),
            None => entry_value(ps.last(), key),
        }
    }
}

pub open spec fn opt_view(o: Option<String>) -> Option<Seq<char>> {
    match o {
        Some(v) => Some(v@),
        None => None,
    }
}

/// The entry value of the piece `s[start..end]` for `key`.
fn piece_value(s: &str, start: usize, end: usize, key: &str) -> (r: Option<String>)
    requires
        start <= end <= s@.len(),
    ensures
        opt_view(r) == entry_value(s@.subrange(start as int, end as int), key@),
{
    let ghost piece = s@.subrange(start as int, end as int);
    let klen = key.unicode_len();
    if end - start <= klen || end - start - klen <= 1 {
        return None;
    }
    let mut j: usize = 0;
    while j < klen
        invariant
            0 <= j <= klen,
            klen == key@.len(),
            start + klen + 1 < end <= s@.len(),
            piece == s@.subrange(start as int, end as int),
            forall|k: int| 0 <= k < j ==> piece[k] == key@[k],
        decreases klen - j,
    {
        if s.get_char(start + j) != key.get_char(j) {
            assert(piece.take(klen as int)[j as int] != key@[j as int]);
            return None;
        }
        j = j + 1;
    }
    assert(piece.take(klen as int) =~= key@);
    if s.get_char(start + klen) != '=' {
        return None;
    }
    let v = s.substring_char(start + klen + 1, end);
    assert(v@ =~= piece.skip(klen + 1 as int));
    Some(v.to_owned())
}

/// The value of the first entry `key=value` (with a non-empty value) among
/// the pieces of `s`.
pub fn find_value(s: &str, sep: Separator, key: &str) -> (r: Option<String>)
    ensures
        opt_view(r) == lookup(pieces(s@, sep), key@),
{
    let n = s.unicode_len();
    let mut start: usize = 0;
    let mut i: usize = 0;
    let mut found: Option<String> = None;
    while i < n
        invariant
            n == s@.len(),
            start <= i <= n,
            split_state(s@.take(i as int), sep).1 == s@.subrange(start as int, i as int),
            opt_view(found) == lookup(split_state(s@.take(i as int), sep).0, key@),
        decreases n - i,
    {
        let c = s.get_char(i);
        let ghost done = split_state(s@.take(i as int), sep).0;
        let ghost cur = split_state(s@.take(i as int), sep).1;
        assert(s@.take(i + 1).drop_last() =~= s@.take(i as int));
        assert(s@.take(i + 1).last() == c);
        assert(done.push(cur).drop_last() =~= done);
        if sep.is_separator(c) {
            if start < i && found.is_none() {
                found = piece_value(s, start, i, key);
            }
            start = i + 1;
            assert(s@.subrange(start as int, i + 1) =~= Seq::<char>::empty());
        } else {
            assert(s@.subrange(start as int, i + 1) =~= s@.subrange(start as int, i as int).push(c));
        }
        i = i + 1;
    }
    assert(s@.take(n as int) =~= s@);
    let ghost done = split_state(s@, sep).0;
    let ghost cur = split_state(s@, sep).1;
    assert(done.push(cur).drop_last() =~= done);
    if start < n && found.is_none() {
        found = piece_value(s, start, n, key);
    }
    found
}

} // verus!

verus! {

/// Reading a run of non-separators after a finished piece only extends the
/// current piece.
proof fn lemma_split_run(x: Seq<char>, t: Seq<char>, sep: Separator)
    requires
        split_state(x, sep).1.len() == 0,
        forall|i: int| 0 <= i < t.len() ==> !sep.separates(#[trigger] t[i]),
    ensures
        split_state(x + t, sep) == (split_state(x, sep).0, t),
    decreases t.len(),
{
    if t.len() == 0 {
        assert(x + t =~= x);
    } else {
        let t0 = t.drop_last();
        assert forall|i: int| 0 <= i < t0.len() implies !sep.separates(#[trigger] t0[i]) by {
            assert(t0[i] == t[i]);
        }
        lemma_split_run(x, t0, sep);
        assert((x + t).drop_last() =~= x + t0);
        assert((x + t).last() == t.last());
        assert(t0.push(t.last()) =~= t);
    }
}

/// The pieces of `a`, a separator, then a non-empty run `t` of
/// non-separators are the pieces of `a` followed by `t`.
pub proof fn lemma_pieces_append(a: Seq<char>, c: char, t: Seq<char>, sep: Separator)
    requires
        sep.separates(c),
        t.len() > 0,
        forall|i: int| 0 <= i < t.len() ==> !sep.separates(#[trigger] t[i]),
    ensures
        pieces(a.push(c) + t, sep) == pieces(a, sep).push(t),
{
    assert(a.push(c).drop_last() =~= a);
    lemma_split_run(a.push(c), t, sep);
}

/// Looking up among pieces that end in an entry for `key`, after pieces that
/// hold none, gives that entry's value.
pub proof fn lemma_lookup_last(ps: Seq<Seq<char>>, p: Seq<char>, key: Seq<char>)
    requires
        lookup(ps, key) is None,
    ensures
        lookup(ps.push(p), key) == entry_value(p, key),
{
    assert(ps.push(p).drop_last() =~= ps);
}

} // verus!
