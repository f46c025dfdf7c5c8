//! Verified text utilities: equality, scanning for characters and
//! substrings, splitting on a separator, lexicographic comparison and
//! character removal.  The external inventory tools report their state as
//! plain text, so these functions carry the weight of every probe.

use vstd::prelude::*;

verus! {

use vstd::string::StrSliceExecFns;
use vstd::string::StringExecFns;

/// The pattern `p` occurs in `s` starting at position `i`.
pub open spec fn matches_at(s: Seq<char>, p: Seq<char>, i: int) -> bool {
    0 <= i && i + p.len() <= s.len() && s.subrange(i, i + p.len() as int) == p
}

/// The pattern `p` occurs somewhere in `s`.
pub open spec fn contains_seq(s: Seq<char>, p: Seq<char>) -> bool {
    exists|i: int| matches_at(s, p, i)
}

/// The character `c` occurs in `s`.
pub open spec fn contains_char(s: Seq<char>, c: char) -> bool {
    exists|i: int| 0 <= i < s.len() && s[i] == c
}

/// Splitting `s` at every occurrence of `sep`, in the usual sense: the
/// result always has at least one piece, empty pieces included.
pub open spec fn split_on(s: Seq<char>, sep: char) -> Seq<Seq<char>>
    decreases s.len(),
{
    if s.len() == 0 {
        seq![Seq::<char>::empty()]
    } else if s[0] == sep {
        seq![Seq::<char>::empty()] + split_on(s.drop_first(), sep)
    } else {
        let r = split_on(s.drop_first(), sep);
        seq![seq![s[0]] + r[0]] + r.drop_first()
    }
}

/// The split pieces with the first one prefixed by `x`.
pub open spec fn prepend_piece(x: Seq<char>, pieces: Seq<Seq<char>>) -> Seq<Seq<char>> {
    seq![x + pieces[0]] + pieces.drop_first()
}

/// Strict lexicographic order on character sequences, by code point;
/// for valid text this agrees with the byte order `str` compares with.
pub open spec fn lex_lt(a: Seq<char>, b: Seq<char>) -> bool
    decreases a.len(), b.len(),
{
    if b.len() == 0 {
        false
    } else if a.len() == 0 {
        true
    } else if a[0] != b[0] {
        (a[0] as u32) < (b[0] as u32)
    } else {
        lex_lt(a.drop_first(), b.drop_first())
    }
}

/// `s` with every occurrence of the character `c` removed.
pub open spec fn remove_char(s: Seq<char>, c: char) -> Seq<char>
    decreases s.len(),
{
    if s.len() == 0 {
        Seq::<char>::empty()
    } else if s[0] == c {
        remove_char(s.drop_first(), c)
    } else {
        seq![s[0]] + remove_char(s.drop_first(), c)
    }
}

/// `s` with every (leftmost, non-overlapping) occurrence of the
/// two-character sequence `c0 c1` removed.
pub open spec fn remove_pair(s: Seq<char>, c0: char, c1: char) -> Seq<char>
    decreases s.len(),
{
    if s.len() >= 2 && s[0] == c0 && s[1] == c1 {
        remove_pair(s.skip(2), c0, c1)
    } else if s.len() >= 1 {
        seq![s[0]] + remove_pair(s.drop_first(), c0, c1)
    } else {
        Seq::<char>::empty()
    }
}

pub proof fn lemma_split_on_len(s: Seq<char>, sep: char)
    ensures
        split_on(s, sep).len() >= 1,
    decreases s.len(),
{
    if s.len() > 0 {
        lemma_split_on_len(s.drop_first(), sep);
    }
}

/// When the prefix `a` is free of the separator, the first piece of the
/// split is exactly `a` and the rest splits the suffix.
pub proof fn lemma_split_on_concat(a: Seq<char>, b: Seq<char>, sep: char)
    requires
        !contains_char(a, sep),
    ensures
        split_on(a + seq![sep] + b, sep) == seq![a] + split_on(b, sep),
    decreases a.len(),
{
    let s = a + seq![sep] + b;
    lemma_split_on_len(b, sep);
    if a.len() == 0 {
        assert(a =~= Seq::<char>::empty());
        assert(s =~= seq![sep] + b);
        assert(s[0] == sep);
        assert(s.drop_first() =~= b);
        assert(split_on(s, sep) =~= seq![a] + split_on(b, sep));
    } else {
        assert(s[0] == a[0]);
        assert(a[0] != sep) by {
            if a[0] == sep {
                assert(contains_char(a, sep));
            }
        }
        assert(!contains_char(a.drop_first(), sep)) by {
            if contains_char(a.drop_first(), sep) {
                let i = choose|i: int|
                    0 <= i < a.drop_first().len() && a.drop_first()[i] == sep;
                assert(a[i + 1] == sep);
                assert(contains_char(a, sep));
            }
        }
        lemma_split_on_concat(a.drop_first(), b, sep);
        assert(s.drop_first() =~= a.drop_first() + seq![sep] + b);
        let r = split_on(s.drop_first(), sep);
        assert(r == seq![a.drop_first()] + split_on(b, sep));
        assert(r[0] == a.drop_first());
        assert(seq![s[0]] + r[0] =~= a);
        assert(r.drop_first() =~= split_on(b, sep));
        assert(split_on(s, sep) =~= seq![a] + split_on(b, sep));
    }
}

/// A separator-free sequence splits into a single piece.
pub proof fn lemma_split_on_whole(a: Seq<char>, sep: char)
    requires
        !contains_char(a, sep),
    ensures
        split_on(a, sep) == seq![a],
    decreases a.len(),
{
    if a.len() == 0 {
        assert(a =~= Seq::<char>::empty());
        assert(split_on(a, sep) =~= seq![a]);
    } else {
        assert(a[0] != sep) by {
            if a[0] == sep {
                assert(contains_char(a, sep));
            }
        }
        assert(!contains_char(a.drop_first(), sep)) by {
            if contains_char(a.drop_first(), sep) {
                let i = choose|i: int|
                    0 <= i < a.drop_first().len() && a.drop_first()[i] == sep;
                assert(a[i + 1] == sep);
                assert(contains_char(a, sep));
            }
        }
        lemma_split_on_whole(a.drop_first(), sep);
        let r = split_on(a.drop_first(), sep);
        assert(seq![a[0]] + r[0] =~= a);
        assert(split_on(a, sep) =~= seq![a]);
    }
}

/// A character occurs in a concatenation exactly when it occurs in one
/// of the parts.
pub proof fn lemma_contains_char_concat(a: Seq<char>, b: Seq<char>, c: char)
    ensures
        contains_char(a + b, c) == (contains_char(a, c) || contains_char(b, c)),
{
    if contains_char(a, c) {
        let i = choose|i: int| 0 <= i < a.len() && a[i] == c;
        assert((a + b)[i] == c);
    }
    if contains_char(b, c) {
        let i = choose|i: int| 0 <= i < b.len() && b[i] == c;
        assert((a + b)[a.len() + i] == c);
    }
    if contains_char(a + b, c) {
        let i = choose|i: int| 0 <= i < (a + b).len() && (a + b)[i] == c;
        if i < a.len() {
            assert(a[i] == c);
        } else {
            assert(b[i - a.len()] == c);
        }
    }
}

/// Equality of two string slices, decided character by character.
pub fn str_eq(a: &str, b: &str) -> (r: bool)
    ensures
        r == (a@ == b@),
{
    let alen = a.unicode_len();
    let blen = b.unicode_len();
    if alen != blen {
        return false;
    }
    let mut i: usize = 0;
    while i < alen
        invariant
            0 <= i <= alen,
            alen == a@.len(),
            alen == b@.len(),
            forall|j: int| 0 <= j < i ==> a@[j] == b@[j],
        decreases alen - i,
    {
        if a.get_char(i) != b.get_char(i) {
            return false;
        }
        i = i + 1;
    }
    proof {
        assert(a@ =~= b@);
    }
    true
}

/// Whether the character `c` occurs in `s`.
pub fn str_contains_char(s: &str, c: char) -> (r: bool)
    ensures
        r == contains_char(s@, c),
{
    let len = s.unicode_len();
    let mut i: usize = 0;
    while i < len
        invariant
            0 <= i <= len,
            len == s@.len(),
            forall|j: int| 0 <= j < i ==> s@[j] != c,
        decreases len - i,
    {
        if s.get_char(i) == c {
            return true;
        }
        i = i + 1;
    }
    false
}

/// Whether `p` occurs in `s` starting at `i`.
fn match_at(s: &str, p: &str, i: usize) -> (r: bool)
    requires
        i + p@.len() <= s@.len(),
    ensures
        r == matches_at(s@, p@, i as int),
{
    let slen = s.unicode_len();
    let plen = p.unicode_len();
    let mut j: usize = 0;
    while j < plen
        invariant
            0 <= j <= plen,
            plen == p@.len(),
            i + plen <= s@.len(),
            slen == s@.len(),
            forall|k: int| 0 <= k < j ==> s@[i + k] == p@[k],
        decreases plen - j,
    {
        if s.get_char(i + j) != p.get_char(j) {
            proof {
                let sub = s@.subrange(i as int, i + plen as int);
                assert(sub[j as int] == s@[i + j]);
            }
            return false;
        }
        j = j + 1;
    }
    proof {
        assert(s@.subrange(i as int, i + plen as int) =~= p@);
    }
    true
}

/// Substring search: whether `p` occurs anywhere in `s`.
pub fn str_contains(s: &str, p: &str) -> (r: bool)
    ensures
        r == contains_seq(s@, p@),
{
    let slen = s.unicode_len();
    let plen = p.unicode_len();
    if plen > slen {
        return false;
    }
    if plen == 0 {
        proof {
            assert(s@.subrange(0, 0) =~= p@);
            assert(matches_at(s@, p@, 0));
        }
        return true;
    }
    let mut i: usize = 0;
    while i <= slen - plen
        invariant
            0 <= i <= slen - plen + 1,
            slen == s@.len(),
            plen == p@.len(),
            1 <= plen <= slen,
            forall|k: int| 0 <= k < i ==> !matches_at(s@, p@, k),
        decreases slen - plen + 1 - i,
    {
        if match_at(s, p, i) {
            return true;
        }
        i = i + 1;
    }
    false
}

/// Splits `s` at every occurrence of `sep`.
pub fn split_string(s: &str, sep: char) -> (r: Vec<String>)
    ensures
        r.deep_view() == split_on(s@, sep),
        r.len() >= 1,
{
    let len = s.unicode_len();
    let mut pieces: Vec<String> = Vec::new();
    let mut cur: String = String::new();
    let mut i: usize = 0;
    proof {
        lemma_split_on_len(s@, sep);
        assert(s@.skip(0) =~= s@);
        let whole = split_on(s@, sep);
        assert(Seq::<char>::empty() + whole[0] =~= whole[0]);
        assert(prepend_piece(Seq::<char>::empty(), whole) =~= whole);
        assert(pieces.deep_view() + whole =~= whole);
    }
    while i < len
        invariant
            0 <= i <= len,
            len == s@.len(),
            split_on(s@, sep) == pieces.deep_view() + prepend_piece(
                cur@,
                split_on(s@.skip(i as int), sep),
            ),
        decreases len - i,
    {
        let ghost rest = split_on(s@.skip(i as int + 1), sep);
        proof {
            lemma_split_on_len(s@.skip(i as int + 1), sep);
            assert(s@.skip(i as int)[0] == s@[i as int]);
            assert(s@.skip(i as int).drop_first() =~= s@.skip(i as int + 1));
        }
        let c = s.get_char(i);
        if c == sep {
            let ghost here = split_on(s@.skip(i as int), sep);
            proof {
                assert(here =~= seq![Seq::<char>::empty()] + rest);
                assert(here[0] =~= Seq::<char>::empty());
                assert(cur@ + here[0] =~= cur@);
                assert(here.drop_first() =~= rest);
                assert(prepend_piece(cur@, here) =~= seq![cur@] + rest);
                assert(Seq::<char>::empty() + rest[0] =~= rest[0]);
                assert(prepend_piece(Seq::<char>::empty(), rest) =~= rest);
            }
            let ghost old_pieces = pieces.deep_view();
            let ghost curv = cur@;
            pieces.push(cur);
            cur = String::new();
            proof {
                assert(pieces.deep_view() =~= old_pieces + seq![curv]);
                assert(old_pieces + (seq![curv] + rest) =~= (old_pieces + seq![curv]) + rest);
                assert(old_pieces + prepend_piece(curv, here) =~= old_pieces + (seq![curv]
                    + rest));
                assert(pieces.deep_view() + prepend_piece(cur@, rest) =~= (old_pieces
                    + seq![curv]) + rest);
            }
        } else {
            let ghost here = split_on(s@.skip(i as int), sep);
            let piece = s.substring_char(i, i + 1);
            proof {
                assert(here =~= seq![seq![s@[i as int]] + rest[0]] + rest.drop_first());
                assert(piece@ =~= seq![s@[i as int]]);
                assert(here[0] =~= piece@ + rest[0]);
                assert(cur@ + here[0] =~= (cur@ + piece@) + rest[0]);
                assert(here.drop_first() =~= rest.drop_first());
                assert(prepend_piece(cur@, here) =~= prepend_piece(cur@ + piece@, rest));
            }
            cur.append(piece);
        }
        i = i + 1;
    }
    proof {
        assert(s@.skip(len as int) =~= Seq::<char>::empty());
        let last = split_on(Seq::<char>::empty(), sep);
        assert(last =~= seq![Seq::<char>::empty()]);
        assert(cur@ + last[0] =~= cur@);
        assert(last.drop_first() =~= Seq::<Seq<char>>::empty());
        assert(prepend_piece(cur@, last) =~= seq![cur@]);
    }
    let ghost old_pieces = pieces.deep_view();
    let ghost curv = cur@;
    pieces.push(cur);
    proof {
        assert(pieces.deep_view() =~= old_pieces + seq![curv]);
        assert(pieces.deep_view() =~= split_on(s@, sep));
        lemma_split_on_len(s@, sep);
    }
    pieces
}

/// Lexicographic `a >= b`, as `str` comparison orders text.
pub fn str_lex_ge(a: &str, b: &str) -> (r: bool)
    ensures
        r == !lex_lt(a@, b@),
{
    let alen = a.unicode_len();
    let blen = b.unicode_len();
    let mut i: usize = 0;
    proof {
        assert(a@.skip(0) =~= a@);
        assert(b@.skip(0) =~= b@);
    }
    loop
        invariant
            0 <= i <= alen,
            i <= blen,
            alen == a@.len(),
            blen == b@.len(),
            lex_lt(a@, b@) == lex_lt(a@.skip(i as int), b@.skip(i as int)),
        decreases alen - i,
    {
        let ghost arest = a@.skip(i as int);
        let ghost brest = b@.skip(i as int);
        if i >= alen || i >= blen {
            // one is a prefix of the other: the shorter compares smaller
            proof {
                assert(arest.len() == alen - i);
                assert(brest.len() == blen - i);
            }
            return i >= blen;
        }
        let ca = a.get_char(i);
        let cb = b.get_char(i);
        proof {
            assert(arest[0] == a@[i as int]);
            assert(brest[0] == b@[i as int]);
            assert(arest.drop_first() =~= a@.skip(i as int + 1));
            assert(brest.drop_first() =~= b@.skip(i as int + 1));
        }
        if ca as u32 != cb as u32 {
            proof {
                assert(ca != cb);
                assert(lex_lt(arest, brest) == ((ca as u32) < (cb as u32)));
            }
            return ca as u32 > cb as u32;
        }
        proof {
            assert(ca == cb) by {
                assert(ca as u32 == cb as u32);
            }
            assert(lex_lt(arest, brest) == lex_lt(
                a@.skip(i as int + 1),
                b@.skip(i as int + 1),
            ));
        }
        i = i + 1;
    }
}

/// `s` with every occurrence of the character `c` removed.
pub fn string_remove_char(s: &str, c: char) -> (r: String)
    ensures
        r@ == remove_char(s@, c),
{
    let len = s.unicode_len();
    let mut out: String = String::new();
    let mut i: usize = 0;
    proof {
        assert(s@.skip(0) =~= s@);
        assert(out@ + remove_char(s@, c) =~= remove_char(s@, c));
    }
    while i < len
        invariant
            0 <= i <= len,
            len == s@.len(),
            remove_char(s@, c) == out@ + remove_char(s@.skip(i as int), c),
        decreases len - i,
    {
        proof {
            assert(s@.skip(i as int)[0] == s@[i as int]);
            assert(s@.skip(i as int).drop_first() =~= s@.skip(i as int + 1));
        }
        if s.get_char(i) == c {
            proof {
                assert(remove_char(s@.skip(i as int), c) == remove_char(s@.skip(i as int + 1), c));
            }
        } else {
            let piece = s.substring_char(i, i + 1);
            proof {
                assert(piece@ =~= seq![s@[i as int]]);
                assert(remove_char(s@.skip(i as int), c) =~= seq![s@[i as int]] + remove_char(
                    s@.skip(i as int + 1),
                    c,
                ));
                assert(out@ + remove_char(s@.skip(i as int), c) =~= (out@ + piece@) + remove_char(
                    s@.skip(i as int + 1),
                    c,
                ));
            }
            out.append(piece);
        }
        i = i + 1;
    }
    proof {
        assert(s@.skip(len as int) =~= Seq::<char>::empty());
        assert(out@ + Seq::<char>::empty() =~= out@);
    }
    out
}

/// `s` with every leftmost occurrence of the pair `c0 c1` removed.
pub fn string_remove_pair(s: &str, c0: char, c1: char) -> (r: String)
    ensures
        r@ == remove_pair(s@, c0, c1),
{
    let len = s.unicode_len();
    let mut out: String = String::new();
    let mut i: usize = 0;
    proof {
        assert(s@.skip(0) =~= s@);
        assert(out@ + remove_pair(s@, c0, c1) =~= remove_pair(s@, c0, c1));
    }
    while i < len
        invariant
            0 <= i <= len,
            len == s@.len(),
            remove_pair(s@, c0, c1) == out@ + remove_pair(s@.skip(i as int), c0, c1),
        decreases len - i,
    {
        proof {
            assert(s@.skip(i as int)[0] == s@[i as int]);
            if i + 1 < len {
                assert(s@.skip(i as int)[1] == s@[i as int + 1]);
                assert(s@.skip(i as int).skip(2) =~= s@.skip(i as int + 2));
            }
            assert(s@.skip(i as int).drop_first() =~= s@.skip(i as int + 1));
        }
        if i + 1 < len && s.get_char(i) == c0 && s.get_char(i + 1) == c1 {
            proof {
                assert(remove_pair(s@.skip(i as int), c0, c1) == remove_pair(
                    s@.skip(i as int + 2),
                    c0,
                    c1,
                ));
            }
            i = i + 2;
        } else {
            let piece = s.substring_char(i, i + 1);
            proof {
                assert(remove_pair(s@.skip(i as int), c0, c1) == seq![s@[i as int]] + remove_pair(
                    s@.skip(i as int + 1),
                    c0,
                    c1,
                ));
                assert(piece@ =~= seq![s@[i as int]]);
                assert(out@ + (piece@ + remove_pair(s@.skip(i as int + 1), c0, c1)) =~= (out@
                    + piece@) + remove_pair(s@.skip(i as int + 1), c0, c1));
            }
            out.append(piece);
            i = i + 1;
        }
    }
    proof {
        assert(s@.skip(len as int) =~= Seq::<char>::empty());
        assert(out@ + Seq::<char>::empty() =~= out@);
    }
    out
}

} // verus!
