//! Strings as sequences of characters: conversion, search and literal replacement.

use vstd::prelude::*;
use vstd::string::*;

verus! {

/// `String::push` of the standard library appends the given character to the
/// end of the string and changes nothing else.
pub assume_specification[ String::push ](s: &mut String, ch: char)
    ensures
        final(s)@ == old(s)@.push(ch),
;

/// `pattern` stands in `text` at index `at`.
pub open spec fn occurs_at(text: Seq<char>, pattern: Seq<char>, at: int) -> bool {
    &&& 0 <= at
    &&& at + pattern.len() <= text.len()
    &&& text.subrange(at, at + pattern.len()) == pattern
}

/// `pattern` stands somewhere in `text`.
pub open spec fn contains(text: Seq<char>, pattern: Seq<char>) -> bool {
    exists|at: int| occurs_at(text, pattern, at)
}

/// `filler` before every character of `text` and once more at the end.
pub open spec fn interleaved(text: Seq<char>, filler: Seq<char>) -> Seq<char>
    decreases text.len(),
{
    if text.len() == 0 {
        filler
    } else {
        filler + seq![text[0]] + interleaved(text.skip(1), filler)
    }
}

/// `text` with every occurrence of `old` replaced by `new`, reading from the
/// left: where `old` stands, `new` is written and reading goes on behind the
/// occurrence; any other character is kept. An empty `old` stands before
/// every character and at the end.
pub open spec fn replaced(text: Seq<char>, old: Seq<char>, new: Seq<char>) -> Seq<char>
    decreases text.len(),
{
    if old.len() == 0 {
        interleaved(text, new)
    } else if text.len() < old.len() {
        text
    } else if text.subrange(0, old.len() as int) == old {
        new + replaced(text.skip(old.len() as int), old, new)
    } else {
        seq![text[0]] + replaced(text.skip(1), old, new)
    }
}

/// The characters of a string, in order.
pub fn chars_of(s: &str) -> (v: Vec<char>)
    ensures
        v@ == s@,
{
    let mut v: Vec<char> = Vec::new();
    for c in it: s.chars()
        invariant
            v@ == it.seq().take(it.index() as int),
            it.seq() == s@,
    {
        v.push(c);
    }
    v
}

/// The string made of the characters `chars[from..to]`.
pub fn string_of_range(chars: &Vec<char>, from: usize, to: usize) -> (s: String)
    requires
        from <= to <= chars.len(),
    ensures
        s@ == chars@.subrange(from as int, to as int),
{
    let mut s = String::new();
    let mut i: usize = from;
    while i < to
        invariant
            from <= i <= to <= chars.len(),
            s@ == chars@.subrange(from as int, i as int),
        decreases to - i,
    {
        s.push(chars[i]);
        i += 1;
    }
    s
}

/// Appends the characters `chars[from..to]` to `out`.
pub fn push_range(out: &mut String, chars: &Vec<char>, from: usize, to: usize)
    requires
        from <= to <= chars.len(),
    ensures
        final(out)@ == old(out)@ + chars@.subrange(from as int, to as int),
{
    let mut i: usize = from;
    while i < to
        invariant
            from <= i <= to <= chars.len(),
            out@ == old(out)@ + chars@.subrange(from as int, i as int),
        decreases to - i,
    {
        out.push(chars[i]);
        i += 1;
    }
}

/// Whether two strings hold the same characters.
pub fn str_eq(a: &str, b: &str) -> (same: bool)
    ensures
        same == (a@ == b@),
{
    let x = chars_of(a);
    let y = chars_of(b);
    chars_eq(&x, &y)
}

/// Whether two vectors hold the same characters.
pub fn chars_eq(x: &Vec<char>, y: &Vec<char>) -> (same: bool)
    ensures
        same == (x@ == y@),
{
    if x.len() != y.len() {
        return false;
    }
    let mut i: usize = 0;
    while i < x.len()
        invariant
            i <= x.len(),
            x.len() == y.len(),
            forall|j: int| 0 <= j < i ==> x@[j] == y@[j],
        decreases x.len() - i,
    {
        if x[i] != y[i] {
            return false;
        }
        i += 1;
    }
    assert(x@ =~= y@);
    true
}

/// Whether `pattern` stands in `text` at index `at`.
pub fn matches_at(text: &Vec<char>, pattern: &Vec<char>, at: usize) -> (found: bool)
    ensures
        found == occurs_at(text@, pattern@, at as int),
{
    if pattern.len() > text.len() || at > text.len() - pattern.len() {
        return false;
    }
    let mut j: usize = 0;
    while j < pattern.len()
        invariant
            j <= pattern.len(),
            at + pattern.len() <= text.len(),
            forall|k: int| 0 <= k < j ==> text@[at + k] == pattern@[k],
        decreases pattern.len() - j,
    {
        if text[at + j] != pattern[j] {
            assert(text@.subrange(at as int, at + pattern.len())[j as int] != pattern@[j as int]);
            return false;
        }
        j += 1;
    }
    assert(text@.subrange(at as int, at + pattern.len()) =~= pattern@);
    true
}

/// Whether `pattern` stands somewhere in `text`.
pub fn chars_contain(text: &Vec<char>, pattern: &Vec<char>) -> (found: bool)
    ensures
        found == contains(text@, pattern@),
{
    if pattern.len() > text.len() {
        return false;
    }
    let last: usize = text.len() - pattern.len();
    let mut i: usize = 0;
    loop
        invariant
            i <= last,
            last == text.len() - pattern.len(),
            forall|j: int| 0 <= j < i ==> !occurs_at(text@, pattern@, j),
        decreases last - i,
    {
        if matches_at(text, pattern, i) {
            return true;
        }
        if i == last {
            return false;
        }
        i += 1;
    }
}

/// Whether `pattern` stands somewhere in `text`.
pub fn str_contains(text: &str, pattern: &str) -> (found: bool)
    ensures
        found == contains(text@, pattern@),
{
    let t = chars_of(text);
    let p = chars_of(pattern);
    chars_contain(&t, &p)
}

/// `text` with `filler` before every character and at the end.
fn interleave(text: &Vec<char>, filler: &Vec<char>) -> (out: String)
    ensures
        out@ == interleaved(text@, filler@),
{
    let mut out = String::new();
    let mut i: usize = 0;
    assert(text@.skip(0) =~= text@);
    while i < text.len()
        invariant
            i <= text.len(),
            out@ + interleaved(text@.skip(i as int), filler@) == interleaved(text@, filler@),
        decreases text.len() - i,
    {
        let ghost before = out@;
        let ghost rest = text@.skip(i as int);
        push_range(&mut out, filler, 0, filler.len());
        out.push(text[i]);
        proof {
            assert(filler@.subrange(0, filler@.len() as int) =~= filler@);
            assert(rest.skip(1) =~= text@.skip(i + 1));
            assert(out@ =~= before + (filler@ + seq![rest[0]]));
            assert(before + (filler@ + seq![rest[0]]) + interleaved(rest.skip(1), filler@)
                =~= before + interleaved(rest, filler@));
        }
        i += 1;
    }
    let ghost before = out@;
    push_range(&mut out, filler, 0, filler.len());
    proof {
        assert(filler@.subrange(0, filler@.len() as int) =~= filler@);
        assert(text@.skip(i as int).len() == 0);
    }
    out
}

/// `text` with every occurrence of `old` replaced by `new`.
pub fn chars_replace(text: &Vec<char>, old: &Vec<char>, new: &Vec<char>) -> (out: String)
    ensures
        out@ == replaced(text@, old@, new@),
{
    if old.len() == 0 {
        return interleave(text, new);
    }
    let mut out = String::new();
    let mut i: usize = 0;
    assert(text@.skip(0) =~= text@);
    while i < text.len()
        invariant
            i <= text.len(),
            old.len() > 0,
            out@ + replaced(text@.skip(i as int), old@, new@) == replaced(text@, old@, new@),
        decreases text.len() - i,
    {
        let ghost before = out@;
        let ghost rest = text@.skip(i as int);
        if matches_at(text, old, i) {
            push_range(&mut out, new, 0, new.len());
            proof {
                assert(new@.subrange(0, new@.len() as int) =~= new@);
                assert(rest.subrange(0, old@.len() as int) =~= text@.subrange(
                    i as int,
                    i + old@.len(),
                ));
                assert(rest.skip(old@.len() as int) =~= text@.skip(i + old@.len()));
                assert(before + (new@ + replaced(rest.skip(old@.len() as int), old@, new@))
                    =~= before + new@ + replaced(rest.skip(old@.len() as int), old@, new@));
            }
            i += old.len();
        } else {
            out.push(text[i]);
            proof {
                if rest.len() >= old@.len() {
                    assert(rest.subrange(0, old@.len() as int) =~= text@.subrange(
                        i as int,
                        i + old@.len(),
                    ));
                }
                assert(rest.skip(1) =~= text@.skip(i + 1));
                assert(out@ =~= before + seq![rest[0]]);
                if rest.len() < old@.len() {
                    lemma_replaced_short(rest, old@, new@);
                    lemma_replaced_short(rest.skip(1), old@, new@);
                    assert(seq![rest[0]] + rest.skip(1) =~= rest);
                }
                assert(before + (seq![rest[0]] + replaced(rest.skip(1), old@, new@)) =~= before
                    + seq![rest[0]] + replaced(rest.skip(1), old@, new@));
            }
            i += 1;
        }
    }
    proof {
        assert(text@.skip(i as int).len() == 0);
        assert(out@ + Seq::<char>::empty() =~= out@);
    }
    out
}

/// `text` with every occurrence of `old` replaced by `new`.
pub fn str_replace(text: &str, old: &str, new: &str) -> (out: String)
    ensures
        out@ == replaced(text@, old@, new@),
{
    let t = chars_of(text);
    let o = chars_of(old);
    let n = chars_of(new);
    chars_replace(&t, &o, &n)
}

/// `head` followed by `tail`.
pub fn str_concat(head: &str, tail: &str) -> (s: String)
    ensures
        s@ == head@ + tail@,
{
    let mut s = String::from_str(head);
    s.append(tail);
    s
}

/// A text shorter than a nonempty pattern is left as it is.
pub proof fn lemma_replaced_short(text: Seq<char>, old: Seq<char>, new: Seq<char>)
    requires
        0 < old.len(),
        text.len() < old.len(),
    ensures
        replaced(text, old, new) == text,
{
}

/// The texts that a replacement keeps: what stands before the first
/// replaced occurrence of `old`, between two replaced occurrences, and
/// behind the last.
pub open spec fn kept_pieces(text: Seq<char>, old: Seq<char>) -> Seq<Seq<char>>
    decreases text.len(),
{
    if old.len() == 0 || text.len() < old.len() {
        seq![text]
    } else if text.subrange(0, old.len() as int) == old {
        seq![Seq::<char>::empty()] + kept_pieces(text.skip(old.len() as int), old)
    } else {
        let rest = kept_pieces(text.skip(1), old);
        seq![seq![text[0]] + rest[0]] + rest.skip(1)
    }
}

/// The pieces in order, with `between` between every two of them.
pub open spec fn joined_by(pieces: Seq<Seq<char>>, between: Seq<char>) -> Seq<char>
    decreases pieces.len(),
{
    if pieces.len() == 0 {
        Seq::empty()
    } else if pieces.len() == 1 {
        pieces[0]
    } else {
        pieces[0] + between + joined_by(pieces.skip(1), between)
    }
}

/// No character of `new` is a character of `old`.
pub open spec fn shares_no_character(old: Seq<char>, new: Seq<char>) -> bool {
    forall|a: int, b: int| 0 <= a < old.len() && 0 <= b < new.len() ==> old[a] != new[b]
}

/// How the pieces of a text go together when its first character is kept.
proof fn lemma_joined_by_kept_first(first: char, rest: Seq<Seq<char>>, between: Seq<char>)
    requires
        rest.len() >= 1,
    ensures
        joined_by(seq![seq![first] + rest[0]] + rest.skip(1), between) == seq![first] + joined_by(
            rest,
            between,
        ),
{
    let pieces = seq![seq![first] + rest[0]] + rest.skip(1);
    if rest.len() == 1 {
        assert(pieces.len() == 1);
    } else {
        assert(pieces.skip(1) =~= rest.skip(1));
        assert(pieces[0] + between + joined_by(rest.skip(1), between) =~= seq![first] + (rest[0]
            + between + joined_by(rest.skip(1), between)));
    }
}

/// A replacement keeps every character that is not part of a replaced
/// occurrence, in its place: the text is its kept pieces with `old` between
/// them, the result is the same pieces with `new` between them, and `old`
/// stands in none of the pieces.
pub proof fn lemma_replaced_keeps_the_rest(text: Seq<char>, old: Seq<char>, new: Seq<char>)
    requires
        old.len() > 0,
    ensures
        kept_pieces(text, old).len() >= 1,
        joined_by(kept_pieces(text, old), old) == text,
        joined_by(kept_pieces(text, old), new) == replaced(text, old, new),
        forall|i: int|
            0 <= i < kept_pieces(text, old).len() ==> !contains(
                #[trigger] kept_pieces(text, old)[i],
                old,
            ),
    decreases text.len(),
{
    let pieces = kept_pieces(text, old);
    if text.len() < old.len() {
        assert forall|i: int| 0 <= i < pieces.len() implies !contains(#[trigger] pieces[i], old) by {
            assert(pieces[i] == text);
        }
    } else if text.subrange(0, old.len() as int) == old {
        let tail = text.skip(old.len() as int);
        let rest = kept_pieces(tail, old);
        lemma_replaced_keeps_the_rest(tail, old, new);
        assert(pieces.skip(1) =~= rest);
        assert(pieces[0] =~= Seq::<char>::empty());
        assert(pieces[0] + old + tail =~= text) by {
            assert(text.subrange(0, old.len() as int) + tail =~= text);
        }
        assert(pieces[0] + new + replaced(tail, old, new) =~= new + replaced(tail, old, new));
        assert forall|i: int| 0 <= i < pieces.len() implies !contains(#[trigger] pieces[i], old) by {
            if i > 0 {
                assert(pieces[i] == rest[i - 1]);
            }
        }
    } else {
        let tail = text.skip(1);
        let rest = kept_pieces(tail, old);
        lemma_replaced_keeps_the_rest(tail, old, new);
        lemma_joined_by_kept_first(text[0], rest, old);
        lemma_joined_by_kept_first(text[0], rest, new);
        assert(seq![text[0]] + tail =~= text);
        assert forall|i: int| 0 <= i < pieces.len() implies !contains(#[trigger] pieces[i], old) by {
            if i > 0 {
                assert(pieces[i] == rest[i]);
            } else {
                let piece = pieces[0];
                assert(piece == seq![text[0]] + rest[0]);
                assert forall|at: int| !occurs_at(piece, old, at) by {
                    if occurs_at(piece, old, at) {
                        if at >= 1 {
                            assert(piece.subrange(at, at + old.len()) =~= rest[0].subrange(
                                at - 1,
                                at - 1 + old.len(),
                            ));
                            assert(occurs_at(rest[0], old, at - 1));
                        } else {
                            // the first piece begins the text, so `old` would begin the text
                            if pieces.len() == 1 {
                                assert(text == piece);
                            } else {
                                assert(text == piece + old + joined_by(pieces.skip(1), old));
                            }
                            assert(text.subrange(0, old.len() as int) =~= piece.subrange(
                                0,
                                old.len() as int,
                            ));
                        }
                    }
                }
            }
        }
    }
}

/// The first characters of a result are the first characters of the text,
/// unless a character of `new` stands among them.
proof fn lemma_replaced_prefix(text: Seq<char>, old: Seq<char>, new: Seq<char>, upto: int)
    requires
        old.len() > 0,
        new.len() > 0,
        0 <= upto <= replaced(text, old, new).len(),
    ensures
        (upto <= text.len() && replaced(text, old, new).subrange(0, upto) == text.subrange(
            0,
            upto,
        )) || (exists|q: int, b: int|
            0 <= q < upto && 0 <= b < new.len() && replaced(text, old, new)[q] == new[b]),
    decreases text.len(),
{
    let result = replaced(text, old, new);
    if upto == 0 {
        assert(result.subrange(0, 0) =~= text.subrange(0, 0));
    } else if text.len() < old.len() {
    } else if text.subrange(0, old.len() as int) == old {
        assert(result[0] == new[0]);
    } else {
        let tail = text.skip(1);
        let rest = replaced(tail, old, new);
        lemma_replaced_prefix(tail, old, new, upto - 1);
        if upto - 1 <= tail.len() && rest.subrange(0, upto - 1) == tail.subrange(0, upto - 1) {
            assert(result.subrange(0, upto) =~= seq![text[0]] + rest.subrange(0, upto - 1));
            assert(text.subrange(0, upto) =~= seq![text[0]] + tail.subrange(0, upto - 1));
        } else {
            let (q, b) = choose|q: int, b: int|
                0 <= q < upto - 1 && 0 <= b < new.len() && rest[q] == new[b];
            assert(result[q + 1] == new[b]);
        }
    }
}

/// Where the two texts share no character and `new` is not empty, nothing
/// of `old` is left after the replacement: `old` stands nowhere in the result.
pub proof fn lemma_nothing_of_old_remains(text: Seq<char>, old: Seq<char>, new: Seq<char>)
    requires
        old.len() > 0,
        new.len() > 0,
        shares_no_character(old, new),
    ensures
        !contains(replaced(text, old, new), old),
    decreases text.len(),
{
    let result = replaced(text, old, new);
    assert forall|at: int| !occurs_at(result, old, at) by {
        if occurs_at(result, old, at) {
            let found = result.subrange(at, at + old.len());
            if text.len() < old.len() {
            } else if text.subrange(0, old.len() as int) == old {
                let tail = text.skip(old.len() as int);
                let rest = replaced(tail, old, new);
                lemma_nothing_of_old_remains(tail, old, new);
                if at < new.len() {
                    assert(found[0] == result[at]);
                    assert(result[at] == new[at]);
                    assert(old[0] == new[at]);
                } else {
                    assert(found =~= rest.subrange(at - new.len(), at - new.len() + old.len()));
                    assert(occurs_at(rest, old, at - new.len()));
                }
            } else {
                let tail = text.skip(1);
                let rest = replaced(tail, old, new);
                lemma_nothing_of_old_remains(tail, old, new);
                if at >= 1 {
                    assert(found =~= rest.subrange(at - 1, at - 1 + old.len()));
                    assert(occurs_at(rest, old, at - 1));
                } else {
                    lemma_replaced_prefix(text, old, new, old.len() as int);
                    if result.subrange(0, old.len() as int) == text.subrange(0, old.len() as int) {
                    } else {
                        let (q, b) = choose|q: int, b: int|
                            0 <= q < old.len() && 0 <= b < new.len() && result[q] == new[b];
                        assert(found[q] == result[q]);
                        assert(old[q] == new[b]);
                    }
                }
            }
        }
    }
}

/// A text in which `old` does not stand is left as it is.
pub proof fn lemma_replaced_without_old(text: Seq<char>, old: Seq<char>, new: Seq<char>)
    requires
        old.len() > 0,
        !contains(text, old),
    ensures
        replaced(text, old, new) == text,
    decreases text.len(),
{
    if text.len() >= old.len() {
        assert(!occurs_at(text, old, 0));
        let tail = text.skip(1);
        assert forall|at: int| !occurs_at(tail, old, at) by {
            if occurs_at(tail, old, at) {
                assert(tail.subrange(at, at + old.len()) =~= text.subrange(
                    at + 1,
                    at + 1 + old.len(),
                ));
                assert(occurs_at(text, old, at + 1));
            }
        }
        lemma_replaced_without_old(tail, old, new);
        assert(seq![text[0]] + tail =~= text);
    }
}

} // verus!
