//! Verified text utilities: string concatenation and literal substring
//! replacement, the operation behind the manifest rewrite.

use vstd::prelude::*;
use vstd::string::*;

verus! {

/// `text` with every literal occurrence of `pat` replaced by `repl`,
/// scanning left to right; replaced text is never rescanned. An empty
/// pattern leaves the text unchanged.
pub open spec fn replace_all(text: Seq<char>, pat: Seq<char>, repl: Seq<char>) -> Seq<char>
    decreases text.len(),
{
    if pat.len() == 0 || text.len() < pat.len() {
        text
    } else if text.take(pat.len() as int) == pat {
        repl + replace_all(text.skip(pat.len() as int), pat, repl)
    } else {
        seq![text[0]] + replace_all(text.skip(1), pat, repl)
    }
}

/// Whether `pat` occurs as a contiguous subsequence of `text`.
pub open spec fn occurs_in(text: Seq<char>, pat: Seq<char>) -> bool {
    exists|i: int|
        0 <= i && i + pat.len() <= text.len() && #[trigger] text.subrange(i, i + pat.len() as int)
            == pat
}

/// Replacement is a no-op on text in which the pattern does not occur.
pub proof fn lemma_replace_all_absent(text: Seq<char>, pat: Seq<char>, repl: Seq<char>)
    requires
        !occurs_in(text, pat),
    ensures
        replace_all(text, pat, repl) == text,
    decreases text.len(),
{
    if pat.len() == 0 || text.len() < pat.len() {
    } else {
        assert(text.take(pat.len() as int) != pat) by {
            if text.take(pat.len() as int) == pat {
                assert(text.subrange(0, 0 + pat.len() as int) =~= text.take(pat.len() as int));
                assert(occurs_in(text, pat));
            }
        }
        assert(!occurs_in(text.skip(1), pat)) by {
            if occurs_in(text.skip(1), pat) {
                let i = choose|i: int|
                    0 <= i && i + pat.len() <= text.skip(1).len() && #[trigger] text.skip(
                        1,
                    ).subrange(i, i + pat.len() as int) == pat;
                assert(text.subrange(i + 1, i + 1 + pat.len() as int) =~= text.skip(1).subrange(
                    i,
                    i + pat.len() as int,
                ));
            }
        }
        lemma_replace_all_absent(text.skip(1), pat, repl);
        assert(seq![text[0]] + text.skip(1) =~= text);
    }
}

fn matches_at(text: &str, i: usize, pat: &str) -> (b: bool)
    requires
        i + pat@.len() <= text@.len(),
        text@.len() <= usize::MAX,
    ensures
        b == (text@.subrange(i as int, i + pat@.len()) == pat@),
{
    let pat_len = pat.unicode_len();
    let mut j: usize = 0;
    while j < pat_len
        invariant
            pat_len == pat@.len(),
            i + pat@.len() <= text@.len(),
            text@.len() <= usize::MAX,
            j <= pat_len,
            forall|k: int| 0 <= k < j ==> text@[i + k] == pat@[k],
        decreases pat_len - j,
    {
        let tc = text.get_char(i + j);
        let pc = pat.get_char(j);
        if tc != pc {
            proof {
                assert(text@.subrange(i as int, i + pat@.len())[j as int] == text@[i + j]);
            }
            return false;
        }
        j = j + 1;
    }
    proof {
        assert(text@.subrange(i as int, i + pat@.len()) =~= pat@);
    }
    true
}

/// Executable counterpart of `replace_all` for a non-empty pattern.
pub fn replace_all_str(text: &str, pat: &str, repl: &str) -> (r: String)
    requires
        pat@.len() >= 1,
    ensures
        r@ == replace_all(text@, pat@, repl@),
{
    let text_len = text.unicode_len();
    let pat_len = pat.unicode_len();
    let mut r = String::new();
    let mut i: usize = 0;
    proof {
        assert(text@.skip(0) =~= text@);
        assert(Seq::<char>::empty() + replace_all(text@, pat@, repl@) =~= replace_all(
            text@,
            pat@,
            repl@,
        ));
    }
    while i < text_len
        invariant
            text_len == text@.len(),
            pat_len == pat@.len(),
            pat_len >= 1,
            i <= text_len,
            r@ + replace_all(text@.skip(i as int), pat@, repl@) == replace_all(
                text@,
                pat@,
                repl@,
            ),
        decreases text_len - i,
    {
        let ghost tail = text@.skip(i as int);
        let ghost r_old = r@;
        if pat_len <= text_len - i && matches_at(text, i, pat) {
            r.append(repl);
            proof {
                assert(tail.take(pat@.len() as int) =~= text@.subrange(i as int, i + pat@.len()));
                assert(replace_all(tail, pat@, repl@) == repl@ + replace_all(
                    tail.skip(pat@.len() as int),
                    pat@,
                    repl@,
                ));
                assert(tail.skip(pat@.len() as int) =~= text@.skip(i + pat@.len()));
                assert((r_old + repl@) + replace_all(text@.skip(i + pat@.len()), pat@, repl@)
                    =~= r_old + (repl@ + replace_all(text@.skip(i + pat@.len()), pat@, repl@)));
            }
            i = i + pat_len;
        } else {
            let c = text.substring_char(i, i + 1);
            r.append(c);
            proof {
                assert(tail[0] == text@[i as int]);
                assert(seq![tail[0]] =~= text@.subrange(i as int, i + 1));
                assert(tail.skip(1) =~= text@.skip(i + 1));
                if tail.len() < pat@.len() {
                    // the remaining text is shorter than the pattern: it is
                    // kept as it is, one character at a time
                    assert(replace_all(tail, pat@, repl@) == tail);
                    assert(replace_all(tail.skip(1), pat@, repl@) == tail.skip(1));
                    assert(tail =~= text@.subrange(i as int, i + 1) + tail.skip(1));
                } else {
                    assert(tail.take(pat@.len() as int) =~= text@.subrange(
                        i as int,
                        i + pat@.len(),
                    ));
                    assert(replace_all(tail, pat@, repl@) == seq![tail[0]] + replace_all(
                        tail.skip(1),
                        pat@,
                        repl@,
                    ));
                }
                assert((r_old + text@.subrange(i as int, i + 1)) + replace_all(
                    text@.skip(i + 1),
                    pat@,
                    repl@,
                ) =~= r_old + (text@.subrange(i as int, i + 1) + replace_all(
                    text@.skip(i + 1),
                    pat@,
                    repl@,
                )));
            }
            i = i + 1;
        }
    }
    proof {
        assert(text@.skip(text_len as int) =~= Seq::<char>::empty());
        assert(r@ + Seq::<char>::empty() =~= r@);
    }
    r
}

/// The concatenation of two string slices.
pub fn concat2(a: &str, b: &str) -> (r: String)
    ensures
        r@ == a@ + b@,
{
    let mut r = a.to_owned();
    r.append(b);
    r
}

/// The concatenation of three string slices.
pub fn concat3(a: &str, b: &str, c: &str) -> (r: String)
    ensures
        r@ == a@ + b@ + c@,
{
    let mut r = a.to_owned();
    r.append(b);
    r.append(c);
    r
}

} // verus!
