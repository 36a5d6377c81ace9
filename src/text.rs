//! Whitespace tokens of a text, and the bounded text built from a prefix of them.
use vstd::prelude::*;

verus! {

/// The default token budget for the text handed to the summariser.
pub const MAX_TOKENS: usize = 3000;

/// ASCII whitespace, as `char::is_ascii_whitespace` defines it.
pub open spec fn is_space(c: char) -> bool {
    c == ' ' || c == '\t' || c == '\n' || c == '\x0C' || c == '\r'
}

/// The maximal runs of non-space characters of `s`, in order.
pub open spec fn tokens(s: Seq<char>) -> Seq<Seq<char>>
    decreases s.len(),
{
    if s.len() == 0 {
        seq![]
    } else {
        let prev = tokens(s.drop_last());
        let c = s.last();
        if is_space(c) {
            prev
        } else if s.len() >= 2 && !is_space(s[s.len() - 2]) && prev.len() > 0 {
            prev.update(prev.len() - 1, prev.last().push(c))
        } else {
            prev.push(seq![c])
        }
    }
}

/// The pieces joined with single spaces.
pub open spec fn join_spaced(ts: Seq<Seq<char>>) -> Seq<char>
    decreases ts.len(),
{
    if ts.len() == 0 {
        seq![]
    } else if ts.len() == 1 {
        ts[0]
    } else {
        join_spaced(ts.drop_last()) + seq![' '] + ts.last()
    }
}

/// The first `n` tokens of `s` (all of them when there are fewer).
pub open spec fn first_tokens(s: Seq<char>, n: nat) -> Seq<Seq<char>> {
    if tokens(s).len() <= n {
        tokens(s)
    } else {
        tokens(s).take(n as int)
    }
}

/// The bounded text: the first `n` tokens of `s`, joined with single spaces.
pub open spec fn bounded(s: Seq<char>, n: nat) -> Seq<char> {
    join_spaced(first_tokens(s, n))
}

/// A word: non-empty, with no space in it.
pub open spec fn is_word(w: Seq<char>) -> bool {
    w.len() > 0 && forall|j: int| 0 <= j < w.len() ==> !is_space(#[trigger] w[j])
}

/// Relies on `String::push`: the character is appended.
#[verifier::external_body]
fn push_char(s: &mut String, c: char)
    ensures
        final(s)@ == old(s)@.push(c),
{
    s.push(c)
}

proof fn lemma_join_extend_last(ts: Seq<Seq<char>>, c: char)
    requires
        ts.len() > 0,
    ensures
        join_spaced(ts.update(ts.len() - 1, ts.last().push(c))) == join_spaced(ts).push(c),
    decreases ts.len(),
{
    let us = ts.update(ts.len() - 1, ts.last().push(c));
    if ts.len() == 1 {
        assert(join_spaced(us) == us[0]);
    } else {
        assert(us.drop_last() =~= ts.drop_last());
        assert(join_spaced(us) == join_spaced(us.drop_last()) + seq![' '] + us.last());
        assert(join_spaced(us) =~= join_spaced(ts).push(c));
    }
}

pub(crate) proof fn lemma_join_push(ts: Seq<Seq<char>>, w: Seq<char>)
    ensures
        join_spaced(ts.push(w)) == if ts.len() == 0 {
            w
        } else {
            join_spaced(ts) + seq![' '] + w
        },
{
    assert(ts.push(w).drop_last() =~= ts);
}

fn is_ascii_space(c: char) -> (b: bool)
    ensures
        b == is_space(c),
{
    c == ' ' || c == '\t' || c == '\n' || c == '\x0C' || c == '\r'
}

/// Keeps the first `max_tokens` whitespace-separated tokens of `text`, in
/// order, and joins them with single spaces.
pub fn bound(text: &str, max_tokens: usize) -> (r: String)
    ensures
        r@ == bounded(text@, max_tokens as nat),
{
    let mut out = String::new();
    let mut count: usize = 0;
    let mut full = false;
    let mut after_space = true;
    let ghost n = max_tokens as nat;
    let ghost s = text@;
    let ghost mut k: int = 0;
    for c in it: text.chars()
        invariant
            s == text@,
            it.seq() == s,
            k == it.index(),
            n == max_tokens,
            0 <= k <= s.len(),
            full == (tokens(s.take(k as int)).len() > n),
            count as nat == if full {
                n
            } else {
                tokens(s.take(k as int)).len()
            },
            out@ == join_spaced(tokens(s.take(k as int)).take(count as int)),
            after_space == (k == 0 || is_space(s[k - 1])),
    {
        let ghost t = tokens(s.take(k as int));
        let ghost t2 = tokens(s.take(k + 1));
        proof {
            assert(s.take(k + 1).drop_last() =~= s.take(k as int));
            assert(s.take(k + 1).last() == c);
            if k > 0 {
                assert(s.take(k + 1)[k - 1] == s[k - 1]);
            }
        }
        if is_ascii_space(c) {
            after_space = true;
            assert(t2 == t);
        } else if !after_space {
            proof {
                assert(t2 == t.update(t.len() - 1, t.last().push(c)));
            }
            if !full {
                proof {
                    assert(t.take(count as int) =~= t);
                    assert(t2.take(count as int) =~= t2);
                    lemma_join_extend_last(t, c);
                }
                push_char(&mut out, c);
            } else {
                assert(t2.take(count as int) =~= t.take(count as int));
            }
        } else {
            proof {
                assert(t2 == t.push(seq![c]));
            }
            if !full && count < max_tokens {
                proof {
                    assert(t.take(count as int) =~= t);
                    assert(t2.take(count + 1) =~= t2);
                    lemma_join_push(t, seq![c]);
                }
                if count > 0 {
                    proof {
                        reveal_strlit(" ");
                    }
                    out.append(" ");
                    assert(out@ == join_spaced(t) + seq![' ']);
                }
                push_char(&mut out, c);
                count = count + 1;
            } else {
                assert(t2.take(count as int) =~= t.take(count as int));
                full = true;
            }
            after_space = false;
        }
        proof {
            k = k + 1;
        }
    }
    proof {
        assert(s.take(s.len() as int) =~= s);
        if !full {
            assert(tokens(s).take(count as int) =~= tokens(s));
        }
    }
    out
}

proof fn lemma_tokens_are_words(s: Seq<char>)
    ensures
        forall|i: int| 0 <= i < tokens(s).len() ==> is_word(#[trigger] tokens(s)[i]),
    decreases s.len(),
{
    if s.len() > 0 {
        lemma_tokens_are_words(s.drop_last());
        let prev = tokens(s.drop_last());
        let c = s.last();
        if is_space(c) {
        } else if s.len() >= 2 && !is_space(s[s.len() - 2]) && prev.len() > 0 {
            let w = prev.last().push(c);
            assert(is_word(prev[prev.len() - 1]));
            assert forall|j: int| 0 <= j < w.len() implies !is_space(#[trigger] w[j]) by {
                if j < w.len() - 1 {
                    assert(w[j] == prev[prev.len() - 1][j]);
                }
            }
            assert forall|i: int| 0 <= i < tokens(s).len() implies is_word(#[trigger] tokens(s)[i]) by {
                if i < prev.len() - 1 {
                    assert(tokens(s)[i] == prev[i]);
                }
            }
        } else {
            let w = seq![c];
            assert(is_word(w));
            assert forall|i: int| 0 <= i < tokens(s).len() implies is_word(#[trigger] tokens(s)[i]) by {
                if i < prev.len() {
                    assert(tokens(s)[i] == prev[i]);
                }
            }
        }
    }
}

proof fn lemma_tokens_extend(p: Seq<char>, w: Seq<char>)
    requires
        p.len() == 0 || is_space(p.last()),
        is_word(w),
    ensures
        tokens(p + w) == tokens(p).push(w),
    decreases w.len(),
{
    let s = p + w;
    if w.len() == 1 {
        assert(s.drop_last() =~= p);
        assert(s.last() == w[0]);
        if s.len() >= 2 {
            assert(s[s.len() - 2] == p.last());
        }
        assert(seq![w[0]] =~= w);
    } else {
        let v = w.drop_last();
        assert(is_word(v)) by {
            assert forall|j: int| 0 <= j < v.len() implies !is_space(#[trigger] v[j]) by {
                assert(v[j] == w[j]);
            }
        }
        lemma_tokens_extend(p, v);
        assert(s.drop_last() =~= p + v);
        assert(s[s.len() - 2] == w[w.len() - 2]);
        assert(s.last() == w.last());
        let prev = tokens(p).push(v);
        assert(prev.update(prev.len() - 1, prev.last().push(w.last())) =~= tokens(p).push(w)) by {
            assert(v.push(w.last()) =~= w);
        }
    }
}

proof fn lemma_tokens_of_join(ts: Seq<Seq<char>>)
    requires
        forall|i: int| 0 <= i < ts.len() ==> is_word(#[trigger] ts[i]),
    ensures
        tokens(join_spaced(ts)) == ts,
    decreases ts.len(),
{
    if ts.len() == 0 {
        assert(tokens(join_spaced(ts)) =~= ts);
    } else if ts.len() == 1 {
        let e: Seq<char> = seq![];
        assert(e + ts[0] =~= ts[0]);
        lemma_tokens_extend(e, ts[0]);
        assert(tokens(e).push(ts[0]) =~= ts);
    } else {
        let init = ts.drop_last();
        assert forall|i: int| 0 <= i < init.len() implies is_word(#[trigger] init[i]) by {
            assert(init[i] == ts[i]);
        }
        lemma_tokens_of_join(init);
        let p = join_spaced(init) + seq![' '];
        assert(p.drop_last() =~= join_spaced(init));
        assert(tokens(p) == tokens(join_spaced(init)));
        assert(is_word(ts[ts.len() - 1]));
        lemma_tokens_extend(p, ts.last());
        assert(init.push(ts.last()) =~= ts);
    }
}

/// The bounded text has exactly `min(k, n)` tokens, where `k` is the token
/// count of the input, and they are the input's first tokens in their order.
pub proof fn lemma_bound_keeps_first_tokens(t: Seq<char>, n: nat)
    ensures
        tokens(bounded(t, n)).len() == if tokens(t).len() <= n {
            tokens(t).len()
        } else {
            n
        },
        forall|i: int|
            0 <= i < tokens(bounded(t, n)).len() ==> #[trigger] tokens(bounded(t, n))[i]
                == tokens(t)[i],
{
    lemma_tokens_are_words(t);
    let f = first_tokens(t, n);
    assert forall|i: int| 0 <= i < f.len() implies is_word(#[trigger] f[i]) by {
        assert(f[i] == tokens(t)[i]);
    }
    lemma_tokens_of_join(f);
}

/// Bounding is idempotent: bounding an already bounded text to the same
/// budget gives it back unchanged.
pub proof fn lemma_bound_idempotent(t: Seq<char>, n: nat)
    ensures
        bounded(bounded(t, n), n) == bounded(t, n),
{
    lemma_bound_keeps_first_tokens(t, n);
    lemma_tokens_are_words(t);
    let f = first_tokens(t, n);
    assert forall|i: int| 0 <= i < f.len() implies is_word(#[trigger] f[i]) by {
        assert(f[i] == tokens(t)[i]);
    }
    lemma_tokens_of_join(f);
    assert(first_tokens(bounded(t, n), n) == f);
}

} // verus!
