//! Character-sequence helpers: literal substring replacement and
//! zero-padded decimal rendering.
use vstd::prelude::*;

verus! {

/// `pat` occurs in `s` starting at index `i`.
pub open spec fn occurs_at(s: Seq<char>, pat: Seq<char>, i: int) -> bool {
    0 <= i && i + pat.len() <= s.len() && s.subrange(i, i + pat.len()) == pat
}

/// `pat` occurs somewhere in `s`.
pub open spec fn occurs_in(s: Seq<char>, pat: Seq<char>) -> bool {
    exists|i: int| occurs_at(s, pat, i)
}

/// Scans `s` from the left; every non-overlapping occurrence of a non-empty
/// `pat` is replaced by `rep`. An empty `pat` leaves `s` as it is.
pub open spec fn replaced(s: Seq<char>, pat: Seq<char>, rep: Seq<char>) -> Seq<char>
    decreases s.len(),
{
    if s.len() == 0 {
        s
    } else if pat.len() > 0 && occurs_at(s, pat, 0) {
        rep + replaced(s.skip(pat.len() as int), pat, rep)
    } else {
        seq![s[0]] + replaced(s.skip(1), pat, rep)
    }
}

/// `c` is not among the characters of `s`.
pub open spec fn lacks_char(s: Seq<char>, c: char) -> bool {
    forall|i: int| 0 <= i < s.len() ==> s[i] != c
}

/// Replacing an empty pattern, or one that does not occur, changes nothing.
pub proof fn lemma_replaced_absent(s: Seq<char>, pat: Seq<char>, rep: Seq<char>)
    requires
        pat.len() == 0 || !occurs_in(s, pat),
    ensures
        replaced(s, pat, rep) == s,
    decreases s.len(),
{
    if s.len() > 0 {
        let rest = s.skip(1);
        assert(pat.len() == 0 || !occurs_at(s, pat, 0));
        assert forall|i: int| pat.len() > 0 implies !occurs_at(rest, pat, i) by {
            if occurs_at(rest, pat, i) {
                assert(s.subrange(i + 1, i + 1 + pat.len()) =~= rest.subrange(i, i + pat.len()));
                assert(occurs_at(s, pat, i + 1));
            }
        }
        lemma_replaced_absent(rest, pat, rep);
        assert(seq![s[0]] + rest =~= s);
    }
}

/// Wherever a non-empty pattern occurred, the replacement occurs in the output.
pub proof fn lemma_replaced_inserts(s: Seq<char>, pat: Seq<char>, rep: Seq<char>)
    requires
        pat.len() > 0,
        occurs_in(s, pat),
    ensures
        occurs_in(replaced(s, pat, rep), rep),
    decreases s.len(),
{
    let r = replaced(s, pat, rep);
    if occurs_at(s, pat, 0) {
        assert(r.subrange(0, rep.len() as int) =~= rep);
        assert(occurs_at(r, rep, 0));
    } else {
        let p = choose|p: int| occurs_at(s, pat, p);
        let rest = s.skip(1);
        assert(rest.subrange(p - 1, p - 1 + pat.len()) =~= s.subrange(p, p + pat.len()));
        assert(occurs_at(rest, pat, p - 1));
        lemma_replaced_inserts(rest, pat, rep);
        let t = replaced(rest, pat, rep);
        let q = choose|q: int| occurs_at(t, rep, q);
        assert(r == seq![s[0]] + t);
        assert(r.subrange(q + 1, q + 1 + rep.len()) =~= t.subrange(q, q + rep.len()));
        assert(occurs_at(r, rep, q + 1));
    }
}

/// As long as no character `rep[0]` has been written yet, the output of
/// `replaced` is a copy of its input.
pub proof fn lemma_replaced_prefix(s: Seq<char>, pat: Seq<char>, rep: Seq<char>, k: int)
    requires
        pat.len() > 0,
        rep.len() > 0,
        0 <= k <= replaced(s, pat, rep).len(),
        lacks_char(replaced(s, pat, rep).take(k), rep[0]),
    ensures
        k <= s.len(),
        replaced(s, pat, rep).take(k) == s.take(k),
    decreases s.len(),
{
    let r = replaced(s, pat, rep);
    if k > 0 {
        assert(r.take(k)[0] == r[0]);
        if s.len() > 0 && !occurs_at(s, pat, 0) {
            let rest = s.skip(1);
            let t = replaced(rest, pat, rep);
            assert(r == seq![s[0]] + t);
            assert forall|j: int| 0 <= j < k - 1 implies #[trigger] t.take(k - 1)[j] != rep[0] by {
                assert(t.take(k - 1)[j] == r.take(k)[j + 1]);
            }
            lemma_replaced_prefix(rest, pat, rep, k - 1);
            assert(r.take(k) =~= seq![s[0]] + t.take(k - 1));
            assert(s.take(k) =~= seq![s[0]] + rest.take(k - 1));
        }
    } else {
        assert(r.take(0) =~= s.take(0));
    }
}

/// Where `s` holds no `rep[0]`, undoing the replacement gives `s` back.
pub proof fn lemma_replaced_undone(s: Seq<char>, pat: Seq<char>, rep: Seq<char>)
    requires
        pat.len() > 0,
        rep.len() > 0,
        lacks_char(s, rep[0]),
    ensures
        replaced(replaced(s, pat, rep), rep, pat) == s,
    decreases s.len(),
{
    if s.len() > 0 {
        if occurs_at(s, pat, 0) {
            let rest = s.skip(pat.len() as int);
            assert forall|i: int| 0 <= i < rest.len() implies rest[i] != rep[0] by {
                assert(rest[i] == s[i + pat.len()]);
            }
            lemma_replaced_undone(rest, pat, rep);
            let r = rep + replaced(rest, pat, rep);
            assert(r.subrange(0, rep.len() as int) =~= rep);
            assert(r.skip(rep.len() as int) =~= replaced(rest, pat, rep));
            assert(s.subrange(0, pat.len() as int) == pat);
            assert(pat + rest =~= s);
        } else {
            let rest = s.skip(1);
            assert forall|i: int| 0 <= i < rest.len() implies rest[i] != rep[0] by {
                assert(rest[i] == s[i + 1]);
            }
            lemma_replaced_undone(rest, pat, rep);
            let r = seq![s[0]] + replaced(rest, pat, rep);
            assert(r[0] == s[0]);
            assert(!occurs_at(r, rep, 0)) by {
                if occurs_at(r, rep, 0) {
                    assert(r.subrange(0, rep.len() as int)[0] == r[0]);
                }
            }
            assert(r.skip(1) =~= replaced(rest, pat, rep));
            assert(seq![s[0]] + rest =~= s);
        }
    }
}

/// Where `rep` begins and ends with the same character, which the pattern
/// lacks, and the pattern does not occur in `rep`, the pattern is nowhere in
/// the output.
pub proof fn lemma_replaced_removes(s: Seq<char>, pat: Seq<char>, rep: Seq<char>)
    requires
        pat.len() > 0,
        rep.len() > 0,
        rep.last() == rep[0],
        lacks_char(pat, rep[0]),
        !occurs_in(rep, pat),
    ensures
        !occurs_in(replaced(s, pat, rep), pat),
    decreases s.len(),
{
    let r = replaced(s, pat, rep);
    if s.len() > 0 {
        if occurs_at(s, pat, 0) {
            let rest = s.skip(pat.len() as int);
            lemma_replaced_removes(rest, pat, rep);
            let t = replaced(rest, pat, rep);
            assert(r == rep + t);
            assert forall|p: int| !occurs_at(r, pat, p) by {
                if occurs_at(r, pat, p) {
                    if p + pat.len() <= rep.len() {
                        assert(rep.subrange(p, p + pat.len()) =~= r.subrange(p, p + pat.len()));
                        assert(occurs_at(rep, pat, p));
                    } else if p < rep.len() {
                        let j = rep.len() - 1 - p;
                        assert(pat[j] == r.subrange(p, p + pat.len())[j]);
                        assert(r[rep.len() - 1] == rep.last());
                    } else {
                        assert(t.subrange(p - rep.len(), p - rep.len() + pat.len())
                            =~= r.subrange(p, p + pat.len()));
                        assert(occurs_at(t, pat, p - rep.len()));
                    }
                }
            }
        } else {
            let rest = s.skip(1);
            lemma_replaced_removes(rest, pat, rep);
            let t = replaced(rest, pat, rep);
            assert(r == seq![s[0]] + t);
            assert forall|p: int| !occurs_at(r, pat, p) by {
                if occurs_at(r, pat, p) {
                    if p >= 1 {
                        assert(t.subrange(p - 1, p - 1 + pat.len()) =~= r.subrange(p, p + pat.len()));
                        assert(occurs_at(t, pat, p - 1));
                    } else {
                        let k = pat.len() - 1;
                        assert forall|j: int| 0 <= j < k implies #[trigger] t.take(k)[j] != rep[0] by {
                            assert(t.take(k)[j] == pat[j + 1]);
                        }
                        lemma_replaced_prefix(rest, pat, rep, k);
                        assert(s.subrange(0, pat.len() as int) =~= seq![s[0]] + rest.take(k));
                        assert(r.subrange(0, pat.len() as int) =~= seq![s[0]] + t.take(k));
                    }
                }
            }
        }
    }
}

/// Whether `pat` occurs in `s` at character index `i`.
fn occurs_at_exec(s: &str, pat: &str, i: usize, s_len: usize, pat_len: usize) -> (r: bool)
    requires
        s_len == s@.len(),
        pat_len == pat@.len(),
        i <= s_len,
    ensures
        r == occurs_at(s@, pat@, i as int),
{
    if pat_len > s_len - i {
        return false;
    }
    let window = String::from_str(s.substring_char(i, i + pat_len));
    let whole = String::from_str(pat);
    let r = window == whole;
    r
}

/// Replaces, left to right, every non-overlapping occurrence of `pat` in `s`
/// by `rep`.
pub fn replace_all(s: &str, pat: &str, rep: &str) -> (r: String)
    ensures
        r@ == replaced(s@, pat@, rep@),
{
    let s_len = s.unicode_len();
    let pat_len = pat.unicode_len();
    let mut out = String::new();
    let mut i: usize = 0;
    proof {
        assert(s@.skip(0) =~= s@);
        assert(out@ + replaced(s@, pat@, rep@) =~= replaced(s@, pat@, rep@));
    }
    while i < s_len
        invariant
            s_len == s@.len(),
            pat_len == pat@.len(),
            i <= s_len,
            out@ + replaced(s@.skip(i as int), pat@, rep@) == replaced(s@, pat@, rep@),
        decreases s_len - i,
    {
        let ghost rest = s@.skip(i as int);
        if pat_len > 0 && occurs_at_exec(s, pat, i, s_len, pat_len) {
            proof {
                assert(rest.subrange(0, pat_len as int) =~= s@.subrange(i as int, i + pat_len));
                assert(rest.skip(pat_len as int) =~= s@.skip(i + pat_len));
                assert(out@ + rep@ + replaced(s@.skip(i + pat_len), pat@, rep@) =~= out@ + (rep@
                    + replaced(rest.skip(pat_len as int), pat@, rep@)));
            }
            out.append(rep);
            i = i + pat_len;
        } else {
            proof {
                if pat_len > 0 && occurs_at(rest, pat@, 0) {
                    assert(rest.subrange(0, pat_len as int) =~= s@.subrange(i as int, i + pat_len));
                }
                assert(rest.skip(1) =~= s@.skip(i + 1));
            }
            let one = s.substring_char(i, i + 1);
            proof {
                assert(one@ =~= seq![rest[0]]);
                assert(out@ + one@ + replaced(s@.skip(i + 1), pat@, rep@) =~= out@ + (seq![rest[0]]
                    + replaced(rest.skip(1), pat@, rep@)));
            }
            out.append(one);
            i = i + 1;
        }
    }
    proof {
        assert(s@.skip(i as int) =~= Seq::<char>::empty());
        assert(out@ + Seq::<char>::empty() =~= out@);
    }
    out
}

/// The character of a decimal digit.
pub open spec fn digit_char(d: nat) -> char {
    seq!['0', '1', '2', '3', '4', '5', '6', '7', '8', '9'][d as int]
}

/// Decimal rendering of `n`, without leading zeros.
pub open spec fn decimal(n: nat) -> Seq<char>
    decreases n,
{
    if n < 10 {
        seq![digit_char(n)]
    } else {
        decimal(n / 10) + seq![digit_char(n % 10)]
    }
}

/// Decimal rendering of `n`, zero-padded to at least two digits.
pub open spec fn two_digits(n: nat) -> Seq<char> {
    if n < 10 {
        seq!['0'] + decimal(n)
    } else {
        decimal(n)
    }
}

/// Appends the decimal rendering of `n` to `out`.
pub fn append_decimal(out: &mut String, n: u32)
    ensures
        final(out)@ == old(out)@ + decimal(n as nat),
    decreases n,
{
    if n >= 10 {
        append_decimal(out, n / 10);
    }
    let digits = "0123456789";
    proof {
        reveal_strlit("0123456789");
        assert(digits@ =~= seq!['0', '1', '2', '3', '4', '5', '6', '7', '8', '9']);
    }
    let d: usize = (n % 10) as usize;
    let one = digits.substring_char(d, d + 1);
    proof {
        assert(one@ =~= seq![digit_char((n % 10) as nat)]);
    }
    out.append(one);
}

/// Appends the decimal rendering of `n`, zero-padded to two digits, to `out`.
pub fn append_two_digits(out: &mut String, n: u32)
    ensures
        final(out)@ == old(out)@ + two_digits(n as nat),
{
    if n < 10 {
        out.append("0");
        proof {
            reveal_strlit("0");
        }
    }
    append_decimal(out, n);
    assert(out@ =~= old(out)@ + two_digits(n as nat));
}

} // verus!
