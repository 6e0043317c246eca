use vstd::prelude::*;

verus! {

/// The text of `s` with every occurrence of `pat` replaced by `rep`, scanning
/// from the left and never letting two replaced occurrences overlap.
pub open spec fn replace_all(s: Seq<char>, pat: Seq<char>, rep: Seq<char>) -> Seq<char>
    decreases s.len(),
{
    if pat.len() == 0 || s.len() < pat.len() {
        s
    } else if s.subrange(0, pat.len() as int) == pat {
        rep + replace_all(s.subrange(pat.len() as int, s.len() as int), pat, rep)
    } else {
        seq![s[0]] + replace_all(s.subrange(1, s.len() as int), pat, rep)
    }
}

/// `q` stands in `s` at position `j`.
pub open spec fn occurs_at(s: Seq<char>, q: Seq<char>, j: int) -> bool {
    0 <= j && j + q.len() <= s.len() && s.subrange(j, j + q.len()) == q
}

pub open spec fn occurs_in(s: Seq<char>, q: Seq<char>) -> bool {
    exists|j: int| occurs_at(s, q, j)
}

/// No character of `q` is a character of `r`.
pub open spec fn disjoint_chars(q: Seq<char>, r: Seq<char>) -> bool {
    forall|k: int, i: int| 0 <= k < q.len() && 0 <= i < r.len() ==> q[k] != r[i]
}

pub open spec fn heart_tag() -> Seq<char> {
    "<i class=\"fa fa-heart\"></i>"@
}

pub open spec fn heart() -> Seq<char> {
    "\u{2764}\u{fe0f}"@
}

pub open spec fn strong_open() -> Seq<char> {
    "<strong>"@
}

pub open spec fn strong_close() -> Seq<char> {
    "</strong>"@
}

pub open spec fn italic_open() -> Seq<char> {
    "<i>"@
}

pub open spec fn italic_close() -> Seq<char> {
    "</i>"@
}

pub open spec fn bold_mark() -> Seq<char> {
    "**"@
}

pub open spec fn italic_mark() -> Seq<char> {
    "*"@
}

/// Inline markup rewritten as markdown: the heart icon becomes a heart glyph,
/// strong emphasis becomes `**` and italics become `*`.
pub open spec fn markdown_of(s: Seq<char>) -> Seq<char> {
    let s1 = replace_all(s, heart_tag(), heart());
    let s2 = replace_all(s1, strong_open(), bold_mark());
    let s3 = replace_all(s2, strong_close(), bold_mark());
    let s4 = replace_all(s3, italic_open(), italic_mark());
    replace_all(s4, italic_close(), italic_mark())
}

/// Whether `pat` stands in `s` at character position `i`.
fn matches_at(s: &str, n: usize, i: usize, pat: &str, m: usize) -> (r: bool)
    requires
        n == s@.len(),
        m == pat@.len(),
        i <= n,
    ensures
        r == (i + m <= n && s@.subrange(i as int, i + m) == pat@),
{
    if m > n - i {
        return false;
    }
    let mut j: usize = 0;
    while j < m
        invariant
            i + m <= n,
            n == s@.len(),
            m == pat@.len(),
            j <= m,
            forall|k: int| 0 <= k < j ==> s@[i + k] == pat@[k],
        decreases m - j,
    {
        if s.get_char(i + j) != pat.get_char(j) {
            assert(s@.subrange(i as int, i + m)[j as int] != pat@[j as int]);
            return false;
        }
        j = j + 1;
    }
    assert(s@.subrange(i as int, i + m) =~= pat@);
    true
}

/// Whether the two texts are the same.
pub fn same_text(a: &str, b: &str) -> (r: bool)
    ensures
        r == (a@ == b@),
{
    let n = a.unicode_len();
    let m = b.unicode_len();
    if n != m {
        return false;
    }
    let r = matches_at(a, n, 0, b, m);
    assert(a@.subrange(0, n as int) =~= a@);
    r
}

/// `s` with every occurrence of `pat` replaced by `rep`.
fn replace_str(s: &str, pat: &str, rep: &str) -> (r: String)
    requires
        pat@.len() > 0,
    ensures
        r@ == replace_all(s@, pat@, rep@),
{
    let n = s.unicode_len();
    let m = pat.unicode_len();
    let mut out = String::new();
    let mut i: usize = 0;
    assert(s@.subrange(0, n as int) =~= s@);
    assert(out@ + replace_all(s@, pat@, rep@) =~= replace_all(s@, pat@, rep@));
    while i < n
        invariant
            n == s@.len(),
            m == pat@.len(),
            m > 0,
            i <= n,
            out@ + replace_all(s@.subrange(i as int, n as int), pat@, rep@) == replace_all(
                s@,
                pat@,
                rep@,
            ),
        decreases n - i,
    {
        let rest = Ghost(s@.subrange(i as int, n as int));
        let before = Ghost(out@);
        if matches_at(s, n, i, pat, m) {
            assert(rest@.subrange(0, m as int) =~= pat@);
            assert(rest@.subrange(m as int, rest@.len() as int) =~= s@.subrange(i + m, n as int));
            out.append(rep);
            i = i + m;
            assert(out@ + replace_all(s@.subrange(i as int, n as int), pat@, rep@) =~= before@
                + replace_all(rest@, pat@, rep@));
        } else {
            if m <= n - i {
                assert(rest@.subrange(0, m as int) =~= s@.subrange(i as int, i + m));
            }
            assert(rest@.subrange(1, rest@.len() as int) =~= s@.subrange(i + 1, n as int));
            out.append(s.substring_char(i, i + 1));
            assert(s@.subrange(i as int, i + 1) =~= seq![rest@[0]]);
            i = i + 1;
            assert(out@ + replace_all(s@.subrange(i as int, n as int), pat@, rep@) =~= before@
                + replace_all(rest@, pat@, rep@));
        }
    }
    assert(s@.subrange(n as int, n as int) =~= Seq::<char>::empty());
    assert(out@ + Seq::<char>::empty() =~= out@);
    out
}

/// Rewrites the inline markup of `text` as markdown.
pub fn html_to_markdown(text: &str) -> (r: String)
    ensures
        r@ == markdown_of(text@),
{
    proof {
        reveal_strlit("<i class=\"fa fa-heart\"></i>");
        reveal_strlit("<strong>");
        reveal_strlit("</strong>");
        reveal_strlit("<i>");
        reveal_strlit("</i>");
    }
    let s1 = replace_str(text, "<i class=\"fa fa-heart\"></i>", "\u{2764}\u{fe0f}");
    let s2 = replace_str(s1.as_str(), "<strong>", "**");
    let s3 = replace_str(s2.as_str(), "</strong>", "**");
    let s4 = replace_str(s3.as_str(), "<i>", "*");
    replace_str(s4.as_str(), "</i>", "*")
}

/// Where the first `k` characters of a replacement's result hold no character
/// of `rep`, they are the first `k` characters of the input.
proof fn lemma_prefix_untouched(s: Seq<char>, pat: Seq<char>, rep: Seq<char>, k: int)
    requires
        pat.len() > 0,
        rep.len() > 0,
        0 <= k <= replace_all(s, pat, rep).len(),
        forall|t: int, i: int|
            0 <= t < k && 0 <= i < rep.len() ==> replace_all(s, pat, rep)[t] != rep[i],
    ensures
        k <= s.len(),
        replace_all(s, pat, rep).subrange(0, k) == s.subrange(0, k),
    decreases s.len(),
{
    let out = replace_all(s, pat, rep);
    if s.len() < pat.len() {
    } else if s.subrange(0, pat.len() as int) == pat {
        if k > 0 {
            assert(out[0] == rep[0]);
        }
        assert(out.subrange(0, k) =~= s.subrange(0, k));
    } else {
        let tail = s.subrange(1, s.len() as int);
        let t = replace_all(tail, pat, rep);
        assert(out == seq![s[0]] + t);
        if k > 0 {
            assert forall|u: int, i: int| 0 <= u < k - 1 && 0 <= i < rep.len() implies t[u]
                != rep[i] by {
                assert(out[u + 1] == t[u]);
            }
            lemma_prefix_untouched(tail, pat, rep, k - 1);
            assert forall|u: int| 0 <= u < k implies out.subrange(0, k)[u] == s.subrange(0, k)[u] by {
                if u > 0 {
                    assert(t.subrange(0, k - 1)[u - 1] == tail.subrange(0, k - 1)[u - 1]);
                }
            }
        }
        assert(out.subrange(0, k) =~= s.subrange(0, k));
    }
}

/// Replacing the occurrences of `pat` leaves none behind, when `rep` shares no
/// character with `pat`.
proof fn lemma_replaced_pattern_gone(s: Seq<char>, pat: Seq<char>, rep: Seq<char>)
    requires
        pat.len() > 0,
        rep.len() > 0,
        disjoint_chars(pat, rep),
    ensures
        !occurs_in(replace_all(s, pat, rep), pat),
    decreases s.len(),
{
    let out = replace_all(s, pat, rep);
    let m = pat.len() as int;
    if s.len() < pat.len() {
    } else if s.subrange(0, m) == pat {
        let rest = s.subrange(m, s.len() as int);
        let t = replace_all(rest, pat, rep);
        lemma_replaced_pattern_gone(rest, pat, rep);
        assert forall|j: int| !occurs_at(out, pat, j) by {
            if occurs_at(out, pat, j) {
                if j < rep.len() {
                    assert(out.subrange(j, j + m)[0] == out[j]);
                    assert(out[j] == rep[j]);
                } else {
                    assert(t.subrange(j - rep.len(), j - rep.len() + m) =~= out.subrange(j, j + m));
                    assert(occurs_at(t, pat, j - rep.len()));
                }
            }
        }
    } else {
        let tail = s.subrange(1, s.len() as int);
        let t = replace_all(tail, pat, rep);
        lemma_replaced_pattern_gone(tail, pat, rep);
        assert forall|j: int| !occurs_at(out, pat, j) by {
            if occurs_at(out, pat, j) {
                if j == 0 {
                    assert forall|u: int, i: int| 0 <= u < m - 1 && 0 <= i < rep.len() implies t[u]
                        != rep[i] by {
                        assert(out.subrange(0, m)[u + 1] == t[u]);
                    }
                    lemma_prefix_untouched(tail, pat, rep, m - 1);
                    assert forall|u: int| 0 <= u < m implies s.subrange(0, m)[u] == pat[u] by {
                        if u > 0 {
                            assert(t.subrange(0, m - 1)[u - 1] == tail.subrange(0, m - 1)[u - 1]);
                            assert(out.subrange(0, m)[u] == t[u - 1]);
                        }
                    }
                    assert(s.subrange(0, m) =~= pat);
                } else {
                    assert(t.subrange(j - 1, j - 1 + m) =~= out.subrange(j, j + m));
                    assert(occurs_at(t, pat, j - 1));
                }
            }
        }
    }
}

/// A pattern `q` absent from the input stays absent after replacing `pat` by
/// `rep`, when `rep` shares no character with `q`.
proof fn lemma_absent_stays_absent(s: Seq<char>, pat: Seq<char>, rep: Seq<char>, q: Seq<char>)
    requires
        pat.len() > 0,
        rep.len() > 0,
        q.len() > 0,
        disjoint_chars(q, rep),
        !occurs_in(s, q),
    ensures
        !occurs_in(replace_all(s, pat, rep), q),
    decreases s.len(),
{
    let out = replace_all(s, pat, rep);
    let m = pat.len() as int;
    let l = q.len() as int;
    if s.len() < pat.len() {
    } else if s.subrange(0, m) == pat {
        let rest = s.subrange(m, s.len() as int);
        let t = replace_all(rest, pat, rep);
        assert forall|j: int| !occurs_at(rest, q, j) by {
            if occurs_at(rest, q, j) {
                assert(s.subrange(j + m, j + m + l) =~= rest.subrange(j, j + l));
                assert(occurs_at(s, q, j + m));
            }
        }
        lemma_absent_stays_absent(rest, pat, rep, q);
        assert forall|j: int| !occurs_at(out, q, j) by {
            if occurs_at(out, q, j) {
                if j < rep.len() {
                    assert(out.subrange(j, j + l)[0] == out[j]);
                    assert(out[j] == rep[j]);
                } else {
                    assert(t.subrange(j - rep.len(), j - rep.len() + l) =~= out.subrange(j, j + l));
                    assert(occurs_at(t, q, j - rep.len()));
                }
            }
        }
    } else {
        let tail = s.subrange(1, s.len() as int);
        let t = replace_all(tail, pat, rep);
        assert forall|j: int| !occurs_at(tail, q, j) by {
            if occurs_at(tail, q, j) {
                assert(s.subrange(j + 1, j + 1 + l) =~= tail.subrange(j, j + l));
                assert(occurs_at(s, q, j + 1));
            }
        }
        lemma_absent_stays_absent(tail, pat, rep, q);
        assert forall|j: int| !occurs_at(out, q, j) by {
            if occurs_at(out, q, j) {
                if j == 0 {
                    assert forall|u: int, i: int| 0 <= u < l - 1 && 0 <= i < rep.len() implies t[u]
                        != rep[i] by {
                        assert(out.subrange(0, l)[u + 1] == t[u]);
                    }
                    lemma_prefix_untouched(tail, pat, rep, l - 1);
                    assert forall|u: int| 0 <= u < l implies s.subrange(0, l)[u] == q[u] by {
                        if u > 0 {
                            assert(t.subrange(0, l - 1)[u - 1] == tail.subrange(0, l - 1)[u - 1]);
                            assert(out.subrange(0, l)[u] == t[u - 1]);
                        }
                    }
                    assert(s.subrange(0, l) =~= q);
                    assert(occurs_at(s, q, 0));
                } else {
                    assert(t.subrange(j - 1, j - 1 + l) =~= out.subrange(j, j + l));
                    assert(occurs_at(t, q, j - 1));
                }
            }
        }
    }
}

/// Replacing a pattern that does not occur changes nothing.
proof fn lemma_replace_absent(s: Seq<char>, pat: Seq<char>, rep: Seq<char>)
    requires
        pat.len() > 0,
        !occurs_in(s, pat),
    ensures
        replace_all(s, pat, rep) == s,
    decreases s.len(),
{
    if s.len() < pat.len() {
    } else {
        assert(!occurs_at(s, pat, 0));
        let tail = s.subrange(1, s.len() as int);
        assert forall|j: int| !occurs_at(tail, pat, j) by {
            if occurs_at(tail, pat, j) {
                assert(s.subrange(j + 1, j + 1 + pat.len()) =~= tail.subrange(j, j + pat.len()));
                assert(occurs_at(s, pat, j + 1));
            }
        }
        lemma_replace_absent(tail, pat, rep);
        assert(seq![s[0]] + tail =~= s);
    }
}

/// The translated text holds none of the rewritten tags, so translating it
/// once more leaves it as it is.
pub proof fn lemma_markdown_settled(s: Seq<char>)
    ensures
        !occurs_in(markdown_of(s), heart_tag()),
        !occurs_in(markdown_of(s), strong_open()),
        !occurs_in(markdown_of(s), strong_close()),
        !occurs_in(markdown_of(s), italic_open()),
        !occurs_in(markdown_of(s), italic_close()),
        markdown_of(markdown_of(s)) == markdown_of(s),
{
    reveal_strlit("<i class=\"fa fa-heart\"></i>");
    reveal_strlit("\u{2764}\u{fe0f}");
    reveal_strlit("<strong>");
    reveal_strlit("</strong>");
    reveal_strlit("<i>");
    reveal_strlit("</i>");
    reveal_strlit("**");
    reveal_strlit("*");
    let tags = seq![heart_tag(), strong_open(), strong_close(), italic_open(), italic_close()];
    let reps = seq![heart(), bold_mark(), bold_mark(), italic_mark(), italic_mark()];
    assert forall|a: int, b: int| 0 <= a < 5 && 0 <= b < 5 implies disjoint_chars(
        tags[a],
        reps[b],
    ) && tags[a].len() > 0 && reps[b].len() > 0 by {}
    let s1 = replace_all(s, heart_tag(), heart());
    let s2 = replace_all(s1, strong_open(), bold_mark());
    let s3 = replace_all(s2, strong_close(), bold_mark());
    let s4 = replace_all(s3, italic_open(), italic_mark());
    let s5 = replace_all(s4, italic_close(), italic_mark());
    lemma_replaced_pattern_gone(s, heart_tag(), heart());
    lemma_absent_stays_absent(s1, strong_open(), bold_mark(), heart_tag());
    lemma_absent_stays_absent(s2, strong_close(), bold_mark(), heart_tag());
    lemma_absent_stays_absent(s3, italic_open(), italic_mark(), heart_tag());
    lemma_absent_stays_absent(s4, italic_close(), italic_mark(), heart_tag());
    lemma_replaced_pattern_gone(s1, strong_open(), bold_mark());
    lemma_absent_stays_absent(s2, strong_close(), bold_mark(), strong_open());
    lemma_absent_stays_absent(s3, italic_open(), italic_mark(), strong_open());
    lemma_absent_stays_absent(s4, italic_close(), italic_mark(), strong_open());
    lemma_replaced_pattern_gone(s2, strong_close(), bold_mark());
    lemma_absent_stays_absent(s3, italic_open(), italic_mark(), strong_close());
    lemma_absent_stays_absent(s4, italic_close(), italic_mark(), strong_close());
    lemma_replaced_pattern_gone(s3, italic_open(), italic_mark());
    lemma_absent_stays_absent(s4, italic_close(), italic_mark(), italic_open());
    lemma_replaced_pattern_gone(s4, italic_close(), italic_mark());
    lemma_replace_absent(s5, heart_tag(), heart());
    lemma_replace_absent(s5, strong_open(), bold_mark());
    lemma_replace_absent(s5, strong_close(), bold_mark());
    lemma_replace_absent(s5, italic_open(), italic_mark());
    lemma_replace_absent(s5, italic_close(), italic_mark());
}

} // verus!
