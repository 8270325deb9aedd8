//! Rendering of statement text: separator-joined lists and the display
//! form in which every single-quoted span is elided.

use vstd::prelude::*;

verus! {

/// The separator-joined concatenation of `parts`, in the order given:
/// how a list of permission verbs or table names reads in a statement.
pub open spec fn join_with(parts: Seq<Seq<char>>, sep: Seq<char>) -> Seq<char>
    decreases parts.len(),
{
    if parts.len() == 0 {
        Seq::empty()
    } else if parts.len() == 1 {
        parts[0]
    } else {
        parts[0] + sep + join_with(parts.drop_first(), sep)
    }
}

pub proof fn lemma_join_with_push(parts: Seq<Seq<char>>, sep: Seq<char>, last: Seq<char>)
    ensures
        parts.len() == 0 ==> join_with(parts.push(last), sep) == last,
        parts.len() > 0 ==> join_with(parts.push(last), sep) == join_with(parts, sep) + sep
            + last,
    decreases parts.len(),
{
    if parts.len() == 0 {
        assert(parts.push(last)[0] == last);
    } else if parts.len() == 1 {
        let p = parts.push(last);
        assert(p.drop_first() =~= seq![last]);
        assert(join_with(seq![last], sep) == last);
        assert(join_with(p, sep) == p[0] + sep + last);
    } else {
        lemma_join_with_push(parts.drop_first(), sep, last);
        assert(parts.push(last).drop_first() =~= parts.drop_first().push(last));
        assert(join_with(parts.push(last), sep) =~= join_with(parts, sep) + sep + last);
    }
}

/// Joins `parts` with `sep`, preserving the caller-supplied order.
pub fn join(parts: &Vec<String>, sep: &str) -> (r: String)
    ensures
        r@ == join_with(parts.deep_view(), sep@),
{
    let mut out = String::new();
    let mut i: usize = 0;
    while i < parts.len()
        invariant
            i <= parts.len(),
            out@ == join_with(parts.deep_view().take(i as int), sep@),
        decreases parts.len() - i,
    {
        if i > 0 {
            out.append(sep);
        }
        out.append(parts[i].as_str());
        proof {
            let pv = parts.deep_view();
            assert(pv[i as int] == parts@[i as int]@);
            lemma_join_with_push(pv.take(i as int), sep@, pv[i as int]);
            assert(pv.take(i as int).push(pv[i as int]) =~= pv.take(i as int + 1));
        }
        i = i + 1;
    }
    proof {
        assert(parts.deep_view().take(parts.len() as int) =~= parts.deep_view());
    }
    out
}

/// The display form of a piece of SQL, scanned left to right: outside a
/// single-quoted span characters pass through; an opening quote renders
/// as `'...'` and everything up to and including the closing quote is
/// elided. `in_quote` says whether the scan starts inside a span.
pub open spec fn redact(s: Seq<char>, in_quote: bool) -> Seq<char>
    decreases s.len(),
{
    if s.len() == 0 {
        Seq::empty()
    } else {
        let rest = s.drop_first();
        if s[0] == '\'' && !in_quote {
            "'...'"@ + redact(rest, true)
        } else if s[0] == '\'' {
            redact(rest, false)
        } else if in_quote {
            redact(rest, true)
        } else {
            seq![s[0]] + redact(rest, false)
        }
    }
}

/// Relies on std's String::push: appends exactly one character.
#[verifier::external_body]
fn push_char(s: &mut String, c: char)
    ensures
        final(s)@ == old(s)@ + seq![c],
{
    s.push(c);
}

/// Renders `sql` for display with every single-quoted span elided.
pub fn redact_text(sql: &str) -> (r: String)
    ensures
        r@ == redact(sql@, false),
{
    let n = sql.unicode_len();
    let mut out = String::new();
    let mut in_quote = false;
    let mut i: usize = 0;
    proof {
        assert(sql@.skip(0) =~= sql@);
        assert(Seq::<char>::empty() + redact(sql@, false) =~= redact(sql@, false));
    }
    while i < n
        invariant
            n == sql@.len(),
            i <= n,
            redact(sql@, false) == out@ + redact(sql@.skip(i as int), in_quote),
        decreases n - i,
    {
        let c = sql.get_char(i);
        proof {
            assert(sql@.skip(i as int)[0] == sql@[i as int]);
            assert(sql@.skip(i as int).drop_first() =~= sql@.skip(i as int + 1));
        }
        if c == '\'' && !in_quote {
            proof {
                let tail = redact(sql@.skip(i as int + 1), true);
                assert(out@ + ("'...'"@ + tail) =~= (out@ + "'...'"@) + tail);
            }
            in_quote = true;
            out.append("'...'");
        } else if c == '\'' {
            in_quote = false;
        } else if in_quote {
            // the span's contents are elided
        } else {
            proof {
                let tail = redact(sql@.skip(i as int + 1), false);
                assert(out@ + (seq![sql@[i as int]] + tail) =~= (out@ + seq![sql@[i as int]])
                    + tail);
            }
            push_char(&mut out, c);
        }
        i = i + 1;
    }
    proof {
        assert(sql@.skip(n as int) =~= Seq::<char>::empty());
    }
    out
}

/// Whether no character of `s` is a single quote, so that `s` can
/// neither open nor close a quoted span.
pub open spec fn quote_free(s: Seq<char>) -> bool
    decreases s.len(),
{
    s.len() == 0 || (s[0] != '\'' && quote_free(s.drop_first()))
}

pub proof fn lemma_quote_free_concat(a: Seq<char>, b: Seq<char>)
    requires
        quote_free(a),
        quote_free(b),
    ensures
        quote_free(a + b),
    decreases a.len(),
{
    if a.len() == 0 {
        assert(a + b =~= b);
    } else {
        lemma_quote_free_concat(a.drop_first(), b);
        assert((a + b).drop_first() =~= a.drop_first() + b);
        assert((a + b)[0] == a[0]);
    }
}

pub proof fn lemma_redact_unquoted(s: Seq<char>, rest: Seq<char>)
    requires
        quote_free(s),
    ensures
        redact(s + rest, false) == s + redact(rest, false),
    decreases s.len(),
{
    if s.len() == 0 {
        assert(s + rest =~= rest);
        assert(s + redact(rest, false) =~= redact(rest, false));
    } else {
        lemma_redact_unquoted(s.drop_first(), rest);
        assert((s + rest).drop_first() =~= s.drop_first() + rest);
        assert((s + rest)[0] == s[0]);
        assert(redact(s + rest, false) =~= s + redact(rest, false));
    }
}

pub proof fn lemma_redact_quoted_span(s: Seq<char>, rest: Seq<char>)
    requires
        quote_free(s),
    ensures
        redact(s + rest, true) == redact(rest, true),
    decreases s.len(),
{
    if s.len() == 0 {
        assert(s + rest =~= rest);
    } else {
        lemma_redact_quoted_span(s.drop_first(), rest);
        assert((s + rest).drop_first() =~= s.drop_first() + rest);
        assert((s + rest)[0] == s[0]);
    }
}

/// Law (secret elision): whatever a single-quoted literal holds, the
/// display form shows `'...'` in its place, so a secret embedded in the
/// text is never rendered.
pub proof fn lemma_redact_elides_secret(prefix: Seq<char>, secret: Seq<char>, suffix: Seq<char>)
    requires
        quote_free(prefix),
        quote_free(secret),
    ensures
        redact(prefix + seq!['\''] + secret + seq!['\''] + suffix, false) == prefix + "'...'"@
            + redact(suffix, false),
{
    let tail = seq!['\''] + secret + seq!['\''] + suffix;
    assert(prefix + seq!['\''] + secret + seq!['\''] + suffix =~= prefix + tail);
    lemma_redact_unquoted(prefix, tail);
    assert(tail[0] == '\'');
    assert(tail.drop_first() =~= secret + (seq!['\''] + suffix));
    lemma_redact_quoted_span(secret, seq!['\''] + suffix);
    assert((seq!['\''] + suffix)[0] == '\'');
    assert((seq!['\''] + suffix).drop_first() =~= suffix);
    assert(redact(tail, false) == "'...'"@ + redact(suffix, false));
    assert(prefix + ("'...'"@ + redact(suffix, false)) =~= prefix + "'...'"@ + redact(
        suffix,
        false,
    ));
}

} // verus!
