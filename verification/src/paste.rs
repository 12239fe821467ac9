use vstd::prelude::*;

verus! {

broadcast use vstd::string::group_string_axioms;

/// `s` with every `"\r\n"` replaced by `"\n"`, scanning from the left.
pub open spec fn crlf_to_lf(s: Seq<char>) -> Seq<char>
    decreases s.len(),
{
    if s.len() == 0 {
        seq![]
    } else if s.len() >= 2 && s[0] == '\r' && s[1] == '\n' {
        seq!['\n'] + crlf_to_lf(s.skip(2))
    } else {
        seq![s[0]] + crlf_to_lf(s.skip(1))
    }
}

/// How often `c` occurs in `s`.
pub open spec fn count_char(s: Seq<char>, c: char) -> int
    decreases s.len(),
{
    if s.len() == 0 {
        0
    } else {
        (if s[0] == c {
            1int
        } else {
            0
        }) + count_char(s.skip(1), c)
    }
}

/// How many `"\r\n"` pairs `s` holds.
pub open spec fn count_crlf(s: Seq<char>) -> int
    decreases s.len(),
{
    if s.len() < 2 {
        0
    } else {
        (if s[0] == '\r' && s[1] == '\n' {
            1int
        } else {
            0
        }) + count_crlf(s.skip(1))
    }
}

proof fn lemma_count_char_nonneg(s: Seq<char>, c: char)
    ensures
        count_char(s, c) >= 0,
    decreases s.len(),
{
    if s.len() > 0 {
        lemma_count_char_nonneg(s.skip(1), c);
    }
}

proof fn lemma_count_char_cons(x: char, r: Seq<char>, c: char)
    ensures
        count_char(seq![x] + r, c) == (if x == c {
            1int
        } else {
            0
        }) + count_char(r, c),
{
    assert((seq![x] + r).skip(1) =~= r);
}

/// Replacing the line endings removes exactly the `'\r'` of each `"\r\n"`
/// pair: every character other than `'\r'` (each `'\n'` in particular) occurs
/// as often in the result as in the text, `'\r'` occurs once less per pair,
/// the result is shorter by the number of pairs, and a text without `'\r'` is
/// left as it is.
pub proof fn lemma_crlf_to_lf_counts(s: Seq<char>)
    ensures
        crlf_to_lf(s).len() == s.len() - count_crlf(s),
        forall|c: char| c != '\r' ==> count_char(crlf_to_lf(s), c) == count_char(s, c),
        count_char(crlf_to_lf(s), '\r') == count_char(s, '\r') - count_crlf(s),
        count_char(s, '\r') == 0 ==> crlf_to_lf(s) == s,
    decreases s.len(),
{
    if s.len() == 0 {
    } else if s.len() >= 2 && s[0] == '\r' && s[1] == '\n' {
        let t = s.skip(2);
        lemma_crlf_to_lf_counts(t);
        let s1 = s.skip(1);
        assert(s1.skip(1) =~= t);
        assert(s1[0] == '\n');
        assert(count_crlf(s1) == count_crlf(t));
        assert forall|c: char| #[trigger] count_char(s, c) == (if c == '\r' {
            1int
        } else {
            0
        }) + (if c == '\n' {
            1int
        } else {
            0
        }) + count_char(t, c) by {
            assert(count_char(s1, c) == (if s1[0] == c {
                1int
            } else {
                0
            }) + count_char(s1.skip(1), c));
        }
        assert forall|c: char| #[trigger] count_char(crlf_to_lf(s), c) == (if c == '\n' {
            1int
        } else {
            0
        }) + count_char(crlf_to_lf(t), c) by {
            lemma_count_char_cons('\n', crlf_to_lf(t), c);
        }
        assert(count_char(s, '\r') == 1 + count_char(t, '\r'));
        assert forall|c: char| c != '\r' implies count_char(crlf_to_lf(s), c) == count_char(s, c) by {
            assert(count_char(crlf_to_lf(t), c) == count_char(t, c));
        }
        assert(count_char(s, '\r') > 0) by {
            lemma_count_char_nonneg(t, '\r');
        }
    } else {
        let t = s.skip(1);
        lemma_crlf_to_lf_counts(t);
        assert(count_crlf(s) == count_crlf(t));
        assert forall|c: char| #[trigger] count_char(crlf_to_lf(s), c) == (if s[0] == c {
            1int
        } else {
            0
        }) + count_char(crlf_to_lf(t), c) by {
            lemma_count_char_cons(s[0], crlf_to_lf(t), c);
        }
        assert forall|c: char| c != '\r' implies count_char(crlf_to_lf(s), c) == count_char(s, c) by {
            assert(count_char(s, c) == (if s[0] == c {
                1int
            } else {
                0
            }) + count_char(t, c));
        }
        assert(count_char(s, '\r') == (if s[0] == '\r' {
            1int
        } else {
            0
        }) + count_char(t, '\r'));
        if count_char(s, '\r') == 0 {
            lemma_count_char_nonneg(t, '\r');
            assert(s[0] != '\r');
            assert(seq![s[0]] + t =~= s);
        }
    }
}

/// `String::push` of std: appends `c` to `s`.
#[verifier::external_body]
fn push_char(s: &mut String, c: char)
    ensures
        final(s)@ == old(s)@.push(c),
{
    s.push(c);
}

proof fn lemma_crlf_to_lf_empty(s: Seq<char>)
    ensures
        crlf_to_lf(s).len() == 0 <==> s.len() == 0,
{
}

/// The text of a paste from the clipboard: Windows line endings become `"\n"`;
/// an empty clipboard text gives no paste event (`None`).
pub fn paste_event_text(contents: &str) -> (r: Option<String>)
    ensures
        contents@.len() == 0 ==> r is None,
        contents@.len() > 0 ==> (r matches Some(t) && t@ == crlf_to_lf(contents@)),
        r is Some ==> r->0@.len() == contents@.len() - count_crlf(contents@),
        r is Some ==> forall|c: char|
            c != '\r' ==> count_char(r->0@, c) == count_char(contents@, c),
        r is Some ==> count_char(r->0@, '\r') == count_char(contents@, '\r') - count_crlf(
            contents@,
        ),
        r is Some && count_char(contents@, '\r') == 0 ==> r->0@ == contents@,
{
    proof {
        lemma_crlf_to_lf_counts(contents@);
    }
    let mut chars: Vec<char> = Vec::new();
    for c in it: contents.chars()
        invariant
            it.seq() == contents@,
            chars@ == it.seq().take(it.index() as int),
    {
        assert(it.seq().take(it.index() + 1) == it.seq().take(it.index() as int).push(c));
        chars.push(c);
    }
    assert(chars@ == contents@);
    let n = chars.len();
    let mut out = String::new();
    let mut i: usize = 0;
    while i < n
        invariant
            n == chars@.len(),
            i <= n,
            out@ + crlf_to_lf(chars@.skip(i as int)) == crlf_to_lf(chars@),
        decreases n - i,
    {
        let rest = Ghost(chars@.skip(i as int));
        if i + 1 < n && chars[i] == '\r' && chars[i + 1] == '\n' {
            proof {
                assert(rest@[0] == '\r' && rest@[1] == '\n');
                assert(rest@.skip(2) == chars@.skip(i + 2));
                assert(out@.push('\n') == out@ + seq!['\n']);
            }
            push_char(&mut out, '\n');
            i = i + 2;
        } else {
            let c = chars[i];
            proof {
                assert(rest@[0] == c);
                assert(rest@.skip(1) == chars@.skip(i + 1));
                assert(out@.push(c) == out@ + seq![c]);
            }
            push_char(&mut out, c);
            i = i + 1;
        }
    }
    proof {
        assert(chars@.skip(n as int) == Seq::<char>::empty());
        lemma_crlf_to_lf_empty(contents@);
    }
    if n == 0 {
        None
    } else {
        Some(out)
    }
}

} // verus!
