//! The commit-message validator behind the `commit-msg` hook.
//!
//! A shortcode is a run of code characters between two colons, `:bug:`.
//! The validator extracts every shortcode from the message — leftmost first,
//! never overlapping — and accepts the message exactly when each one is in
//! the emoji dictionary.

use vstd::prelude::*;
use crate::dict::EmojiDict;

verus! {

/// The characters a shortcode may be made of.
pub open spec fn is_code_char(c: char) -> bool {
    ('a' <= c && c <= 'z') || ('A' <= c && c <= 'Z') || ('0' <= c && c <= '9') || c == '_' || c
        == '+' || c == '-'
}

/// Length of the longest prefix of `s` made of code characters.
pub open spec fn code_run_len(s: Seq<char>) -> int
    decreases s.len(),
{
    if s.len() == 0 {
        0
    } else if is_code_char(s[0]) {
        1 + code_run_len(s.skip(1))
    } else {
        0
    }
}

/// Every shortcode in `s`, leftmost first.
///
/// At a colon, a shortcode is read exactly when one or more code characters
/// follow and then another colon; the scan resumes after that closing colon.
/// At any other position, or at a colon that opens no shortcode, the scan
/// moves on by one character, so the closing colon of nothing can still open
/// the next shortcode.
pub open spec fn extract_codes(s: Seq<char>) -> Seq<Seq<char>>
    decreases s.len(),
{
    if s.len() == 0 {
        Seq::empty()
    } else if s[0] == ':' {
        let n = code_run_len(s.skip(1));
        if n >= 1 && n + 1 < s.len() && s[n + 1] == ':' {
            seq![s.subrange(1, n + 1)] + extract_codes(s.skip(n + 2))
        } else {
            extract_codes(s.skip(1))
        }
    } else {
        extract_codes(s.skip(1))
    }
}

/// The code run is in bounds, covers only code characters, and stops at the
/// first character that is not one.
proof fn lemma_code_run_basic(s: Seq<char>)
    ensures
        0 <= code_run_len(s) <= s.len(),
        forall|k: int| 0 <= k < code_run_len(s) ==> is_code_char(s[k]),
        code_run_len(s) < s.len() ==> !is_code_char(s[code_run_len(s)]),
    decreases s.len(),
{
    if s.len() == 0 {
    } else if is_code_char(s[0]) {
        lemma_code_run_basic(s.skip(1));
        assert forall|k: int| 0 <= k < code_run_len(s) implies is_code_char(s[k]) by {
            if k >= 1 {
                assert(s.skip(1)[k - 1] == s[k]);
            }
        }
        if code_run_len(s) < s.len() {
            assert(s.skip(1)[code_run_len(s) - 1] == s[code_run_len(s)]);
        }
    }
}

/// One step of the code-run scan, in the coordinates of the whole string.
proof fn lemma_run_step(s: Seq<char>, i: int)
    requires
        0 <= i < s.len(),
    ensures
        is_code_char(s[i]) ==> code_run_len(s.skip(i)) == 1 + code_run_len(s.skip(i + 1)),
        !is_code_char(s[i]) ==> code_run_len(s.skip(i)) == 0,
{
    assert(s.skip(i)[0] == s[i]);
    assert(s.skip(i).skip(1) =~= s.skip(i + 1));
}

/// One step of the extraction, in the coordinates of the whole string.
proof fn lemma_extract_step(s: Seq<char>, i: int)
    requires
        0 <= i < s.len(),
    ensures
        s[i] != ':' ==> extract_codes(s.skip(i)) == extract_codes(s.skip(i + 1)),
        s[i] == ':' && code_run_len(s.skip(i + 1)) >= 1 && i + code_run_len(s.skip(i + 1)) + 1
            < s.len() && s[i + code_run_len(s.skip(i + 1)) + 1] == ':' ==> extract_codes(s.skip(i))
            == seq![s.subrange(i + 1, i + code_run_len(s.skip(i + 1)) + 1)] + extract_codes(
            s.skip(i + code_run_len(s.skip(i + 1)) + 2),
        ),
        s[i] == ':' && !(code_run_len(s.skip(i + 1)) >= 1 && i + code_run_len(s.skip(i + 1)) + 1
            < s.len() && s[i + code_run_len(s.skip(i + 1)) + 1] == ':') ==> extract_codes(s.skip(i))
            == extract_codes(s.skip(i + 1)),
{
    let t = s.skip(i);
    assert(t[0] == s[i]);
    assert(t.skip(1) =~= s.skip(i + 1));
    if s[i] == ':' {
        let n = code_run_len(s.skip(i + 1));
        lemma_code_run_basic(s.skip(i + 1));
        assert(code_run_len(t.skip(1)) == n);
        if n + 1 < t.len() {
            assert(t[n + 1] == s[i + n + 1]);
        }
        if n >= 1 && i + n + 1 < s.len() && s[i + n + 1] == ':' {
            assert(t.subrange(1, n + 1) =~= s.subrange(i + 1, i + n + 1));
            assert(t.skip(n + 2) =~= s.skip(i + n + 2));
        }
    }
}

/// Whether `c` may appear in a shortcode.
pub fn code_char(c: char) -> (r: bool)
    ensures
        r == is_code_char(c),
{
    ('a' <= c && c <= 'z') || ('A' <= c && c <= 'Z') || ('0' <= c && c <= '9') || c == '_' || c
        == '+' || c == '-'
}

/// Every shortcode in `msg`, leftmost first, without its colons.
pub fn extract_shortcodes(msg: &str) -> (r: Vec<String>)
    ensures
        r.deep_view() == extract_codes(msg@),
{
    let len = msg.unicode_len();
    let mut out: Vec<String> = Vec::new();
    let mut i: usize = 0;
    proof {
        assert(out.deep_view() =~= Seq::<Seq<char>>::empty());
        assert(msg@.skip(0) =~= msg@);
        assert(Seq::<Seq<char>>::empty() + extract_codes(msg@) =~= extract_codes(msg@));
    }
    while i < len
        invariant
            0 <= i <= len,
            len == msg@.len(),
            out.deep_view() + extract_codes(msg@.skip(i as int)) == extract_codes(msg@),
        decreases len - i,
    {
        let ghost pre = out.deep_view();
        let c = msg.get_char(i);
        if c == ':' {
            let mut j: usize = i + 1;
            while j < len && code_char(msg.get_char(j))
                invariant
                    i + 1 <= j <= len,
                    len == msg@.len(),
                    code_run_len(msg@.skip(i + 1)) == (j - (i + 1)) + code_run_len(
                        msg@.skip(j as int),
                    ),
                decreases len - j,
            {
                proof {
                    lemma_run_step(msg@, j as int);
                }
                j += 1;
            }
            proof {
                if j < len {
                    lemma_run_step(msg@, j as int);
                } else {
                    assert(msg@.skip(j as int).len() == 0);
                }
                assert(code_run_len(msg@.skip(i + 1)) == j - i - 1);
            }
            let n = j - (i + 1);
            if n >= 1 && j < len && msg.get_char(j) == ':' {
                let tok = msg.substring_char(i + 1, j);
                out.push(String::from_str(tok));
                proof {
                    lemma_extract_step(msg@, i as int);
                    assert(out.deep_view() =~= pre.push(tok@));
                    assert(pre.push(tok@) + extract_codes(msg@.skip(j + 1)) =~= pre + (seq![tok@]
                        + extract_codes(msg@.skip(j + 1))));
                }
                i = j + 1;
            } else {
                proof {
                    lemma_extract_step(msg@, i as int);
                }
                i += 1;
            }
        } else {
            proof {
                lemma_extract_step(msg@, i as int);
            }
            i += 1;
        }
    }
    proof {
        assert(extract_codes(msg@.skip(i as int)) =~= Seq::<Seq<char>>::empty());
        assert(out.deep_view() =~= out.deep_view() + Seq::<Seq<char>>::empty());
    }
    out
}

/// Whether every shortcode in `msg` is in the dictionary `d`.
pub open spec fn all_codes_known(msg: Seq<char>, d: EmojiDict) -> bool {
    forall|k: int|
        0 <= k < extract_codes(msg).len() ==> d.spec_has_code(#[trigger] extract_codes(msg)[k])
}

/// The hook's verdict on a commit message: the exit status of the validator.
///
/// Returns 0 exactly when every shortcode in the message is in the
/// dictionary, and 1 as soon as one is not.
pub fn validate_message(msg: &str, dict: &EmojiDict) -> (code: i32)
    ensures
        code == 0 || code == 1,
        code == 0 <==> all_codes_known(msg@, *dict),
{
    let codes = extract_shortcodes(msg);
    let mut k: usize = 0;
    while k < codes.len()
        invariant
            0 <= k <= codes@.len(),
            codes.deep_view() == extract_codes(msg@),
            forall|m: int|
                0 <= m < k ==> dict.spec_has_code(#[trigger] extract_codes(msg@)[m]),
        decreases codes@.len() - k,
    {
        if !dict.contains_code(&codes[k]) {
            proof {
                assert(extract_codes(msg@)[k as int] == codes@[k as int]@);
            }
            return 1;
        }
        k += 1;
    }
    0
}

} // verus!
