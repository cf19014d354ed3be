//! Parsing the bundled emoji dictionary.
//!
//! The dictionary is one flat JSON object of string keys and string values,
//! `{"bug": "\u{1F41B}", ...}`. The grammar accepted here is exactly that:
//! optional whitespace, `{`, zero or more `"key" : "value"` pairs separated
//! by commas, `}`, optional whitespace, end of input. Strings are plain:
//! a backslash anywhere in one is rejected, which the bundled resource never
//! needs. `spec_parse_dict` is the grammar; `parse_dict` is proved to accept
//! and produce exactly what it says.

use vstd::prelude::*;
use crate::dict::EmojiDict;

verus! {

/// JSON insignificant whitespace.
pub open spec fn is_ws(c: char) -> bool {
    c == ' ' || c == '\n' || c == '\t' || c == '\r'
}

/// The first position at or after `i` that does not hold whitespace.
pub open spec fn skip_ws(s: Seq<char>, i: int) -> int
    decreases s.len() - i,
{
    if 0 <= i < s.len() && is_ws(s[i]) {
        skip_ws(s, i + 1)
    } else {
        i
    }
}

/// The first position at or after `i` that ends a plain string body:
/// a quote, a backslash, or the end of input.
pub open spec fn scan_string(s: Seq<char>, i: int) -> int
    decreases s.len() - i,
{
    if 0 <= i < s.len() && s[i] != '"' && s[i] != '\\' {
        scan_string(s, i + 1)
    } else {
        i
    }
}

/// A quoted plain string starting exactly at `i`: its body and the position
/// after the closing quote.
pub open spec fn parse_string_at(s: Seq<char>, i: int) -> Option<(Seq<char>, int)> {
    if 0 <= i < s.len() && s[i] == '"' {
        let j: int = scan_string(s, i + 1);
        if j < s.len() && s[j] == '"' {
            Some((s.subrange(i + 1, j), j + 1))
        } else {
            None
        }
    } else {
        None
    }
}

/// A `"key" : "value"` pair starting exactly at `i`: the pair and the
/// position after the value's closing quote.
pub open spec fn parse_pair_at(s: Seq<char>, i: int) -> Option<((Seq<char>, Seq<char>), int)> {
    match parse_string_at(s, i) {
        Some((k, j)) => {
            let j2: int = skip_ws(s, j);
            if 0 <= j2 < s.len() && s[j2] == ':' {
                match parse_string_at(s, skip_ws(s, j2 + 1)) {
                    Some((v, j3)) => Some(((k, v), j3)),
                    None => None,
                }
            } else {
                None
            }
        },
        None => None,
    }
}

/// What remains after a pair: any number of `, "key" : "value"` items, the
/// closing brace, trailing whitespace, end of input. Returns those pairs.
pub open spec fn parse_rest_at(s: Seq<char>, i: int) -> Option<Seq<(Seq<char>, Seq<char>)>>
    decreases s.len() - i,
{
    let j: int = skip_ws(s, i);
    if 0 <= j < s.len() && s[j] == '}' {
        if skip_ws(s, j + 1) == s.len() {
            Some(Seq::empty())
        } else {
            None
        }
    } else if 0 <= j < s.len() && s[j] == ',' {
        match parse_pair_at(s, skip_ws(s, j + 1)) {
            Some((p, j2)) => {
                if i < j2 <= s.len() {
                    match parse_rest_at(s, j2) {
                        Some(ps) => Some(seq![p] + ps),
                        None => None,
                    }
                } else {
                    None
                }
            },
            None => None,
        }
    } else {
        None
    }
}

/// Glue for stating partial parses: the pairs seen so far in front of
/// whatever the rest yields.
pub open spec fn with_rest(
    pre: Seq<(Seq<char>, Seq<char>)>,
    rest: Option<Seq<(Seq<char>, Seq<char>)>>,
) -> Option<Seq<(Seq<char>, Seq<char>)>> {
    match rest {
        Some(ps) => Some(pre + ps),
        None => None,
    }
}

/// The whole dictionary grammar: the pairs of the object, in order, or
/// nothing if the input is not exactly one flat object of plain strings.
pub open spec fn spec_parse_dict(s: Seq<char>) -> Option<Seq<(Seq<char>, Seq<char>)>> {
    let i: int = skip_ws(s, 0);
    if 0 <= i < s.len() && s[i] == '{' {
        let j: int = skip_ws(s, i + 1);
        if 0 <= j < s.len() && s[j] == '}' {
            if skip_ws(s, j + 1) == s.len() {
                Some(Seq::empty())
            } else {
                None
            }
        } else {
            match parse_pair_at(s, j) {
                Some((p, j2)) => with_rest(seq![p], parse_rest_at(s, j2)),
                None => None,
            }
        }
    } else {
        None
    }
}

fn ws_char(c: char) -> (r: bool)
    ensures
        r == is_ws(c),
{
    c == ' ' || c == '\n' || c == '\t' || c == '\r'
}

fn skip_ws_x(s: &str, i: usize, len: usize) -> (j: usize)
    requires
        i <= len,
        len == s@.len(),
    ensures
        j as int == skip_ws(s@, i as int),
        i <= j <= len,
{
    let mut j: usize = i;
    while j < len && ws_char(s.get_char(j))
        invariant
            i <= j <= len,
            len == s@.len(),
            skip_ws(s@, i as int) == skip_ws(s@, j as int),
        decreases len - j,
    {
        j += 1;
    }
    j
}

fn parse_string_x(s: &str, i: usize, len: usize) -> (r: Option<(String, usize)>)
    requires
        i <= len,
        len == s@.len(),
    ensures
        match r {
            Some((v, j)) => parse_string_at(s@, i as int) == Some((v@, j as int)) && i < j <= len,
            None => parse_string_at(s@, i as int) is None,
        },
{
    if i < len && s.get_char(i) == '"' {
        let mut j: usize = i + 1;
        while j < len && s.get_char(j) != '"' && s.get_char(j) != '\\'
            invariant
                i + 1 <= j <= len,
                len == s@.len(),
                scan_string(s@, i + 1) == scan_string(s@, j as int),
            decreases len - j,
        {
            j += 1;
        }
        if j < len && s.get_char(j) == '"' {
            let v = String::from_str(s.substring_char(i + 1, j));
            Some((v, j + 1))
        } else {
            None
        }
    } else {
        None
    }
}

fn parse_pair_x(s: &str, i: usize, len: usize) -> (r: Option<(String, String, usize)>)
    requires
        i <= len,
        len == s@.len(),
    ensures
        match r {
            Some((k, v, j)) => parse_pair_at(s@, i as int) == Some(((k@, v@), j as int)) && i < j
                <= len,
            None => parse_pair_at(s@, i as int) is None,
        },
{
    match parse_string_x(s, i, len) {
        Some((k, j)) => {
            let j2 = skip_ws_x(s, j, len);
            if j2 < len && s.get_char(j2) == ':' {
                let j4 = skip_ws_x(s, j2 + 1, len);
                match parse_string_x(s, j4, len) {
                    Some((v, j3)) => Some((k, v, j3)),
                    None => None,
                }
            } else {
                None
            }
        },
        None => None,
    }
}

/// Parse the bundled dictionary resource.
///
/// Succeeds exactly when the input meets the grammar of `spec_parse_dict`,
/// and then holds exactly its pairs, in order.
pub fn parse_dict(src: &str) -> (r: Option<EmojiDict>)
    ensures
        match r {
            Some(d) => spec_parse_dict(src@) == Some(d.spec_pairs()),
            None => spec_parse_dict(src@) is None,
        },
{
    let len = src.unicode_len();
    let i = skip_ws_x(src, 0, len);
    if !(i < len && src.get_char(i) == '{') {
        return None;
    }
    let j = skip_ws_x(src, i + 1, len);
    if j < len && src.get_char(j) == '}' {
        if skip_ws_x(src, j + 1, len) == len {
            let d = EmojiDict::new();
            proof {
                assert(d.spec_pairs() =~= Seq::<(Seq<char>, Seq<char>)>::empty());
            }
            return Some(d);
        } else {
            return None;
        }
    }
    let mut d = EmojiDict::new();
    let mut cur: usize;
    match parse_pair_x(src, j, len) {
        Some((k, v, j2)) => {
            let ghost kv = (k@, v@);
            d.push_entry(k, v);
            proof {
                assert(d.spec_pairs() =~= seq![kv]);
            }
            cur = j2;
        },
        None => {
            return None;
        },
    }
    loop
        invariant
            cur <= len,
            len == src@.len(),
            spec_parse_dict(src@) == with_rest(d.spec_pairs(), parse_rest_at(src@, cur as int)),
        decreases len - cur,
    {
        let ghost pre = d.spec_pairs();
        let j = skip_ws_x(src, cur, len);
        if j < len && src.get_char(j) == '}' {
            if skip_ws_x(src, j + 1, len) == len {
                proof {
                    assert(parse_rest_at(src@, cur as int) == Some(
                        Seq::<(Seq<char>, Seq<char>)>::empty(),
                    ));
                    assert(pre + Seq::<(Seq<char>, Seq<char>)>::empty() =~= pre);
                }
                return Some(d);
            } else {
                return None;
            }
        } else if j < len && src.get_char(j) == ',' {
            let j1 = skip_ws_x(src, j + 1, len);
            match parse_pair_x(src, j1, len) {
                Some((k, v, j2)) => {
                    let ghost kv = (k@, v@);
                    d.push_entry(k, v);
                    proof {
                        assert(d.spec_pairs() =~= pre.push(kv));
                        assert(forall|ps: Seq<(Seq<char>, Seq<char>)>|
                            pre.push(kv) + ps =~= pre + (seq![kv] + ps));
                    }
                    cur = j2;
                },
                None => {
                    return None;
                },
            }
        } else {
            return None;
        }
    }
}

} // verus!
