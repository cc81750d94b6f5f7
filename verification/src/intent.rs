//! Reading a typed intent out of a line of text: the keyword parser that
//! turns "add oscillator", "set frequency to 880 on node-1" or "recall scene
//! intro" into typed commands against the current session.
//!
//! The text is lower-cased first (`str::to_lowercase`), split into words on
//! Unicode white space (`str::split_whitespace`), and searched for keywords.
//! Numbers are read by a parser that the caller supplies (`str::parse::<f64>`
//! in the application), which returns the bit pattern of the value.
use vstd::prelude::*;
use crate::domain::{
    new_id, is_uuid_v4_text, AgentIntent, AudioPrimitive, AudioSourceNode, AudioSourceType,
    ChannelMode, ControllerKind, GraphEditCommand, Node, NodeType, OwnershipAssignment,
    ParameterValue, PerformanceCommand, Port, PortDirection, SceneDefinition, SessionDocument, SignalType,
    TypedCommand, VariationDefinition,
};
use crate::hardware::{occurs_at, occurs_in, str_contains};
use crate::lookup::{find_by_id, find_id};
use crate::text::{chars_of, string_from_chars};

verus! {

// ---------------------------------------------------------------------------
// Characters and words
// ---------------------------------------------------------------------------

/// What `str::to_lowercase` returns for a string (the Unicode lower-case
/// mapping, character by character, with the final-sigma rule).
pub uninterp spec fn lowercase(s: Seq<char>) -> Seq<char>;

/// `str::to_lowercase`: its result is a function of its argument alone.
#[verifier::external_body]
fn to_lowercase(s: &str) -> (r: String)
    ensures
        r@ == lowercase(s@),
{
    s.to_lowercase()
}

/// The Unicode `White_Space` property, which `char::is_whitespace` tests.
pub open spec fn is_white_space(c: char) -> bool {
    ||| ('\u{9}' <= c && c <= '\u{d}')
    ||| c == ' '
    ||| c == '\u{85}'
    ||| c == '\u{a0}'
    ||| c == '\u{1680}'
    ||| ('\u{2000}' <= c && c <= '\u{200a}')
    ||| c == '\u{2028}'
    ||| c == '\u{2029}'
    ||| c == '\u{202f}'
    ||| c == '\u{205f}'
    ||| c == '\u{3000}'
}

fn white_space(c: char) -> (r: bool)
    ensures
        r == is_white_space(c),
{
    ('\u{9}' <= c && c <= '\u{d}') || c == ' ' || c == '\u{85}' || c == '\u{a0}' || c == '\u{1680}'
        || ('\u{2000}' <= c && c <= '\u{200a}') || c == '\u{2028}' || c == '\u{2029}' || c
        == '\u{202f}' || c == '\u{205f}' || c == '\u{3000}'
}

/// Splitting read left to right: the words finished so far and the word
/// being read.
pub open spec fn split_state(s: Seq<char>) -> (Seq<Seq<char>>, Seq<char>)
    decreases s.len(),
{
    if s.len() == 0 {
        (Seq::empty(), Seq::empty())
    } else {
        let (done, cur) = split_state(s.drop_last());
        let c = s.last();
        if is_white_space(c) {
            if cur.len() > 0 {
                (done.push(cur), Seq::empty())
            } else {
                (done, cur)
            }
        } else {
            (done, cur.push(c))
        }
    }
}

/// The maximal runs of non-white-space characters, in order
/// (`str::split_whitespace`).
pub open spec fn words(s: Seq<char>) -> Seq<Seq<char>> {
    let (done, cur) = split_state(s);
    if cur.len() > 0 {
        done.push(cur)
    } else {
        done
    }
}

fn split_words(cs: &Vec<char>) -> (r: Vec<Vec<char>>)
    ensures
        r@.len() == words(cs@).len(),
        forall|i: int| 0 <= i < r@.len() ==> (#[trigger] r@[i])@ == words(cs@)[i],
{
    let mut done: Vec<Vec<char>> = Vec::new();
    let mut cur: Vec<char> = Vec::new();
    let mut i: usize = 0;
    while i < cs.len()
        invariant
            i <= cs@.len(),
            done@.len() == split_state(cs@.take(i as int)).0.len(),
            forall|k: int|
                0 <= k < done@.len() ==> (#[trigger] done@[k])@ == split_state(
                    cs@.take(i as int),
                ).0[k],
            cur@ == split_state(cs@.take(i as int)).1,
        decreases cs.len() - i,
    {
        let c = cs[i];
        assert(cs@.take(i as int + 1).drop_last() =~= cs@.take(i as int));
        if white_space(c) {
            if cur.len() > 0 {
                let w = cur;
                done.push(w);
                cur = Vec::new();
            }
        } else {
            cur.push(c);
        }
        i = i + 1;
    }
    assert(cs@.take(cs@.len() as int) =~= cs@);
    if cur.len() > 0 {
        done.push(cur);
    }
    done
}

/// `a` holds the characters of the literal `b`.
fn chars_equal(a: &Vec<char>, b: &str) -> (r: bool)
    ensures
        r == (a@ == b@),
{
    let bc = chars_of(b);
    if a.len() != bc.len() {
        return false;
    }
    let mut i: usize = 0;
    while i < a.len()
        invariant
            i <= a@.len(),
            a@.len() == bc@.len(),
            bc@ == b@,
            forall|k: int| 0 <= k < i ==> a@[k] == bc@[k],
        decreases a.len() - i,
    {
        if a[i] != bc[i] {
            return false;
        }
        i = i + 1;
    }
    assert(a@ =~= bc@);
    true
}

/// The text with leading white space removed.
pub open spec fn trim_start(s: Seq<char>) -> Seq<char>
    decreases s.len(),
{
    if s.len() > 0 && is_white_space(s[0]) {
        trim_start(s.drop_first())
    } else {
        s
    }
}

/// The text with trailing white space removed.
pub open spec fn trim_end(s: Seq<char>) -> Seq<char>
    decreases s.len(),
{
    if s.len() > 0 && is_white_space(s.last()) {
        trim_end(s.drop_last())
    } else {
        s
    }
}

/// `str::trim`: leading and trailing white space removed.
pub open spec fn trim(s: Seq<char>) -> Seq<char> {
    trim_end(trim_start(s))
}

fn trimmed(cs: &Vec<char>, from: usize) -> (r: Vec<char>)
    requires
        from <= cs@.len(),
    ensures
        r@ == trim(cs@.skip(from as int)),
{
    let ghost s = cs@.skip(from as int);
    let mut a: usize = from;
    while a < cs.len() && white_space(cs[a])
        invariant
            from <= a <= cs@.len(),
            trim_start(s) == trim_start(cs@.skip(a as int)),
        decreases cs.len() - a,
    {
        assert(cs@.skip(a as int).drop_first() =~= cs@.skip(a as int + 1));
        a = a + 1;
    }
    let ghost t = cs@.skip(a as int);
    assert(trim_start(s) == t);
    let mut b: usize = cs.len();
    assert(cs@.subrange(a as int, b as int) =~= t);
    while b > a && white_space(cs[b - 1])
        invariant
            a <= b <= cs@.len(),
            trim_end(t) == trim_end(cs@.subrange(a as int, b as int)),
        decreases b - a,
    {
        assert(cs@.subrange(a as int, b as int).drop_last() =~= cs@.subrange(a as int, b - 1));
        b = b - 1;
    }
    let mut r: Vec<char> = Vec::new();
    let mut k: usize = a;
    while k < b
        invariant
            a <= k <= b <= cs@.len(),
            r@ == cs@.subrange(a as int, k as int),
        decreases b - k,
    {
        r.push(cs[k]);
        assert(cs@.subrange(a as int, k + 1) =~= cs@.subrange(a as int, k as int).push(cs@[k as int]));
        k = k + 1;
    }
    r
}

/// The first position at or after `from` that holds `c`.
pub open spec fn char_after(s: Seq<char>, c: char, from: int) -> Option<int>
    decreases s.len() - from,
{
    if from < 0 || from >= s.len() {
        None
    } else if s[from] == c {
        Some(from)
    } else {
        char_after(s, c, from + 1)
    }
}

/// Where `char_after` finds a character.
pub proof fn lemma_char_after(s: Seq<char>, c: char, from: int)
    ensures
        char_after(s, c, from) matches Some(k) ==> from <= k < s.len() && s[k] == c,
    decreases s.len() - from,
{
    if 0 <= from < s.len() && s[from] != c {
        lemma_char_after(s, c, from + 1);
    }
}

fn find_char(cs: &Vec<char>, c: char, from: usize) -> (r: Option<usize>)
    requires
        from <= cs@.len(),
    ensures
        match r {
            Some(i) => char_after(cs@, c, from as int) == Some(i as int),
            None => char_after(cs@, c, from as int) is None,
        },
{
    let mut i: usize = from;
    while i < cs.len()
        invariant
            from <= i <= cs@.len(),
            char_after(cs@, c, from as int) == char_after(cs@, c, i as int),
        decreases cs.len() - i,
    {
        if cs[i] == c {
            return Some(i);
        }
        i = i + 1;
    }
    None
}

/// The text between the first pair of `q` quotes.
pub open spec fn quoted_by(s: Seq<char>, q: char) -> Option<Seq<char>> {
    match char_after(s, q, 0) {
        Some(a) => match char_after(s, q, a + 1) {
            Some(b) => Some(s.subrange(a + 1, b)),
            None => None,
        },
        None => None,
    }
}

/// The name between the first pair of double quotes, else between the first
/// pair of single quotes.
pub open spec fn quoted_name(s: Seq<char>) -> Option<Seq<char>> {
    match quoted_by(s, '"') {
        Some(n) => Some(n),
        None => quoted_by(s, '\''),
    }
}

fn extract_quoted_by(cs: &Vec<char>, q: char) -> (r: Option<Vec<char>>)
    ensures
        match r {
            Some(v) => quoted_by(cs@, q) == Some(v@),
            None => quoted_by(cs@, q) is None,
        },
{
    let n = cs.len();
    match find_char(cs, q, 0) {
        Some(a) => {
            proof {
                lemma_char_after(cs@, q, 0);
            }
            assert(a < n);
            match find_char(cs, q, a + 1) {
                Some(b) => {
                    proof {
                        lemma_char_after(cs@, q, a + 1);
                    }
                    let mut r: Vec<char> = Vec::new();
                    let mut k: usize = a + 1;
                    while k < b
                        invariant
                            a + 1 <= k <= b <= cs@.len(),
                            r@ == cs@.subrange(a + 1, k as int),
                        decreases b - k,
                    {
                        r.push(cs[k]);
                        assert(cs@.subrange(a + 1, k + 1) =~= cs@.subrange(a + 1, k as int).push(
                            cs@[k as int],
                        ));
                        k = k + 1;
                    }
                    Some(r)
                },
                None => None,
            }
        },
        None => None,
    }
}

fn extract_quoted_name(cs: &Vec<char>) -> (r: Option<Vec<char>>)
    ensures
        match r {
            Some(v) => quoted_name(cs@) == Some(v@),
            None => quoted_name(cs@) is None,
        },
{
    match extract_quoted_by(cs, '"') {
        Some(v) => Some(v),
        None => extract_quoted_by(cs, '\''),
    }
}

/// The first position at or after `from` where `needle` occurs in `hay`.
pub open spec fn occurrence_from(hay: Seq<char>, needle: Seq<char>, from: int) -> Option<int>
    decreases hay.len() - from,
{
    if from < 0 || from >= hay.len() {
        None
    } else if occurs_at(hay, needle, from) {
        Some(from)
    } else {
        occurrence_from(hay, needle, from + 1)
    }
}

/// The first position where `needle` occurs in `hay` (`str::find`).
pub open spec fn first_occurrence(hay: Seq<char>, needle: Seq<char>) -> Option<int> {
    occurrence_from(hay, needle, 0)
}

/// Where `occurrence_from` finds the needle.
pub proof fn lemma_occurrence_from(hay: Seq<char>, needle: Seq<char>, from: int)
    ensures
        occurrence_from(hay, needle, from) matches Some(k) ==> from <= k && occurs_at(
            hay,
            needle,
            k,
        ),
    decreases hay.len() - from,
{
    if 0 <= from < hay.len() && !occurs_at(hay, needle, from) {
        lemma_occurrence_from(hay, needle, from + 1);
    }
}

fn matches_at(h: &Vec<char>, n: &Vec<char>, i: usize) -> (r: bool)
    ensures
        r == occurs_at(h@, n@, i as int),
{
    if i > h.len() || n.len() > h.len() - i {
        return false;
    }
    let mut j: usize = 0;
    while j < n.len()
        invariant
            i + n@.len() <= h@.len(),
            h@.len() == h.len(),
            n@.len() == n.len(),
            j <= n@.len(),
            forall|m: int| 0 <= m < j ==> h@[i + m] == n@[m],
        decreases n.len() - j,
    {
        if h[i + j] != n[j] {
            assert(h@.subrange(i as int, i + n@.len())[j as int] != n@[j as int]);
            return false;
        }
        j = j + 1;
    }
    assert(h@.subrange(i as int, i + n@.len()) =~= n@);
    true
}

fn find_text(h: &Vec<char>, n: &Vec<char>) -> (r: Option<usize>)
    ensures
        match r {
            Some(i) => first_occurrence(h@, n@) == Some(i as int),
            None => first_occurrence(h@, n@) is None,
        },
{
    let mut i: usize = 0;
    while i < h.len()
        invariant
            i <= h@.len(),
            occurrence_from(h@, n@, 0) == occurrence_from(h@, n@, i as int),
        decreases h.len() - i,
    {
        if matches_at(h, n, i) {
            return Some(i);
        }
        i = i + 1;
    }
    None
}

/// The trimmed text after the first occurrence of `keyword`, if it is not
/// empty.
pub open spec fn after_keyword(s: Seq<char>, keyword: Seq<char>) -> Option<Seq<char>> {
    match first_occurrence(s, keyword) {
        Some(i) => {
            let rest = trim(s.skip(i + keyword.len()));
            if rest.len() == 0 {
                None
            } else {
                Some(rest)
            }
        },
        None => None,
    }
}

fn extract_after_keyword(cs: &Vec<char>, keyword: &str) -> (r: Option<Vec<char>>)
    ensures
        match r {
            Some(v) => after_keyword(cs@, keyword@) == Some(v@),
            None => after_keyword(cs@, keyword@) is None,
        },
{
    let kw = chars_of(keyword);
    let n = cs.len();
    match find_text(cs, &kw) {
        Some(i) => {
            proof {
                lemma_occurrence_from(cs@, kw@, 0);
            }
            assert(i + kw.len() <= n);
            let rest = trimmed(cs, i + kw.len());
            if rest.len() == 0 {
                None
            } else {
                Some(rest)
            }
        },
        None => None,
    }
}


// ---------------------------------------------------------------------------
// Words as strings
// ---------------------------------------------------------------------------

/// The words of `lower` as strings.
fn word_strings(cs: &Vec<char>) -> (r: Vec<String>)
    ensures
        r@.len() == words(cs@).len(),
        forall|i: int| 0 <= i < r@.len() ==> (#[trigger] r@[i])@ == words(cs@)[i],
{
    let ws = split_words(cs);
    let mut r: Vec<String> = Vec::new();
    let mut i: usize = 0;
    while i < ws.len()
        invariant
            i <= ws@.len(),
            ws@.len() == words(cs@).len(),
            forall|k: int| 0 <= k < ws@.len() ==> (#[trigger] ws@[k])@ == words(cs@)[k],
            r@.len() == i,
            forall|k: int| 0 <= k < i ==> (#[trigger] r@[k])@ == words(cs@)[k],
        decreases ws.len() - i,
    {
        let w = string_from_chars(&ws[i]);
        r.push(w);
        i = i + 1;
    }
    r
}

// ---------------------------------------------------------------------------
// Node references
// ---------------------------------------------------------------------------

/// A node id named by a word that follows the keyword `node`.
pub open spec fn names_node_exactly(id: Seq<char>, w: Seq<char>) -> bool {
    lowercase(id) == w || id == w
}

/// A node id named by any word, either case.
pub open spec fn names_node_loosely(id: Seq<char>, w: Seq<char>) -> bool {
    id == w || lowercase(id) == lowercase(w)
}

/// The first node at or after `from` that the word names.
pub open spec fn node_named(nodes: Seq<Node>, w: Seq<char>, loose: bool, from: int) -> Option<int>
    decreases nodes.len() - from,
{
    if from < 0 || from >= nodes.len() {
        None
    } else if (if loose {
        names_node_loosely(nodes[from].id@, w)
    } else {
        names_node_exactly(nodes[from].id@, w)
    }) {
        Some(from)
    } else {
        node_named(nodes, w, loose, from + 1)
    }
}

pub proof fn lemma_node_named(nodes: Seq<Node>, w: Seq<char>, loose: bool, from: int)
    ensures
        node_named(nodes, w, loose, from) matches Some(j) ==> from <= j < nodes.len(),
    decreases nodes.len() - from,
{
    if 0 <= from < nodes.len() {
        lemma_node_named(nodes, w, loose, from + 1);
    }
}

/// The node named by the first `node <id>` pair, searching the words from
/// `from`.
pub open spec fn keyword_node(ws: Seq<Seq<char>>, nodes: Seq<Node>, from: int) -> Option<int>
    decreases ws.len() - from,
{
    if from < 0 || from >= ws.len() {
        None
    } else if ws[from] == "node"@ && from + 1 < ws.len() && node_named(
        nodes,
        ws[from + 1],
        false,
        0,
    ) is Some {
        node_named(nodes, ws[from + 1], false, 0)
    } else {
        keyword_node(ws, nodes, from + 1)
    }
}

/// The node named by the first word that names one, searching from `from`.
pub open spec fn word_node(ws: Seq<Seq<char>>, nodes: Seq<Node>, from: int) -> Option<int>
    decreases ws.len() - from,
{
    if from < 0 || from >= ws.len() {
        None
    } else if node_named(nodes, ws[from], true, 0) is Some {
        node_named(nodes, ws[from], true, 0)
    } else {
        word_node(ws, nodes, from + 1)
    }
}

/// The position of the node the lower-cased text refers to: the one after
/// the keyword `node`, else the first one any word names.
pub open spec fn node_reference(lower: Seq<char>, nodes: Seq<Node>) -> Option<int> {
    match keyword_node(words(lower), nodes, 0) {
        Some(j) => Some(j),
        None => word_node(words(lower), nodes, 0),
    }
}

pub proof fn lemma_node_reference(lower: Seq<char>, nodes: Seq<Node>)
    ensures
        node_reference(lower, nodes) matches Some(j) ==> 0 <= j < nodes.len(),
{
    lemma_keyword_node(words(lower), nodes, 0);
    lemma_word_node(words(lower), nodes, 0);
}

proof fn lemma_keyword_node(ws: Seq<Seq<char>>, nodes: Seq<Node>, from: int)
    ensures
        keyword_node(ws, nodes, from) matches Some(j) ==> 0 <= j < nodes.len(),
    decreases ws.len() - from,
{
    if 0 <= from < ws.len() {
        if from + 1 < ws.len() {
            lemma_node_named(nodes, ws[from + 1], false, 0);
        }
        lemma_keyword_node(ws, nodes, from + 1);
    }
}

proof fn lemma_word_node(ws: Seq<Seq<char>>, nodes: Seq<Node>, from: int)
    ensures
        word_node(ws, nodes, from) matches Some(j) ==> 0 <= j < nodes.len(),
    decreases ws.len() - from,
{
    if 0 <= from < ws.len() {
        lemma_node_named(nodes, ws[from], true, 0);
        lemma_word_node(ws, nodes, from + 1);
    }
}

fn find_node_named(nodes: &Vec<Node>, w: &String, loose: bool) -> (r: Option<usize>)
    ensures
        match r {
            Some(j) => node_named(nodes@, w@, loose, 0) == Some(j as int),
            None => node_named(nodes@, w@, loose, 0) is None,
        },
{
    let wl = to_lowercase(w.as_str());
    let mut j: usize = 0;
    while j < nodes.len()
        invariant
            j <= nodes@.len(),
            wl@ == lowercase(w@),
            node_named(nodes@, w@, loose, 0) == node_named(nodes@, w@, loose, j as int),
        decreases nodes.len() - j,
    {
        let id = &nodes[j].id;
        let idl = to_lowercase(id.as_str());
        let hit = if loose {
            id.eq(w) || idl.eq(&wl)
        } else {
            idl.eq(w) || id.eq(w)
        };
        if hit {
            return Some(j);
        }
        j = j + 1;
    }
    None
}

fn find_node_reference(ws: &Vec<String>, nodes: &Vec<Node>, Ghost(lower): Ghost<Seq<char>>) -> (r:
    Option<usize>)
    requires
        ws@.len() == words(lower).len(),
        forall|i: int| 0 <= i < ws@.len() ==> (#[trigger] ws@[i])@ == words(lower)[i],
    ensures
        match r {
            Some(j) => node_reference(lower, nodes@) == Some(j as int),
            None => node_reference(lower, nodes@) is None,
        },
{
    let ghost wv = words(lower);
    let node_kw = "node".to_owned();
    let mut i: usize = 0;
    while i < ws.len()
        invariant
            i <= ws@.len(),
            wv == words(lower),
            ws@.len() == wv.len(),
            forall|k: int| 0 <= k < ws@.len() ==> (#[trigger] ws@[k])@ == wv[k],
            node_kw@ == "node"@,
            keyword_node(wv, nodes@, 0) == keyword_node(wv, nodes@, i as int),
        decreases ws.len() - i,
    {
        assert(ws@[i as int]@ == wv[i as int]);
        if ws[i].eq(&node_kw) && i + 1 < ws.len() {
            assert(ws@[i + 1]@ == wv[i + 1]);
            match find_node_named(nodes, &ws[i + 1], false) {
                Some(j) => {
                    return Some(j);
                },
                None => {},
            }
        }
        i = i + 1;
    }
    let mut i: usize = 0;
    while i < ws.len()
        invariant
            i <= ws@.len(),
            wv == words(lower),
            ws@.len() == wv.len(),
            forall|k: int| 0 <= k < ws@.len() ==> (#[trigger] ws@[k])@ == wv[k],
            keyword_node(wv, nodes@, 0) is None,
            word_node(wv, nodes@, 0) == word_node(wv, nodes@, i as int),
        decreases ws.len() - i,
    {
        assert(ws@[i as int]@ == wv[i as int]);
        match find_node_named(nodes, &ws[i], true) {
            Some(j) => {
                return Some(j);
            },
            None => {},
        }
        i = i + 1;
    }
    None
}

// ---------------------------------------------------------------------------
// Numbers
// ---------------------------------------------------------------------------

/// The number parser gives one answer per text.
pub open spec fn parser_deterministic<P: Fn(&String) -> Option<u64>>(p: P) -> bool {
    forall|s1: &String, s2: &String, r1: Option<u64>, r2: Option<u64>|
        #![trigger call_ensures(p, (s1,), r1), call_ensures(p, (s2,), r2)]
        s1@ == s2@ && call_ensures(p, (s1,), r1) && call_ensures(p, (s2,), r2) ==> r1 == r2
}

/// What the number parser returns for a text (the bit pattern of the value,
/// or `None` when the text is not a number).
pub open spec fn parse_result<P: Fn(&String) -> Option<u64>>(p: P, w: Seq<char>) -> Option<u64> {
    (choose|c: (&String, Option<u64>)| c.0@ == w && #[trigger] call_ensures(p, (c.0,), c.1)).1
}

proof fn lemma_parse_result<P: Fn(&String) -> Option<u64>>(p: P, s: &String, r: Option<u64>)
    requires
        parser_deterministic(p),
        call_ensures(p, (s,), r),
    ensures
        parse_result(p, s@) == r,
{
    let w = (s, r);
    assert(w.0@ == s@ && call_ensures(p, (w.0,), w.1));
    let c = choose|c: (&String, Option<u64>)| c.0@ == s@ && #[trigger] call_ensures(p, (c.0,), c.1);
    assert(call_ensures(p, (c.0,), c.1));
}

/// The number after the first `to` or `=` that is followed by a number.
pub open spec fn value_after_keyword<P: Fn(&String) -> Option<u64>>(
    p: P,
    ws: Seq<Seq<char>>,
    from: int,
) -> Option<u64>
    decreases ws.len() - from,
{
    if from < 0 || from >= ws.len() {
        None
    } else if (ws[from] == "to"@ || ws[from] == "="@) && from + 1 < ws.len() && parse_result(
        p,
        ws[from + 1],
    ) is Some {
        parse_result(p, ws[from + 1])
    } else {
        value_after_keyword(p, ws, from + 1)
    }
}

/// The first word that is a number.
pub open spec fn any_value<P: Fn(&String) -> Option<u64>>(p: P, ws: Seq<Seq<char>>, from: int) -> Option<u64>
    decreases ws.len() - from,
{
    if from < 0 || from >= ws.len() {
        None
    } else if parse_result(p, ws[from]) is Some {
        parse_result(p, ws[from])
    } else {
        any_value(p, ws, from + 1)
    }
}

/// The number a request names: after `to` or `=`, else the first number.
pub open spec fn numeric_value<P: Fn(&String) -> Option<u64>>(p: P, ws: Seq<Seq<char>>) -> Option<u64> {
    match value_after_keyword(p, ws, 0) {
        Some(v) => Some(v),
        None => any_value(p, ws, 0),
    }
}

fn extract_numeric_value<P: Fn(&String) -> Option<u64>>(
    ws: &Vec<String>,
    parse_number: &P,
    Ghost(wv): Ghost<Seq<Seq<char>>>,
) -> (r: Option<u64>)
    requires
        forall|s: &String| parse_number.requires((s,)),
        parser_deterministic(*parse_number),
        ws@.len() == wv.len(),
        forall|i: int| 0 <= i < ws@.len() ==> (#[trigger] ws@[i])@ == wv[i],
    ensures
        r == numeric_value(*parse_number, wv),
{
    let to_kw = "to".to_owned();
    let eq_kw = "=".to_owned();
    let mut i: usize = 0;
    while i < ws.len()
        invariant
            i <= ws@.len(),
            forall|s: &String| parse_number.requires((s,)),
            parser_deterministic(*parse_number),
            ws@.len() == wv.len(),
            forall|k: int| 0 <= k < ws@.len() ==> (#[trigger] ws@[k])@ == wv[k],
            to_kw@ == "to"@,
            eq_kw@ == "="@,
            value_after_keyword(*parse_number, wv, 0) == value_after_keyword(
                *parse_number,
                wv,
                i as int,
            ),
        decreases ws.len() - i,
    {
        assert(ws@[i as int]@ == wv[i as int]);
        if (ws[i].eq(&to_kw) || ws[i].eq(&eq_kw)) && i + 1 < ws.len() {
            let v = parse_number(&ws[i + 1]);
            proof {
                assert(ws@[i + 1]@ == wv[i + 1]);
                lemma_parse_result(*parse_number, &ws@[i + 1], v);
            }
            if v.is_some() {
                return v;
            }
        }
        i = i + 1;
    }
    let mut i: usize = 0;
    while i < ws.len()
        invariant
            i <= ws@.len(),
            forall|s: &String| parse_number.requires((s,)),
            parser_deterministic(*parse_number),
            ws@.len() == wv.len(),
            forall|k: int| 0 <= k < ws@.len() ==> (#[trigger] ws@[k])@ == wv[k],
            value_after_keyword(*parse_number, wv, 0) is None,
            any_value(*parse_number, wv, 0) == any_value(*parse_number, wv, i as int),
        decreases ws.len() - i,
    {
        let v = parse_number(&ws[i]);
        proof {
            assert(ws@[i as int]@ == wv[i as int]);
            lemma_parse_result(*parse_number, &ws@[i as int], v);
        }
        if v.is_some() {
            return v;
        }
        i = i + 1;
    }
    None
}


// ---------------------------------------------------------------------------
// Scenes and variations
// ---------------------------------------------------------------------------

/// The first scene, from `from`, whose lower-cased name occurs in the text.
pub open spec fn scene_in_text(lower: Seq<char>, scenes: Seq<SceneDefinition>, from: int) -> Option<
    int,
>
    decreases scenes.len() - from,
{
    if from < 0 || from >= scenes.len() {
        None
    } else if occurs_in(lower, lowercase(scenes[from].name@)) {
        Some(from)
    } else {
        scene_in_text(lower, scenes, from + 1)
    }
}

/// The first scene, from `from`, whose lower-cased name contains `name`.
pub open spec fn scene_containing(scenes: Seq<SceneDefinition>, name: Seq<char>, from: int) -> Option<
    int,
>
    decreases scenes.len() - from,
{
    if from < 0 || from >= scenes.len() {
        None
    } else if occurs_in(lowercase(scenes[from].name@), name) {
        Some(from)
    } else {
        scene_containing(scenes, name, from + 1)
    }
}

proof fn lemma_scene_in_text(lower: Seq<char>, scenes: Seq<SceneDefinition>, from: int)
    ensures
        scene_in_text(lower, scenes, from) matches Some(i) ==> 0 <= i < scenes.len(),
    decreases scenes.len() - from,
{
    if 0 <= from < scenes.len() {
        lemma_scene_in_text(lower, scenes, from + 1);
    }
}

proof fn lemma_scene_containing(scenes: Seq<SceneDefinition>, name: Seq<char>, from: int)
    ensures
        scene_containing(scenes, name, from) matches Some(i) ==> 0 <= i < scenes.len(),
    decreases scenes.len() - from,
{
    if 0 <= from < scenes.len() {
        lemma_scene_containing(scenes, name, from + 1);
    }
}

fn find_scene_in_text(lower: &str, scenes: &Vec<SceneDefinition>) -> (r: Option<usize>)
    ensures
        match r {
            Some(i) => scene_in_text(lower@, scenes@, 0) == Some(i as int),
            None => scene_in_text(lower@, scenes@, 0) is None,
        },
{
    let mut i: usize = 0;
    while i < scenes.len()
        invariant
            i <= scenes@.len(),
            scene_in_text(lower@, scenes@, 0) == scene_in_text(lower@, scenes@, i as int),
        decreases scenes.len() - i,
    {
        let name = to_lowercase(scenes[i].name.as_str());
        if str_contains(lower, name.as_str()) {
            return Some(i);
        }
        i = i + 1;
    }
    None
}

fn find_scene_containing(scenes: &Vec<SceneDefinition>, name: &str) -> (r: Option<usize>)
    ensures
        match r {
            Some(i) => scene_containing(scenes@, name@, 0) == Some(i as int),
            None => scene_containing(scenes@, name@, 0) is None,
        },
{
    let mut i: usize = 0;
    while i < scenes.len()
        invariant
            i <= scenes@.len(),
            scene_containing(scenes@, name@, 0) == scene_containing(scenes@, name@, i as int),
        decreases scenes.len() - i,
    {
        let n = to_lowercase(scenes[i].name.as_str());
        if str_contains(n.as_str(), name) {
            return Some(i);
        }
        i = i + 1;
    }
    None
}

/// The scene a "save variation" request is for: the one named after
/// `for scene`, else the first scene.
pub open spec fn save_scene(lower: Seq<char>, scenes: Seq<SceneDefinition>) -> Option<int> {
    match after_keyword(lower, "for scene"@) {
        Some(n) => scene_containing(scenes, lowercase(n), 0),
        None => if scenes.len() > 0 {
            Some(0)
        } else {
            None
        },
    }
}

/// The name a "save variation" request gives: the quoted name, else
/// `agent-variation`.
pub open spec fn variation_name(lower: Seq<char>) -> Seq<char> {
    match quoted_name(lower) {
        Some(n) => n,
        None => "agent-variation"@,
    }
}

// ---------------------------------------------------------------------------
// Commands
// ---------------------------------------------------------------------------

/// `f64` bit pattern of 0.9, the confidence of a recognised command.
pub const CONFIDENCE_COMMAND: u64 = 0x3fec_cccc_cccc_cccd;

/// `f64` bit pattern of 0.85, the confidence of a parameter change.
pub const CONFIDENCE_PARAMETER: u64 = 0x3feb_3333_3333_3333;

/// `f64` bit pattern of 0.7, the confidence given to commands that no rule
/// scored.
pub const CONFIDENCE_FALLBACK: u64 = 0x3fe6_6666_6666_6666;

/// `f64` bit pattern of 0.8, the level of an agent-added source.
pub const AGENT_SOURCE_LEVEL: u64 = 0x3fe9_9999_9999_999a;

/// `f64` bit pattern of 1.0.
pub const UNIT_MAX: u64 = 0x3ff0_0000_0000_0000;

/// A command the parser produces, with its texts as character sequences.
pub enum ExpectedCommand {
    AddSource(AudioSourceType),
    RemoveNode(Seq<char>),
    SetParameter(Seq<char>, Seq<char>, u64),
    RecallScene(Seq<char>),
    SaveVariation(Seq<char>, Seq<char>),
    RestoreVariation(Seq<char>),
}

/// Which source a text asks to add.
pub open spec fn add_kind(lower: Seq<char>) -> Option<AudioSourceType> {
    if occurs_in(lower, "oscillator"@) || occurs_in(lower, "osc"@) {
        Some(AudioSourceType::Oscillator)
    } else if occurs_in(lower, "noise"@) {
        Some(AudioSourceType::Noise)
    } else {
        None
    }
}

/// The catalog entry of a source kind.
pub open spec fn source_catalog_id(kind: AudioSourceType) -> Seq<char> {
    match kind {
        AudioSourceType::Oscillator => "oscillator"@,
        AudioSourceType::Noise => "noise"@,
    }
}

/// The node the parser adds for a source: fresh identifiers, one mono
/// audio output `main_out`, one `level` parameter at 0.8 in 0..1, owned by
/// the agent and unlocked, enabled.
pub open spec fn is_agent_source_node(n: Node, kind: AudioSourceType) -> bool {
    &&& is_uuid_v4_text(n.id@)
    &&& n.node_type == NodeType::Source
    &&& n.node_type_id@ == source_catalog_id(kind)
    &&& n.ports@.len() == 1
    &&& is_uuid_v4_text(n.ports@[0].id@)
    &&& n.ports@[0].name@ == "main_out"@
    &&& n.ports@[0].direction == PortDirection::Output
    &&& n.ports@[0].signal_type == SignalType::Audio
    &&& n.parameters@.len() == 1
    &&& is_uuid_v4_text(n.parameters@[0].id@)
    &&& n.parameters@[0].name@ == "level"@
    &&& n.parameters@[0].value == AGENT_SOURCE_LEVEL
    &&& n.parameters@[0].default_value == AGENT_SOURCE_LEVEL
    &&& n.parameters@[0].min_value == 0
    &&& n.parameters@[0].max_value == UNIT_MAX
    &&& n.parameters@[0].unit@ == "linear"@
    &&& n.runtime_target matches Some(t) && t@ == "audio/source/default"@
    &&& n.scene_membership@.len() == 0
    &&& n.ownership == OwnershipAssignment { controller: ControllerKind::Agent, is_locked: false }
    &&& n.enabled
    &&& n.audio_primitive matches Some(AudioPrimitive::Source(src)) && src.source_type == kind
        && src.channel_mode == ChannelMode::Mono && src.bus_target_id is None
    &&& n.bypassed is None
    &&& n.output_kind is None
    &&& n.channel_count is None
}

/// `c` is the command `e` describes.
pub open spec fn is_parsed(c: TypedCommand, e: ExpectedCommand) -> bool {
    match e {
        ExpectedCommand::AddSource(kind) => c matches TypedCommand::GraphEdit(
            GraphEditCommand::AddNode { node },
        ) && is_agent_source_node(node, kind),
        ExpectedCommand::RemoveNode(id) => c matches TypedCommand::GraphEdit(
            GraphEditCommand::RemoveNode { node_id },
        ) && node_id@ == id,
        ExpectedCommand::SetParameter(id, pid, v) => c matches TypedCommand::GraphEdit(
            GraphEditCommand::SetParameterValue { node_id, parameter_id, value },
        ) && node_id@ == id && parameter_id@ == pid && value == v,
        ExpectedCommand::RecallScene(id) => c matches TypedCommand::Performance(
            PerformanceCommand::RecallScene { scene_id },
        ) && scene_id@ == id,
        ExpectedCommand::SaveVariation(name, sid) => c matches TypedCommand::Performance(
            PerformanceCommand::SaveVariation { name: n, scene_id },
        ) && n@ == name && scene_id@ == sid,
        ExpectedCommand::RestoreVariation(id) => c matches TypedCommand::Performance(
            PerformanceCommand::RestoreVariation { variation_id },
        ) && variation_id@ == id,
    }
}

/// The "add" rule.
pub open spec fn expected_add(lower: Seq<char>) -> Option<ExpectedCommand> {
    if occurs_in(lower, "add"@) {
        match add_kind(lower) {
            Some(k) => Some(ExpectedCommand::AddSource(k)),
            None => None,
        }
    } else {
        None
    }
}

/// The "remove"/"delete" rule.
pub open spec fn expected_remove(lower: Seq<char>, nodes: Seq<Node>) -> Option<ExpectedCommand> {
    if occurs_in(lower, "remove"@) || occurs_in(lower, "delete"@) {
        match node_reference(lower, nodes) {
            Some(j) => Some(ExpectedCommand::RemoveNode(nodes[j].id@)),
            None => None,
        }
    } else {
        None
    }
}

/// The "set" rule: the referenced node's first parameter takes the number
/// the text names.
pub open spec fn expected_set<P: Fn(&String) -> Option<u64>>(
    lower: Seq<char>,
    nodes: Seq<Node>,
    p: P,
) -> Option<ExpectedCommand> {
    if occurs_in(lower, "set"@) {
        match node_reference(lower, nodes) {
            Some(j) => {
                let id = nodes[j].id@;
                let node = find_id(nodes, id);
                match numeric_value(p, words(lower)) {
                    Some(v) => if node.parameters@.len() > 0 {
                        Some(ExpectedCommand::SetParameter(id, node.parameters@[0].id@, v))
                    } else {
                        None
                    },
                    None => None,
                }
            },
            None => None,
        }
    } else {
        None
    }
}

/// The "recall scene" rule.
pub open spec fn expected_recall(lower: Seq<char>, scenes: Seq<SceneDefinition>) -> Option<
    ExpectedCommand,
> {
    if occurs_in(lower, "recall scene"@) {
        match scene_in_text(lower, scenes, 0) {
            Some(i) => Some(ExpectedCommand::RecallScene(scenes[i].id@)),
            None => None,
        }
    } else {
        None
    }
}

/// The "save variation" rule.
pub open spec fn expected_save(lower: Seq<char>, scenes: Seq<SceneDefinition>) -> Option<
    ExpectedCommand,
> {
    if occurs_in(lower, "save variation"@) {
        match save_scene(lower, scenes) {
            Some(i) => Some(ExpectedCommand::SaveVariation(variation_name(lower), scenes[i].id@)),
            None => None,
        }
    } else {
        None
    }
}

/// The "restore variation" rule: the first variation.
pub open spec fn expected_restore(lower: Seq<char>, variations: Seq<VariationDefinition>) -> Option<
    ExpectedCommand,
> {
    if occurs_in(lower, "restore variation"@) && variations.len() > 0 {
        Some(ExpectedCommand::RestoreVariation(variations[0].id@))
    } else {
        None
    }
}

/// What each rule yields for a text, in the order the rules are tried.
pub open spec fn expected_commands<P: Fn(&String) -> Option<u64>>(
    input: Seq<char>,
    nodes: Seq<Node>,
    scenes: Seq<SceneDefinition>,
    variations: Seq<VariationDefinition>,
    p: P,
) -> Seq<Option<ExpectedCommand>> {
    expected_from_lower(lowercase(input), nodes, scenes, variations, p)
}

/// What each rule yields for an already lower-cased text.
pub open spec fn expected_from_lower<P: Fn(&String) -> Option<u64>>(
    lower: Seq<char>,
    nodes: Seq<Node>,
    scenes: Seq<SceneDefinition>,
    variations: Seq<VariationDefinition>,
    p: P,
) -> Seq<Option<ExpectedCommand>> {
    seq![
        expected_add(lower),
        expected_remove(lower, nodes),
        expected_set(lower, nodes, p),
        expected_recall(lower, scenes),
        expected_save(lower, scenes),
        expected_restore(lower, variations),
    ]
}

/// The confidence of an intent: 0.9 when any rule but "set" matched, 0.85
/// when only "set" did, 0 when none did.
pub open spec fn intent_confidence(slots: Seq<Option<ExpectedCommand>>) -> u64 {
    if slots[0] is Some || slots[1] is Some || slots[3] is Some || slots[4] is Some
        || slots[5] is Some {
        CONFIDENCE_COMMAND
    } else if slots[2] is Some {
        CONFIDENCE_PARAMETER
    } else {
        0
    }
}

/// The commands that matched, in order.
pub open spec fn matched<T>(slots: Seq<Option<T>>) -> Seq<T>
    decreases slots.len(),
{
    if slots.len() == 0 {
        seq![]
    } else {
        let rest = matched(slots.drop_last());
        match slots.last() {
            Some(x) => rest.push(x),
            None => rest,
        }
    }
}

fn agent_source_node(kind: AudioSourceType) -> (n: Node)
    ensures
        is_agent_source_node(n, kind),
{
    let node_id = new_id();
    let port_id = new_id();
    let param_id = new_id();
    let type_id = match kind {
        AudioSourceType::Oscillator => "oscillator".to_owned(),
        AudioSourceType::Noise => "noise".to_owned(),
    };
    let mut ports: Vec<Port> = Vec::new();
    ports.push(
        Port {
            id: port_id,
            name: "main_out".to_owned(),
            direction: PortDirection::Output,
            signal_type: SignalType::Audio,
        },
    );
    let mut parameters: Vec<ParameterValue> = Vec::new();
    parameters.push(
        ParameterValue {
            id: param_id,
            name: "level".to_owned(),
            value: AGENT_SOURCE_LEVEL,
            default_value: AGENT_SOURCE_LEVEL,
            min_value: 0,
            max_value: UNIT_MAX,
            unit: "linear".to_owned(),
        },
    );
    Node {
        id: node_id,
        node_type: NodeType::Source,
        node_type_id: type_id,
        ports,
        parameters,
        runtime_target: Some("audio/source/default".to_owned()),
        scene_membership: Vec::new(),
        ownership: OwnershipAssignment { controller: ControllerKind::Agent, is_locked: false },
        enabled: true,
        audio_primitive: Some(
            AudioPrimitive::Source(
                AudioSourceNode {
                    source_type: kind,
                    channel_mode: ChannelMode::Mono,
                    bus_target_id: None,
                },
            ),
        ),
        bypassed: None,
        output_kind: None,
        channel_count: None,
    }
}

/// The command a rule yields, as its expectation describes it.
pub open spec fn yields(c: Option<TypedCommand>, e: Option<ExpectedCommand>) -> bool {
    match (c, e) {
        (Some(c), Some(e)) => is_parsed(c, e),
        (None, None) => true,
        _ => false,
    }
}

fn parse_add_command(lower: &str) -> (r: Option<TypedCommand>)
    ensures
        yields(r, expected_add(lower@)),
{
    if !str_contains(lower, "add") {
        return None;
    }
    let kind = if str_contains(lower, "oscillator") || str_contains(lower, "osc") {
        AudioSourceType::Oscillator
    } else if str_contains(lower, "noise") {
        AudioSourceType::Noise
    } else {
        return None;
    };
    let node = agent_source_node(kind);
    Some(TypedCommand::GraphEdit(GraphEditCommand::AddNode { node }))
}

fn parse_remove_command(
    lower: &str,
    ws: &Vec<String>,
    nodes: &Vec<Node>,
) -> (r: Option<TypedCommand>)
    requires
        ws@.len() == words(lower@).len(),
        forall|i: int| 0 <= i < ws@.len() ==> (#[trigger] ws@[i])@ == words(lower@)[i],
    ensures
        yields(r, expected_remove(lower@, nodes@)),
{
    if !(str_contains(lower, "remove") || str_contains(lower, "delete")) {
        return None;
    }
    match find_node_reference(ws, nodes, Ghost(lower@)) {
        Some(j) => {
            proof {
                lemma_node_reference(lower@, nodes@);
            }
            Some(
                TypedCommand::GraphEdit(GraphEditCommand::RemoveNode { node_id: nodes[j].id.clone() }),
            )
        },
        None => None,
    }
}

fn parse_set_parameter_command<P: Fn(&String) -> Option<u64>>(
    lower: &str,
    ws: &Vec<String>,
    nodes: &Vec<Node>,
    parse_number: &P,
) -> (r: Option<TypedCommand>)
    requires
        forall|s: &String| parse_number.requires((s,)),
        parser_deterministic(*parse_number),
        ws@.len() == words(lower@).len(),
        forall|i: int| 0 <= i < ws@.len() ==> (#[trigger] ws@[i])@ == words(lower@)[i],
    ensures
        yields(r, expected_set(lower@, nodes@, *parse_number)),
{
    if !str_contains(lower, "set") {
        return None;
    }
    let j = match find_node_reference(ws, nodes, Ghost(lower@)) {
        Some(j) => j,
        None => {
            return None;
        },
    };
    proof {
        lemma_node_reference(lower@, nodes@);
    }
    let node_id = nodes[j].id.clone();
    let f = match find_by_id(nodes, &node_id) {
        Some(f) => f,
        None => {
            return None;
        },
    };
    let value = match extract_numeric_value(ws, parse_number, Ghost(words(lower@))) {
        Some(v) => v,
        None => {
            return None;
        },
    };
    if nodes[f].parameters.len() == 0 {
        return None;
    }
    let parameter_id = nodes[f].parameters[0].id.clone();
    Some(
        TypedCommand::GraphEdit(
            GraphEditCommand::SetParameterValue { node_id, parameter_id, value },
        ),
    )
}

fn parse_recall_scene_command(lower: &str, scenes: &Vec<SceneDefinition>) -> (r: Option<
    TypedCommand,
>)
    ensures
        yields(r, expected_recall(lower@, scenes@)),
{
    if !str_contains(lower, "recall scene") {
        return None;
    }
    match find_scene_in_text(lower, scenes) {
        Some(i) => {
            proof {
                lemma_scene_in_text(lower@, scenes@, 0);
            }
            Some(
                TypedCommand::Performance(
                    PerformanceCommand::RecallScene { scene_id: scenes[i].id.clone() },
                ),
            )
        },
        None => None,
    }
}

fn parse_save_variation_command(lower: &str, scenes: &Vec<SceneDefinition>) -> (r: Option<
    TypedCommand,
>)
    ensures
        yields(r, expected_save(lower@, scenes@)),
{
    if !str_contains(lower, "save variation") {
        return None;
    }
    let cs = chars_of(lower);
    let name = match extract_quoted_name(&cs) {
        Some(v) => string_from_chars(&v),
        None => "agent-variation".to_owned(),
    };
    let scene = match extract_after_keyword(&cs, "for scene") {
        Some(rest) => {
            let rest_s = string_from_chars(&rest);
            let rest_l = to_lowercase(rest_s.as_str());
            let found = find_scene_containing(scenes, rest_l.as_str());
            proof {
                lemma_scene_containing(scenes@, rest_l@, 0);
            }
            found
        },
        None => if scenes.len() > 0 {
            Some(0)
        } else {
            None
        },
    };
    match scene {
        Some(i) => Some(
            TypedCommand::Performance(
                PerformanceCommand::SaveVariation { name, scene_id: scenes[i].id.clone() },
            ),
        ),
        None => None,
    }
}

fn parse_restore_variation_command(lower: &str, variations: &Vec<VariationDefinition>) -> (r:
    Option<TypedCommand>)
    ensures
        yields(r, expected_restore(lower@, variations@)),
{
    if !str_contains(lower, "restore variation") {
        return None;
    }
    if variations.len() == 0 {
        return None;
    }
    Some(
        TypedCommand::Performance(
            PerformanceCommand::RestoreVariation { variation_id: variations[0].id.clone() },
        ),
    )
}


fn push_matched(v: &mut Vec<TypedCommand>, c: Option<TypedCommand>, Ghost(slots): Ghost<
    Seq<Option<ExpectedCommand>>,
>, Ghost(e): Ghost<Option<ExpectedCommand>>)
    requires
        old(v)@.len() == matched(slots).len(),
        forall|k: int| 0 <= k < old(v)@.len() ==> is_parsed(#[trigger] old(v)@[k], matched(slots)[k]),
        yields(c, e),
    ensures
        final(v)@.len() == old(v)@.len() + (if c is Some { 1int } else { 0int }),
        final(v)@.len() == matched(slots.push(e)).len(),
        forall|k: int|
            0 <= k < final(v)@.len() ==> is_parsed(#[trigger] final(v)@[k], matched(slots.push(e))[k]),
{
    assert(slots.push(e).drop_last() =~= slots);
    match c {
        Some(x) => {
            v.push(x);
        },
        None => {},
    }
}

/// The intent read from `input` whose lower-cased text is `lower`, against
/// the given nodes, scenes and variations (see `parse_agent_intent`).
pub fn parse_lowered_intent<P: Fn(&String) -> Option<u64>>(
    input: &str,
    lower: &str,
    nodes: &Vec<Node>,
    scenes: &Vec<SceneDefinition>,
    variations: &Vec<VariationDefinition>,
    parse_number: &P,
) -> (r: AgentIntent)
    requires
        forall|s: &String| parse_number.requires((s,)),
        parser_deterministic(*parse_number),
    ensures
        r.raw_input@ == input@,
        r.parsed_commands@.len() == matched(
            expected_from_lower(lower@, nodes@, scenes@, variations@, *parse_number),
        ).len(),
        forall|k: int|
            0 <= k < r.parsed_commands@.len() ==> is_parsed(
                #[trigger] r.parsed_commands@[k],
                matched(expected_from_lower(lower@, nodes@, scenes@, variations@, *parse_number))[k],
            ),
        r.confidence == intent_confidence(
            expected_from_lower(lower@, nodes@, scenes@, variations@, *parse_number),
        ),
{
    let cs = chars_of(lower);
    let ws = word_strings(&cs);
    let ghost slots = expected_from_lower(lower@, nodes@, scenes@, variations@, *parse_number);
    let mut commands: Vec<TypedCommand> = Vec::new();
    let mut confidence: u64 = 0;

    let add = parse_add_command(lower);
    if add.is_some() {
        confidence = CONFIDENCE_COMMAND;
    }
    push_matched(&mut commands, add, Ghost(Seq::empty()), Ghost(slots[0]));

    let remove = parse_remove_command(lower, &ws, nodes);
    if remove.is_some() {
        confidence = CONFIDENCE_COMMAND;
    }
    push_matched(&mut commands, remove, Ghost(Seq::empty().push(slots[0])), Ghost(slots[1]));

    let set = parse_set_parameter_command(lower, &ws, nodes, parse_number);
    if set.is_some() && confidence == 0 {
        confidence = CONFIDENCE_PARAMETER;
    }
    push_matched(&mut commands, set, Ghost(Seq::empty().push(slots[0]).push(slots[1])), Ghost(slots[2]));

    let recall = parse_recall_scene_command(lower, scenes);
    if recall.is_some() {
        confidence = CONFIDENCE_COMMAND;
    }
    push_matched(&mut commands, recall, Ghost(Seq::empty().push(slots[0]).push(slots[1]).push(slots[2])), Ghost(slots[3]));

    let save = parse_save_variation_command(lower, scenes);
    if save.is_some() {
        confidence = CONFIDENCE_COMMAND;
    }
    push_matched(
        &mut commands,
        save,
        Ghost(Seq::empty().push(slots[0]).push(slots[1]).push(slots[2]).push(slots[3])),
        Ghost(slots[4]),
    );

    let restore = parse_restore_variation_command(lower, variations);
    if restore.is_some() {
        confidence = CONFIDENCE_COMMAND;
    }
    push_matched(
        &mut commands,
        restore,
        Ghost(Seq::empty().push(slots[0]).push(slots[1]).push(slots[2]).push(slots[3]).push(slots[4])),
        Ghost(slots[5]),
    );
    proof {
        assert(Seq::empty().push(slots[0]).push(slots[1]).push(slots[2]).push(slots[3]).push(slots[4]).push(slots[5]) =~= slots);
    }
    assert(confidence == 0 ==> commands.len() == 0);
    if commands.len() > 0 && confidence == 0 {
        confidence = CONFIDENCE_FALLBACK;
    }
    AgentIntent { raw_input: input.to_owned(), parsed_commands: commands, confidence }
}


/// The intent read from `input` against the given nodes, scenes and
/// variations (see `parse_agent_intent`).
pub fn parse_intent_against<P: Fn(&String) -> Option<u64>>(
    input: &str,
    nodes: &Vec<Node>,
    scenes: &Vec<SceneDefinition>,
    variations: &Vec<VariationDefinition>,
    parse_number: &P,
) -> (r: AgentIntent)
    requires
        forall|s: &String| parse_number.requires((s,)),
        parser_deterministic(*parse_number),
    ensures
        r.raw_input@ == input@,
        r.parsed_commands@.len() == matched(
            expected_commands(input@, nodes@, scenes@, variations@, *parse_number),
        ).len(),
        forall|k: int|
            0 <= k < r.parsed_commands@.len() ==> is_parsed(
                #[trigger] r.parsed_commands@[k],
                matched(expected_commands(input@, nodes@, scenes@, variations@, *parse_number))[k],
            ),
        r.confidence == intent_confidence(
            expected_commands(input@, nodes@, scenes@, variations@, *parse_number),
        ),
{
    let lower = to_lowercase(input);
    parse_lowered_intent(input, lower.as_str(), nodes, scenes, variations, parse_number)
}

/// Reads a typed intent out of a line of text.
///
/// The text is lower-cased and tried against each rule in turn: "add"
/// (an oscillator or noise source), "remove"/"delete" (the referenced
/// node), "set" (the referenced node's first parameter takes the number the
/// text names), "recall scene" (the first scene whose name occurs in the
/// text), "save variation" (a quoted name, for the scene after `for scene`
/// or the first scene) and "restore variation" (the first variation).
/// `parse_number` reads a number (`str::parse::<f64>` as a bit pattern).
pub fn parse_agent_intent<P: Fn(&String) -> Option<u64>>(
    input: &str,
    session: &SessionDocument,
    parse_number: &P,
) -> (r: AgentIntent)
    requires
        forall|s: &String| parse_number.requires((s,)),
        parser_deterministic(*parse_number),
    ensures
        r.raw_input@ == input@,
        r.parsed_commands@.len() == matched(
            expected_commands(
                input@,
                session.nodes@,
                session.scenes@,
                session.variations@,
                *parse_number,
            ),
        ).len(),
        forall|k: int|
            0 <= k < r.parsed_commands@.len() ==> is_parsed(
                #[trigger] r.parsed_commands@[k],
                matched(
                    expected_commands(
                        input@,
                        session.nodes@,
                        session.scenes@,
                        session.variations@,
                        *parse_number,
                    ),
                )[k],
            ),
        r.confidence == intent_confidence(
            expected_commands(
                input@,
                session.nodes@,
                session.scenes@,
                session.variations@,
                *parse_number,
            ),
        ),
{
    parse_intent_against(input, &session.nodes, &session.scenes, &session.variations, parse_number)
}

} // verus!
