//! Text primitives: HTML escaping, whitespace trimming, repeated prefix
//! stripping, decimal formatting and parsing, and the code-point order on
//! strings that `String`'s `Ord` follows.

use vstd::prelude::*;

verus! {

/// `String::push`: the character is appended at the end.
#[verifier::external_body]
pub(crate) fn push_char(s: &mut String, c: char)
    ensures
        final(s)@ == old(s)@.push(c),
{
    s.push(c);
}

// ---------------------------------------------------------------------------
// HTML escaping
// ---------------------------------------------------------------------------

/// The five characters that have a meaning in HTML text and attributes.
pub open spec fn is_markup_char(c: char) -> bool {
    c == '&' || c == '<' || c == '>' || c == '"' || c == '\''
}

/// What one character becomes in escaped text.
pub open spec fn esc_char(c: char) -> Seq<char> {
    if c == '&' {
        seq!['&', 'a', 'm', 'p', ';']
    } else if c == '<' {
        seq!['&', 'l', 't', ';']
    } else if c == '>' {
        seq!['&', 'g', 't', ';']
    } else if c == '"' {
        seq!['&', 'q', 'u', 'o', 't', ';']
    } else if c == '\'' {
        seq!['&', '#', 'x', '2', '7', ';']
    } else {
        seq![c]
    }
}

/// Escaped text: every character replaced by its escape, in order.
pub open spec fn esc_spec(s: Seq<char>) -> Seq<char>
    decreases s.len(),
{
    if s.len() == 0 {
        Seq::empty()
    } else {
        esc_spec(s.drop_last()) + esc_char(s.last())
    }
}

/// Escapes `&`, `<`, `>`, `"` and `'` for use in HTML text and attribute values.
pub fn esc(input: &str) -> (r: String)
    ensures
        r@ == esc_spec(input@),
{
    let mut out = String::new();
    let ghost s = input@;
    for c in it: input.chars()
        invariant
            it.seq() == s,
            out@ == esc_spec(s.take(it.index() as int)),
    {
        assert(s.take(it.index() + 1).drop_last() == s.take(it.index() as int));
        if c == '&' {
            proof {
                reveal_strlit("&amp;");
            }
            out.append("&amp;");
        } else if c == '<' {
            proof {
                reveal_strlit("&lt;");
            }
            out.append("&lt;");
        } else if c == '>' {
            proof {
                reveal_strlit("&gt;");
            }
            out.append("&gt;");
        } else if c == '"' {
            proof {
                reveal_strlit("&quot;");
            }
            out.append("&quot;");
        } else if c == '\'' {
            proof {
                reveal_strlit("&#x27;");
            }
            out.append("&#x27;");
        } else {
            push_char(&mut out, c);
        }
    }
    assert(s.take(s.len() as int) == s);
    out
}

/// Appends the escaped form of `s`.
pub fn push_esc(out: &mut String, s: &str)
    ensures
        final(out)@ == old(out)@ + esc_spec(s@),
{
    let e = esc(s);
    out.append(e.as_str());
}

/// Reading escaped text back: each entity that escaping produces stands for
/// its character, every other character for itself.
pub open spec fn unesc_spec(t: Seq<char>) -> Seq<char>
    decreases t.len(),
{
    if t.len() == 0 {
        Seq::empty()
    } else if t.len() >= 5 && t.take(5) == seq!['&', 'a', 'm', 'p', ';'] {
        seq!['&'] + unesc_spec(t.skip(5))
    } else if t.len() >= 4 && t.take(4) == seq!['&', 'l', 't', ';'] {
        seq!['<'] + unesc_spec(t.skip(4))
    } else if t.len() >= 4 && t.take(4) == seq!['&', 'g', 't', ';'] {
        seq!['>'] + unesc_spec(t.skip(4))
    } else if t.len() >= 6 && t.take(6) == seq!['&', 'q', 'u', 'o', 't', ';'] {
        seq!['"'] + unesc_spec(t.skip(6))
    } else if t.len() >= 6 && t.take(6) == seq!['&', '#', 'x', '2', '7', ';'] {
        seq!['\''] + unesc_spec(t.skip(6))
    } else {
        seq![t[0]] + unesc_spec(t.drop_first())
    }
}

proof fn lemma_esc_append(a: Seq<char>, b: Seq<char>)
    ensures
        esc_spec(a + b) == esc_spec(a) + esc_spec(b),
    decreases b.len(),
{
    if b.len() == 0 {
        assert(a + b == a);
    } else {
        lemma_esc_append(a, b.drop_last());
        assert((a + b).drop_last() == a + b.drop_last());
        assert((a + b).last() == b.last());
    }
}

proof fn lemma_esc_front(s: Seq<char>)
    requires
        s.len() > 0,
    ensures
        esc_spec(s) == esc_char(s[0]) + esc_spec(s.drop_first()),
{
    lemma_esc_append(seq![s[0]], s.drop_first());
    assert(seq![s[0]] + s.drop_first() == s);
    assert(seq![s[0]].drop_last() == Seq::<char>::empty());
    assert(esc_spec(Seq::<char>::empty()) == Seq::<char>::empty());
    assert(esc_spec(seq![s[0]]) =~= esc_char(s[0]));
}

proof fn lemma_unesc_step(c: char, rest: Seq<char>)
    ensures
        unesc_spec(esc_char(c) + rest) == seq![c] + unesc_spec(rest),
{
    let t = esc_char(c) + rest;
    let e = esc_char(c);
    let n = e.len();
    assert(t.skip(n as int) =~= rest);
    assert(t.take(n as int) =~= e);
    assert(t[0] == e[0]);
    if n > 1 {
        assert(t[1] == e[1]);
    }
    if !is_markup_char(c) {
        assert(t[0] == c);
        assert(t.drop_first() =~= rest);
        assert(t.len() >= 4 ==> t.take(4)[0] == c);
        assert(t.len() >= 5 ==> t.take(5)[0] == c);
        assert(t.len() >= 6 ==> t.take(6)[0] == c);
    } else {
        assert(t.len() >= 4 ==> t.take(4)[1] == t[1]);
        assert(t.len() >= 5 ==> t.take(5)[1] == t[1]);
        assert(t.len() >= 6 ==> t.take(6)[1] == t[1]);
    }
}

/// Escaping loses nothing: the unescaped text is read back from the escaped one.
pub proof fn lemma_esc_reversible(s: Seq<char>)
    ensures
        unesc_spec(esc_spec(s)) == s,
    decreases s.len(),
{
    if s.len() == 0 {
    } else {
        lemma_esc_front(s);
        lemma_unesc_step(s[0], esc_spec(s.drop_first()));
        lemma_esc_reversible(s.drop_first());
        assert(seq![s[0]] + s.drop_first() == s);
    }
}

/// Two texts with the same escaped form are the same text.
pub proof fn lemma_esc_injective(a: Seq<char>, b: Seq<char>)
    requires
        esc_spec(a) == esc_spec(b),
    ensures
        a == b,
{
    lemma_esc_reversible(a);
    lemma_esc_reversible(b);
}

/// Escaped text holds no `<`, `>`, `"` or `'`: it cannot open or close a tag
/// or an attribute value.
pub proof fn lemma_esc_no_markup(s: Seq<char>)
    ensures
        forall|k: int|
            0 <= k < esc_spec(s).len() ==> {
                let c = #[trigger] esc_spec(s)[k];
                c != '<' && c != '>' && c != '"' && c != '\''
            },
    decreases s.len(),
{
    if s.len() > 0 {
        lemma_esc_no_markup(s.drop_last());
        let p = esc_spec(s.drop_last());
        let e = esc_char(s.last());
        assert forall|k: int| 0 <= k < esc_spec(s).len() implies {
            let c = #[trigger] esc_spec(s)[k];
            c != '<' && c != '>' && c != '"' && c != '\''
        } by {
            if k >= p.len() {
                assert(esc_spec(s)[k] == e[k - p.len()]);
            } else {
                assert(esc_spec(s)[k] == p[k]);
            }
        }
    }
}

/// Text without any of the five characters is left as it is.
pub proof fn lemma_esc_plain(s: Seq<char>)
    requires
        forall|k: int| 0 <= k < s.len() ==> !is_markup_char(#[trigger] s[k]),
    ensures
        esc_spec(s) == s,
    decreases s.len(),
{
    if s.len() > 0 {
        assert(!is_markup_char(s[s.len() - 1]));
        lemma_esc_plain(s.drop_last());
        assert(s.drop_last().push(s.last()) == s);
    }
}

/// `t` holds `p` starting at position `k`.
pub open spec fn starts_with_at(t: Seq<char>, k: int, p: Seq<char>) -> bool {
    0 <= k && k + p.len() <= t.len() && t.subrange(k, k + p.len()) == p
}

/// Position `k` of `t` begins one of the five entities that escaping writes:
/// `&amp;`, `&lt;`, `&gt;`, `&quot;` or `&#x27;`.
pub open spec fn entity_at(t: Seq<char>, k: int) -> bool {
    ||| starts_with_at(t, k, esc_char('&'))
    ||| starts_with_at(t, k, esc_char('<'))
    ||| starts_with_at(t, k, esc_char('>'))
    ||| starts_with_at(t, k, esc_char('"'))
    ||| starts_with_at(t, k, esc_char('\''))
}

pub(crate) proof fn lemma_starts_with_extend(a: Seq<char>, b: Seq<char>, k: int, p: Seq<char>)
    requires
        starts_with_at(a, k, p),
    ensures
        starts_with_at(a + b, k, p),
{
    assert((a + b).subrange(k, k + p.len()) =~= a.subrange(k, k + p.len()));
}

/// Every `&` in escaped text begins one of the five entities: no `&` of the
/// input survives on its own.
pub proof fn lemma_esc_amp_starts_entity(s: Seq<char>)
    ensures
        forall|k: int|
            0 <= k < esc_spec(s).len() && #[trigger] esc_spec(s)[k] == '&' ==> entity_at(
                esc_spec(s),
                k,
            ),
    decreases s.len(),
{
    if s.len() > 0 {
        lemma_esc_amp_starts_entity(s.drop_last());
        let p = esc_spec(s.drop_last());
        let c = s.last();
        let e = esc_char(c);
        let t = esc_spec(s);
        assert(t == p + e);
        assert forall|k: int| 0 <= k < t.len() && #[trigger] t[k] == '&' implies entity_at(t, k) by {
            if k < p.len() {
                assert(t[k] == p[k]);
                assert(entity_at(p, k));
                if starts_with_at(p, k, esc_char('&')) {
                    lemma_starts_with_extend(p, e, k, esc_char('&'));
                } else if starts_with_at(p, k, esc_char('<')) {
                    lemma_starts_with_extend(p, e, k, esc_char('<'));
                } else if starts_with_at(p, k, esc_char('>')) {
                    lemma_starts_with_extend(p, e, k, esc_char('>'));
                } else if starts_with_at(p, k, esc_char('"')) {
                    lemma_starts_with_extend(p, e, k, esc_char('"'));
                } else {
                    lemma_starts_with_extend(p, e, k, esc_char('\''));
                }
            } else {
                let j = k - p.len();
                assert(t[k] == e[j]);
                assert(is_markup_char(c));
                assert(j == 0);
                assert(t.subrange(k, k + e.len()) =~= e);
                assert(starts_with_at(t, k, e));
            }
        }
    }
}

/// `str::replace` with a non-empty pattern: scanning from the left, every
/// occurrence of `p` that does not overlap an earlier replaced one becomes `r`.
pub open spec fn replace_spec(t: Seq<char>, p: Seq<char>, r: Seq<char>) -> Seq<char>
    decreases t.len(),
{
    if t.len() == 0 {
        Seq::empty()
    } else if p.len() > 0 && t.len() >= p.len() && t.take(p.len() as int) == p {
        r + replace_spec(t.skip(p.len() as int), p, r)
    } else {
        seq![t[0]] + replace_spec(t.drop_first(), p, r)
    }
}

/// Undoing escaping by five replace passes, one entity at a time: `&#x27;`,
/// `&quot;`, `&gt;`, `&lt;`, and `&amp;` last.
pub open spec fn unescape_by_passes(t: Seq<char>) -> Seq<char> {
    let t1 = replace_spec(t, esc_char('\''), seq!['\'']);
    let t2 = replace_spec(t1, esc_char('"'), seq!['"']);
    let t3 = replace_spec(t2, esc_char('>'), seq!['>']);
    let t4 = replace_spec(t3, esc_char('<'), seq!['<']);
    replace_spec(t4, esc_char('&'), seq!['&'])
}

/// The character that replace pass `k` restores.
spec fn pass_char(k: nat) -> char {
    if k == 0 {
        '\''
    } else if k == 1 {
        '"'
    } else if k == 2 {
        '>'
    } else if k == 3 {
        '<'
    } else {
        '&'
    }
}

/// The pass that restores `c`; 5 for a character that escaping keeps.
spec fn pass_index(c: char) -> nat {
    if c == '\'' {
        0
    } else if c == '"' {
        1
    } else if c == '>' {
        2
    } else if c == '<' {
        3
    } else if c == '&' {
        4
    } else {
        5
    }
}

/// What `c` is after the passes before pass `k`.
spec fn esc_stage(c: char, k: nat) -> Seq<char> {
    if pass_index(c) < 5 && k <= pass_index(c) {
        esc_char(c)
    } else {
        seq![c]
    }
}

/// The escaped text of `s` after the passes before pass `k`.
spec fn staged(s: Seq<char>, k: nat) -> Seq<char>
    decreases s.len(),
{
    if s.len() == 0 {
        Seq::empty()
    } else {
        esc_stage(s[0], k) + staged(s.drop_first(), k)
    }
}

proof fn lemma_staged_start(s: Seq<char>)
    ensures
        staged(s, 0) == esc_spec(s),
    decreases s.len(),
{
    if s.len() > 0 {
        lemma_esc_front(s);
        lemma_staged_start(s.drop_first());
        assert(esc_stage(s[0], 0) == esc_char(s[0]));
    }
}

proof fn lemma_staged_end(s: Seq<char>)
    ensures
        staged(s, 5) == s,
    decreases s.len(),
{
    if s.len() > 0 {
        lemma_staged_end(s.drop_first());
        assert(s =~= seq![s[0]] + s.drop_first());
    }
}

/// Text without `&` goes through a replace pass of an entity unchanged.
proof fn lemma_replace_plain(u: Seq<char>, x: Seq<char>, p: Seq<char>, r: Seq<char>)
    requires
        p.len() > 0,
        p[0] == '&',
        forall|i: int| 0 <= i < u.len() ==> #[trigger] u[i] != '&',
    ensures
        replace_spec(u + x, p, r) == u + replace_spec(x, p, r),
    decreases u.len(),
{
    if u.len() == 0 {
        assert(u + x =~= x);
        assert(u + replace_spec(x, p, r) =~= replace_spec(x, p, r));
    } else {
        let t = u + x;
        assert(t[0] == u[0]);
        if t.len() >= p.len() {
            assert(t.take(p.len() as int)[0] == t[0]);
        }
        assert(t.drop_first() =~= u.drop_first() + x);
        assert forall|i: int| 0 <= i < u.drop_first().len() implies #[trigger] u.drop_first()[i]
            != '&' by {
            assert(u.drop_first()[i] == u[i + 1]);
        }
        lemma_replace_plain(u.drop_first(), x, p, r);
        assert(seq![u[0]] + (u.drop_first() + replace_spec(x, p, r)) =~= u + replace_spec(x, p, r));
    }
}

/// One character of staged text through pass `k`.
#[verifier::rlimit(40)]
proof fn lemma_replace_token(c: char, k: nat, x: Seq<char>)
    requires
        k < 5,
    ensures
        replace_spec(esc_stage(c, k) + x, esc_char(pass_char(k)), seq![pass_char(k)])
            == esc_stage(c, (k + 1) as nat) + replace_spec(
            x,
            esc_char(pass_char(k)),
            seq![pass_char(k)],
        ),
{
    let p = esc_char(pass_char(k));
    let r = seq![pass_char(k)];
    let u = esc_stage(c, k);
    let t = u + x;
    assert(p[0] == '&');
    if pass_index(c) == k {
        assert(c == pass_char(k));
        assert(u == p);
        assert(t.take(p.len() as int) =~= p);
        assert(t.skip(p.len() as int) =~= x);
        assert(esc_stage(c, (k + 1) as nat) == r);
    } else if pass_index(c) < 5 && k < pass_index(c) {
        assert(esc_stage(c, (k + 1) as nat) == u);
        assert(u == esc_char(c));
        assert(u[0] == '&');
        assert(u[1] != p[1]);
        assert(t[0] == '&');
        if t.len() >= p.len() {
            assert(t.take(p.len() as int)[1] == u[1]);
        }
        let w = u.drop_first();
        assert(t.drop_first() =~= w + x);
        assert(forall|i: int| 0 <= i < w.len() ==> #[trigger] w[i] != '&');
        lemma_replace_plain(w, x, p, r);
        assert(seq![t[0]] + (w + replace_spec(x, p, r)) =~= u + replace_spec(x, p, r));
    } else {
        assert(esc_stage(c, (k + 1) as nat) == u);
        assert(u == seq![c]);
        assert(c != '&');
        assert(forall|i: int| 0 <= i < u.len() ==> #[trigger] u[i] != '&');
        lemma_replace_plain(u, x, p, r);
    }
}

/// Pass `k` turns the text staged before it into the text staged after it.
proof fn lemma_replace_stage(s: Seq<char>, k: nat)
    requires
        k < 5,
    ensures
        replace_spec(staged(s, k), esc_char(pass_char(k)), seq![pass_char(k)]) == staged(
            s,
            (k + 1) as nat,
        ),
    decreases s.len(),
{
    if s.len() == 0 {
        assert(replace_spec(Seq::<char>::empty(), esc_char(pass_char(k)), seq![pass_char(k)])
            == Seq::<char>::empty());
    } else {
        lemma_replace_token(s[0], k, staged(s.drop_first(), k));
        lemma_replace_stage(s.drop_first(), k);
    }
}

/// Replacing `&#x27;`, `&quot;`, `&gt;`, `&lt;` and then `&amp;` by the
/// characters they stand for, each in one left-to-right pass, gives back the
/// text that was escaped.
pub proof fn lemma_esc_undone_by_replace_passes(s: Seq<char>)
    ensures
        unescape_by_passes(esc_spec(s)) == s,
{
    lemma_staged_start(s);
    lemma_replace_stage(s, 0);
    lemma_replace_stage(s, 1);
    lemma_replace_stage(s, 2);
    lemma_replace_stage(s, 3);
    lemma_replace_stage(s, 4);
    lemma_staged_end(s);
}

// ---------------------------------------------------------------------------
// Whitespace trimming
// ---------------------------------------------------------------------------

/// The Unicode `White_Space` characters, which `str::trim` removes.
pub open spec fn is_ws(c: char) -> bool {
    ('\u{9}' <= c && c <= '\u{d}') || c == ' ' || c == '\u{85}' || c == '\u{a0}' || c
        == '\u{1680}' || ('\u{2000}' <= c && c <= '\u{200a}') || c == '\u{2028}' || c
        == '\u{2029}' || c == '\u{202f}' || c == '\u{205f}' || c == '\u{3000}'
}

fn is_ws_exec(c: char) -> (r: bool)
    ensures
        r == is_ws(c),
{
    ('\u{9}' <= c && c <= '\u{d}') || c == ' ' || c == '\u{85}' || c == '\u{a0}' || c
        == '\u{1680}' || ('\u{2000}' <= c && c <= '\u{200a}') || c == '\u{2028}' || c
        == '\u{2029}' || c == '\u{202f}' || c == '\u{205f}' || c == '\u{3000}'
}

/// Number of whitespace characters at the front.
pub open spec fn lead_ws(s: Seq<char>) -> nat
    decreases s.len(),
{
    if s.len() > 0 && is_ws(s[0]) {
        1 + lead_ws(s.drop_first())
    } else {
        0
    }
}

/// Number of whitespace characters at the end.
pub open spec fn trail_ws(s: Seq<char>) -> nat
    decreases s.len(),
{
    if s.len() > 0 && is_ws(s.last()) {
        1 + trail_ws(s.drop_last())
    } else {
        0
    }
}

/// The text without leading and trailing whitespace.
pub open spec fn trim_spec(s: Seq<char>) -> Seq<char> {
    let t = s.skip(lead_ws(s) as int);
    t.take(t.len() - trail_ws(t))
}

proof fn lemma_lead_props(s: Seq<char>)
    ensures
        lead_ws(s) <= s.len(),
        forall|k: int| 0 <= k < lead_ws(s) ==> is_ws(#[trigger] s[k]),
        lead_ws(s) < s.len() ==> !is_ws(s[lead_ws(s) as int]),
    decreases s.len(),
{
    if s.len() > 0 && is_ws(s[0]) {
        lemma_lead_props(s.drop_first());
        assert forall|k: int| 0 <= k < lead_ws(s) implies is_ws(#[trigger] s[k]) by {
            if k > 0 {
                assert(s[k] == s.drop_first()[k - 1]);
            }
        }
    }
}

proof fn lemma_trail_props(s: Seq<char>)
    ensures
        trail_ws(s) <= s.len(),
        forall|k: int| s.len() - trail_ws(s) <= k < s.len() ==> is_ws(#[trigger] s[k]),
        trail_ws(s) < s.len() ==> !is_ws(s[s.len() - trail_ws(s) - 1]),
    decreases s.len(),
{
    if s.len() > 0 && is_ws(s.last()) {
        lemma_trail_props(s.drop_last());
        assert forall|k: int| s.len() - trail_ws(s) <= k < s.len() implies is_ws(
            #[trigger] s[k],
        ) by {
            if k < s.len() - 1 {
                assert(s[k] == s.drop_last()[k]);
            }
        }
        if trail_ws(s) < s.len() {
            assert(s[s.len() - trail_ws(s) - 1] == s.drop_last()[s.drop_last().len() - trail_ws(
                s.drop_last(),
            ) - 1]);
        }
    }
}

proof fn lemma_lead_exact(s: Seq<char>, i: int)
    requires
        0 <= i <= s.len(),
        forall|k: int| 0 <= k < i ==> is_ws(#[trigger] s[k]),
        i == s.len() || !is_ws(s[i]),
    ensures
        lead_ws(s) == i,
    decreases i,
{
    if i > 0 {
        assert(is_ws(s[0]));
        assert forall|k: int| 0 <= k < i - 1 implies is_ws(#[trigger] s.drop_first()[k]) by {
            assert(s.drop_first()[k] == s[k + 1]);
        }
        if i < s.len() {
            assert(s.drop_first()[i - 1] == s[i]);
        }
        lemma_lead_exact(s.drop_first(), i - 1);
    }
}

proof fn lemma_trail_exact(s: Seq<char>, j: int)
    requires
        0 <= j <= s.len(),
        forall|k: int| j <= k < s.len() ==> is_ws(#[trigger] s[k]),
        j == 0 || !is_ws(s[j - 1]),
    ensures
        trail_ws(s) == s.len() - j,
    decreases s.len() - j,
{
    if j < s.len() {
        assert(is_ws(s[s.len() - 1]));
        assert forall|k: int| j <= k < s.len() - 1 implies is_ws(#[trigger] s.drop_last()[k]) by {
            assert(s.drop_last()[k] == s[k]);
        }
        if j > 0 {
            assert(s.drop_last()[j - 1] == s[j - 1]);
        }
        lemma_trail_exact(s.drop_last(), j);
    }
}

/// `str::trim`: the text without leading and trailing whitespace.
pub fn trim(s: &str) -> (r: String)
    ensures
        r@ == trim_spec(s@),
{
    let n = s.unicode_len();
    let mut i: usize = 0;
    while i < n && is_ws_exec(s.get_char(i))
        invariant
            n == s@.len(),
            i <= n,
            forall|k: int| 0 <= k < i ==> is_ws(#[trigger] s@[k]),
        decreases n - i,
    {
        i = i + 1;
    }
    let mut j: usize = n;
    while j > i && is_ws_exec(s.get_char(j - 1))
        invariant
            n == s@.len(),
            i <= j <= n,
            forall|k: int| j <= k < n ==> is_ws(#[trigger] s@[k]),
        decreases j,
    {
        j = j - 1;
    }
    proof {
        lemma_lead_exact(s@, i as int);
        let t = s@.skip(i as int);
        assert forall|k: int| j - i <= k < t.len() implies is_ws(#[trigger] t[k]) by {
            assert(t[k] == s@[k + i]);
        }
        if j > i {
            assert(t[j - i - 1] == s@[j - 1]);
        }
        lemma_trail_exact(t, j - i);
        assert(t.take(t.len() - trail_ws(t)) == s@.subrange(i as int, j as int));
    }
    String::from_str(s.substring_char(i, j))
}

/// Trimmed text neither starts nor ends with whitespace.
pub proof fn lemma_trim_edges(s: Seq<char>)
    ensures
        trim_spec(s).len() > 0 ==> !is_ws(trim_spec(s)[0]) && !is_ws(trim_spec(s).last()),
{
    lemma_lead_props(s);
    let t = s.skip(lead_ws(s) as int);
    lemma_trail_props(t);
    if trim_spec(s).len() > 0 {
        assert(trim_spec(s)[0] == t[0]);
        assert(t[0] == s[lead_ws(s) as int]);
        assert(trim_spec(s).last() == t[t.len() - trail_ws(t) - 1]);
    }
}

/// Trimming twice is trimming once.
pub proof fn lemma_trim_idempotent(s: Seq<char>)
    ensures
        trim_spec(trim_spec(s)) == trim_spec(s),
{
    let t = trim_spec(s);
    lemma_trim_edges(s);
    if t.len() > 0 {
        assert(lead_ws(t) == 0);
        assert(t.skip(0) == t);
        assert(trail_ws(t) == 0);
    } else {
        assert(lead_ws(t) == 0);
        assert(t.skip(0) == t);
    }
    assert(t.take(t.len() as int) == t);
}

// ---------------------------------------------------------------------------
// Repeated prefix stripping
// ---------------------------------------------------------------------------

/// `str::trim_start_matches` with a text pattern: every leading copy of `p`
/// removed.
pub open spec fn strip_leading_spec(s: Seq<char>, p: Seq<char>) -> Seq<char>
    decreases s.len(),
{
    if p.len() > 0 && s.len() >= p.len() && s.take(p.len() as int) == p {
        strip_leading_spec(s.skip(p.len() as int), p)
    } else {
        s
    }
}

fn has_text_at(s: &str, n: usize, i: usize, p: &str, m: usize) -> (r: bool)
    requires
        n == s@.len(),
        m == p@.len(),
        i <= n,
    ensures
        r == (n - i >= m && s@.skip(i as int).take(m as int) == p@),
{
    if n - i < m {
        return false;
    }
    let mut k: usize = 0;
    while k < m
        invariant
            n == s@.len(),
            m == p@.len(),
            i + m <= n,
            k <= m,
            forall|q: int| 0 <= q < k ==> s@[i + q] == p@[q],
        decreases m - k,
    {
        if s.get_char(i + k) != p.get_char(k) {
            assert(s@.skip(i as int).take(m as int)[k as int] == s@[i + k]);
            return false;
        }
        k = k + 1;
    }
    assert(s@.skip(i as int).take(m as int) =~= p@);
    true
}

/// `str::trim_start_matches(p)`: removes every leading copy of `p`.
pub fn strip_leading(s: &str, p: &str) -> (r: String)
    ensures
        r@ == strip_leading_spec(s@, p@),
{
    let n = s.unicode_len();
    let m = p.unicode_len();
    let mut i: usize = 0;
    assert(s@.skip(0) == s@);
    if m > 0 {
        while has_text_at(s, n, i, p, m)
            invariant
                n == s@.len(),
                m == p@.len(),
                m > 0,
                i <= n,
                strip_leading_spec(s@, p@) == strip_leading_spec(s@.skip(i as int), p@),
            decreases n - i,
        {
            let ghost t = s@.skip(i as int);
            assert(t.skip(m as int) == s@.skip(i + m));
            i = i + m;
        }
    }
    assert(s@.skip(0) == s@);
    assert(s@.subrange(i as int, n as int) == s@.skip(i as int));
    String::from_str(s.substring_char(i, n))
}

// ---------------------------------------------------------------------------
// Decimal numbers
// ---------------------------------------------------------------------------

/// The decimal digit for `d` (`d < 10`).
pub open spec fn digit_char(d: nat) -> char {
    if d == 0 {
        '0'
    } else if d == 1 {
        '1'
    } else if d == 2 {
        '2'
    } else if d == 3 {
        '3'
    } else if d == 4 {
        '4'
    } else if d == 5 {
        '5'
    } else if d == 6 {
        '6'
    } else if d == 7 {
        '7'
    } else if d == 8 {
        '8'
    } else {
        '9'
    }
}

/// Decimal digits of a natural number, without leading zeros.
pub open spec fn nat_decimal(n: nat) -> Seq<char>
    decreases n,
{
    if n < 10 {
        seq![digit_char(n)]
    } else {
        nat_decimal(n / 10).push(digit_char(n % 10))
    }
}

/// Decimal form of an integer as `Display` writes it: a `-` before negative ones.
pub open spec fn int_decimal(n: int) -> Seq<char> {
    if n < 0 {
        seq!['-'] + nat_decimal((-n) as nat)
    } else {
        nat_decimal(n as nat)
    }
}

fn digit_of(d: u64) -> (c: char)
    requires
        d < 10,
    ensures
        c == digit_char(d as nat),
{
    if d == 0 {
        '0'
    } else if d == 1 {
        '1'
    } else if d == 2 {
        '2'
    } else if d == 3 {
        '3'
    } else if d == 4 {
        '4'
    } else if d == 5 {
        '5'
    } else if d == 6 {
        '6'
    } else if d == 7 {
        '7'
    } else if d == 8 {
        '8'
    } else {
        '9'
    }
}

/// Decimal digits of an unsigned number (`u64::to_string`).
pub fn fmt_u64(n: u64) -> (r: String)
    ensures
        r@ == nat_decimal(n as nat),
    decreases n,
{
    if n < 10 {
        let mut s = String::new();
        push_char(&mut s, digit_of(n));
        s
    } else {
        let mut s = fmt_u64(n / 10);
        push_char(&mut s, digit_of(n % 10));
        s
    }
}

/// Decimal form of a signed number (`i64::to_string`).
pub fn fmt_i64(n: i64) -> (r: String)
    ensures
        r@ == int_decimal(n as int),
{
    if n < 0 {
        let magnitude: u64 = ((-(n + 1)) as u64) + 1;
        let mut s = String::new();
        push_char(&mut s, '-');
        let digits = fmt_u64(magnitude);
        s.append(digits.as_str());
        s
    } else {
        fmt_u64(n as u64)
    }
}

/// Appends the decimal form of `n`.
pub fn push_i64(out: &mut String, n: i64)
    ensures
        final(out)@ == old(out)@ + int_decimal(n as int),
{
    let d = fmt_i64(n);
    out.append(d.as_str());
}

/// Decimal form of a count (`usize::to_string`).
pub fn fmt_usize(n: usize) -> (r: String)
    ensures
        r@ == nat_decimal(n as nat),
{
    fmt_u64(n as u64)
}

pub open spec fn is_digit(c: char) -> bool {
    '0' <= c && c <= '9'
}

pub open spec fn all_digits(s: Seq<char>) -> bool {
    forall|k: int| 0 <= k < s.len() ==> is_digit(#[trigger] s[k])
}

/// The value of a run of decimal digits.
pub open spec fn digits_value(s: Seq<char>) -> int
    decreases s.len(),
{
    if s.len() == 0 {
        0
    } else {
        digits_value(s.drop_last()) * 10 + ((s.last() as int) - ('0' as int))
    }
}

/// `str::parse::<i64>`: an optional `+` or `-`, then one or more decimal
/// digits whose value fits in `i64`; anything else is refused.
pub open spec fn parse_i64_spec(s: Seq<char>) -> Option<i64> {
    if s.len() == 0 {
        None
    } else {
        let body = if s[0] == '-' || s[0] == '+' {
            s.drop_first()
        } else {
            s
        };
        if body.len() == 0 || !all_digits(body) {
            None
        } else {
            let v = if s[0] == '-' {
                -digits_value(body)
            } else {
                digits_value(body)
            };
            if i64::MIN <= v <= i64::MAX {
                Some(v as i64)
            } else {
                None
            }
        }
    }
}

proof fn lemma_digits_value_nonneg(s: Seq<char>)
    requires
        all_digits(s),
    ensures
        digits_value(s) >= 0,
    decreases s.len(),
{
    if s.len() > 0 {
        assert(is_digit(s[s.len() - 1]));
        assert(all_digits(s.drop_last())) by {
            assert forall|k: int| 0 <= k < s.drop_last().len() implies is_digit(
                #[trigger] s.drop_last()[k],
            ) by {
                assert(s.drop_last()[k] == s[k]);
            }
        }
        lemma_digits_value_nonneg(s.drop_last());
    }
}

/// `str::parse::<i64>`: `None` where the standard parser returns an error.
#[verifier::rlimit(40)]
pub fn parse_i64(s: &str) -> (r: Option<i64>)
    ensures
        r == parse_i64_spec(s@),
{
    let n = s.unicode_len();
    if n == 0 {
        return None;
    }
    let first = s.get_char(0);
    let start: usize = if first == '-' || first == '+' {
        1
    } else {
        0
    };
    if start == n {
        assert(s@.drop_first().len() == 0);
        return None;
    }
    let ghost body = s@.skip(start as int);
    assert(start == 1 ==> body == s@.drop_first());
    assert(start == 0 ==> body == s@);
    let cap: u128 = 9223372036854775809;
    let mut acc: u128 = 0;
    let mut i: usize = start;
    while i < n
        invariant
            n == s@.len(),
            start <= i <= n,
            body == s@.skip(start as int),
            s@.len() > 0,
            s@[0] == first,
            body.len() > 0,
            (first == '-' || first == '+') ==> body == s@.drop_first(),
            !(first == '-' || first == '+') ==> body == s@,
            cap == 9223372036854775809,
            all_digits(body.take(i - start)),
            digits_value(body.take(i - start)) >= 0,
            acc == (if digits_value(body.take(i - start)) < cap {
                digits_value(body.take(i - start))
            } else {
                cap as int
            }),
        decreases n - i,
    {
        let c = s.get_char(i);
        if !('0' <= c && c <= '9') {
            assert(body[i - start] == c);
            assert(!is_digit(body[i - start]));
            assert(!all_digits(body));
            return None;
        }
        let d: u128 = (c as u32 - 48u32) as u128;
        let ghost prev = body.take(i - start);
        let ghost next = body.take(i - start + 1);
        assert(next.drop_last() == prev);
        assert(next.last() == c);
        assert(digits_value(next) == digits_value(prev) * 10 + d);
        proof {
            let v = digits_value(prev);
            if v >= cap {
                assert(v * 10 + d >= cap) by (nonlinear_arith)
                    requires
                        v >= cap,
                        d >= 0,
                ;
            }
        }
        if acc >= cap {
            acc = cap;
        } else {
            let bigger = acc * 10 + d;
            acc = if bigger < cap {
                bigger
            } else {
                cap
            };
        }
        assert(all_digits(next)) by {
            assert forall|k: int| 0 <= k < next.len() implies is_digit(#[trigger] next[k]) by {
                if k < next.len() - 1 {
                    assert(next[k] == prev[k]);
                }
            }
        }
        i = i + 1;
    }
    assert(body.take(n - start) == body);
    if first == '-' {
        if acc <= 9223372036854775808 {
            let v: i128 = -(acc as i128);
            Some(v as i64)
        } else {
            None
        }
    } else {
        if acc <= 9223372036854775807 {
            Some(acc as i64)
        } else {
            None
        }
    }
}

pub(crate) proof fn lemma_nat_decimal_digits(n: nat)
    ensures
        nat_decimal(n).len() > 0,
        all_digits(nat_decimal(n)),
        digits_value(nat_decimal(n)) == n,
    decreases n,
{
    if n >= 10 {
        lemma_nat_decimal_digits(n / 10);
        let s = nat_decimal(n);
        let p = nat_decimal(n / 10);
        let d = (n % 10) as nat;
        assert(d < 10);
        assert((digit_char(d) as int) - ('0' as int) == d);
        assert(is_digit(digit_char(d)));
        assert(s.drop_last() == p);
        assert(s.last() == digit_char(d));
        assert(n == (n / 10) * 10 + d);
        assert(digits_value(s) == digits_value(s.drop_last()) * 10 + ((s.last() as int) - (
        '0' as int)));
        assert(all_digits(s)) by {
            assert forall|k: int| 0 <= k < s.len() implies is_digit(#[trigger] s[k]) by {
                if k < p.len() {
                    assert(s[k] == p[k]);
                }
            }
        }
    } else {
        let s = nat_decimal(n);
        assert((digit_char(n) as int) - ('0' as int) == n);
        assert(s.drop_last() =~= Seq::<char>::empty());
        assert(digits_value(s) == digits_value(s.drop_last()) * 10 + ((s.last() as int) - (
        '0' as int)));
    }
}

/// Reading back what `fmt_i64` writes gives the number again.
pub proof fn lemma_decimal_roundtrip(n: i64)
    ensures
        parse_i64_spec(int_decimal(n as int)) == Some(n),
{
    if n < 0 {
        let m = (-n) as nat;
        lemma_nat_decimal_digits(m);
        let s = int_decimal(n as int);
        assert(s[0] == '-');
        assert(s.drop_first() == nat_decimal(m));
    } else {
        lemma_nat_decimal_digits(n as nat);
        let s = int_decimal(n as int);
        assert(is_digit(s[0]));
    }
}

// ---------------------------------------------------------------------------
// Equality and order
// ---------------------------------------------------------------------------

/// Text equality.
pub fn same_text(a: &str, b: &str) -> (r: bool)
    ensures
        r == (a@ == b@),
{
    let x = a.to_owned();
    let y = b.to_owned();
    x == y
}

/// Code-point order on text; `String`'s `Ord` (byte order of UTF-8) agrees
/// with it.
pub open spec fn lex_lt(a: Seq<char>, b: Seq<char>) -> bool
    decreases a.len(),
{
    if a.len() == 0 {
        b.len() > 0
    } else if b.len() == 0 {
        false
    } else if a[0] != b[0] {
        a[0] < b[0]
    } else {
        lex_lt(a.drop_first(), b.drop_first())
    }
}

/// `a < b` on text.
pub fn text_less(a: &str, b: &str) -> (r: bool)
    ensures
        r == lex_lt(a@, b@),
{
    let n = a.unicode_len();
    let m = b.unicode_len();
    let mut i: usize = 0;
    assert(a@.skip(0) == a@);
    assert(b@.skip(0) == b@);
    while i < n && i < m
        invariant
            n == a@.len(),
            m == b@.len(),
            i <= n,
            i <= m,
            lex_lt(a@, b@) == lex_lt(a@.skip(i as int), b@.skip(i as int)),
        decreases n - i,
    {
        let x = a.get_char(i);
        let y = b.get_char(i);
        let ghost sa = a@.skip(i as int);
        let ghost sb = b@.skip(i as int);
        assert(sa[0] == x && sb[0] == y);
        if x != y {
            return x < y;
        }
        assert(sa.drop_first() == a@.skip(i + 1));
        assert(sb.drop_first() == b@.skip(i + 1));
        i = i + 1;
    }
    i < m && i == n
}

/// The order is irreflexive.
pub proof fn lemma_lex_irreflexive(a: Seq<char>)
    ensures
        !lex_lt(a, a),
    decreases a.len(),
{
    if a.len() > 0 {
        lemma_lex_irreflexive(a.drop_first());
    }
}

/// The order is transitive.
pub proof fn lemma_lex_transitive(a: Seq<char>, b: Seq<char>, c: Seq<char>)
    requires
        lex_lt(a, b),
        lex_lt(b, c),
    ensures
        lex_lt(a, c),
    decreases a.len(),
{
    if a.len() > 0 && b.len() > 0 && c.len() > 0 && a[0] == b[0] && b[0] == c[0] {
        lemma_lex_transitive(a.drop_first(), b.drop_first(), c.drop_first());
    }
}

/// Any two different texts are ordered one way or the other.
pub proof fn lemma_lex_total(a: Seq<char>, b: Seq<char>)
    requires
        a != b,
    ensures
        lex_lt(a, b) || lex_lt(b, a),
    decreases a.len(),
{
    if a.len() == 0 && b.len() == 0 {
        assert(a =~= b);
    } else if a.len() > 0 && b.len() > 0 {
        if a[0] == b[0] {
            if a.drop_first() =~= b.drop_first() {
                assert(a =~= seq![a[0]] + a.drop_first());
                assert(b =~= seq![b[0]] + b.drop_first());
            } else {
                lemma_lex_total(a.drop_first(), b.drop_first());
            }
        }
    }
}

/// The order is asymmetric.
pub proof fn lemma_lex_asymmetric(a: Seq<char>, b: Seq<char>)
    requires
        lex_lt(a, b),
    ensures
        !lex_lt(b, a),
{
    if lex_lt(b, a) {
        lemma_lex_transitive(a, b, a);
        lemma_lex_irreflexive(a);
    }
}

} // verus!
