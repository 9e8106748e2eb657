//! URL slugs of game titles.
use vstd::prelude::*;
use vstd::string::*;
use crate::ids::{append_uuid, lemma_uuid_text_injective, lemma_uuid_text_len, spec_uuid_text};
use crate::text::{chars_of, is_alphanumeric, string_from_chars, to_lowercase, unicode_alphanumeric, unicode_lowercase};

verus! {

/// The non-empty runs of characters of `s` between `'-'`s, in order
/// (what `s.split('-').filter(|w| !w.is_empty())` yields).
pub open spec fn dash_words(s: Seq<char>) -> Seq<Seq<char>>
    decreases s.len(),
{
    if s.len() == 0 {
        seq![]
    } else {
        let w = dash_words(s.drop_last());
        let c = s.last();
        if c == '-' {
            w
        } else if s.len() >= 2 && s[s.len() - 2] != '-' {
            w.drop_last().push(w.last().push(c))
        } else {
            w.push(seq![c])
        }
    }
}

/// The words joined with `'-'` between them.
pub open spec fn join_dashes(ws: Seq<Seq<char>>) -> Seq<char>
    decreases ws.len(),
{
    if ws.len() == 0 {
        seq![]
    } else if ws.len() == 1 {
        ws[0]
    } else {
        join_dashes(ws.drop_last()) + seq!['-'] + ws.last()
    }
}

/// Each character kept when alphanumeric, otherwise replaced by `'-'`.
pub open spec fn dash_non_alnum(s: Seq<char>) -> Seq<char> {
    s.map_values(|c: char| if unicode_alphanumeric(c) { c } else { '-' })
}

/// The slug of a game: its lower-cased title with every run of non-alphanumeric
/// characters turned into a single `-` (none at either end), then `-` and the game id.
pub open spec fn spec_slug(title: Seq<char>, id: u128) -> Seq<char> {
    join_dashes(dash_words(dash_non_alnum(unicode_lowercase(title)))) + seq!['-'] + spec_uuid_text(id)
}

/// A word list ending in a word that ends with `c` when `s` ends with a non-dash `c`.
proof fn lemma_dash_words_last(s: Seq<char>)
    requires
        s.len() > 0,
        s.last() != '-',
    ensures
        dash_words(s).len() > 0,
        dash_words(s).last().len() > 0,
        dash_words(s).last().last() == s.last(),
    decreases s.len(),
{
}

/// Words are never empty.
proof fn lemma_dash_words_nonempty(s: Seq<char>)
    ensures
        forall|i: int| 0 <= i < dash_words(s).len() ==> #[trigger] dash_words(s)[i].len() > 0,
    decreases s.len(),
{
    if s.len() > 0 {
        let p = s.drop_last();
        lemma_dash_words_nonempty(p);
        let w = dash_words(p);
        if s.last() != '-' && s.len() >= 2 && s[s.len() - 2] != '-' {
            lemma_dash_words_last(p);
            let w2 = w.drop_last().push(w.last().push(s.last()));
            assert forall|i: int| 0 <= i < w2.len() implies #[trigger] w2[i].len() > 0 by {
                if i < w2.len() - 1 {
                    assert(w2[i] == w[i]);
                }
            }
        } else if s.last() != '-' {
            let w2 = w.push(seq![s.last()]);
            assert forall|i: int| 0 <= i < w2.len() implies #[trigger] w2[i].len() > 0 by {
                if i < w2.len() - 1 {
                    assert(w2[i] == w[i]);
                }
            }
        }
    }
}

/// Appending to the last word appends to the joined text.
proof fn lemma_join_extend(ws: Seq<Seq<char>>, c: char)
    requires
        ws.len() > 0,
    ensures
        join_dashes(ws.drop_last().push(ws.last().push(c))) == join_dashes(ws).push(c),
{
    let ws2 = ws.drop_last().push(ws.last().push(c));
    assert(ws2.drop_last() =~= ws.drop_last());
    if ws.len() == 1 {
        assert(join_dashes(ws2) == ws2[0]);
    } else {
        assert(join_dashes(ws2) == join_dashes(ws2.drop_last()) + seq!['-'] + ws2.last());
        assert(join_dashes(ws2) =~= join_dashes(ws).push(c));
    }
}

/// A new word adds a dash and the word (no dash when it is the first word).
proof fn lemma_join_push(ws: Seq<Seq<char>>, c: char)
    ensures
        join_dashes(ws.push(seq![c])) == if ws.len() == 0 {
            seq![c]
        } else {
            join_dashes(ws).push('-').push(c)
        },
{
    let ws2 = ws.push(seq![c]);
    assert(ws2.drop_last() =~= ws);
    if ws.len() > 0 {
        assert(join_dashes(ws2) =~= join_dashes(ws).push('-').push(c));
    }
}

/// Joins the non-empty `'-'`-separated words of `v` with single dashes.
fn collapse_dashes(v: &Vec<char>) -> (r: Vec<char>)
    ensures
        r@ == join_dashes(dash_words(v@)),
{
    let mut out: Vec<char> = Vec::new();
    let mut i: usize = 0;
    while i < v.len()
        invariant
            i <= v@.len(),
            out@ == join_dashes(dash_words(v@.take(i as int))),
        decreases v@.len() - i,
    {
        let c = v[i];
        let ghost pre = v@.take(i as int);
        let ghost cur = v@.take(i + 1);
        assert(cur.drop_last() =~= pre);
        assert(cur.last() == c);
        if c != '-' {
            if i > 0 && v[i - 1] != '-' {
                assert(cur[cur.len() - 2] == pre.last());
                proof {
                    lemma_dash_words_last(pre);
                    lemma_join_extend(dash_words(pre), c);
                }
                out.push(c);
            } else {
                proof {
                    lemma_join_push(dash_words(pre), c);
                    if i > 0 {
                        assert(cur[cur.len() - 2] == pre.last());
                    }
                }
                if out.len() > 0 {
                    out.push('-');
                } else {
                    proof {
                        if dash_words(pre).len() > 0 {
                            lemma_dash_words_nonempty(pre);
                            lemma_join_nonempty(dash_words(pre));
                        }
                    }
                }
                out.push(c);
            }
        }
        i = i + 1;
    }
    assert(v@.take(v@.len() as int) =~= v@);
    out
}

/// Joining at least one non-empty word gives a non-empty text.
proof fn lemma_join_nonempty(ws: Seq<Seq<char>>)
    requires
        ws.len() > 0,
        forall|i: int| 0 <= i < ws.len() ==> #[trigger] ws[i].len() > 0,
    ensures
        join_dashes(ws).len() > 0,
    decreases ws.len(),
{
    if ws.len() > 1 {
        assert(ws.last() == ws[ws.len() - 1]);
    }
}

/// Generate a URL-safe slug suffixed with the game ID to guarantee uniqueness.
pub fn unique_slug(title: &str, id: u128) -> (r: String)
    ensures
        r@ == spec_slug(title@, id),
{
    let lower = to_lowercase(title);
    let chars = chars_of(lower.as_str());
    let mut mapped: Vec<char> = Vec::new();
    let mut i: usize = 0;
    while i < chars.len()
        invariant
            i <= chars@.len(),
            mapped@ == dash_non_alnum(chars@.take(i as int)),
        decreases chars@.len() - i,
    {
        let c = chars[i];
        let m = if is_alphanumeric(c) { c } else { '-' };
        mapped.push(m);
        i = i + 1;
        assert(mapped@ =~= dash_non_alnum(chars@.take(i as int)));
    }
    assert(chars@.take(chars@.len() as int) =~= chars@);
    let base = collapse_dashes(&mapped);
    let mut r = string_from_chars(base.as_slice());
    r.append("-");
    append_uuid(&mut r, id);
    proof {
        reveal_strlit("-");
    }
    assert(r@ =~= spec_slug(title@, id));
    r
}

/// Slugs are unique: games with different ids get different slugs, whatever their
/// titles.
pub proof fn lemma_slug_unique(title1: Seq<char>, id1: u128, title2: Seq<char>, id2: u128)
    requires
        spec_slug(title1, id1) == spec_slug(title2, id2),
    ensures
        id1 == id2,
{
    let s = spec_slug(title1, id1);
    lemma_uuid_text_len(id1);
    lemma_uuid_text_len(id2);
    assert(s.skip(s.len() - 36) =~= spec_uuid_text(id1));
    assert(spec_slug(title2, id2).skip(s.len() - 36) =~= spec_uuid_text(id2));
    lemma_uuid_text_injective(id1, id2);
}

}
