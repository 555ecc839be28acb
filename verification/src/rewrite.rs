//! HLS playlist rewriting: every reference in a fetched playlist is routed
//! back through the relay's `/hls` route, line by line, without inserting,
//! merging or dropping lines.
use vstd::prelude::*;

use crate::bytes::{
    find_byte, find_sub, first_match, idx_of, lemma_first_match_some, lemma_idx_of,
    lemma_idx_of_unique, trim_bytes, trim_spec,
};
use crate::urltext::{
    encode_byte, encode_component, join_of, percent_encode, resolve_against,
};

verus! {

/// The relay-local route prefix, `/hls?url=`.
pub open spec fn hls_prefix() -> Seq<u8> {
    seq![47u8, 104u8, 108u8, 115u8, 63u8, 117u8, 114u8, 108u8, 61u8]
}

/// The attribute marker searched for in tag lines, `URI="`.
pub open spec fn uri_key() -> Seq<u8> {
    seq![85u8, 82u8, 73u8, 61u8, 34u8]
}

fn hls_prefix_vec() -> (r: Vec<u8>)
    ensures
        r@ =~= hls_prefix(),
{
    // "/hls?url="
    let r: Vec<u8> = vec![47u8, 104u8, 108u8, 115u8, 63u8, 117u8, 114u8, 108u8, 61u8];
    r
}

fn uri_key_vec() -> (r: Vec<u8>)
    ensures
        r@ =~= uri_key(),
{
    // "URI=\""
    let r: Vec<u8> = vec![85u8, 82u8, 73u8, 61u8, 34u8];
    r
}

/// The reference `rel` resolved against `base`; where resolution fails the
/// raw reference stands in.
pub open spec fn resolved_ref(base: Seq<u8>, rel: Seq<u8>) -> Seq<u8> {
    match join_of(base, rel) {
        Some(u) => u,
        None => rel,
    }
}

/// A reference routed through the relay: `/hls?url=` plus the
/// percent-encoded resolved reference.
pub open spec fn proxied_ref(base: Seq<u8>, rel: Seq<u8>) -> Seq<u8> {
    hls_prefix() + percent_encode(resolved_ref(base, rel))
}

/// A tag line after rewriting: the first `URI="..."` attribute value is
/// replaced by its proxied form; everything around it is unchanged; a line
/// without a complete quoted attribute passes through whole.
pub open spec fn rewritten_tag_line(line: Seq<u8>, base: Seq<u8>) -> Seq<u8> {
    match first_match(line, uri_key()) {
        None => line,
        Some(st) => {
            let cut = st + uri_key().len();
            let rest = line.subrange(cut as int, line.len() as int);
            match first_match(rest, seq![34u8]) {
                None => line,
                Some(e) => line.subrange(0, cut as int) + proxied_ref(base, rest.subrange(0, e))
                    + seq![34u8] + rest.subrange(e + 1, rest.len() as int),
            }
        },
    }
}

/// The line holds only whitespace.
pub open spec fn is_blank(line: Seq<u8>) -> bool {
    trim_spec(line).len() == 0
}

/// The line is a playlist tag: its first non-blank byte is `#`.
pub open spec fn is_tag(line: Seq<u8>) -> bool {
    !is_blank(line) && trim_spec(line)[0] == 35
}

/// One playlist line after rewriting: blank lines pass through, tag lines
/// get their `URI="..."` attribute proxied, and every other line is treated
/// whole as a reference and replaced by its proxied form.
pub open spec fn rewritten_line(line: Seq<u8>, base: Seq<u8>) -> Seq<u8> {
    if is_blank(line) {
        line
    } else if is_tag(line) {
        rewritten_tag_line(line, base)
    } else {
        proxied_ref(base, trim_spec(line))
    }
}

/// Rewrite the first `URI="..."` attribute of a tag line; a line without
/// one passes through unchanged.
#[verifier::rlimit(60)]
pub fn rewrite_attribute_uri(line: &[u8], base: &[u8]) -> (r: Vec<u8>)
    ensures
        r@ =~= rewritten_tag_line(line@, base@),
{
    let key = uri_key_vec();
    let n = line.len();
    let st_opt = find_sub(line, key.as_slice());
    match st_opt {
        None => vstd::slice::slice_to_vec(line),
        Some(st) => {
            proof {
                lemma_first_match_some(line@, uri_key(), st as int);
                assert(uri_key().len() == 5);
                assert(st + 5 <= n);
            }
            let cut = st + 5;
            let rest = vstd::slice::slice_subrange(line, cut, n);
            let quote: Vec<u8> = vec![34u8];
            proof {
                assert(quote@ =~= seq![34u8]);
            }
            let e_opt = find_sub(rest, quote.as_slice());
            match e_opt {
                None => vstd::slice::slice_to_vec(line),
                Some(e) => {
                    proof {
                        lemma_first_match_some(rest@, seq![34u8], e as int);
                    }
                    let raw = vstd::slice::slice_subrange(rest, 0, e);
                    let resolved: Vec<u8> = match resolve_against(base, raw) {
                        Some(u) => u,
                        None => vstd::slice::slice_to_vec(raw),
                    };
                    let mut out = vstd::slice::slice_to_vec(
                        vstd::slice::slice_subrange(line, 0, cut),
                    );
                    let mut pre = hls_prefix_vec();
                    out.append(&mut pre);
                    let mut enc = encode_component(resolved.as_slice());
                    out.append(&mut enc);
                    out.push(34);
                    let mut suffix = vstd::slice::slice_to_vec(
                        vstd::slice::slice_subrange(rest, e + 1, rest.len()),
                    );
                    out.append(&mut suffix);
                    out
                },
            }
        },
    }
}

/// Rewrite one playlist line against `base`.
pub fn rewrite_line(line: &[u8], base: &[u8]) -> (r: Vec<u8>)
    ensures
        r@ =~= rewritten_line(line@, base@),
{
    let t = trim_bytes(line);
    if t.len() == 0 {
        vstd::slice::slice_to_vec(line)
    } else if t[0] == 35 {
        rewrite_attribute_uri(line, base)
    } else {
        let resolved: Vec<u8> = match resolve_against(base, t.as_slice()) {
            Some(u) => u,
            None => t,
        };
        let mut out = hls_prefix_vec();
        let mut enc = encode_component(resolved.as_slice());
        out.append(&mut enc);
        out
    }
}

/// Pieces of `t` split at every line-feed byte.
pub open spec fn split_nl(t: Seq<u8>) -> Seq<Seq<u8>>
    decreases t.len(),
{
    let i = idx_of(t, 10);
    if i >= t.len() {
        seq![t]
    } else {
        seq![t.subrange(0, i as int)] + split_nl(t.subrange(i as int + 1, t.len() as int))
    }
}

/// A piece with one trailing carriage return removed.
pub open spec fn strip_cr(l: Seq<u8>) -> Seq<u8> {
    if l.len() > 0 && l[l.len() - 1] == 13 {
        l.subrange(0, l.len() - 1)
    } else {
        l
    }
}

/// The lines of `t`: split at line feeds, a final line ending optional, and
/// a carriage return stripped from the end of every line that a line feed
/// terminated.
pub open spec fn lines_of(t: Seq<u8>) -> Seq<Seq<u8>> {
    if t.len() == 0 {
        Seq::empty()
    } else {
        let ps = split_nl(t);
        if ps.last().len() == 0 {
            ps.drop_last().map_values(|l: Seq<u8>| strip_cr(l))
        } else {
            ps.drop_last().map_values(|l: Seq<u8>| strip_cr(l)).push(ps.last())
        }
    }
}

/// Lines joined back with single line feeds.
pub open spec fn join_nl(ls: Seq<Seq<u8>>) -> Seq<u8>
    decreases ls.len(),
{
    if ls.len() == 0 {
        Seq::empty()
    } else if ls.len() == 1 {
        ls[0]
    } else {
        ls[0] + seq![10u8] + join_nl(ls.drop_first())
    }
}

/// A whole playlist after rewriting: each line rewritten in place, lines
/// joined back with line feeds.
pub open spec fn rewritten_playlist(t: Seq<u8>, base: Seq<u8>) -> Seq<u8> {
    join_nl(lines_of(t).map_values(|l: Seq<u8>| rewritten_line(l, base)))
}

fn strip_cr_exec(l: &[u8]) -> (r: Vec<u8>)
    ensures
        r@ =~= strip_cr(l@),
{
    if l.len() > 0 && l[l.len() - 1] == 13 {
        vstd::slice::slice_to_vec(vstd::slice::slice_subrange(l, 0, l.len() - 1))
    } else {
        vstd::slice::slice_to_vec(l)
    }
}

fn split_pieces(text: &[u8]) -> (ps: Vec<Vec<u8>>)
    ensures
        ps@.len() == split_nl(text@).len(),
        forall|i: int| 0 <= i < ps@.len() ==> ps@[i]@ =~= split_nl(text@)[i],
    decreases text@.len(),
{
    let n = text.len();
    let i = find_byte(text, 10);
    proof {
        lemma_idx_of(text@, 10);
    }
    if i >= n {
        let mut v: Vec<Vec<u8>> = Vec::new();
        v.push(vstd::slice::slice_to_vec(text));
        v
    } else {
        let head = vstd::slice::slice_to_vec(vstd::slice::slice_subrange(text, 0, i));
        let tail = vstd::slice::slice_subrange(text, i + 1, n);
        let mut rest = split_pieces(tail);
        rest.insert(0, head);
        proof {
            assert(split_nl(text@) =~= seq![text@.subrange(0, i as int)] + split_nl(
                text@.subrange(i + 1, n as int),
            ));
        }
        rest
    }
}

/// Rewrite a whole playlist text against `base`.
pub fn rewrite_playlist(text: &[u8], base: &[u8]) -> (r: Vec<u8>)
    ensures
        r@ =~= rewritten_playlist(text@, base@),
{
    let ghost target = lines_of(text@).map_values(|l: Seq<u8>| rewritten_line(l, base@));
    if text.len() == 0 {
        let r: Vec<u8> = Vec::new();
        assert(r@ =~= rewritten_playlist(text@, base@));
        return r;
    }
    let mut pieces = split_pieces(text);
    proof {
        lemma_split_nl_len(text@);
    }
    let plen = pieces.len();
    let dropped: bool = pieces[plen - 1].len() == 0;
    if dropped {
        pieces.pop();
    }
    let m = pieces.len();
    proof {
        assert(lines_of(text@).len() == m);
    }
    let mut out: Vec<u8> = Vec::new();
    let mut k: usize = 0;
    while k < m
        invariant
            0 <= k <= m,
            m == pieces@.len(),
            m == lines_of(text@).len(),
            target == lines_of(text@).map_values(|l: Seq<u8>| rewritten_line(l, base@)),
            forall|i: int| 0 <= i < m ==> #[trigger] lines_of(text@)[i] =~= (
            if dropped || i < m - 1 {
                strip_cr(pieces@[i]@)
            } else {
                pieces@[i]@
            }),
            out@ =~= join_nl(target.take(k as int)),
        decreases m - k,
    {
        let line: Vec<u8> = if dropped || k < m - 1 {
            strip_cr_exec(pieces[k].as_slice())
        } else {
            vstd::slice::slice_to_vec(pieces[k].as_slice())
        };
        assert(line@ =~= lines_of(text@)[k as int]);
        let mut rl = rewrite_line(line.as_slice(), base);
        assert(rl@ =~= target[k as int]);
        if k > 0 {
            out.push(10);
        }
        out.append(&mut rl);
        proof {
            lemma_join_push(target.take(k as int), target[k as int]);
            assert(target.take(k + 1) =~= target.take(k as int).push(target[k as int]));
        }
        k = k + 1;
    }
    assert(target.take(m as int) =~= target);
    out
}

/// `split_nl` yields at least one piece.
proof fn lemma_split_nl_len(t: Seq<u8>)
    ensures
        split_nl(t).len() >= 1,
        t.len() > 0 ==> lines_of(t).len() == (
        if split_nl(t).last().len() == 0 {
            split_nl(t).len() - 1
        } else {
            split_nl(t).len() as int
        }),
{
}

/// No line feed stands anywhere in `s`.
pub open spec fn no_lf(s: Seq<u8>) -> bool {
    forall|k: int| 0 <= k < s.len() ==> s[k] != 10
}

proof fn lemma_percent_encode_no_lf(s: Seq<u8>)
    ensures
        no_lf(percent_encode(s)),
    decreases s.len(),
{
    if s.len() == 0 {
    } else {
        lemma_percent_encode_no_lf(s.drop_first());
        assert(no_lf(encode_byte(s[0])));
        assert forall|k: int| 0 <= k < percent_encode(s).len() implies percent_encode(s)[k]
            != 10 by {
            assert(percent_encode(s) == encode_byte(s[0]) + percent_encode(s.drop_first()));
            if k < encode_byte(s[0]).len() {
                assert(percent_encode(s)[k] == encode_byte(s[0])[k]);
            } else {
                assert(percent_encode(s)[k] == percent_encode(s.drop_first())[k - encode_byte(
                    s[0],
                ).len()]);
            }
        }
    }
}

proof fn lemma_trim_no_lf(s: Seq<u8>)
    requires
        no_lf(s),
    ensures
        no_lf(trim_spec(s)),
    decreases s.len(),
{
    if s.len() == 0 {
    } else if crate::bytes::is_ascii_space(s[0]) {
        lemma_trim_no_lf(s.subrange(1, s.len() as int));
    } else if crate::bytes::is_ascii_space(s[s.len() - 1]) {
        lemma_trim_no_lf(s.subrange(0, s.len() - 1));
    } else {
    }
}

/// A rewritten line holds no line feed and is empty only where the original
/// line was empty.
proof fn lemma_rewritten_line_no_lf(line: Seq<u8>, base: Seq<u8>)
    requires
        no_lf(line),
    ensures
        no_lf(rewritten_line(line, base)),
        line.len() > 0 ==> rewritten_line(line, base).len() > 0,
{
    lemma_trim_no_lf(line);
    lemma_percent_encode_no_lf(resolved_ref(base, trim_spec(line)));
    assert(no_lf(hls_prefix()));
    if is_blank(line) {
    } else if is_tag(line) {
        match first_match(line, uri_key()) {
            None => {},
            Some(st) => {
                lemma_first_match_some(line, uri_key(), st);
                let cut = st + uri_key().len();
                let rest = line.subrange(cut as int, line.len() as int);
                match first_match(rest, seq![34u8]) {
                    None => {},
                    Some(e) => {
                        lemma_first_match_some(rest, seq![34u8], e);
                        let raw = rest.subrange(0, e);
                        lemma_percent_encode_no_lf(resolved_ref(base, raw));
                        let r = rewritten_tag_line(line, base);
                        assert(no_lf(line.subrange(0, cut as int)));
                        assert(no_lf(rest.subrange(0, e)));
                        assert(no_lf(rest.subrange(e + 1, rest.len() as int)));
                        assert(no_lf(proxied_ref(base, raw)));
                        assert(no_lf(seq![34u8]));
                        assert(r == line.subrange(0, cut as int) + proxied_ref(base, raw)
                            + seq![34u8] + rest.subrange(e + 1, rest.len() as int));
                        assert(no_lf(r));
                        assert(r.len() >= cut);
                    },
                }
            },
        }
    } else {
        assert(no_lf(proxied_ref(base, trim_spec(line))));
        assert(rewritten_line(line, base).len() >= hls_prefix().len());
    }
}

proof fn lemma_split_nl_no_lf(t: Seq<u8>)
    ensures
        forall|i: int| 0 <= i < split_nl(t).len() ==> no_lf(#[trigger] split_nl(t)[i]),
    decreases t.len(),
{
    lemma_idx_of(t, 10);
    let i = idx_of(t, 10);
    if i >= t.len() {
        assert(no_lf(t));
    } else {
        let tail = t.subrange(i as int + 1, t.len() as int);
        lemma_split_nl_no_lf(tail);
        assert(no_lf(t.subrange(0, i as int)));
        assert(split_nl(t) == seq![t.subrange(0, i as int)] + split_nl(tail));
        assert forall|k: int| 0 <= k < split_nl(t).len() implies no_lf(
            #[trigger] split_nl(t)[k],
        ) by {
            if k == 0 {
                assert(split_nl(t)[k] == t.subrange(0, i as int));
            } else {
                assert(split_nl(t)[k] == split_nl(tail)[k - 1]);
            }
        }
    }
}

proof fn lemma_lines_no_lf(t: Seq<u8>)
    ensures
        forall|i: int| 0 <= i < lines_of(t).len() ==> no_lf(#[trigger] lines_of(t)[i]),
{
    lemma_split_nl_no_lf(t);
    if t.len() == 0 {
    } else {
        let ps = split_nl(t);
        assert forall|i: int| 0 <= i < lines_of(t).len() implies no_lf(lines_of(t)[i]) by {
            if i < ps.len() - 1 {
                assert(lines_of(t)[i] == strip_cr(ps[i]));
                assert(no_lf(ps[i]));
            } else {
                assert(lines_of(t)[i] == ps[i]);
            }
        }
    }
}

/// Splitting a joined text recovers the lines, provided no line holds a
/// line feed of its own.
proof fn lemma_split_join(ls: Seq<Seq<u8>>)
    requires
        ls.len() >= 1,
        forall|i: int| 0 <= i < ls.len() ==> no_lf(#[trigger] ls[i]),
    ensures
        split_nl(join_nl(ls)) == ls,
    decreases ls.len(),
{
    let j = join_nl(ls);
    if ls.len() == 1 {
        assert(j == ls[0]);
        lemma_idx_of_unique(j, 10, j.len() as int);
        assert(split_nl(j) =~~= ls);
    } else {
        let head = ls[0];
        let tail = ls.drop_first();
        assert(j == head + seq![10u8] + join_nl(tail));
        assert(forall|i: int| 0 <= i < tail.len() ==> no_lf(#[trigger] tail[i]));
        lemma_split_join(tail);
        assert(j[head.len() as int] == 10);
        assert(forall|k: int| 0 <= k < head.len() ==> j[k] == head[k]);
        lemma_idx_of_unique(j, 10, head.len() as int);
        assert(j.subrange(0, head.len() as int) =~= head);
        assert(j.subrange(head.len() as int + 1, j.len() as int) =~= join_nl(tail));
        assert(split_nl(j) == seq![head] + split_nl(join_nl(tail)));
        assert(split_nl(j) =~~= ls);
    }
}

/// A text has lines exactly when it is nonempty.
proof fn lemma_lines_of_len(t: Seq<u8>)
    ensures
        lines_of(t).len() == 0 <==> t.len() == 0,
{
    if t.len() > 0 {
        lemma_split_nl_len(t);
        let ps = split_nl(t);
        if ps.last().len() == 0 {
            assert(ps[0].len() > 0 || idx_of(t, 10) < t.len()) by {
                lemma_idx_of(t, 10);
            }
            assert(ps.len() >= 2) by {
                if idx_of(t, 10) >= t.len() {
                    assert(ps == seq![t]);
                } else {
                    lemma_split_nl_len(t.subrange(idx_of(t, 10) as int + 1, t.len() as int));
                }
            }
        }
    }
}

/// Rewriting a playlist keeps its line count: the output splits into
/// exactly as many lines as the input. Texts whose final listed line is
/// empty are left aside: joining drops such a line again.
pub proof fn lemma_rewrite_preserves_line_count(t: Seq<u8>, base: Seq<u8>)
    requires
        lines_of(t).len() > 0 ==> lines_of(t).last().len() > 0,
    ensures
        lines_of(rewritten_playlist(t, base)).len() == lines_of(t).len(),
{
    let ls = lines_of(t);
    let rls = ls.map_values(|l: Seq<u8>| rewritten_line(l, base));
    let out = join_nl(rls);
    lemma_lines_of_len(t);
    if ls.len() == 0 {
        assert(rls =~= Seq::<Seq<u8>>::empty());
        assert(out.len() == 0);
        assert(lines_of(out).len() == 0);
    } else {
        lemma_lines_no_lf(t);
        assert forall|i: int| 0 <= i < rls.len() implies no_lf(#[trigger] rls[i]) by {
            lemma_rewritten_line_no_lf(ls[i], base);
        }
        assert(rls.last().len() > 0) by {
            lemma_rewritten_line_no_lf(ls[ls.len() - 1], base);
        }
        lemma_split_join(rls);
        if rls.len() == 1 {
            assert(out == rls[0]);
            assert(out.len() > 0);
        } else {
            assert(out == rls[0] + seq![10u8] + join_nl(rls.drop_first()));
            assert(out.len() > 0);
        }
        let ps = split_nl(out);
        assert(ps == rls);
        assert(ps.last().len() > 0);
        assert(lines_of(out) == ps.drop_last().map_values(|l: Seq<u8>| strip_cr(l)).push(
            ps.last(),
        ));
        assert(lines_of(out).len() == ps.len());
    }
}

/// Appending one line to a joined text adds one line feed and the line.
proof fn lemma_join_push(ls: Seq<Seq<u8>>, x: Seq<u8>)
    ensures
        join_nl(ls.push(x)) == (
        if ls.len() == 0 {
            x
        } else {
            join_nl(ls) + seq![10u8] + x
        }),
    decreases ls.len(),
{
    let p = ls.push(x);
    if ls.len() == 0 {
        assert(p.len() == 1);
        assert(join_nl(p) == p[0]);
        assert(p[0] == x);
    } else if ls.len() == 1 {
        assert(p.len() == 2);
        assert(p.drop_first() =~= seq![x]);
        assert(join_nl(p) == p[0] + seq![10u8] + join_nl(p.drop_first()));
        assert(join_nl(seq![x]) == x);
        assert(p[0] == ls[0]);
        assert(join_nl(ls) == ls[0]);
    } else {
        lemma_join_push(ls.drop_first(), x);
        assert(p.drop_first() =~= ls.drop_first().push(x));
        assert(join_nl(p) == p[0] + seq![10u8] + join_nl(p.drop_first()));
        assert(join_nl(ls) == ls[0] + seq![10u8] + join_nl(ls.drop_first()));
        assert(p[0] == ls[0]);
        assert((ls[0] + seq![10u8] + (join_nl(ls.drop_first()) + seq![10u8] + x)) =~= ((ls[0]
            + seq![10u8] + join_nl(ls.drop_first())) + seq![10u8] + x));
    }
}

} // verus!
