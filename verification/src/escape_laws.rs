//! The law relating XML escaping and unescaping: escaping text that holds no
//! `&` and unescaping the result gives the text back.

use vstd::prelude::*;
use crate::text::{occurs_at, replace_from, replace_spec};
use crate::xml::{ent_amp, ent_apos, ent_gt, ent_lt, ent_quot, escape_spec, unescape_spec};

verus! {

/// The pieces of a sequence joined in order.
pub open spec fn concat(ts: Seq<Seq<char>>) -> Seq<char>
    decreases ts.len(),
{
    if ts.len() == 0 {
        Seq::<char>::empty()
    } else {
        ts[0] + concat(ts.skip(1))
    }
}

/// Each piece replaced by `to` where it is `f`.
pub open spec fn map_piece(ts: Seq<Seq<char>>, f: Seq<char>, to: Seq<char>) -> Seq<Seq<char>> {
    ts.map_values(|t: Seq<char>| if t == f { to } else { t })
}

/// Some character of `f` placed at `j` in `t` differs from `t`, so `f`
/// cannot occur at `j` in any text that starts with `t`.
pub open spec fn clash_at(t: Seq<char>, f: Seq<char>, j: int) -> bool {
    exists|k: int| 0 <= k < f.len() && j + k < t.len() && t[j + k] != f[k]
}

/// `f` occurs at no position of `t` in any text that starts with `t`.
pub open spec fn clear(t: Seq<char>, f: Seq<char>) -> bool {
    forall|j: int| 0 <= j < t.len() ==> #[trigger] clash_at(t, f, j)
}

/// One of the five entities.
pub open spec fn is_entity(t: Seq<char>) -> bool {
    t == ent_lt() || t == ent_gt() || t == ent_amp() || t == ent_apos() || t == ent_quot()
}

/// A piece of escaped text: a single character other than `&`, or an
/// entity.
pub open spec fn piece_ok(t: Seq<char>) -> bool {
    (t.len() == 1 && t[0] != '&') || is_entity(t)
}

/// The characters `escape_xml` turns into entities, `&` aside.
pub open spec fn special(x: char) -> bool {
    x == '<' || x == '>' || x == '"' || x == '\''
}

/// Every piece is a piece of escaped text.
pub open spec fn pieces_ok(ts: Seq<Seq<char>>) -> bool {
    forall|i: int| 0 <= i < ts.len() ==> #[trigger] piece_ok(ts[i])
}

/// Each character as a piece of its own.
pub open spec fn singles(s: Seq<char>) -> Seq<Seq<char>> {
    s.map_values(|c: char| seq![c])
}

proof fn lemma_concat_singles(s: Seq<char>)
    ensures
        concat(singles(s)) == s,
    decreases s.len(),
{
    if s.len() > 0 {
        assert(singles(s).skip(1) =~= singles(s.skip(1)));
        lemma_concat_singles(s.skip(1));
        assert(seq![s[0]] + s.skip(1) =~= s);
    }
}

/// Past position `|a|`, replacing in `a + b` is replacing in `b`.
proof fn lemma_shift(a: Seq<char>, b: Seq<char>, f: Seq<char>, to: Seq<char>, j: int)
    requires
        f.len() > 0,
        0 <= j,
    ensures
        replace_from(a + b, f, to, a.len() + j) == replace_from(b, f, to, j),
    decreases b.len() - j,
{
    let s = a + b;
    let i = a.len() + j;
    if j < b.len() {
        assert(s[i] == b[j]);
        if i + f.len() <= s.len() {
            assert(s.subrange(i, i + f.len()) =~= b.subrange(j, j + f.len()));
        }
        assert(occurs_at(s, f, i) == occurs_at(b, f, j));
        if j + f.len() <= b.len() {
            lemma_shift(a, b, f, to, j + f.len());
        }
        lemma_shift(a, b, f, to, j + 1);
    }
}

/// Through a piece in which `f` cannot occur, replacing copies the piece.
proof fn lemma_pass_piece(t: Seq<char>, r: Seq<char>, f: Seq<char>, to: Seq<char>, j: int)
    requires
        f.len() > 0,
        clear(t, f),
        0 <= j <= t.len(),
    ensures
        replace_from(t + r, f, to, j) == t.subrange(j, t.len() as int) + replace_from(
            t + r,
            f,
            to,
            t.len() as int,
        ),
    decreases t.len() - j,
{
    let s = t + r;
    if j < t.len() {
        assert(clash_at(t, f, j));
        let k = choose|k: int| 0 <= k < f.len() && j + k < t.len() && t[j + k] != f[k];
        if occurs_at(s, f, j) {
            assert(s.subrange(j, j + f.len())[k] == f[k]);
            assert(s[j + k] == t[j + k]);
        }
        lemma_pass_piece(t, r, f, to, j + 1);
        assert(t.subrange(j, t.len() as int) =~= seq![t[j]] + t.subrange(j + 1, t.len() as int));
    } else {
        assert(t.subrange(j, t.len() as int) =~= Seq::<char>::empty());
    }
}

/// Replacing `f` in joined pieces replaces the pieces equal to `f`, when
/// `f` can occur inside no other piece.
proof fn lemma_replace_pieces(ts: Seq<Seq<char>>, f: Seq<char>, to: Seq<char>)
    requires
        f.len() > 0,
        forall|i: int| 0 <= i < ts.len() ==> ts[i] == f || clear(#[trigger] ts[i], f),
    ensures
        replace_spec(concat(ts), f, to) == concat(map_piece(ts, f, to)),
    decreases ts.len(),
{
    if ts.len() > 0 {
        let t = ts[0];
        let r = concat(ts.skip(1));
        assert forall|i: int| 0 <= i < ts.skip(1).len() implies ts.skip(1)[i] == f || clear(
            #[trigger] ts.skip(1)[i],
            f,
        ) by {
            assert(ts.skip(1)[i] == ts[i + 1]);
        }
        lemma_replace_pieces(ts.skip(1), f, to);
        assert(map_piece(ts, f, to).skip(1) =~= map_piece(ts.skip(1), f, to));
        assert(concat(ts) == t + r);
        if t == f {
            assert((t + r).subrange(0, f.len() as int) =~= f);
            lemma_shift(t, r, f, to, 0);
        } else {
            lemma_pass_piece(t, r, f, to, 0);
            lemma_shift(t, r, f, to, 0);
            assert(t.subrange(0, t.len() as int) =~= t);
        }
    }
}

/// No entity character is one `escape_xml` turns into an entity, and only
/// the first is `&`.
proof fn lemma_entity_chars(t: Seq<char>, j: int)
    requires
        is_entity(t),
        0 <= j < t.len(),
    ensures
        !special(t[j]),
        j > 0 ==> t[j] != '&',
        t[0] == '&',
        t.len() >= 4,
{
    if t == ent_lt() {
        assert(j == 0 || j == 1 || j == 2 || j == 3);
    } else if t == ent_gt() {
        assert(j == 0 || j == 1 || j == 2 || j == 3);
    } else if t == ent_amp() {
        assert(j == 0 || j == 1 || j == 2 || j == 3 || j == 4);
    } else if t == ent_apos() {
        assert(j == 0 || j == 1 || j == 2 || j == 3 || j == 4 || j == 5);
    } else {
        assert(j == 0 || j == 1 || j == 2 || j == 3 || j == 4 || j == 5);
    }
}

/// A special character cannot occur inside another piece.
proof fn lemma_clear_single(t: Seq<char>, x: char)
    requires
        piece_ok(t),
        special(x),
        t != seq![x],
    ensures
        clear(t, seq![x]),
{
    assert forall|j: int| 0 <= j < t.len() implies #[trigger] clash_at(t, seq![x], j) by {
        if is_entity(t) {
            lemma_entity_chars(t, j);
        } else {
            assert(t =~= seq![t[0]]);
        }
        assert(t[j + 0int] != seq![x][0]);
    }
}

/// An entity cannot occur inside another piece.
proof fn lemma_clear_entity(t: Seq<char>, e: Seq<char>)
    requires
        piece_ok(t),
        is_entity(e),
        t != e,
    ensures
        clear(t, e),
{
    lemma_entity_chars(e, 0);
    assert forall|j: int| 0 <= j < t.len() implies #[trigger] clash_at(t, e, j) by {
        if is_entity(t) {
            lemma_entity_chars(t, j);
            if j > 0 {
                assert(t[j + 0int] != e[0]);
            } else {
                let k: int = if (t == ent_amp() && e == ent_apos()) || (t == ent_apos() && e == ent_amp()) {
                    2
                } else {
                    1
                };
                assert(t[k] != e[k]);
                assert(t[j + k] != e[k]);
            }
        } else {
            assert(t[j + 0int] != e[0]);
        }
    }
}

/// Replacing a special character or an entity by a piece keeps every piece
/// a piece of escaped text, and the replacement applies piece by piece.
proof fn lemma_step(ts: Seq<Seq<char>>, f: Seq<char>, to: Seq<char>)
    requires
        pieces_ok(ts),
        piece_ok(f),
        piece_ok(to),
        f.len() == 1 ==> special(f[0]),
    ensures
        replace_spec(concat(ts), f, to) == concat(map_piece(ts, f, to)),
        pieces_ok(map_piece(ts, f, to)),
{
    assert forall|i: int| 0 <= i < ts.len() implies ts[i] == f || clear(#[trigger] ts[i], f) by {
        assert(piece_ok(ts[i]));
        if ts[i] != f {
            if is_entity(f) {
                lemma_clear_entity(ts[i], f);
            } else {
                assert(f =~= seq![f[0]]);
                lemma_clear_single(ts[i], f[0]);
            }
        }
    }
    if is_entity(f) {
        lemma_entity_chars(f, 0);
    }
    lemma_replace_pieces(ts, f, to);
    assert forall|i: int| 0 <= i < map_piece(ts, f, to).len() implies #[trigger] piece_ok(
        map_piece(ts, f, to)[i],
    ) by {
        assert(piece_ok(ts[i]));
    }
}

/// Escaping text that holds no `&` and then unescaping it gives the text
/// back.
pub proof fn lemma_unescape_escape(s: Seq<char>)
    requires
        forall|i: int| 0 <= i < s.len() ==> s[i] != '&',
    ensures
        unescape_spec(escape_spec(s)) == s,
{
    let t0 = singles(s);
    lemma_concat_singles(s);
    assert forall|i: int| 0 <= i < t0.len() implies #[trigger] piece_ok(t0[i]) by {
        assert(t0[i] == seq![s[i]]);
    }
    // `&` occurs in no piece, so escaping it leaves the text as it is.
    assert forall|i: int| 0 <= i < t0.len() implies t0[i] == seq!['&'] || clear(#[trigger] t0[i], seq!['&']) by {
        assert(t0[i] == seq![s[i]]);
        assert(t0[i][0int + 0int] != seq!['&'][0]);
        assert forall|j: int| 0 <= j < t0[i].len() implies #[trigger] clash_at(t0[i], seq!['&'], j) by {
            assert(j == 0);
        }
    }
    lemma_replace_pieces(t0, seq!['&'], ent_amp());
    assert forall|i: int| 0 <= i < t0.len() implies map_piece(t0, seq!['&'], ent_amp())[i] == t0[i] by {
        assert(t0[i] == seq![s[i]]);
        assert(t0[i] != seq!['&']) by {
            if t0[i] == seq!['&'] {
                assert(t0[i][0] == '&');
            }
        }
    }
    assert(map_piece(t0, seq!['&'], ent_amp()) =~= t0);
    let lt = seq!['<'];
    let gt = seq!['>'];
    let qu = seq!['"'];
    let ap = seq!['\''];
    assert(piece_ok(lt) && piece_ok(gt) && piece_ok(qu) && piece_ok(ap));
    assert(piece_ok(ent_lt()) && piece_ok(ent_gt()) && piece_ok(ent_quot()) && piece_ok(ent_apos())
        && piece_ok(ent_amp()));
    lemma_step(t0, lt, ent_lt());
    let t1 = map_piece(t0, lt, ent_lt());
    lemma_step(t1, gt, ent_gt());
    let t2 = map_piece(t1, gt, ent_gt());
    lemma_step(t2, qu, ent_quot());
    let t3 = map_piece(t2, qu, ent_quot());
    lemma_step(t3, ap, ent_apos());
    let t4 = map_piece(t3, ap, ent_apos());
    assert(escape_spec(s) == concat(t4));
    // Unescaping: `&amp;` is in no piece; each other entity turns back.
    let u0 = map_piece(t4, ent_amp(), seq!['&']);
    assert forall|i: int| 0 <= i < t4.len() implies t4[i] != ent_amp() by {
        assert(t0[i] == seq![s[i]]);
        assert(seq![s[i]] != ent_amp());
        assert(lt != ent_amp() && gt != ent_amp() && qu != ent_amp() && ap != ent_amp());
        assert(ent_lt() != ent_amp() && ent_gt() != ent_amp() && ent_quot() != ent_amp()
            && ent_apos() != ent_amp()) by {
            assert(ent_lt()[1] != ent_amp()[1]);
            assert(ent_gt()[1] != ent_amp()[1]);
            assert(ent_quot()[1] != ent_amp()[1]);
            assert(ent_apos()[2] != ent_amp()[2]);
        }
    }
    assert forall|i: int| 0 <= i < t4.len() implies t4[i] == ent_amp() || clear(#[trigger] t4[i], ent_amp()) by {
        assert(piece_ok(t4[i]));
        if t4[i] != ent_amp() {
            lemma_clear_entity(t4[i], ent_amp());
        }
    }
    lemma_entity_chars(ent_amp(), 0);
    lemma_replace_pieces(t4, ent_amp(), seq!['&']);
    assert(u0 =~= t4);
    lemma_step(t4, ent_lt(), lt);
    let u1 = map_piece(t4, ent_lt(), lt);
    lemma_step(u1, ent_gt(), gt);
    let u2 = map_piece(u1, ent_gt(), gt);
    lemma_step(u2, ent_quot(), qu);
    let u3 = map_piece(u2, ent_quot(), qu);
    lemma_step(u3, ent_apos(), ap);
    let u4 = map_piece(u3, ent_apos(), ap);
    assert(unescape_spec(escape_spec(s)) == concat(u4));
    assert forall|i: int| 0 <= i < u4.len() implies u4[i] == t0[i] by {
        assert(t0[i] == seq![s[i]]);
        assert(ent_lt() != ent_gt() && ent_lt() != ent_quot() && ent_lt() != ent_apos()
            && ent_gt() != ent_quot() && ent_gt() != ent_apos() && ent_quot() != ent_apos()) by {
            assert(ent_lt()[1] != ent_gt()[1]);
            assert(ent_lt()[1] != ent_quot()[1]);
            assert(ent_lt()[1] != ent_apos()[1]);
            assert(ent_gt()[1] != ent_quot()[1]);
            assert(ent_gt()[1] != ent_apos()[1]);
            assert(ent_quot()[1] != ent_apos()[1]);
        }
        assert(seq![s[i]] != ent_lt() && seq![s[i]] != ent_gt() && seq![s[i]] != ent_quot()
            && seq![s[i]] != ent_apos());
    }
    assert(u4 =~= t0);
}

} // verus!
