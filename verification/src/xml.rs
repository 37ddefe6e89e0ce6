//! Minimal XML text handling: element extraction and entity escaping, as the
//! DIDL-Lite track metadata and topology payloads need it.

use vstd::prelude::*;
use crate::text::{
    chars_of, find_chars, one_char, find_spec, replace_chars, replace_spec, slice_chars, split_chars,
    split_spec, string_of, views_of,
};

verus! {

/// `<e>`
pub open spec fn open_tag(e: Seq<char>) -> Seq<char> {
    seq!['<'] + e + seq!['>']
}

/// `</e>`
pub open spec fn close_tag(e: Seq<char>) -> Seq<char> {
    seq!['<', '/'] + e + seq!['>']
}

/// The text between the first `<e>` and the first `</e>` after it.
pub open spec fn element_content(xml: Seq<char>, e: Seq<char>) -> Option<Seq<char>> {
    match find_spec(xml, open_tag(e)) {
        None => None,
        Some(i) => {
            let start = i + open_tag(e).len();
            match find_spec(xml.skip(start), close_tag(e)) {
                None => None,
                Some(j) => Some(xml.subrange(start, start + j)),
            }
        },
    }
}

pub open spec fn ent_lt() -> Seq<char> {
    seq!['&', 'l', 't', ';']
}

pub open spec fn ent_gt() -> Seq<char> {
    seq!['&', 'g', 't', ';']
}

pub open spec fn ent_amp() -> Seq<char> {
    seq!['&', 'a', 'm', 'p', ';']
}

pub open spec fn ent_apos() -> Seq<char> {
    seq!['&', 'a', 'p', 'o', 's', ';']
}

pub open spec fn ent_quot() -> Seq<char> {
    seq!['&', 'q', 'u', 'o', 't', ';']
}

/// Entity decoding in the order the metadata decoder applies it:
/// `&lt;`, `&gt;`, `&amp;`, `&apos;`, `&quot;`.
pub open spec fn decode_entities_spec(s: Seq<char>) -> Seq<char> {
    replace_spec(
        replace_spec(
            replace_spec(
                replace_spec(replace_spec(s, ent_lt(), seq!['<']), ent_gt(), seq!['>']),
                ent_amp(),
                seq!['&'],
            ),
            ent_apos(),
            seq!['\''],
        ),
        ent_quot(),
        seq!['"'],
    )
}

/// Entity decoding in the order `unescape_xml` applies it:
/// `&amp;`, `&lt;`, `&gt;`, `&quot;`, `&apos;`.
pub open spec fn unescape_spec(s: Seq<char>) -> Seq<char> {
    replace_spec(
        replace_spec(
            replace_spec(
                replace_spec(replace_spec(s, ent_amp(), seq!['&']), ent_lt(), seq!['<']),
                ent_gt(),
                seq!['>'],
            ),
            ent_quot(),
            seq!['"'],
        ),
        ent_apos(),
        seq!['\''],
    )
}

/// Entity encoding in the order `escape_xml` applies it:
/// `&`, `<`, `>`, `"`, `'`.
pub open spec fn escape_spec(s: Seq<char>) -> Seq<char> {
    replace_spec(
        replace_spec(
            replace_spec(
                replace_spec(replace_spec(s, seq!['&'], ent_amp()), seq!['<'], ent_lt()),
                seq!['>'],
                ent_gt(),
            ),
            seq!['"'],
            ent_quot(),
        ),
        seq!['\''],
        ent_apos(),
    )
}

/// The characters of each entity.
fn entities() -> (r: (Vec<char>, Vec<char>, Vec<char>, Vec<char>, Vec<char>))
    ensures
        r.0@ == ent_lt(),
        r.1@ == ent_gt(),
        r.2@ == ent_amp(),
        r.3@ == ent_apos(),
        r.4@ == ent_quot(),
{
    let lt = vec!['&', 'l', 't', ';'];
    let gt = vec!['&', 'g', 't', ';'];
    let amp = vec!['&', 'a', 'm', 'p', ';'];
    let apos = vec!['&', 'a', 'p', 'o', 's', ';'];
    let quot = vec!['&', 'q', 'u', 'o', 't', ';'];
    assert(lt@ =~= ent_lt());
    assert(gt@ =~= ent_gt());
    assert(amp@ =~= ent_amp());
    assert(apos@ =~= ent_apos());
    assert(quot@ =~= ent_quot());
    (lt, gt, amp, apos, quot)
}

/// Decodes entities in the metadata decoder's order.
pub fn decode_entities(s: &[char]) -> (r: Vec<char>)
    ensures
        r@ == decode_entities_spec(s@),
{
    let (lt, gt, amp, apos, quot) = entities();
    let a = replace_chars(s, &lt, &one_char('<'));
    let b = replace_chars(&a, &gt, &one_char('>'));
    let c = replace_chars(&b, &amp, &one_char('&'));
    let d = replace_chars(&c, &apos, &one_char('\''));
    let e = replace_chars(&d, &quot, &one_char('"'));
    e
}

/// Unescapes the basic XML entities.
pub fn unescape_xml(s: &str) -> (r: String)
    ensures
        r@ == unescape_spec(s@),
{
    let v = chars_of(s);
    let u = unescape_chars(&v);
    string_of(&u)
}

/// Unescapes the basic XML entities of a character sequence.
pub fn unescape_chars(v: &[char]) -> (r: Vec<char>)
    ensures
        r@ == unescape_spec(v@),
{
    let (lt, gt, amp, apos, quot) = entities();
    let a = replace_chars(v, &amp, &one_char('&'));
    let b = replace_chars(&a, &lt, &one_char('<'));
    let c = replace_chars(&b, &gt, &one_char('>'));
    let d = replace_chars(&c, &quot, &one_char('"'));
    let e = replace_chars(&d, &apos, &one_char('\''));
    e
}

/// Escapes the XML special characters.
pub fn escape_xml(s: &str) -> (r: String)
    ensures
        r@ == escape_spec(s@),
{
    let (lt, gt, amp, apos, quot) = entities();
    let v = chars_of(s);
    let a = replace_chars(&v, &one_char('&'), &amp);
    let b = replace_chars(&a, &one_char('<'), &lt);
    let c = replace_chars(&b, &one_char('>'), &gt);
    let d = replace_chars(&c, &one_char('"'), &quot);
    let e = replace_chars(&d, &one_char('\''), &apos);
    string_of(&e)
}

/// `<e>` as characters.
fn open_tag_chars(e: &[char]) -> (r: Vec<char>)
    ensures
        r@ == open_tag(e@),
{
    let mut r: Vec<char> = Vec::new();
    r.push('<');
    let mut i: usize = 0;
    while i < e.len()
        invariant
            i <= e.len(),
            r@ == seq!['<'] + e@.take(i as int),
        decreases e.len() - i,
    {
        r.push(e[i]);
        i = i + 1;
        assert(r@ =~= seq!['<'] + e@.take(i as int));
    }
    r.push('>');
    assert(e@.take(e@.len() as int) =~= e@);
    assert(r@ =~= open_tag(e@));
    r
}

/// `</e>` as characters.
fn close_tag_chars(e: &[char]) -> (r: Vec<char>)
    ensures
        r@ == close_tag(e@),
{
    let mut r: Vec<char> = Vec::new();
    r.push('<');
    r.push('/');
    let mut i: usize = 0;
    while i < e.len()
        invariant
            i <= e.len(),
            r@ == seq!['<', '/'] + e@.take(i as int),
        decreases e.len() - i,
    {
        r.push(e[i]);
        i = i + 1;
        assert(r@ =~= seq!['<', '/'] + e@.take(i as int));
    }
    r.push('>');
    assert(e@.take(e@.len() as int) =~= e@);
    assert(r@ =~= close_tag(e@));
    r
}

/// The raw text of the first `<e>...</e>` element.
pub fn element_content_chars(xml: &[char], e: &[char]) -> (r: Option<Vec<char>>)
    ensures
        r matches Some(c) ==> element_content(xml@, e@) == Some(c@),
        r is None ==> element_content(xml@, e@) is None,
{
    let open = open_tag_chars(e);
    let close = close_tag_chars(e);
    match find_chars(xml, &open) {
        None => None,
        Some(i) => {
            proof {
                crate::text::lemma_find_bounds(xml@, open@);
                assert(find_spec(xml@, open@) == Some(i as int));
                assert(i + open@.len() <= xml@.len());
            }
            let n = xml.len();
            assert(i + open.len() <= n);
            let start = i + open.len();
            let rest = slice_chars(xml, start, xml.len());
            assert(rest@ =~= xml@.skip(start as int));
            match find_chars(&rest, &close) {
                None => None,
                Some(j) => {
                    proof {
                        crate::text::lemma_find_bounds(rest@, close@);
                    }
                    Some(slice_chars(xml, start, start + j))
                },
            }
        },
    }
}

/// What `extract_xml_element` returns: the entity-decoded content of the first
/// `<e>...</e>`, or `None` if there is none or it decodes to nothing.
pub open spec fn extract_element_spec(xml: Seq<char>, e: Seq<char>) -> Option<Seq<char>> {
    match element_content(xml, e) {
        Some(c) => if decode_entities_spec(c).len() == 0 {
            None
        } else {
            Some(decode_entities_spec(c))
        },
        None => None,
    }
}

/// Extracts the content of an XML element (DIDL-Lite style, no attributes).
pub fn extract_xml_element(xml: &str, element: &str) -> (r: Option<String>)
    ensures
        opt_chars(r) == extract_element_spec(xml@, element@),
{
    let x = chars_of(xml);
    let e = chars_of(element);
    match element_content_chars(&x, &e) {
        Some(c) => {
            let d = decode_entities(&c);
            if d.len() == 0 {
                None
            } else {
                Some(string_of(&d))
            }
        },
        None => None,
    }
}

/// The text of an optional string.
pub open spec fn opt_chars(o: Option<String>) -> Option<Seq<char>> {
    match o {
        Some(s) => Some(s@),
        None => None,
    }
}

/// The namespace prefixes `extract_xml_value` falls back to, in order.
pub open spec fn fallback_prefixes() -> Seq<Seq<char>> {
    seq![seq!['d', 'c', ':'], seq!['r', ':'], seq!['u', 'p', 'n', 'p', ':'], Seq::<char>::empty()]
}

/// The local name of a tag: the text after its last `:`.
pub open spec fn local_name(tag: Seq<char>) -> Seq<char> {
    split_spec(tag, ':').last()
}

/// The content of the first `<prefix name>...</prefix name>`, trying the
/// fallback prefixes from position `k` on.
pub open spec fn fallback_value(xml: Seq<char>, name: Seq<char>, k: int) -> Option<Seq<char>>
    decreases 4 - k,
{
    if k < 0 || k >= 4 {
        None
    } else {
        match element_content(xml, fallback_prefixes()[k] + name) {
            Some(c) => Some(unescape_spec(c)),
            None => fallback_value(xml, name, k + 1),
        }
    }
}

/// What `extract_xml_value` returns: the unescaped content of `<tag>`, else of
/// the first of `<dc:name>`, `<r:name>`, `<upnp:name>`, `<name>` present,
/// where `name` is the tag's local name.
pub open spec fn extract_value_spec(xml: Seq<char>, tag: Seq<char>) -> Option<Seq<char>> {
    match element_content(xml, tag) {
        Some(c) => Some(unescape_spec(c)),
        None => fallback_value(xml, local_name(tag), 0),
    }
}

/// Extracts an element value, trying common namespace prefixes.
pub fn extract_xml_value(xml: &str, tag: &str) -> (r: Option<String>)
    ensures
        opt_chars(r) == extract_value_spec(xml@, tag@),
{
    let x = chars_of(xml);
    let t = chars_of(tag);
    match element_content_chars(&x, &t) {
        Some(c) => {
            let u = unescape_chars(&c);
            return Some(string_of(&u));
        },
        None => {},
    }
    let parts = split_chars(&t, ':');
    proof {
        crate::text::lemma_split_nonempty(t@, ':');
        assert(views_of(parts@).last() == parts@[parts@.len() - 1]@);
    }
    let name = &parts[parts.len() - 1];
    let prefixes: Vec<Vec<char>> = vec![vec!['d', 'c', ':'], vec!['r', ':'], vec!['u', 'p', 'n', 'p', ':'], Vec::new()];
    proof {
        assert(prefixes@[0]@ =~= fallback_prefixes()[0]);
        assert(prefixes@[1]@ =~= fallback_prefixes()[1]);
        assert(prefixes@[2]@ =~= fallback_prefixes()[2]);
        assert(prefixes@[3]@ =~= fallback_prefixes()[3]);
    }
    let mut k: usize = 0;
    while k < 4
        invariant
            k <= 4,
            prefixes@.len() == 4,
            forall|j: int| 0 <= j < 4 ==> prefixes@[j]@ == fallback_prefixes()[j],
            name@ == local_name(t@),
            t@ == tag@,
            x@ == xml@,
            element_content(x@, t@) is None,
            fallback_value(x@, name@, 0) == fallback_value(x@, name@, k as int),
        decreases 4 - k,
    {
        let mut full = crate::viewed::ViewEq::view_clone(&prefixes[k]);
        let ghost p = full@;
        let mut i: usize = 0;
        while i < name.len()
            invariant
                i <= name.len(),
                full@ == p + name@.take(i as int),
            decreases name.len() - i,
        {
            full.push(name[i]);
            i = i + 1;
            assert(full@ =~= p + name@.take(i as int));
        }
        assert(name@.take(name@.len() as int) =~= name@);
        match element_content_chars(&x, &full) {
            Some(c) => {
                let u = unescape_chars(&c);
                return Some(string_of(&u));
            },
            None => {},
        }
        k = k + 1;
    }
    None
}

} // verus!
