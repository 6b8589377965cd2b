//! Turning the raw header list of a response into a name-to-text table.
//!
//! A response may carry a name several times. Only the first value of each
//! name counts, and it is kept only when it is visible ASCII text (tab, or a
//! byte from space to tilde); otherwise the name is left out.
use vstd::prelude::*;
use vstd::utf8::{encode_utf8, valid_utf8, is_ascii_chars};

verus! {

broadcast use vstd::utf8::group_utf8_lib;

/// A byte that a header value may hold and still be read as text.
pub open spec fn is_visible_byte(b: u8) -> bool {
    b == 9 || (32 <= b && b < 127)
}

pub open spec fn is_visible_text(v: Seq<u8>) -> bool {
    forall|i: int| 0 <= i < v.len() ==> is_visible_byte(#[trigger] v[i])
}

/// The characters that visible ASCII bytes stand for.
pub open spec fn ascii_text(v: Seq<u8>) -> Seq<char> {
    Seq::new(v.len(), |i: int| v[i] as char)
}

/// The names of a list of pairs.
pub open spec fn names_of<V>(pairs: Seq<(Seq<char>, V)>) -> Seq<Seq<char>> {
    pairs.map_values(|p: (Seq<char>, V)| p.0)
}

/// The table made from a raw header list, in the order in which the names
/// first occur.
pub open spec fn collapse_headers(raw: Seq<(Seq<char>, Seq<u8>)>) -> Seq<(Seq<char>, Seq<char>)>
    decreases raw.len(),
{
    if raw.len() == 0 {
        seq![]
    } else {
        let earlier = raw.drop_last();
        let kept = collapse_headers(earlier);
        let (name, value) = raw.last();
        if names_of(earlier).contains(name) || !is_visible_text(value) {
            kept
        } else {
            kept.push((name, ascii_text(value)))
        }
    }
}

/// The header table seen as a map from name to text.
pub open spec fn table_map(table: Seq<(Seq<char>, Seq<char>)>) -> Map<Seq<char>, Seq<char>>
    decreases table.len(),
{
    if table.len() == 0 {
        Map::empty()
    } else {
        table_map(table.drop_last()).insert(table.last().0, table.last().1)
    }
}

/// Each name occurs at most once in the collapsed table, and every name in
/// it occurs in the raw list.
pub proof fn lemma_collapse_names(raw: Seq<(Seq<char>, Seq<u8>)>)
    ensures
        names_of(collapse_headers(raw)).no_duplicates(),
        forall|k: Seq<char>| names_of(collapse_headers(raw)).contains(k) ==> names_of(raw).contains(k),
    decreases raw.len(),
{
    if raw.len() > 0 {
        let earlier = raw.drop_last();
        lemma_collapse_names(earlier);
        let kept = collapse_headers(earlier);
        assert forall|k: Seq<char>| names_of(earlier).contains(k) implies names_of(raw).contains(k) by {
            let j = choose|j: int| 0 <= j < names_of(earlier).len() && names_of(earlier)[j] == k;
            assert(names_of(raw)[j] == k);
        }
        let (name, value) = raw.last();
        assert(names_of(raw)[raw.len() - 1] == name);
        if !(names_of(earlier).contains(name) || !is_visible_text(value)) {
            let grown = kept.push((name, ascii_text(value)));
            assert(names_of(grown) =~= names_of(kept).push(name));
            assert forall|k: Seq<char>| names_of(grown).contains(k) implies names_of(raw).contains(k) by {
                let j = choose|j: int| 0 <= j < names_of(grown).len() && names_of(grown)[j] == k;
                if j < kept.len() {
                    assert(names_of(kept)[j] == k);
                }
            }
        }
    }
}

/// A name whose first value is visible text maps to that text.
pub proof fn lemma_first_value_kept(raw: Seq<(Seq<char>, Seq<u8>)>, i: int)
    requires
        0 <= i < raw.len(),
        !names_of(raw.take(i)).contains(raw[i].0),
        is_visible_text(raw[i].1),
    ensures
        table_map(collapse_headers(raw)).contains_key(raw[i].0),
        table_map(collapse_headers(raw))[raw[i].0] == ascii_text(raw[i].1),
    decreases raw.len(),
{
    let earlier = raw.drop_last();
    let kept = collapse_headers(earlier);
    let (name, value) = raw.last();
    if i == raw.len() - 1 {
        assert(raw.take(i) =~= earlier);
        let grown = kept.push((name, ascii_text(value)));
        assert(grown.drop_last() =~= kept);
        assert(collapse_headers(raw) == grown);
    } else {
        assert(earlier.take(i) =~= raw.take(i));
        lemma_first_value_kept(earlier, i);
        if !(names_of(earlier).contains(name) || !is_visible_text(value)) {
            assert(names_of(earlier)[i] == raw[i].0);
            let grown = kept.push((name, ascii_text(value)));
            assert(grown.drop_last() =~= kept);
            assert(collapse_headers(raw) == grown);
        }
    }
}

/// Visible ASCII bytes are valid UTF-8 and spell `ascii_text`.
pub proof fn lemma_visible_text_utf8(v: Seq<u8>)
    requires
        is_visible_text(v),
    ensures
        valid_utf8(v),
        encode_utf8(ascii_text(v)) == v,
{
    let chars = ascii_text(v);
    assert forall|i: int| 0 <= i < chars.len() implies '\0' <= #[trigger] chars[i] <= '\u{7f}' by {
        assert(is_visible_byte(v[i]));
    }
    assert(is_ascii_chars(chars));
    assert(encode_utf8(chars) =~= v);
}

/// The raw header list seen as names and value bytes.
pub open spec fn raw_view(raw: Seq<(String, Vec<u8>)>) -> Seq<(Seq<char>, Seq<u8>)> {
    raw.map_values(|p: (String, Vec<u8>)| (p.0@, p.1@))
}

/// A header table seen as names and texts.
pub open spec fn table_view(table: Seq<(String, String)>) -> Seq<(Seq<char>, Seq<char>)> {
    table.map_values(|p: (String, String)| (p.0@, p.1@))
}

/// Relies on std's `String::from_utf8`: it succeeds exactly on valid UTF-8,
/// and the string then holds those bytes.
#[verifier::external_body]
fn string_from_utf8(bytes: Vec<u8>) -> (r: Option<String>)
    ensures
        r is Some <==> valid_utf8(bytes@),
        r matches Some(s) ==> encode_utf8(s@) == bytes@,
{
    String::from_utf8(bytes).ok()
}

/// Whether every byte of `v` is visible ASCII.
pub fn visible_text(v: &Vec<u8>) -> (r: bool)
    ensures
        r == is_visible_text(v@),
{
    let mut i: usize = 0;
    while i < v.len()
        invariant
            0 <= i <= v@.len(),
            forall|j: int| 0 <= j < i ==> is_visible_byte(#[trigger] v@[j]),
        decreases v@.len() - i,
    {
        let b = v[i];
        if !(b == 9 || (32 <= b && b < 127)) {
            return false;
        }
        i += 1;
    }
    true
}

/// Whether some pair before `end` has the name `name`.
fn name_seen(raw: &Vec<(String, Vec<u8>)>, end: usize, name: &String) -> (r: bool)
    requires
        end <= raw@.len(),
    ensures
        r == names_of(raw_view(raw@).take(end as int)).contains(name@),
{
    let ghost earlier = names_of(raw_view(raw@).take(end as int));
    let mut j: usize = 0;
    while j < end
        invariant
            j <= end <= raw@.len(),
            earlier == names_of(raw_view(raw@).take(end as int)),
            forall|k: int| 0 <= k < j ==> earlier[k] != name@,
        decreases end - j,
    {
        if raw[j].0 == *name {
            assert(earlier[j as int] == name@);
            return true;
        }
        j += 1;
    }
    assert(!earlier.contains(name@)) by {
        if earlier.contains(name@) {
            let k = choose|k: int| 0 <= k < earlier.len() && earlier[k] == name@;
            assert(earlier[k] != name@);
        }
    }
    false
}

/// The header table of a response: for each name, its first value, kept
/// only when that value is visible text.
pub fn collapse(raw: &Vec<(String, Vec<u8>)>) -> (r: Vec<(String, String)>)
    ensures
        table_view(r@) == collapse_headers(raw_view(raw@)),
{
    let mut table: Vec<(String, String)> = Vec::new();
    let mut i: usize = 0;
    while i < raw.len()
        invariant
            0 <= i <= raw@.len(),
            table_view(table@) == collapse_headers(raw_view(raw@).take(i as int)),
        decreases raw@.len() - i,
    {
        let ghost before = raw_view(raw@).take(i as int);
        let ghost upto = raw_view(raw@).take(i as int + 1);
        assert(upto.drop_last() =~= before);
        let name = &raw[i].0;
        let value = &raw[i].1;
        assert(upto.last() == (name@, value@));
        if !name_seen(raw, i, name) && visible_text(value) {
            proof { lemma_visible_text_utf8(value@); }
            let copy = vstd::slice::slice_to_vec(value.as_slice());
            let text = string_from_utf8(copy);
            match text {
                Some(text) => {
                    proof { vstd::utf8::encode_utf8_decode_utf8(text@); }
                    proof { vstd::utf8::encode_utf8_decode_utf8(ascii_text(value@)); }
                    let ghost old_table = table@;
                    table.push((name.clone(), text));
                    assert(table_view(table@) =~= table_view(old_table).push((name@, ascii_text(value@))));
                },
                None => {},
            }
        }
        i += 1;
    }
    assert(raw_view(raw@).take(raw@.len() as int) =~= raw_view(raw@));
    table
}

} // verus!
