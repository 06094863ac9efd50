//! A JSON value as the resolver reads it from `package.json`, lookup of an
//! object's member, and the compact JSON text of a value.
use vstd::prelude::*;

verus! {

/// A JSON value. Object members keep the order in which the document lists
/// them; a number is kept as the text JSON writes for it.
#[derive(Debug, PartialEq)]
pub enum JsonValue {
    Null,
    Bool(bool),
    Number(String),
    String(String),
    Array(Vec<JsonValue>),
    Object(Vec<(String, JsonValue)>),
}

/// Index of the first member of `entries`, at `i` or later, whose key is `key`.
pub open spec fn key_index_from(entries: Seq<(String, JsonValue)>, key: Seq<char>, i: int) -> Option<int>
    decreases entries.len() - i,
{
    if i < 0 || i >= entries.len() {
        None
    } else if entries[i].0@ == key {
        Some(i)
    } else {
        key_index_from(entries, key, i + 1)
    }
}

/// The value of the first member of `entries` whose key is `key`.
pub open spec fn object_get_spec(entries: Seq<(String, JsonValue)>, key: Seq<char>) -> Option<JsonValue> {
    match key_index_from(entries, key, 0) {
        Some(i) => Some(entries[i].1),
        None => None,
    }
}

/// The keys of an object are pairwise different, as in a parsed JSON object.
pub open spec fn keys_distinct(entries: Seq<(String, JsonValue)>) -> bool {
    forall|i: int, j: int| 0 <= i < j < entries.len() ==> entries[i].0@ != entries[j].0@
}

proof fn lemma_key_index_from_bounds(entries: Seq<(String, JsonValue)>, key: Seq<char>, i: int)
    ensures
        key_index_from(entries, key, i) matches Some(j) ==> i <= j < entries.len()
            && entries[j].0@ == key,
    decreases entries.len() - i,
{
    if 0 <= i < entries.len() && entries[i].0@ != key {
        lemma_key_index_from_bounds(entries, key, i + 1);
    }
}

proof fn lemma_key_index_reaches(entries: Seq<(String, JsonValue)>, key: Seq<char>, k: int, i: int)
    requires
        0 <= k <= i < entries.len(),
        entries[i].0@ == key,
    ensures
        key_index_from(entries, key, k) is Some,
    decreases i - k,
{
    if k < i && entries[k].0@ != key {
        lemma_key_index_reaches(entries, key, k + 1, i);
    }
}

/// Law: in an object whose keys are distinct, looking a key up gives the
/// value of the member with that key.
pub proof fn lemma_object_get_unique(entries: Seq<(String, JsonValue)>, key: Seq<char>, i: int)
    requires
        keys_distinct(entries),
        0 <= i < entries.len(),
        entries[i].0@ == key,
    ensures
        object_get_spec(entries, key) == Some(entries[i].1),
{
    lemma_key_index_reaches(entries, key, 0, i);
    lemma_key_index_from_bounds(entries, key, 0);
}

/// The value of the first member of the object `entries` whose key is `key`.
pub fn object_get<'a>(entries: &'a Vec<(String, JsonValue)>, key: &str) -> (r: Option<&'a JsonValue>)
    ensures
        r is None <==> object_get_spec(entries@, key@) is None,
        r matches Some(v) ==> object_get_spec(entries@, key@) == Some(*v),
{
    let n = entries.len();
    let mut i: usize = 0;
    while i < n
        invariant
            n == entries@.len(),
            i <= n,
            key_index_from(entries@, key@, 0) == key_index_from(entries@, key@, i as int),
        decreases n - i,
    {
        if crate::strings::str_equals(entries[i].0.as_str(), key) {
            return Some(&entries[i].1);
        }
        i = i + 1;
    }
    None
}

/// The lower-case hexadecimal digits.
pub open spec fn hex_digits() -> Seq<char> {
    seq!['0', '1', '2', '3', '4', '5', '6', '7', '8', '9', 'a', 'b', 'c', 'd', 'e', 'f']
}

/// How a character stands inside a JSON string: `"` and `\` escaped with a
/// backslash, the control characters with a short escape where JSON has one
/// and as `\u00XX` otherwise, every other character as itself.
pub open spec fn escape_char(c: char) -> Seq<char> {
    if c == '"' {
        seq!['\\', '"']
    } else if c == '\\' {
        seq!['\\', '\\']
    } else if c == '\u{8}' {
        seq!['\\', 'b']
    } else if c == '\t' {
        seq!['\\', 't']
    } else if c == '\n' {
        seq!['\\', 'n']
    } else if c == '\u{c}' {
        seq!['\\', 'f']
    } else if c == '\r' {
        seq!['\\', 'r']
    } else if (c as u32) < 0x20 {
        seq!['\\', 'u', '0', '0', hex_digits()[((c as u32) / 16) as int], hex_digits()[((c as u32) % 16) as int]]
    } else {
        seq![c]
    }
}

/// The characters of `s` each as it stands inside a JSON string.
pub open spec fn escaped(s: Seq<char>) -> Seq<char>
    decreases s.len(),
{
    if s.len() == 0 {
        seq![]
    } else {
        escaped(s.drop_last()) + escape_char(s.last())
    }
}

/// `s` written as a JSON string.
pub open spec fn quoted(s: Seq<char>) -> Seq<char> {
    seq!['"'] + escaped(s) + seq!['"']
}

/// The compact JSON text of a value: no whitespace, members and items
/// separated by `,`, keys written as strings and followed by `:`.
pub open spec fn json_text(v: JsonValue) -> Seq<char>
    decreases v,
{
    match v {
        JsonValue::Null => seq!['n', 'u', 'l', 'l'],
        JsonValue::Bool(b) => if b {
            seq!['t', 'r', 'u', 'e']
        } else {
            seq!['f', 'a', 'l', 's', 'e']
        },
        JsonValue::Number(n) => n@,
        JsonValue::String(s) => quoted(s@),
        JsonValue::Array(items) => seq!['['] + items_text(items@) + seq![']'],
        JsonValue::Object(entries) => seq!['{'] + members_text(entries@) + seq!['}'],
    }
}

/// The items of an array, each as JSON text, separated by `,`.
pub open spec fn items_text(items: Seq<JsonValue>) -> Seq<char>
    decreases items,
{
    if items.len() == 0 {
        seq![]
    } else if items.len() == 1 {
        json_text(items[0])
    } else {
        items_text(items.subrange(0, items.len() - 1)) + seq![','] + json_text(items[items.len() - 1])
    }
}

/// The members of an object, each as its key, `:` and its value, separated by `,`.
pub open spec fn members_text(entries: Seq<(String, JsonValue)>) -> Seq<char>
    decreases entries,
{
    if entries.len() == 0 {
        seq![]
    } else if entries.len() == 1 {
        quoted(entries[0].0@) + seq![':'] + json_text(entries[0].1)
    } else {
        members_text(entries.subrange(0, entries.len() - 1)) + seq![','] + quoted(
            entries[entries.len() - 1].0@,
        ) + seq![':'] + json_text(entries[entries.len() - 1].1)
    }
}

/// Appends `s` written as a JSON string to `out`.
fn push_quoted(out: &mut String, s: &str)
    ensures
        final(out)@ == old(out)@ + quoted(s@),
{
    proof {
        reveal_strlit("\"");
        reveal_strlit("0123456789abcdef");
    }
    let ghost start = out@;
    out.append("\"");
    let n = s.unicode_len();
    let hex = "0123456789abcdef";
    let mut i: usize = 0;
    while i < n
        invariant
            n == s@.len(),
            i <= n,
            hex@ == hex_digits(),
            out@ == start + seq!['"'] + escaped(s@.subrange(0, i as int)),
        decreases n - i,
    {
        proof {
            reveal_strlit("\\\"");
            reveal_strlit("\\\\");
            reveal_strlit("\\b");
            reveal_strlit("\\t");
            reveal_strlit("\\n");
            reveal_strlit("\\f");
            reveal_strlit("\\r");
            reveal_strlit("\\u00");
        }
        let c = s.get_char(i);
        let ghost before = out@;
        if c == '"' {
            out.append("\\\"");
        } else if c == '\\' {
            out.append("\\\\");
        } else if c == '\u{8}' {
            out.append("\\b");
        } else if c == '\t' {
            out.append("\\t");
        } else if c == '\n' {
            out.append("\\n");
        } else if c == '\u{c}' {
            out.append("\\f");
        } else if c == '\r' {
            out.append("\\r");
        } else if (c as u32) < 0x20 {
            let code = c as u32;
            let hi = (code / 16) as usize;
            let lo = (code % 16) as usize;
            out.append("\\u00");
            out.append(hex.substring_char(hi, hi + 1));
            out.append(hex.substring_char(lo, lo + 1));
            assert(hex@.subrange(hi as int, hi + 1) =~= seq![hex_digits()[hi as int]]);
            assert(hex@.subrange(lo as int, lo + 1) =~= seq![hex_digits()[lo as int]]);
        } else {
            out.append(s.substring_char(i, i + 1));
        }
        proof {
            let t = s@.subrange(0, i + 1);
            assert(t.drop_last() =~= s@.subrange(0, i as int));
            assert(t.last() == c);
            assert(out@ =~= before + escape_char(c));
        }
        i = i + 1;
    }
    out.append("\"");
    proof {
        assert(s@.subrange(0, n as int) =~= s@);
        assert(out@ =~= start + quoted(s@));
    }
}

/// Appends the compact JSON text of `v` to `out`.
fn push_json_text(out: &mut String, v: &JsonValue)
    ensures
        final(out)@ == old(out)@ + json_text(*v),
    decreases v,
{
    proof {
        reveal_strlit("null");
        reveal_strlit("true");
        reveal_strlit("false");
        reveal_strlit("[");
        reveal_strlit("]");
        reveal_strlit("{");
        reveal_strlit("}");
        reveal_strlit(",");
        reveal_strlit(":");
    }
    let ghost start = out@;
    match v {
        JsonValue::Null => {
            out.append("null");
        },
        JsonValue::Bool(b) => {
            if *b {
                out.append("true");
            } else {
                out.append("false");
            }
        },
        JsonValue::Number(n) => {
            out.append(n.as_str());
        },
        JsonValue::String(s) => {
            push_quoted(out, s.as_str());
        },
        JsonValue::Array(items) => {
            out.append("[");
            let n = items.len();
            let mut i: usize = 0;
            while i < n
                invariant
                    n == items@.len(),
                    i <= n,
                    *v == JsonValue::Array(*items),
                    out@ == start + seq!['['] + items_text(items@.subrange(0, i as int)),
                decreases n - i,
            {
                proof {
                    reveal_strlit(",");
                    assert(*items == v->Array_0);
                    assert(decreases_to!(*v => v->Array_0));
                    assert(decreases_to!(*items => items@));
                    assert(decreases_to!(items@ => items@[i as int]));
                }
                let ghost before = out@;
                if i > 0 {
                    out.append(",");
                }
                let ghost mid = out@;
                push_json_text(out, &items[i]);
                proof {
                    let t = items@.subrange(0, i + 1);
                    assert(t.subrange(0, t.len() - 1) =~= items@.subrange(0, i as int));
                    assert(t[t.len() - 1] == items@[i as int]);
                    if i == 0 {
                        assert(t.len() == 1);
                        assert(items_text(t) == json_text(items@[0]));
                        assert(items@.subrange(0, 0) =~= Seq::<JsonValue>::empty());
                        assert(out@ =~= start + seq!['['] + items_text(t));
                    } else {
                        assert(items_text(t) == items_text(items@.subrange(0, i as int)) + seq![','] + json_text(items@[i as int]));
                        assert(out@ =~= start + seq!['['] + items_text(t));
                    }
                }
                i = i + 1;
            }
            out.append("]");
            assert(items@.subrange(0, n as int) =~= items@);
        },
        JsonValue::Object(entries) => {
            out.append("{");
            let n = entries.len();
            let mut i: usize = 0;
            while i < n
                invariant
                    n == entries@.len(),
                    i <= n,
                    *v == JsonValue::Object(*entries),
                    out@ == start + seq!['{'] + members_text(entries@.subrange(0, i as int)),
                decreases n - i,
            {
                proof {
                    reveal_strlit(",");
                    reveal_strlit(":");
                    assert(*entries == v->Object_0);
                    assert(decreases_to!(*v => v->Object_0));
                    assert(decreases_to!(*entries => entries@));
                    assert(decreases_to!(entries@ => entries@[i as int]));
                    assert(decreases_to!(entries@[i as int] => entries@[i as int].1));
                }
                if i > 0 {
                    out.append(",");
                }
                push_quoted(out, entries[i].0.as_str());
                out.append(":");
                push_json_text(out, &entries[i].1);
                proof {
                    let t = entries@.subrange(0, i + 1);
                    assert(t.subrange(0, t.len() - 1) =~= entries@.subrange(0, i as int));
                    assert(t[t.len() - 1] == entries@[i as int]);
                    if i == 0 {
                        assert(t.len() == 1);
                        assert(entries@.subrange(0, 0) =~= Seq::<(String, JsonValue)>::empty());
                        assert(out@ =~= start + seq!['{'] + members_text(t));
                    } else {
                        assert(out@ =~= start + seq!['{'] + members_text(t));
                    }
                }
                i = i + 1;
            }
            out.append("}");
            assert(entries@.subrange(0, n as int) =~= entries@);
        },
    }
}

/// The compact JSON text of a value, as `serde_json` displays it.
pub fn json_to_string(v: &JsonValue) -> (r: String)
    ensures
        r@ == json_text(*v),
{
    let mut out = String::new();
    push_json_text(&mut out, v);
    proof {
        assert(out@ =~= json_text(*v));
    }
    out
}

} // verus!
