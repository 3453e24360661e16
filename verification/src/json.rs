//! A small JSON document model. The account-stream sub-protocol carries JSON
//! text; inbound frames are classified and outbound frames are built over
//! this model.
use vstd::prelude::*;

verus! {

broadcast use
    vstd::std_specs::vec::axiom_vec_index_decreases,
    vstd::std_specs::vec::axiom_vec_decreases_to_view,
    vstd::seq::axiom_seq_index_decreases;

/// Mathematical model of a JSON document. Object fields are kept in
/// order. Numbers are kept as decimal text: for a parsed document that is
/// the text serde_json reports after reading the number through its own
/// number type, which can normalize it; for a document built here it is
/// the text as given, spliced unchanged into rendered output.
pub enum JVal {
    Null,
    Bool(bool),
    Num(Seq<char>),
    Str(Seq<char>),
    Arr(Seq<JVal>),
    Obj(Seq<(Seq<char>, JVal)>),
}

/// Executable JSON document. Numbers are carried as decimal text.
#[derive(Debug)]
pub enum JsonValue {
    Null,
    Bool(bool),
    Num(String),
    Str(String),
    Arr(Vec<JsonValue>),
    Obj(Vec<(String, JsonValue)>),
}

pub open spec fn jval_of(v: JsonValue) -> JVal
    decreases v, 0int,
{
    match v {
        JsonValue::Null => JVal::Null,
        JsonValue::Bool(b) => JVal::Bool(b),
        JsonValue::Num(s) => JVal::Num(s@),
        JsonValue::Str(s) => JVal::Str(s@),
        JsonValue::Arr(items) => JVal::Arr(jvals_of(items@)),
        JsonValue::Obj(fields) => JVal::Obj(jfields_of(fields@)),
    }
}

pub open spec fn jvals_of(items: Seq<JsonValue>) -> Seq<JVal>
    decreases items, items.len(),
{
    if items.len() == 0 {
        Seq::empty()
    } else {
        seq![jval_of(items[0])] + jvals_of(items.drop_first())
    }
}

pub open spec fn jfields_of(fields: Seq<(String, JsonValue)>) -> Seq<(Seq<char>, JVal)>
    decreases fields, fields.len(),
{
    if fields.len() == 0 {
        Seq::empty()
    } else {
        seq![(fields[0].0@, jval_of(fields[0].1))] + jfields_of(fields.drop_first())
    }
}

impl View for JsonValue {
    type V = JVal;

    open spec fn view(&self) -> JVal {
        jval_of(*self)
    }
}

pub proof fn lemma_jvals_of_len(items: Seq<JsonValue>)
    ensures
        jvals_of(items).len() == items.len(),
    decreases items.len(),
{
    if items.len() > 0 {
        lemma_jvals_of_len(items.drop_first());
    }
}

pub proof fn lemma_jvals_of_index(items: Seq<JsonValue>, i: int)
    requires
        0 <= i < items.len(),
    ensures
        jvals_of(items).len() == items.len(),
        jvals_of(items)[i] == jval_of(items[i]),
    decreases items.len(),
{
    lemma_jvals_of_len(items);
    if i > 0 {
        lemma_jvals_of_index(items.drop_first(), i - 1);
    }
}

pub proof fn lemma_jfields_of_len(fields: Seq<(String, JsonValue)>)
    ensures
        jfields_of(fields).len() == fields.len(),
    decreases fields.len(),
{
    if fields.len() > 0 {
        lemma_jfields_of_len(fields.drop_first());
    }
}

pub proof fn lemma_jfields_of_index(fields: Seq<(String, JsonValue)>, i: int)
    requires
        0 <= i < fields.len(),
    ensures
        jfields_of(fields).len() == fields.len(),
        jfields_of(fields)[i] == (fields[i].0@, jval_of(fields[i].1)),
    decreases fields.len(),
{
    lemma_jfields_of_len(fields);
    if i > 0 {
        lemma_jfields_of_index(fields.drop_first(), i - 1);
    }
}

/// The value of the first field named `key`, if any.
pub open spec fn lookup(fields: Seq<(Seq<char>, JVal)>, key: Seq<char>) -> Option<JVal>
    decreases fields.len(),
{
    if fields.len() == 0 {
        None
    } else if fields[0].0 == key {
        Some(fields[0].1)
    } else {
        lookup(fields.drop_first(), key)
    }
}

/// Declares serde_json's document type; the parse boundary carries it.
#[verifier::external_type_specification]
#[verifier::external_body]
pub struct ExValue(serde_json::Value);

/// The document a `serde_json::Value` holds, with numbers as the decimal
/// text that `serde_json::Number::to_string` produces and object fields in
/// the order the value's map iterates them.
pub uninterp spec fn value_model(v: serde_json::Value) -> JVal;

/// What `serde_json::from_str::<serde_json::Value>` makes of a text:
/// `None` where the text is not well-formed JSON. The result depends on the
/// text alone.
pub uninterp spec fn parsed_json(text: Seq<char>) -> Option<JVal>;

/// Relies on serde_json::from_str::<serde_json::Value>: parses a JSON text,
/// deterministically in the text.
#[verifier::external_body]
fn parse_value(text: &str) -> (r: Option<serde_json::Value>)
    ensures
        match r {
            Some(v) => parsed_json(text@) == Some(value_model(v)),
            None => parsed_json(text@) is None,
        },
{
    serde_json::from_str(text).ok()
}

/// Relies on the shape of serde_json::Value and on
/// serde_json::Number::to_string: rebuilds the same document variant by
/// variant, keeping each number as its decimal text.
#[verifier::external_body]
fn convert_value(v: serde_json::Value) -> (r: JsonValue)
    ensures
        r@ == value_model(v),
{
    match v {
        serde_json::Value::Null => JsonValue::Null,
        serde_json::Value::Bool(b) => JsonValue::Bool(b),
        serde_json::Value::Number(n) => JsonValue::Num(n.to_string()),
        serde_json::Value::String(s) => JsonValue::Str(s),
        serde_json::Value::Array(items) => JsonValue::Arr(
            items.into_iter().map(convert_value).collect(),
        ),
        serde_json::Value::Object(fields) => JsonValue::Obj(
            fields.into_iter().map(|(k, x)| (k, convert_value(x))).collect(),
        ),
    }
}

/// Parses a JSON text into the library's document model.
pub fn parse_json(text: &str) -> (r: Option<JsonValue>)
    ensures
        match r {
            Some(j) => parsed_json(text@) == Some(j@),
            None => parsed_json(text@) is None,
        },
{
    match parse_value(text) {
        Some(v) => Some(convert_value(v)),
        None => None,
    }
}

/// Equality of two string slices, proved character by character.
pub fn str_eq(a: &str, b: &str) -> (r: bool)
    ensures
        r == (a@ == b@),
{
    let a_len = a.unicode_len();
    let b_len = b.unicode_len();
    if a_len != b_len {
        assert(a@ != b@) by {
            assert(a@.len() != b@.len());
        }
        return false;
    }
    let mut i: usize = 0;
    while i < a_len
        invariant
            i <= a_len,
            a_len == a@.len(),
            b_len == b@.len(),
            a_len == b_len,
            forall|j: int| 0 <= j < i ==> a@[j] == b@[j],
        decreases a_len - i,
    {
        if a.get_char(i) != b.get_char(i) {
            return false;
        }
        i = i + 1;
    }
    proof {
        assert(a@ =~= b@);
    }
    true
}

impl JsonValue {
    /// The first field named `key` of a JSON object; `None` for other
    /// documents or when the field is absent.
    pub fn get_field<'a>(&'a self, key: &str) -> (r: Option<&'a JsonValue>)
        ensures
            match r {
                Some(v) => self@ matches JVal::Obj(fs) && lookup(fs, key@) == Some(v@),
                None => !(self@ matches JVal::Obj(fs) && lookup(fs, key@) is Some),
            },
    {
        match self {
            JsonValue::Obj(fields) => {
                proof {
                    assert(jfields_of(fields@).skip(0) =~= jfields_of(fields@));
                }
                let mut i: usize = 0;
                while i < fields.len()
                    invariant
                        i <= fields@.len(),
                        self@ matches JVal::Obj(fs) && fs == jfields_of(fields@),
                        lookup(jfields_of(fields@), key@) == lookup(
                            jfields_of(fields@).skip(i as int),
                            key@,
                        ),
                    decreases fields@.len() - i,
                {
                    proof {
                        lemma_jfields_of_index(fields@, i as int);
                    }
                    if str_eq(fields[i].0.as_str(), key) {
                        proof {
                            let k = i as int;
                            assert(jfields_of(fields@).skip(k)[0] == jfields_of(fields@)[k]);
                        }
                        return Some(&fields[i].1);
                    }
                    proof {
                        assert(jfields_of(fields@).skip(i as int).drop_first() =~= jfields_of(
                            fields@,
                        ).skip(i as int + 1));
                    }
                    i = i + 1;
                }
                proof {
                    lemma_jfields_of_len(fields@);
                }
                None
            },
            _ => None,
        }
    }
}

/// Relies on String::push, documented to append the given character to the
/// end of the string.
pub assume_specification[ String::push ](s: &mut String, c: char)
    ensures
        final(s)@ == old(s)@.push(c),
;

pub open spec fn hex_digit(n: int) -> char {
    if n == 0 {
        '0'
    } else if n == 1 {
        '1'
    } else if n == 2 {
        '2'
    } else if n == 3 {
        '3'
    } else if n == 4 {
        '4'
    } else if n == 5 {
        '5'
    } else if n == 6 {
        '6'
    } else if n == 7 {
        '7'
    } else if n == 8 {
        '8'
    } else if n == 9 {
        '9'
    } else if n == 10 {
        'a'
    } else if n == 11 {
        'b'
    } else if n == 12 {
        'c'
    } else if n == 13 {
        'd'
    } else if n == 14 {
        'e'
    } else {
        'f'
    }
}

/// How one character appears inside a rendered JSON string.
pub open spec fn esc_char(c: char) -> Seq<char> {
    if c == '"' {
        seq!['\\', '"']
    } else if c == '\\' {
        seq!['\\', '\\']
    } else if c == '\u{8}' {
        seq!['\\', 'b']
    } else if c == '\u{c}' {
        seq!['\\', 'f']
    } else if c == '\n' {
        seq!['\\', 'n']
    } else if c == '\r' {
        seq!['\\', 'r']
    } else if c == '\t' {
        seq!['\\', 't']
    } else if (c as int) < 32 {
        seq!['\\', 'u', '0', '0', hex_digit(c as int / 16), hex_digit(c as int % 16)]
    } else {
        seq![c]
    }
}

/// A string's characters, escaped for JSON.
pub open spec fn esc(s: Seq<char>) -> Seq<char>
    decreases s.len(),
{
    if s.len() == 0 {
        Seq::empty()
    } else {
        esc(s.drop_last()) + esc_char(s.last())
    }
}

/// The text this library renders for a JSON document: compact separators,
/// object fields in model order.
pub open spec fn json_text(j: JVal) -> Seq<char>
    decreases j, 0int,
{
    match j {
        JVal::Null => "null"@,
        JVal::Bool(b) => if b {
            "true"@
        } else {
            "false"@
        },
        JVal::Num(s) => s,
        JVal::Str(s) => seq!['"'] + esc(s) + seq!['"'],
        JVal::Arr(items) => seq!['['] + arr_body(items) + seq![']'],
        JVal::Obj(fields) => seq!['{'] + obj_body(fields) + seq!['}'],
    }
}

pub open spec fn arr_body(items: Seq<JVal>) -> Seq<char>
    decreases items, items.len(),
{
    if items.len() == 0 {
        Seq::empty()
    } else if items.len() == 1 {
        json_text(items[0])
    } else {
        arr_body(items.drop_last()) + seq![','] + json_text(items.last())
    }
}

pub open spec fn field_text(f: (Seq<char>, JVal)) -> Seq<char>
    decreases f, 0int,
{
    seq!['"'] + esc(f.0) + seq!['"', ':'] + json_text(f.1)
}

pub open spec fn obj_body(fields: Seq<(Seq<char>, JVal)>) -> Seq<char>
    decreases fields, fields.len(),
{
    if fields.len() == 0 {
        Seq::empty()
    } else if fields.len() == 1 {
        field_text(fields[0])
    } else {
        obj_body(fields.drop_last()) + seq![','] + field_text(fields.last())
    }
}

/// Appends `s` to `out`, escaped for JSON.
fn append_escaped(s: &str, out: &mut String)
    ensures
        final(out)@ == old(out)@ + esc(s@),
{
    let ghost base = out@;
    let len = s.unicode_len();
    let mut i: usize = 0;
    while i < len
        invariant
            i <= len,
            len == s@.len(),
            out@ == base + esc(s@.take(i as int)),
        decreases len - i,
    {
        let c = s.get_char(i);
        proof {
            assert(s@.take(i as int + 1).drop_last() =~= s@.take(i as int));
        }
        if c == '"' {
            out.append("\\\"");
            proof {
                reveal_strlit("\\\"");
                assert("\\\""@ =~= esc_char('"'));
            }
        } else if c == '\\' {
            out.append("\\\\");
            proof {
                reveal_strlit("\\\\");
                assert("\\\\"@ =~= esc_char('\\'));
            }
        } else if c == '\u{8}' {
            out.append("\\b");
            proof {
                reveal_strlit("\\b");
                assert("\\b"@ =~= esc_char('\u{8}'));
            }
        } else if c == '\u{c}' {
            out.append("\\f");
            proof {
                reveal_strlit("\\f");
                assert("\\f"@ =~= esc_char('\u{c}'));
            }
        } else if c == '\n' {
            out.append("\\n");
            proof {
                reveal_strlit("\\n");
                assert("\\n"@ =~= esc_char('\n'));
            }
        } else if c == '\r' {
            out.append("\\r");
            proof {
                reveal_strlit("\\r");
                assert("\\r"@ =~= esc_char('\r'));
            }
        } else if c == '\t' {
            out.append("\\t");
            proof {
                reveal_strlit("\\t");
                assert("\\t"@ =~= esc_char('\t'));
            }
        } else if (c as u32) < 32 {
            out.append("\\u00");
            let hi = hex_char(((c as u32) / 16) as u8);
            let lo = hex_char(((c as u32) % 16) as u8);
            out.push(hi);
            out.push(lo);
            proof {
                reveal_strlit("\\u00");
                assert("\\u00"@.push(hi).push(lo) =~= esc_char(c));
            }
        } else {
            out.push(c);
            proof {
                assert(seq![c] =~= esc_char(c));
            }
        }
        proof {
            assert(out@ =~= base + esc(s@.take(i as int + 1)));
        }
        i = i + 1;
    }
    proof {
        assert(s@.take(len as int) =~= s@);
    }
}

fn hex_char(n: u8) -> (c: char)
    requires
        n < 16,
    ensures
        c == hex_digit(n as int),
{
    match n {
        0 => '0',
        1 => '1',
        2 => '2',
        3 => '3',
        4 => '4',
        5 => '5',
        6 => '6',
        7 => '7',
        8 => '8',
        9 => '9',
        10 => 'a',
        11 => 'b',
        12 => 'c',
        13 => 'd',
        14 => 'e',
        _ => 'f',
    }
}

impl JsonValue {
    /// Appends this document's JSON text to `out`.
    #[verifier::loop_isolation(false)]
    pub fn render_into(&self, out: &mut String)
        ensures
            final(out)@ == old(out)@ + json_text(self@),
        decreases *self,
    {
        let ghost base = out@;
        match self {
            JsonValue::Null => {
                out.append("null");
            },
            JsonValue::Bool(b) => {
                if *b {
                    out.append("true");
                } else {
                    out.append("false");
                }
            },
            JsonValue::Num(s) => {
                out.append(s.as_str());
            },
            JsonValue::Str(s) => {
                out.push('"');
                append_escaped(s.as_str(), out);
                out.push('"');
                proof {
                    assert(out@ =~= base + json_text(self@));
                }
            },
            JsonValue::Arr(items) => {
                out.push('[');
                proof {
                    lemma_jvals_of_len(items@);
                    assert(out@ =~= base + seq!['['] + arr_body(jvals_of(items@).take(0)));
                }
                let mut i: usize = 0;
                while i < items.len()
                    invariant
                        i <= items@.len(),
                        jvals_of(items@).len() == items@.len(),
                        out@ == base + seq!['['] + arr_body(jvals_of(items@).take(i as int)),
                    decreases items@.len() - i,
                {
                    if i > 0 {
                        out.push(',');
                    }
                    proof {
                        assert(decreases_to!(*self => *items));
                        assert(decreases_to!(*items => items@[i as int]));
                    }
                    items[i].render_into(out);
                    proof {
                        lemma_jvals_of_index(items@, i as int);
                        assert(jvals_of(items@).take(i as int + 1).drop_last() =~= jvals_of(
                            items@,
                        ).take(i as int));
                        assert(out@ =~= base + seq!['['] + arr_body(
                            jvals_of(items@).take(i as int + 1),
                        ));
                    }
                    i = i + 1;
                }
                out.push(']');
                proof {
                    lemma_jvals_of_len(items@);
                    assert(jvals_of(items@).take(items@.len() as int) =~= jvals_of(items@));
                    assert(out@ =~= base + json_text(self@));
                }
            },
            JsonValue::Obj(fields) => {
                out.push('{');
                proof {
                    lemma_jfields_of_len(fields@);
                    assert(out@ =~= base + seq!['{'] + obj_body(jfields_of(fields@).take(0)));
                }
                let mut i: usize = 0;
                while i < fields.len()
                    invariant
                        i <= fields@.len(),
                        jfields_of(fields@).len() == fields@.len(),
                        out@ == base + seq!['{'] + obj_body(jfields_of(fields@).take(i as int)),
                    decreases fields@.len() - i,
                {
                    if i > 0 {
                        out.push(',');
                    }
                    out.push('"');
                    append_escaped(fields[i].0.as_str(), out);
                    out.push('"');
                    out.push(':');
                    proof {
                        assert(decreases_to!(*self => *fields));
                        assert(decreases_to!(*fields => fields@[i as int]));
                        assert(decreases_to!(fields@[i as int] => fields@[i as int].1));
                    }
                    fields[i].1.render_into(out);
                    proof {
                        lemma_jfields_of_index(fields@, i as int);
                        assert(jfields_of(fields@).take(i as int + 1).drop_last() =~= jfields_of(
                            fields@,
                        ).take(i as int));
                        let f = jfields_of(fields@)[i as int];
                        assert(jfields_of(fields@).take(i as int + 1).last() == f);
                        assert(field_text(f) == seq!['"'] + esc(fields@[i as int].0@) + seq![
                            '"',
                            ':',
                        ] + json_text(jval_of(fields@[i as int].1)));
                        assert(out@ =~= base + seq!['{'] + obj_body(
                            jfields_of(fields@).take(i as int + 1),
                        ));
                    }
                    i = i + 1;
                }
                out.push('}');
                proof {
                    lemma_jfields_of_len(fields@);
                    assert(jfields_of(fields@).take(fields@.len() as int) =~= jfields_of(fields@));
                    assert(out@ =~= base + json_text(self@));
                }
            },
        }
    }

    /// A deep copy of this document, equal to it in the model.
    #[verifier::loop_isolation(false)]
    pub fn duplicate(&self) -> (r: JsonValue)
        ensures
            r@ == self@,
        decreases *self,
    {
        match self {
            JsonValue::Null => JsonValue::Null,
            JsonValue::Bool(b) => JsonValue::Bool(*b),
            JsonValue::Num(s) => JsonValue::Num(s.clone()),
            JsonValue::Str(s) => JsonValue::Str(s.clone()),
            JsonValue::Arr(items) => {
                let mut copies: Vec<JsonValue> = Vec::new();
                let mut i: usize = 0;
                while i < items.len()
                    invariant
                        i <= items@.len(),
                        copies@.len() == i,
                        forall|j: int| 0 <= j < i ==> copies@[j]@ == items@[j]@,
                    decreases items@.len() - i,
                {
                    proof {
                        assert(decreases_to!(*self => *items));
                        assert(decreases_to!(*items => items@[i as int]));
                    }
                    copies.push(items[i].duplicate());
                    i = i + 1;
                }
                let r = JsonValue::Arr(copies);
                proof {
                    lemma_jvals_of_len(copies@);
                    lemma_jvals_of_len(items@);
                    assert forall|j: int| 0 <= j < items@.len() implies jvals_of(copies@)[j]
                        == jvals_of(items@)[j] by {
                        lemma_jvals_of_index(copies@, j);
                        lemma_jvals_of_index(items@, j);
                    }
                    assert(jvals_of(copies@) =~= jvals_of(items@));
                }
                r
            },
            JsonValue::Obj(fields) => {
                let mut copies: Vec<(String, JsonValue)> = Vec::new();
                let mut i: usize = 0;
                while i < fields.len()
                    invariant
                        i <= fields@.len(),
                        copies@.len() == i,
                        forall|j: int|
                            0 <= j < i ==> copies@[j].0@ == fields@[j].0@ && copies@[j].1@
                                == fields@[j].1@,
                    decreases fields@.len() - i,
                {
                    proof {
                        assert(decreases_to!(*self => *fields));
                        assert(decreases_to!(*fields => fields@[i as int]));
                        assert(decreases_to!(fields@[i as int] => fields@[i as int].1));
                    }
                    copies.push((fields[i].0.clone(), fields[i].1.duplicate()));
                    i = i + 1;
                }
                let r = JsonValue::Obj(copies);
                proof {
                    lemma_jfields_of_len(copies@);
                    lemma_jfields_of_len(fields@);
                    assert forall|j: int| 0 <= j < fields@.len() implies jfields_of(copies@)[j]
                        == jfields_of(fields@)[j] by {
                        lemma_jfields_of_index(copies@, j);
                        lemma_jfields_of_index(fields@, j);
                    }
                    assert(jfields_of(copies@) =~= jfields_of(fields@));
                }
                r
            },
        }
    }

    /// This document's JSON text.
    pub fn render(&self) -> (r: String)
        ensures
            r@ == json_text(self@),
    {
        let mut out = String::new();
        self.render_into(&mut out);
        proof {
            assert(Seq::<char>::empty() + json_text(self@) =~= json_text(self@));
        }
        out
    }
}

pub open spec fn is_digit(c: char) -> bool {
    '0' <= c && c <= '9'
}

pub open spec fn digit_val(c: char) -> int {
    c as int - '0' as int
}

/// The value of a sequence of decimal digits.
pub open spec fn dec_val(s: Seq<char>) -> int
    decreases s.len(),
{
    if s.len() == 0 {
        0
    } else {
        dec_val(s.drop_last()) * 10 + digit_val(s.last())
    }
}

/// A text that denotes a `u64`: one or more digits, in range.
pub open spec fn is_u64_text(s: Seq<char>) -> bool {
    &&& s.len() > 0
    &&& forall|i: int| 0 <= i < s.len() ==> is_digit(s[i])
    &&& dec_val(s) <= u64::MAX
}

proof fn lemma_dec_val_nonneg(s: Seq<char>)
    requires
        forall|i: int| 0 <= i < s.len() ==> is_digit(s[i]),
    ensures
        dec_val(s) >= 0,
    decreases s.len(),
{
    if s.len() > 0 {
        lemma_dec_val_nonneg(s.drop_last());
    }
}

proof fn lemma_dec_val_monotone(s: Seq<char>, i: int)
    requires
        forall|k: int| 0 <= k < s.len() ==> is_digit(s[k]),
        0 <= i <= s.len(),
    ensures
        dec_val(s) >= dec_val(s.take(i)),
    decreases s.len() - i,
{
    if i < s.len() {
        assert(s.take(i + 1).drop_last() =~= s.take(i));
        lemma_dec_val_nonneg(s.take(i));
        lemma_dec_val_monotone(s, i + 1);
    } else {
        assert(s.take(i) =~= s);
    }
}

/// Reads a `u64` from decimal digit text; `None` on any other text or on
/// overflow.
pub fn parse_u64(s: &str) -> (r: Option<u64>)
    ensures
        match r {
            Some(n) => is_u64_text(s@) && n == dec_val(s@),
            None => !is_u64_text(s@),
        },
{
    let len = s.unicode_len();
    if len == 0 {
        return None;
    }
    let mut acc: u64 = 0;
    let mut i: usize = 0;
    while i < len
        invariant
            0 < len == s@.len(),
            i <= len,
            forall|k: int| 0 <= k < i ==> is_digit(s@[k]),
            acc == dec_val(s@.take(i as int)),
        decreases len - i,
    {
        let c = s.get_char(i);
        if c < '0' || c > '9' {
            return None;
        }
        let d: u64 = (c as u32 as u64) - ('0' as u32 as u64);
        proof {
            assert(s@.take(i as int + 1).drop_last() =~= s@.take(i as int));
            lemma_dec_val_nonneg(s@.take(i as int));
        }
        if acc > (u64::MAX - d) / 10 {
            proof {
                assert(acc * 10 + d > u64::MAX);
                if forall|k: int| 0 <= k < s@.len() ==> is_digit(s@[k]) {
                    lemma_dec_val_monotone(s@, i as int + 1);
                }
            }
            return None;
        }
        acc = acc * 10 + d;
        i = i + 1;
    }
    proof {
        assert(s@.take(len as int) =~= s@);
    }
    Some(acc)
}

} // verus!
