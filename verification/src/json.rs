//! A model of JSON values, used for the request bodies the client sends and
//! for reading loosely-typed response fields into typed records.
//!
//! The typed records read signed 64-bit integers; any other number rides
//! along as its source text.

use vstd::prelude::*;
use crate::error::QBittorrentError;
use crate::numtext::int_text;
use crate::numtext::i64_to_string;

verus! {

/// A JSON value: an object keeps its members in order, as a key/value list.
///
/// `Num` holds the integers the typed records read. A number that does not
/// fit a signed 64-bit integer — a fractional field, say — is carried as
/// `RawNum`, its JSON source text, and rendered verbatim, so a document
/// with such fields still passes through whole.
#[derive(Debug)]
pub enum JsonValue {
    Null,
    Bool(bool),
    Num(i64),
    RawNum(String),
    Str(String),
    Arr(Vec<JsonValue>),
    Obj(Vec<(String, JsonValue)>),
}

/// The lowercase hexadecimal character for a value below 16.
pub open spec fn hex_char(d: nat) -> char
    recommends
        d < 16,
{
    if d == 0 {
        '0'
    } else if d == 1 {
        '1'
    } else if d == 2 {
        '2'
    } else if d == 3 {
        '3'
    } else if d == 4 {
        '4'
    } else if d == 5 {
        '5'
    } else if d == 6 {
        '6'
    } else if d == 7 {
        '7'
    } else if d == 8 {
        '8'
    } else if d == 9 {
        '9'
    } else if d == 10 {
        'a'
    } else if d == 11 {
        'b'
    } else if d == 12 {
        'c'
    } else if d == 13 {
        'd'
    } else if d == 14 {
        'e'
    } else {
        'f'
    }
}

/// How one character appears inside a JSON string literal: quotes and
/// backslashes get a backslash escape, control characters get their short
/// escape where one exists and a `\u00XX` escape otherwise, and every other
/// character stands for itself.
pub open spec fn escape_char(c: char) -> Seq<char> {
    if c == '"' {
        seq!['\\', '"']
    } else if c == '\\' {
        seq!['\\', '\\']
    } else if (c as u32) < 32 {
        if c as u32 == 8 {
            seq!['\\', 'b']
        } else if c as u32 == 9 {
            seq!['\\', 't']
        } else if c as u32 == 10 {
            seq!['\\', 'n']
        } else if c as u32 == 12 {
            seq!['\\', 'f']
        } else if c as u32 == 13 {
            seq!['\\', 'r']
        } else {
            seq!['\\', 'u', '0', '0', hex_char((c as u32 / 16) as nat), hex_char(
                (c as u32 % 16) as nat,
            )]
        }
    } else {
        seq![c]
    }
}

/// The body of a JSON string literal: each character escaped.
pub open spec fn escaped_text(s: Seq<char>) -> Seq<char>
    decreases s.len(),
{
    if s.len() == 0 {
        Seq::empty()
    } else {
        escaped_text(s.drop_last()) + escape_char(s.last())
    }
}

/// A JSON string literal: the escaped body between double quotes.
pub open spec fn string_text(s: Seq<char>) -> Seq<char> {
    seq!['"'] + escaped_text(s) + seq!['"']
}

/// The JSON rendering of a value, in the compact form with no whitespace.
pub open spec fn json_text(v: JsonValue) -> Seq<char>
    decreases v,
{
    match v {
        JsonValue::Null => "null"@,
        JsonValue::Bool(b) => if b {
            "true"@
        } else {
            "false"@
        },
        JsonValue::Num(i) => int_text(i as int),
        JsonValue::RawNum(s) => s@,
        JsonValue::Str(s) => string_text(s@),
        JsonValue::Arr(a) => seq!['['] + arr_text(a@) + seq![']'],
        JsonValue::Obj(m) => seq!['{'] + obj_text(m@) + seq!['}'],
    }
}

/// The comma-separated renderings of an array's elements.
pub open spec fn arr_text(s: Seq<JsonValue>) -> Seq<char>
    decreases s,
{
    if s.len() == 0 {
        Seq::empty()
    } else if s.len() == 1 {
        json_text(s[0])
    } else {
        arr_text(s.drop_last()) + seq![','] + json_text(s.last())
    }
}

/// The comma-separated renderings of an object's members, each a quoted key,
/// a colon, and the member's value.
pub open spec fn obj_text(s: Seq<(String, JsonValue)>) -> Seq<char>
    decreases s,
{
    if s.len() == 0 {
        Seq::empty()
    } else if s.len() == 1 {
        member_text(s[0])
    } else {
        obj_text(s.drop_last()) + seq![','] + member_text(s.last())
    }
}

/// One object member's rendering.
pub open spec fn member_text(m: (String, JsonValue)) -> Seq<char>
    decreases m,
{
    string_text(m.0@) + seq![':'] + json_text(m.1)
}

/// Relies on String::push: appends exactly the given character.
#[verifier::external_body]
fn push_char(s: &mut String, c: char)
    ensures
        final(s)@ == old(s)@.push(c),
{
    s.push(c);
}

/// The lowercase hexadecimal digit for a value below 16, as a string slice.
fn hex_digit_str(d: u32) -> (r: &'static str)
    requires
        d < 16,
    ensures
        r@ == seq![hex_char(d as nat)],
{
    proof {
        reveal_strlit("0");
        reveal_strlit("1");
        reveal_strlit("2");
        reveal_strlit("3");
        reveal_strlit("4");
        reveal_strlit("5");
        reveal_strlit("6");
        reveal_strlit("7");
        reveal_strlit("8");
        reveal_strlit("9");
        reveal_strlit("a");
        reveal_strlit("b");
        reveal_strlit("c");
        reveal_strlit("d");
        reveal_strlit("e");
        reveal_strlit("f");
    }
    let r: &'static str = if d == 0 {
        "0"
    } else if d == 1 {
        "1"
    } else if d == 2 {
        "2"
    } else if d == 3 {
        "3"
    } else if d == 4 {
        "4"
    } else if d == 5 {
        "5"
    } else if d == 6 {
        "6"
    } else if d == 7 {
        "7"
    } else if d == 8 {
        "8"
    } else if d == 9 {
        "9"
    } else if d == 10 {
        "a"
    } else if d == 11 {
        "b"
    } else if d == 12 {
        "c"
    } else if d == 13 {
        "d"
    } else if d == 14 {
        "e"
    } else {
        "f"
    };
    proof {
        assert(r@ =~= seq![hex_char(d as nat)]);
    }
    r
}

/// Appends the escaped form of one character.
fn append_escaped_char(out: &mut String, c: char)
    ensures
        final(out)@ == old(out)@ + escape_char(c),
{
    if c == '"' {
        out.append("\\\"");
        proof {
            reveal_strlit("\\\"");
            assert(out@ =~= old(out)@ + escape_char(c));
        }
    } else if c == '\\' {
        out.append("\\\\");
        proof {
            reveal_strlit("\\\\");
            assert(out@ =~= old(out)@ + escape_char(c));
        }
    } else {
        let u = c as u32;
        if u >= 32 {
            push_char(out, c);
            proof {
                assert(out@ =~= old(out)@ + escape_char(c));
            }
        } else if u == 8 {
            out.append("\\b");
            proof {
                reveal_strlit("\\b");
                assert(out@ =~= old(out)@ + escape_char(c));
            }
        } else if u == 9 {
            out.append("\\t");
            proof {
                reveal_strlit("\\t");
                assert(out@ =~= old(out)@ + escape_char(c));
            }
        } else if u == 10 {
            out.append("\\n");
            proof {
                reveal_strlit("\\n");
                assert(out@ =~= old(out)@ + escape_char(c));
            }
        } else if u == 12 {
            out.append("\\f");
            proof {
                reveal_strlit("\\f");
                assert(out@ =~= old(out)@ + escape_char(c));
            }
        } else if u == 13 {
            out.append("\\r");
            proof {
                reveal_strlit("\\r");
                assert(out@ =~= old(out)@ + escape_char(c));
            }
        } else {
            out.append("\\u00");
            out.append(hex_digit_str(u / 16));
            out.append(hex_digit_str(u % 16));
            proof {
                reveal_strlit("\\u00");
                assert(out@ =~= old(out)@ + escape_char(c));
            }
        }
    }
}

/// Appends a JSON string literal for `s`.
fn append_string_literal(out: &mut String, s: &str)
    ensures
        final(out)@ == old(out)@ + string_text(s@),
{
    out.append("\"");
    proof {
        reveal_strlit("\"");
        assert(out@ =~= old(out)@ + seq!['"']);
    }
    let len = s.unicode_len();
    let mut i: usize = 0;
    while i < len
        invariant
            i <= len,
            len == s@.len(),
            out@ == old(out)@ + seq!['"'] + escaped_text(s@.subrange(0, i as int)),
        decreases len - i,
    {
        let c = s.get_char(i);
        append_escaped_char(out, c);
        proof {
            assert(s@.subrange(0, i + 1).drop_last() =~= s@.subrange(0, i as int));
            assert(s@.subrange(0, i + 1).last() == s@[i as int]);
            assert(out@ =~= old(out)@ + seq!['"'] + escaped_text(s@.subrange(0, i + 1)));
        }
        i = i + 1;
    }
    out.append("\"");
    proof {
        assert(s@.subrange(0, s@.len() as int) =~= s@);
        assert(out@ =~= old(out)@ + string_text(s@));
    }
}

/// Renders a value as JSON text, in the compact form with no whitespace.
pub fn json_to_string(v: &JsonValue) -> (s: String)
    ensures
        s@ == json_text(*v),
    decreases *v,
{
    match v {
        JsonValue::Null => String::from_str("null"),
        JsonValue::Bool(b) => if *b {
            String::from_str("true")
        } else {
            String::from_str("false")
        },
        JsonValue::Num(i) => i64_to_string(*i),
        JsonValue::RawNum(st) => st.clone(),
        JsonValue::Str(st) => {
            let mut out = String::new();
            append_string_literal(&mut out, st.as_str());
            proof {
                assert(out@ =~= json_text(*v));
            }
            out
        },
        JsonValue::Arr(a) => {
            let mut out = String::from_str("[");
            proof {
                reveal_strlit("[");
                assert(out@ =~= seq!['[']);
            }
            let n = a.len();
            let mut i: usize = 0;
            while i < n
                invariant
                    i <= n,
                    n == a@.len(),
                    *v == JsonValue::Arr(*a),
                    out@ == seq!['['] + arr_text(a@.subrange(0, i as int)),
                decreases n - i,
            {
                if i > 0 {
                    out.append(",");
                    proof {
                        reveal_strlit(",");
                    }
                }
                proof {
                    assert(decreases_to!(*v => v->Arr_0));
                    assert(decreases_to!(*a => a@));
                    assert(decreases_to!(a@ => a@[i as int]));
                    assert(decreases_to!(*v => a@[i as int]));
                }
                let elem = json_to_string(&a[i]);
                out.append(elem.as_str());
                proof {
                    assert(a@.subrange(0, i + 1).drop_last() =~= a@.subrange(0, i as int));
                    assert(a@.subrange(0, i + 1).last() == a@[i as int]);
                    assert(out@ =~= seq!['['] + arr_text(a@.subrange(0, i + 1)));
                }
                i = i + 1;
            }
            out.append("]");
            proof {
                reveal_strlit("]");
                assert(a@.subrange(0, a@.len() as int) =~= a@);
                assert(out@ =~= json_text(*v));
            }
            out
        },
        JsonValue::Obj(m) => {
            let mut out = String::from_str("{");
            proof {
                reveal_strlit("{");
                assert(out@ =~= seq!['{']);
            }
            let n = m.len();
            let mut i: usize = 0;
            while i < n
                invariant
                    i <= n,
                    n == m@.len(),
                    *v == JsonValue::Obj(*m),
                    out@ == seq!['{'] + obj_text(m@.subrange(0, i as int)),
                decreases n - i,
            {
                let ghost out0 = out@;
                if i > 0 {
                    out.append(",");
                    proof {
                        reveal_strlit(",");
                    }
                }
                let member = &m[i];
                append_string_literal(&mut out, member.0.as_str());
                out.append(":");
                proof {
                    reveal_strlit(":");
                    assert(decreases_to!(*v => v->Obj_0));
                    assert(decreases_to!(*m => m@));
                    assert(decreases_to!(m@ => m@[i as int]));
                    assert(decreases_to!(m@[i as int] => m@[i as int].1));
                    assert(decreases_to!(*v => m@[i as int].1));
                }
                let elem = json_to_string(&member.1);
                out.append(elem.as_str());
                proof {
                    assert(member_text(m@[i as int]) == string_text(m@[i as int].0@) + seq![':']
                        + json_text(m@[i as int].1));
                    if i > 0 {
                        assert(out@ =~= out0 + seq![','] + member_text(m@[i as int]));
                    } else {
                        assert(out@ =~= out0 + member_text(m@[i as int]));
                    }
                    assert(m@.subrange(0, i + 1).drop_last() =~= m@.subrange(0, i as int));
                    assert(m@.subrange(0, i + 1).last() == m@[i as int]);
                    assert(out@ =~= seq!['{'] + obj_text(m@.subrange(0, i + 1)));
                }
                i = i + 1;
            }
            out.append("}");
            proof {
                reveal_strlit("}");
                assert(m@.subrange(0, m@.len() as int) =~= m@);
                assert(out@ =~= json_text(*v));
            }
            out
        },
    }
}

/// A JSON value known to be an object, the only payload the preferences
/// update accepts.
#[derive(Debug)]
pub struct JsonObject(pub(crate) JsonValue);

impl JsonObject {
    /// The wrapped value.
    pub closed spec fn spec_value(self) -> JsonValue {
        self.0
    }

    #[verifier::type_invariant]
    closed spec fn obj_invariant(self) -> bool {
        self.0 is Obj
    }

    /// Wraps a value, accepting exactly the object-shaped ones.
    pub fn try_from(value: JsonValue) -> (r: Result<JsonObject, QBittorrentError>)
        ensures
            r is Ok <==> value is Obj,
            r is Ok ==> r->Ok_0.spec_value() == value,
            r is Err ==> r->Err_0 is BadInput,
    {
        match value {
            JsonValue::Obj(..) => Ok(JsonObject(value)),
            _ => Err(QBittorrentError::BadInput(String::from_str("expected a json object"))),
        }
    }

    /// A look at the wrapped value.
    pub fn value(&self) -> (r: &JsonValue)
        ensures
            *r == self.spec_value(),
    {
        &self.0
    }
}

/// A field whose JSON representation varies between an integer and a string
/// across daemon versions; which representation was present is preserved.
#[derive(Debug, Clone)]
pub enum IntOrString {
    Int(i64),
    Str(String),
}

impl IntOrString {
    /// Reads the value out of its JSON form: an integer yields `Int`, a
    /// string yields `Str`, and every other shape — a fractional number
    /// included — is rejected.
    pub fn from_json(v: &JsonValue) -> (r: Result<IntOrString, QBittorrentError>)
        ensures
            match *v {
                JsonValue::Num(i) => r == Ok::<IntOrString, QBittorrentError>(IntOrString::Int(i)),
                JsonValue::Str(s) => r == Ok::<IntOrString, QBittorrentError>(
                    IntOrString::Str(s),
                ),
                _ => r is Err && r->Err_0 is BadInput,
            },
    {
        match v {
            JsonValue::Num(i) => Ok(IntOrString::Int(*i)),
            JsonValue::Str(s) => Ok(IntOrString::Str(s.clone())),
            _ => Err(
                QBittorrentError::BadInput(String::from_str("expected a string or an integer")),
            ),
        }
    }
}

} // verus!
