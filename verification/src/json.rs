//! The JSON tree both wire formats travel through.
//!
//! `JsonValue` is the library's own JSON representation: block payloads
//! and generation requests are built into it and read out of it by
//! verified code. Turning a text into a tree is delegated to serde_json
//! behind trusted wrappers; turning a tree into a text is verified here.

use vstd::prelude::*;

verus! {

use vstd::string::StringExecFns;
use vstd::std_specs::iter::IteratorSpec;

broadcast use {vstd::std_specs::vec::group_vec_axioms, vstd::string::group_string_axioms};

/// The mathematical shape of a JSON document.
#[verifier::ext_equal]
pub enum JsonModel {
    Null,
    Bool(bool),
    Num(Seq<char>),
    Str(Seq<char>),
    Arr(Seq<JsonModel>),
    Obj(Seq<(Seq<char>, JsonModel)>),
}

/// A JSON document. Numbers are carried as their literal text: the
/// library never computes with them, it only moves them through.
#[derive(Debug)]
pub enum JsonValue {
    Null,
    Bool(bool),
    Num(String),
    Str(String),
    Arr(Vec<JsonValue>),
    Obj(Vec<(String, JsonValue)>),
}

pub open spec fn jv_model(v: JsonValue) -> JsonModel
    decreases v,
{
    match v {
        JsonValue::Null => JsonModel::Null,
        JsonValue::Bool(b) => JsonModel::Bool(b),
        JsonValue::Num(s) => JsonModel::Num(s@),
        JsonValue::Str(s) => JsonModel::Str(s@),
        JsonValue::Arr(a) => JsonModel::Arr(jv_models(a@)),
        JsonValue::Obj(o) => JsonModel::Obj(jv_member_models(o@)),
    }
}

pub open spec fn jv_models(s: Seq<JsonValue>) -> Seq<JsonModel>
    decreases s,
{
    if s.len() == 0 {
        Seq::empty()
    } else {
        seq![jv_model(s[0])] + jv_models(s.drop_first())
    }
}

pub open spec fn jv_member_models(s: Seq<(String, JsonValue)>) -> Seq<(Seq<char>, JsonModel)>
    decreases s,
{
    if s.len() == 0 {
        Seq::empty()
    } else {
        seq![(s[0].0@, jv_model(s[0].1))] + jv_member_models(s.drop_first())
    }
}

impl View for JsonValue {
    type V = JsonModel;

    open spec fn view(&self) -> JsonModel {
        jv_model(*self)
    }
}

pub proof fn lemma_jv_models_index(s: Seq<JsonValue>)
    ensures
        jv_models(s).len() == s.len(),
        forall|i: int| 0 <= i < s.len() ==> jv_models(s)[i] == jv_model(#[trigger] s[i]),
    decreases s.len(),
{
    if s.len() > 0 {
        lemma_jv_models_index(s.drop_first());
        assert forall|i: int| 0 <= i < s.len() implies jv_models(s)[i] == jv_model(
            #[trigger] s[i],
        ) by {
            if i > 0 {
                assert(s.drop_first()[i - 1] == s[i]);
                assert(jv_models(s)[i] == jv_models(s.drop_first())[i - 1]);
            }
        }
    }
}

pub proof fn lemma_jv_member_models_index(s: Seq<(String, JsonValue)>)
    ensures
        jv_member_models(s).len() == s.len(),
        forall|i: int|
            0 <= i < s.len() ==> jv_member_models(s)[i] == ((#[trigger] s[i]).0@, jv_model(
                s[i].1,
            )),
    decreases s.len(),
{
    if s.len() > 0 {
        lemma_jv_member_models_index(s.drop_first());
        assert forall|i: int| 0 <= i < s.len() implies jv_member_models(s)[i] == ((
        #[trigger] s[i]).0@, jv_model(s[i].1)) by {
            if i > 0 {
                assert(s.drop_first()[i - 1] == s[i]);
                assert(jv_member_models(s)[i] == jv_member_models(s.drop_first())[i - 1]);
            }
        }
    }
}

/// The model of a member vector is exactly `target`, shown pointwise.
pub proof fn lemma_member_models_are(ms: Seq<(String, JsonValue)>, target: Seq<(Seq<char>, JsonModel)>)
    requires
        target.len() == ms.len(),
        forall|i: int|
            0 <= i < ms.len() ==> ((#[trigger] ms[i]).0@, jv_model(ms[i].1)) == target[i],
    ensures
        jv_member_models(ms) == target,
{
    lemma_jv_member_models_index(ms);
    assert forall|i: int| 0 <= i < ms.len() implies #[trigger] jv_member_models(ms)[i]
        == target[i] by {
        assert(jv_member_models(ms)[i] == (ms[i].0@, jv_model(ms[i].1)));
        assert((ms[i].0@, jv_model(ms[i].1)) == target[i]);
    }
    assert(jv_member_models(ms) =~= target);
}

/// The model of an element vector is exactly `target`, shown pointwise.
pub proof fn lemma_models_are(s: Seq<JsonValue>, target: Seq<JsonModel>)
    requires
        target.len() == s.len(),
        forall|i: int| 0 <= i < s.len() ==> jv_model(#[trigger] s[i]) == target[i],
    ensures
        jv_models(s) == target,
{
    lemma_jv_models_index(s);
    assert forall|i: int| 0 <= i < s.len() implies #[trigger] jv_models(s)[i] == target[i] by {
        assert(jv_models(s)[i] == jv_model(s[i]));
    }
    assert(jv_models(s) =~= target);
}

/// The value under the first occurrence of `key`, if any.
pub open spec fn spec_lookup(members: Seq<(Seq<char>, JsonModel)>, key: Seq<char>) -> Option<
    JsonModel,
>
    decreases members.len(),
{
    if members.len() == 0 {
        None
    } else if members[0].0 == key {
        Some(members[0].1)
    } else {
        spec_lookup(members.drop_first(), key)
    }
}

proof fn lemma_lookup_at(members: Seq<(Seq<char>, JsonModel)>, key: Seq<char>, i: int)
    requires
        0 <= i < members.len(),
        forall|j: int| 0 <= j < i ==> (#[trigger] members[j]).0 != key,
        members[i].0 == key,
    ensures
        spec_lookup(members, key) == Some(members[i].1),
    decreases i,
{
    if i > 0 {
        lemma_lookup_at(members.drop_first(), key, i - 1);
    }
}

proof fn lemma_lookup_none(members: Seq<(Seq<char>, JsonModel)>, key: Seq<char>)
    requires
        forall|j: int| 0 <= j < members.len() ==> (#[trigger] members[j]).0 != key,
    ensures
        spec_lookup(members, key) is None,
    decreases members.len(),
{
    if members.len() > 0 {
        lemma_lookup_none(members.drop_first(), key);
    }
}

/// A looked-up value sits strictly inside its member sequence, so
/// recursion through a lookup terminates.
pub proof fn lemma_lookup_height(ms: Seq<(Seq<char>, JsonModel)>, key: Seq<char>)
    requires
        spec_lookup(ms, key) is Some,
    ensures
        decreases_to!(ms => spec_lookup(ms, key)->0),
    decreases ms.len(),
{
    if ms.len() > 0 {
        if ms[0].0 == key {
            assert(decreases_to!(ms => ms[0]));
            assert(decreases_to!(ms[0] => ms[0].1));
        } else {
            lemma_lookup_height(ms.drop_first(), key);
            assert(decreases_to!(ms => ms.drop_first()));
        }
    }
}

/// The first member of `members` named `key`, by linear search.
pub fn lookup<'a>(members: &'a Vec<(String, JsonValue)>, key: &str) -> (r: Option<&'a JsonValue>)
    ensures
        r matches Some(v) ==> spec_lookup(jv_member_models(members@), key@) == Some(v@),
        r is None ==> spec_lookup(jv_member_models(members@), key@) is None,
{
    proof {
        lemma_jv_member_models_index(members@);
    }
    let k: String = key.to_owned();
    let mut i: usize = 0;
    while i < members.len()
        invariant
            i <= members.len(),
            k@ == key@,
            forall|j: int| 0 <= j < i ==> (#[trigger] members@[j]).0@ != key@,
            jv_member_models(members@).len() == members@.len(),
            forall|j: int|
                0 <= j < members@.len() ==> jv_member_models(members@)[j] == ((
                #[trigger] members@[j]).0@,
                jv_model(members@[j].1),
                ),
        decreases members.len() - i,
    {
        if members[i].0 == k {
            proof {
                assert forall|j: int| 0 <= j < i implies (#[trigger] jv_member_models(
                    members@,
                )[j]).0 != key@ by {
                    assert(jv_member_models(members@)[j] == (members@[j].0@, jv_model(
                        members@[j].1,
                    )));
                }
                lemma_lookup_at(jv_member_models(members@), key@, i as int);
            }
            return Some(&members[i].1);
        }
        i += 1;
    }
    proof {
        assert forall|j: int| 0 <= j < members@.len() implies (#[trigger] jv_member_models(
            members@,
        )[j]).0 != key@ by {
            assert(jv_member_models(members@)[j] == (members@[j].0@, jv_model(members@[j].1)));
        }
        lemma_lookup_none(jv_member_models(members@), key@);
    }
    None
}

/// What serde_json's parser yields on a text: `None` for malformed
/// JSON, otherwise the parsed tree. The tree is a function of the text
/// alone; its exact relation to the text is not restated here.
pub uninterp spec fn json_parse_spec(s: Seq<char>) -> Option<JsonModel>;

/// The library's tree for a given `serde_json::Value`, a function of
/// that value alone.
pub uninterp spec fn value_model(v: serde_json::Value) -> JsonModel;

#[verifier::external_type_specification]
#[verifier::external_body]
pub struct ExSerdeValue(serde_json::Value);

/// Relies on `serde_json::from_str::<serde_json::Value>`: it returns
/// `Ok` exactly when the text is well-formed JSON within the parser's
/// fixed nesting limit, and the parsed value is determined by the text.
#[verifier::external_body]
fn parse_to_value(s: &str) -> (r: Option<serde_json::Value>)
    ensures
        r is Some <==> json_parse_spec(s@) is Some,
        r matches Some(v) ==> Some(value_model(v)) == json_parse_spec(s@),
{
    serde_json::from_str::<serde_json::Value>(s).ok()
}

/// Relies on the public enum shape of `serde_json::Value` and on
/// `serde_json::Number`'s `Display`: each variant is moved, one arm
/// each, into the library's own tree, numbers as their literal text.
#[verifier::external_body]
fn value_to_json(v: serde_json::Value) -> (r: JsonValue)
    ensures
        r@ == value_model(v),
{
    match v {
        serde_json::Value::Null => JsonValue::Null,
        serde_json::Value::Bool(b) => JsonValue::Bool(b),
        serde_json::Value::Number(n) => JsonValue::Num(n.to_string()),
        serde_json::Value::String(s) => JsonValue::Str(s),
        serde_json::Value::Array(a) => JsonValue::Arr(
            a.into_iter().map(value_to_json).collect(),
        ),
        serde_json::Value::Object(o) => JsonValue::Obj(
            o.into_iter().map(|p| (p.0, value_to_json(p.1))).collect(),
        ),
    }
}

pub open spec fn spec_hex_digit(n: int) -> char {
    if n == 0 {
        '0'
    } else if n == 1 {
        '1'
    } else if n == 2 {
        '2'
    } else if n == 3 {
        '3'
    } else if n == 4 {
        '4'
    } else if n == 5 {
        '5'
    } else if n == 6 {
        '6'
    } else if n == 7 {
        '7'
    } else if n == 8 {
        '8'
    } else if n == 9 {
        '9'
    } else if n == 10 {
        'a'
    } else if n == 11 {
        'b'
    } else if n == 12 {
        'c'
    } else if n == 13 {
        'd'
    } else if n == 14 {
        'e'
    } else {
        'f'
    }
}

fn hex_digit_char(n: u8) -> (r: char)
    requires
        n <= 15,
    ensures
        r == spec_hex_digit(n as int),
{
    if n == 0 {
        '0'
    } else if n == 1 {
        '1'
    } else if n == 2 {
        '2'
    } else if n == 3 {
        '3'
    } else if n == 4 {
        '4'
    } else if n == 5 {
        '5'
    } else if n == 6 {
        '6'
    } else if n == 7 {
        '7'
    } else if n == 8 {
        '8'
    } else if n == 9 {
        '9'
    } else if n == 10 {
        'a'
    } else if n == 11 {
        'b'
    } else if n == 12 {
        'c'
    } else if n == 13 {
        'd'
    } else if n == 14 {
        'e'
    } else {
        'f'
    }
}

/// How one character appears inside a JSON string literal: quote,
/// backslash and control characters are escaped, everything else
/// stands as itself.
pub open spec fn spec_escape_char(c: char) -> Seq<char> {
    if c == '"' {
        seq!['\\', '"']
    } else if c == '\\' {
        seq!['\\', '\\']
    } else if c == '\u{8}' {
        seq!['\\', 'b']
    } else if c == '\u{c}' {
        seq!['\\', 'f']
    } else if c == '\n' {
        seq!['\\', 'n']
    } else if c == '\r' {
        seq!['\\', 'r']
    } else if c == '\t' {
        seq!['\\', 't']
    } else if (c as u32) < 0x20 {
        seq!['\\', 'u', '0', '0', spec_hex_digit(c as u32 as int / 16), spec_hex_digit(
            c as u32 as int % 16,
        )]
    } else {
        seq![c]
    }
}

pub open spec fn spec_escape(s: Seq<char>) -> Seq<char>
    decreases s.len(),
{
    if s.len() == 0 {
        Seq::empty()
    } else {
        spec_escape_char(s[0]) + spec_escape(s.drop_first())
    }
}

proof fn lemma_escape_snoc(s: Seq<char>, c: char)
    ensures
        spec_escape(s.push(c)) == spec_escape(s) + spec_escape_char(c),
    decreases s.len(),
{
    let p = s.push(c);
    if s.len() == 0 {
        assert(p[0] == c);
        assert(p.drop_first() =~= Seq::<char>::empty());
        assert(spec_escape(Seq::<char>::empty()) =~= Seq::<char>::empty());
        assert(spec_escape(p) =~= spec_escape(s) + spec_escape_char(c));
    } else {
        assert(p[0] == s[0]);
        assert(p.drop_first() =~= s.drop_first().push(c));
        lemma_escape_snoc(s.drop_first(), c);
        assert(spec_escape(p) =~= spec_escape(s) + spec_escape_char(c));
    }
}

/// The canonical text of a JSON tree: no interstitial whitespace,
/// members in order, strings escaped as `spec_escape_char` says.
pub open spec fn spec_ser(j: JsonModel) -> Seq<char>
    decreases j,
{
    match j {
        JsonModel::Null => seq!['n', 'u', 'l', 'l'],
        JsonModel::Bool(b) => if b {
            seq!['t', 'r', 'u', 'e']
        } else {
            seq!['f', 'a', 'l', 's', 'e']
        },
        JsonModel::Num(s) => s,
        JsonModel::Str(s) => seq!['"'] + spec_escape(s) + seq!['"'],
        JsonModel::Arr(elts) => seq!['['] + spec_ser_elems(elts) + seq![']'],
        JsonModel::Obj(ms) => seq!['{'] + spec_ser_members(ms) + seq!['}'],
    }
}

pub open spec fn spec_ser_elems(elts: Seq<JsonModel>) -> Seq<char>
    decreases elts,
{
    if elts.len() == 0 {
        Seq::empty()
    } else if elts.len() == 1 {
        spec_ser(elts[0])
    } else {
        spec_ser(elts[0]) + seq![','] + spec_ser_elems(elts.drop_first())
    }
}

pub open spec fn spec_ser_members(ms: Seq<(Seq<char>, JsonModel)>) -> Seq<char>
    decreases ms,
{
    if ms.len() == 0 {
        Seq::empty()
    } else {
        let head = seq!['"'] + spec_escape(ms[0].0) + seq!['"', ':'] + spec_ser(ms[0].1);
        if ms.len() == 1 {
            head
        } else {
            head + seq![','] + spec_ser_members(ms.drop_first())
        }
    }
}

proof fn lemma_ser_elems_snoc(elts: Seq<JsonModel>, x: JsonModel)
    ensures
        spec_ser_elems(elts.push(x)) == if elts.len() == 0 {
            spec_ser(x)
        } else {
            spec_ser_elems(elts) + seq![','] + spec_ser(x)
        },
    decreases elts.len(),
{
    let p = elts.push(x);
    if elts.len() == 0 {
        assert(p[0] == x);
        assert(spec_ser_elems(p) =~= spec_ser(x));
    } else {
        assert(p.drop_first() =~= elts.drop_first().push(x));
        lemma_ser_elems_snoc(elts.drop_first(), x);
        if elts.len() == 1 {
            assert(spec_ser_elems(p) =~= spec_ser_elems(elts) + seq![','] + spec_ser(x));
        } else {
            assert(spec_ser_elems(p) =~= spec_ser_elems(elts) + seq![','] + spec_ser(x));
        }
    }
}

proof fn lemma_ser_members_snoc(ms: Seq<(Seq<char>, JsonModel)>, x: (Seq<char>, JsonModel))
    ensures
        spec_ser_members(ms.push(x)) == if ms.len() == 0 {
            seq!['"'] + spec_escape(x.0) + seq!['"', ':'] + spec_ser(x.1)
        } else {
            spec_ser_members(ms) + seq![','] + (seq!['"'] + spec_escape(x.0) + seq!['"', ':']
                + spec_ser(x.1))
        },
    decreases ms.len(),
{
    let p = ms.push(x);
    let xtext = seq!['"'] + spec_escape(x.0) + seq!['"', ':'] + spec_ser(x.1);
    if ms.len() == 0 {
        assert(p[0] == x);
        assert(spec_ser_members(p) =~= xtext);
    } else {
        assert(p.drop_first() =~= ms.drop_first().push(x));
        lemma_ser_members_snoc(ms.drop_first(), x);
        assert(spec_ser_members(p) =~= spec_ser_members(ms) + seq![','] + xtext);
    }
}

/// Appends the escaped form of one character.
fn push_escaped_char(c: char, out: &mut String)
    ensures
        final(out)@ == old(out)@ + spec_escape_char(c),
{
    if c == '"' {
        out.push('\\');
        out.push('"');
    } else if c == '\\' {
        out.push('\\');
        out.push('\\');
    } else if c == '\u{8}' {
        out.push('\\');
        out.push('b');
    } else if c == '\u{c}' {
        out.push('\\');
        out.push('f');
    } else if c == '\n' {
        out.push('\\');
        out.push('n');
    } else if c == '\r' {
        out.push('\\');
        out.push('r');
    } else if c == '\t' {
        out.push('\\');
        out.push('t');
    } else {
        let u = c as u32;
        if u < 0x20 {
            out.push('\\');
            out.push('u');
            out.push('0');
            out.push('0');
            out.push(hex_digit_char((u / 16) as u8));
            out.push(hex_digit_char((u % 16) as u8));
        } else {
            out.push(c);
        }
    }
    assert(out@ =~= old(out)@ + spec_escape_char(c));
}

/// Appends the escaped body of a string literal (without the quotes).
fn write_escaped(s: &str, out: &mut String)
    ensures
        final(out)@ == old(out)@ + spec_escape(s@),
{
    let mut it = s.chars();
    let ghost mut done: Seq<char> = Seq::empty();
    proof {
        assert(out@ =~= old(out)@ + spec_escape(done));
    }
    loop
        invariant
            done + it.remaining() == s@,
            out@ == old(out)@ + spec_escape(done),
            done.len() <= s@.len(),
        ensures
            out@ == old(out)@ + spec_escape(s@),
        decreases s@.len() - done.len(),
    {
        match it.next() {
            Some(c) => {
                push_escaped_char(c, out);
                proof {
                    lemma_escape_snoc(done, c);
                    done = done.push(c);
                }
            },
            None => {
                proof {
                    assert(done =~= s@);
                }
                break ;
            },
        }
    }
}

/// Writes the canonical text of `v` onto the end of `out`.
#[verifier::loop_isolation(false)]
#[verifier::rlimit(60)]
pub fn write_json(v: &JsonValue, out: &mut String)
    ensures
        final(out)@ == old(out)@ + spec_ser(v@),
    decreases *v,
{
    match v {
        JsonValue::Null => {
            out.push('n');
            out.push('u');
            out.push('l');
            out.push('l');
            assert(out@ =~= old(out)@ + spec_ser(v@));
        },
        JsonValue::Bool(b) => {
            if *b {
                out.push('t');
                out.push('r');
                out.push('u');
                out.push('e');
            } else {
                out.push('f');
                out.push('a');
                out.push('l');
                out.push('s');
                out.push('e');
            }
            assert(out@ =~= old(out)@ + spec_ser(v@));
        },
        JsonValue::Num(s) => {
            out.append(s.as_str());
        },
        JsonValue::Str(s) => {
            out.push('"');
            write_escaped(s.as_str(), out);
            out.push('"');
            assert(out@ =~= old(out)@ + spec_ser(v@));
        },
        JsonValue::Arr(elts) => {
            proof {
                lemma_jv_models_index(elts@);
            }
            let ghost m = jv_models(elts@);
            out.push('[');
            let mut j: usize = 0;
            proof {
                assert(m.take(0) =~= Seq::<JsonModel>::empty());
                assert(out@ =~= old(out)@ + seq!['['] + spec_ser_elems(m.take(0)));
            }
            while j < elts.len()
                invariant
                    j <= elts.len(),
                    m == jv_models(elts@),
                    m.len() == elts@.len(),
                    forall|i: int| 0 <= i < elts@.len() ==> m[i] == jv_model(#[trigger] elts@[i]),
                    out@ == old(out)@ + seq!['['] + spec_ser_elems(m.take(j as int)),
                decreases elts@.len() - j,
            {
                if j > 0 {
                    out.push(',');
                }
                proof {
                    assert(decreases_to!(*v => (*v)->Arr_0));
                    assert(decreases_to!(*elts => elts[j as int]));
                }
                write_json(&elts[j], out);
                proof {
                    lemma_ser_elems_snoc(m.take(j as int), m[j as int]);
                    assert(m.take(j as int + 1) =~= m.take(j as int).push(m[j as int]));
                    assert(out@ =~= old(out)@ + seq!['['] + spec_ser_elems(m.take(j as int + 1)));
                }
                j += 1;
            }
            out.push(']');
            proof {
                assert(m.take(elts@.len() as int) =~= m);
                assert(out@ =~= old(out)@ + spec_ser(v@));
            }
        },
        JsonValue::Obj(members) => {
            proof {
                lemma_jv_member_models_index(members@);
            }
            let ghost m = jv_member_models(members@);
            out.push('{');
            let mut j: usize = 0;
            proof {
                assert(m.take(0) =~= Seq::<(Seq<char>, JsonModel)>::empty());
                assert(out@ =~= old(out)@ + seq!['{'] + spec_ser_members(m.take(0)));
            }
            while j < members.len()
                invariant
                    j <= members.len(),
                    m == jv_member_models(members@),
                    m.len() == members@.len(),
                    forall|i: int|
                        0 <= i < members@.len() ==> m[i] == ((#[trigger] members@[i]).0@, jv_model(
                            members@[i].1,
                        )),
                    out@ == old(out)@ + seq!['{'] + spec_ser_members(m.take(j as int)),
                decreases members@.len() - j,
            {
                if j > 0 {
                    out.push(',');
                }
                out.push('"');
                write_escaped(members[j].0.as_str(), out);
                out.push('"');
                out.push(':');
                proof {
                    assert(decreases_to!(*v => (*v)->Obj_0));
                    assert(decreases_to!(*members => members[j as int]));
                    assert(decreases_to!(members[j as int] => members[j as int].1));
                }
                write_json(&members[j].1, out);
                proof {
                    lemma_ser_members_snoc(m.take(j as int), m[j as int]);
                    assert(m.take(j as int + 1) =~= m.take(j as int).push(m[j as int]));
                    assert(out@ =~= old(out)@ + seq!['{'] + spec_ser_members(m.take(j as int + 1)));
                }
                j += 1;
            }
            out.push('}');
            proof {
                assert(m.take(members@.len() as int) =~= m);
                assert(out@ =~= old(out)@ + spec_ser(v@));
            }
        },
    }
}

/// The canonical text of a JSON tree.
pub fn to_json_text(v: &JsonValue) -> (r: String)
    ensures
        r@ == spec_ser(v@),
{
    let mut out = String::new();
    write_json(v, &mut out);
    out
}

/// A deep copy of a JSON tree.
#[verifier::loop_isolation(false)]
pub fn clone_json(v: &JsonValue) -> (r: JsonValue)
    ensures
        r@ == v@,
    decreases *v,
{
    match v {
        JsonValue::Null => JsonValue::Null,
        JsonValue::Bool(b) => JsonValue::Bool(*b),
        JsonValue::Num(s) => JsonValue::Num(s.clone()),
        JsonValue::Str(s) => JsonValue::Str(s.clone()),
        JsonValue::Arr(elts) => {
            let mut acc: Vec<JsonValue> = Vec::new();
            proof {
                lemma_jv_models_index(elts@);
            }
            let mut j: usize = 0;
            while j < elts.len()
                invariant
                    j <= elts.len(),
                    acc@.len() == j,
                    forall|i: int|
                        0 <= i < j ==> jv_model(#[trigger] acc@[i]) == jv_model(elts@[i]),
                decreases elts@.len() - j,
            {
                proof {
                    assert(decreases_to!(*v => (*v)->Arr_0));
                    assert(decreases_to!(*elts => elts[j as int]));
                }
                let c = clone_json(&elts[j]);
                acc.push(c);
                j += 1;
            }
            proof {
                lemma_jv_models_index(acc@);
                assert forall|i: int|
                    0 <= i < elts@.len() implies jv_models(acc@)[i] == jv_models(elts@)[i] by {
                    assert(jv_models(acc@)[i] == jv_model(acc@[i]));
                    assert(jv_models(elts@)[i] == jv_model(elts@[i]));
                }
                assert(jv_models(acc@) =~= jv_models(elts@));
            }
            JsonValue::Arr(acc)
        },
        JsonValue::Obj(members) => {
            let mut acc: Vec<(String, JsonValue)> = Vec::new();
            proof {
                lemma_jv_member_models_index(members@);
            }
            let mut j: usize = 0;
            while j < members.len()
                invariant
                    j <= members.len(),
                    acc@.len() == j,
                    forall|i: int|
                        0 <= i < j ==> (#[trigger] acc@[i]).0@ == members@[i].0@ && jv_model(
                            acc@[i].1,
                        ) == jv_model(members@[i].1),
                decreases members@.len() - j,
            {
                let k = members[j].0.clone();
                proof {
                    assert(decreases_to!(*v => (*v)->Obj_0));
                    assert(decreases_to!(*members => members[j as int]));
                    assert(decreases_to!(members[j as int] => members[j as int].1));
                }
                let c = clone_json(&members[j].1);
                acc.push((k, c));
                j += 1;
            }
            proof {
                lemma_jv_member_models_index(acc@);
                assert forall|i: int|
                    0 <= i < members@.len() implies jv_member_models(acc@)[i]
                    == jv_member_models(members@)[i] by {
                    assert(jv_member_models(acc@)[i] == (acc@[i].0@, jv_model(acc@[i].1)));
                    assert(jv_member_models(members@)[i] == (members@[i].0@, jv_model(
                        members@[i].1,
                    )));
                }
                assert(jv_member_models(acc@) =~= jv_member_models(members@));
            }
            JsonValue::Obj(acc)
        },
    }
}

/// Parses a JSON text into the library's tree: `None` exactly on
/// malformed JSON.
pub fn parse_json_text(s: &str) -> (r: Option<JsonValue>)
    ensures
        r matches Some(j) ==> json_parse_spec(s@) == Some(j@),
        r is None ==> json_parse_spec(s@) is None,
{
    match parse_to_value(s) {
        Some(v) => Some(value_to_json(v)),
        None => None,
    }
}

} // verus!

