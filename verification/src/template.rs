use vstd::prelude::*;

use crate::errors::IdlError;

verus! {

/// One key-value member of a JSON object; member order is the parse order.
#[derive(Debug)]
pub struct JsonMember {
    pub key: String,
    pub value: Json,
}

/// A loosely-typed JSON tree. A number keeps its literal text, so untouched
/// members round-trip without loss.
#[derive(Debug)]
pub enum Json {
    Null,
    Bool(bool),
    Num(String),
    Str(String),
    Arr(Vec<Json>),
    Obj(Vec<JsonMember>),
}

/// The mathematical shape of a JSON tree, over sequences of characters.
pub enum JsonV {
    Null,
    Bool(bool),
    Num(Seq<char>),
    Str(Seq<char>),
    Arr(Seq<JsonV>),
    Obj(Seq<(Seq<char>, JsonV)>),
}

/// The abstract value of a JSON tree.
pub open spec fn json_view(j: Json) -> JsonV
    decreases j,
{
    match j {
        Json::Null => JsonV::Null,
        Json::Bool(b) => JsonV::Bool(b),
        Json::Num(s) => JsonV::Num(s@),
        Json::Str(s) => JsonV::Str(s@),
        Json::Arr(items) => JsonV::Arr(json_views(items@)),
        Json::Obj(ms) => JsonV::Obj(member_views(ms@)),
    }
}

/// The abstract values of a sequence of JSON trees.
pub open spec fn json_views(s: Seq<Json>) -> Seq<JsonV>
    decreases s,
{
    if s.len() == 0 {
        Seq::empty()
    } else {
        seq![json_view(s[0])] + json_views(s.drop_first())
    }
}

/// The abstract values of an object's members, in member order.
pub open spec fn member_views(s: Seq<JsonMember>) -> Seq<(Seq<char>, JsonV)>
    decreases s,
{
    if s.len() == 0 {
        Seq::empty()
    } else {
        seq![(s[0].key@, json_view(s[0].value))] + member_views(s.drop_first())
    }
}

pub proof fn lemma_member_views_index(s: Seq<JsonMember>)
    ensures
        member_views(s).len() == s.len(),
        forall|i: int|
            0 <= i < s.len() ==> member_views(s)[i] == (s[i].key@, json_view(s[i].value)),
    decreases s.len(),
{
    if s.len() > 0 {
        lemma_member_views_index(s.drop_first());
        assert forall|i: int|
            0 <= i < s.len() implies member_views(s)[i] == (s[i].key@, json_view(s[i].value)) by {
            if i > 0 {
                assert(member_views(s)[i] == member_views(s.drop_first())[i - 1]);
                assert(s.drop_first()[i - 1] == s[i]);
            }
        }
    }
}

/// The index of the first member with the given key, or -1 if no member has
/// it.
pub open spec fn spec_lookup(ms: Seq<(Seq<char>, JsonV)>, key: Seq<char>) -> int
    decreases ms.len(),
{
    if ms.len() == 0 {
        -1
    } else if ms[0].0 == key {
        0
    } else {
        let r = spec_lookup(ms.drop_first(), key);
        if r == -1 {
            -1
        } else {
            r + 1
        }
    }
}

pub proof fn lemma_lookup_props(ms: Seq<(Seq<char>, JsonV)>, key: Seq<char>)
    ensures
        spec_lookup(ms, key) == -1 ==> forall|j: int| 0 <= j < ms.len() ==> ms[j].0 != key,
        spec_lookup(ms, key) != -1 ==> 0 <= spec_lookup(ms, key) < ms.len() && ms[spec_lookup(
            ms,
            key,
        )].0 == key && forall|j: int| 0 <= j < spec_lookup(ms, key) ==> ms[j].0 != key,
    decreases ms.len(),
{
    if ms.len() > 0 && ms[0].0 != key {
        lemma_lookup_props(ms.drop_first(), key);
        let rd = spec_lookup(ms.drop_first(), key);
        if rd == -1 {
            assert forall|j: int| 0 <= j < ms.len() implies ms[j].0 != key by {
                if j > 0 {
                    assert(ms.drop_first()[j - 1] == ms[j]);
                }
            }
        } else {
            assert(ms[rd + 1] == ms.drop_first()[rd]);
            assert forall|j: int| 0 <= j < rd + 1 implies ms[j].0 != key by {
                if j > 0 {
                    assert(ms.drop_first()[j - 1] == ms[j]);
                }
            }
        }
    }
}

pub proof fn lemma_lookup_at(ms: Seq<(Seq<char>, JsonV)>, key: Seq<char>, i: int)
    requires
        0 <= i < ms.len(),
        forall|j: int| 0 <= j < i ==> ms[j].0 != key,
        ms[i].0 == key,
    ensures
        spec_lookup(ms, key) == i,
    decreases i,
{
    if i > 0 {
        lemma_lookup_at(ms.drop_first(), key, i - 1);
    }
}

proof fn lemma_lookup_none(ms: Seq<(Seq<char>, JsonV)>, key: Seq<char>)
    requires
        forall|j: int| 0 <= j < ms.len() ==> ms[j].0 != key,
    ensures
        spec_lookup(ms, key) == -1,
    decreases ms.len(),
{
    if ms.len() > 0 {
        lemma_lookup_none(ms.drop_first(), key);
    }
}

/// The members with the given key set to the value: overwritten in place when
/// the key is present, appended at the end when it is not; every other member
/// is unchanged, in its original position.
pub open spec fn spec_set_key(
    ms: Seq<(Seq<char>, JsonV)>,
    key: Seq<char>,
    val: JsonV,
) -> Seq<(Seq<char>, JsonV)> {
    let i = spec_lookup(ms, key);
    if i == -1 {
        ms.push((key, val))
    } else {
        ms.update(i, (key, val))
    }
}

/// A patched document: an object with its address member set to the
/// identifier; anything that is not an object is left as it stands (the
/// patch operation rejects it instead).
pub open spec fn spec_patch(v: JsonV, id: Seq<char>) -> JsonV {
    match v {
        JsonV::Obj(ms) => JsonV::Obj(spec_set_key(ms, "address"@, JsonV::Str(id))),
        _ => v,
    }
}

/// The name the template carries: the string value of its `name` member.
pub open spec fn spec_template_name(v: JsonV) -> Result<Seq<char>, IdlError> {
    match v {
        JsonV::Obj(ms) => {
            let i = spec_lookup(ms, "name"@);
            if i == -1 {
                Err(IdlError::MissingProgramName)
            } else {
                match ms[i].1 {
                    JsonV::Str(s) => Ok(s),
                    _ => Err(IdlError::MissingProgramName),
                }
            }
        },
        _ => Err(IdlError::MalformedTemplate),
    }
}

fn find_key(ms: &Vec<JsonMember>, key: &String) -> (r: Option<usize>)
    ensures
        match r {
            Some(i) => i < ms@.len() && ms@[i as int].key@ == key@ && spec_lookup(
                member_views(ms@),
                key@,
            ) == i,
            None => spec_lookup(member_views(ms@), key@) == -1,
        },
{
    proof {
        lemma_member_views_index(ms@);
    }
    let mut i: usize = 0;
    while i < ms.len()
        invariant
            i <= ms@.len(),
            forall|j: int| 0 <= j < i ==> ms@[j].key@ != key@,
        decreases ms@.len() - i,
    {
        if ms[i].key == *key {
            proof {
                lemma_member_views_index(ms@);
                lemma_lookup_at(member_views(ms@), key@, i as int);
            }
            return Some(i);
        }
        i = i + 1;
    }
    proof {
        lemma_member_views_index(ms@);
        lemma_lookup_none(member_views(ms@), key@);
    }
    None
}

/// Sets the template's `address` member to the extracted identifier,
/// overwriting it when present and adding it when absent, leaving every other
/// member structurally unchanged in its original position; anything but an
/// object is rejected as a malformed template.
pub fn patch_address(doc: Json, id: &str) -> (r: Result<Json, IdlError>)
    ensures
        r is Ok <==> doc is Obj,
        r matches Ok(d) ==> json_view(d) == spec_patch(json_view(doc), id@),
        r matches Err(e) ==> e is MalformedTemplate,
{
    match doc {
        Json::Obj(mut ms) => {
            let ghost orig = ms@;
            let key = String::from_str("address");
            let found = find_key(&ms, &key);
            match found {
                Some(i) => {
                    let old_member = ms.remove(i);
                    let new_member = JsonMember {
                        key: old_member.key,
                        value: Json::Str(String::from_str(id)),
                    };
                    let ghost nm = new_member;
                    ms.insert(i, new_member);
                    proof {
                        assert(ms@ =~= orig.update(i as int, nm));
                        lemma_member_views_index(orig);
                        lemma_member_views_index(ms@);
                        assert(member_views(ms@) =~= spec_set_key(
                            member_views(orig),
                            "address"@,
                            JsonV::Str(id@),
                        ));
                    }
                    Ok(Json::Obj(ms))
                },
                None => {
                    ms.push(JsonMember { key, value: Json::Str(String::from_str(id)) });
                    proof {
                        lemma_member_views_index(orig);
                        lemma_member_views_index(ms@);
                        assert(ms@.drop_last() =~= orig);
                        assert(member_views(ms@) =~= spec_set_key(
                            member_views(orig),
                            "address"@,
                            JsonV::Str(id@),
                        ));
                    }
                    Ok(Json::Obj(ms))
                },
            }
        },
        _ => Err(IdlError::MalformedTemplate),
    }
}

/// Reads the template's program name: the string value of its `name` member;
/// a template without one, or one that is not a JSON object, is rejected.
pub fn template_name(doc: &Json) -> (r: Result<String, IdlError>)
    ensures
        match r {
            Ok(s) => spec_template_name(json_view(*doc)) == Ok::<Seq<char>, IdlError>(s@),
            Err(e) => spec_template_name(json_view(*doc)) == Err::<Seq<char>, IdlError>(e),
        },
{
    match doc {
        Json::Obj(ms) => {
            let key = String::from_str("name");
            proof {
                lemma_member_views_index(ms@);
            }
            match find_key(ms, &key) {
                Some(i) => match &ms[i].value {
                    Json::Str(s) => Ok(s.clone()),
                    _ => Err(IdlError::MissingProgramName),
                },
                None => Err(IdlError::MissingProgramName),
            }
        },
        _ => Err(IdlError::MalformedTemplate),
    }
}

/// The output path the patched document is written to: the explicit path
/// verbatim when one is given, else the conventional location under the
/// program root, named after the template's program name.
pub fn resolve_output_path(output: &Option<String>, program_root: &str, name: &str) -> (r: String)
    ensures
        match output {
            Some(p) => r@ == p@,
            None => r@ == program_root@ + "/target/idl/"@ + name@ + ".json"@,
        },
{
    match output {
        Some(p) => p.clone(),
        None => {
            let mut s = String::from_str(program_root);
            s.append("/target/idl/");
            s.append(name);
            s.append(".json");
            s
        },
    }
}

/// Patching is idempotent: setting the address member to the same identifier
/// a second time leaves the document exactly as the first patch left it.
pub proof fn lemma_patch_idempotent(v: JsonV, id: Seq<char>)
    ensures
        spec_patch(spec_patch(v, id), id) == spec_patch(v, id),
{
    match v {
        JsonV::Obj(ms) => {
            let key = "address"@;
            let pair = (key, JsonV::Str(id));
            lemma_lookup_props(ms, key);
            let i = spec_lookup(ms, key);
            if i == -1 {
                let ms1 = ms.push(pair);
                lemma_lookup_at(ms1, key, ms.len() as int);
                assert(ms1.update(ms.len() as int, pair) =~= ms1);
            } else {
                let ms1 = ms.update(i, pair);
                lemma_lookup_at(ms1, key, i);
                assert(ms1.update(i, pair) =~= ms1);
            }
        },
        _ => {},
    }
}

} // verus!
