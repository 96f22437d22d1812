//! Patching of the generated project manifest.
//!
//! The manifest is a JSON document. The library parses it, sets the two
//! nested command fields `scripts.build` and `scripts.start` (creating the
//! `scripts` object if it is absent), and serializes the document back
//! pretty-printed. Parsing and serialization are done by serde_json behind
//! trusted declarations; the patching itself — which fields change and which
//! are kept — is verified against the mathematical model [`Json`].

use vstd::prelude::*;

verus! {

/// The mathematical model of a JSON document. An object is modelled as an
/// unordered map from key to value, which matches the serialized form:
/// serde_json keeps object members keyed, unordered and deduplicated.
/// A number is carried opaquely; the library never reads one.
pub enum Json {
    Null,
    Bool(bool),
    Num(serde_json::Number),
    Str(Seq<char>),
    Arr(Seq<Json>),
    Obj(Map<Seq<char>, Json>),
}

#[verifier::external_type_specification]
#[verifier::external_body]
pub struct ExValue(serde_json::Value);

#[verifier::external_type_specification]
#[verifier::external_body]
pub struct ExNumber(serde_json::Number);

#[verifier::external_type_specification]
#[verifier::external_body]
pub struct ExError(serde_json::Error);

#[verifier::external_type_specification]
#[verifier::external_body]
#[verifier::reject_recursive_types(K)]
#[verifier::reject_recursive_types(V)]
pub struct ExJsonMap<K, V>(serde_json::Map<K, V>);

/// The document that a `serde_json::Value` holds.
pub uninterp spec fn jval(v: serde_json::Value) -> Json;

/// The fields that a `serde_json::Map` holds.
pub uninterp spec fn mval(m: serde_json::Map<String, serde_json::Value>) -> Map<Seq<char>, Json>;

/// The document that serde_json's parser returns on the given text, or
/// `None` where the parser rejects the text.
pub uninterp spec fn parse_spec(s: Seq<char>) -> Option<Json>;

/// The text that serde_json's pretty printer returns on the given document.
/// With this crate's default build the fields of an object are kept in a
/// sorted map, so the text is a function of the unordered document model;
/// serde_json's `preserve_order` feature would break that and must stay off.
pub uninterp spec fn pretty_of(d: Json) -> Seq<char>;

/// The deepest container nesting the parser accepts: its recursion budget
/// of 128 is spent one level per array or object entered, and parsing
/// fails when the budget runs out.
pub open spec fn parse_depth_limit() -> nat {
    127
}

/// Whether every container of the document sits within `n` nesting levels:
/// a scalar needs none, and an array or object spends one on itself.
pub open spec fn depth_at_most(d: Json, n: nat) -> bool
    decreases d,
{
    match d {
        Json::Null => true,
        Json::Bool(_) => true,
        Json::Num(_) => true,
        Json::Str(_) => true,
        Json::Arr(a) => n >= 1 && (forall|i: int|
            0 <= i < a.len() ==> depth_at_most(#[trigger] a[i], (n - 1) as nat)),
        Json::Obj(m) => n >= 1 && (forall|k: Seq<char>|
            m.contains_key(k) ==> depth_at_most(#[trigger] m[k], (n - 1) as nat)),
    }
}

/// Relies on serde_json::from_str: it returns the parsed document exactly
/// when the text is valid JSON, and its recursion limit rejects any text
/// whose containers nest beyond the depth limit, so whatever it returns
/// stays within that limit.
#[verifier::external_body]
fn parse_json(s: &str) -> (r: Result<serde_json::Value, serde_json::Error>)
    ensures
        r is Ok <==> parse_spec(s@) is Some,
        r matches Ok(v) ==> jval(v) == parse_spec(s@)->Some_0,
        r matches Ok(v) ==> depth_at_most(jval(v), parse_depth_limit()),
{
    serde_json::from_str(s)
}

/// Relies on the definition of serde_json::Value: an `Object` holds a map
/// of fields and no other variant does.
#[verifier::external_body]
fn as_object(v: serde_json::Value) -> (r: Result<serde_json::Map<String, serde_json::Value>, serde_json::Value>)
    ensures
        r is Ok <==> jval(v) is Obj,
        r matches Ok(m) ==> mval(m) == jval(v)->Obj_0,
        r matches Err(w) ==> w == v,
{
    match v {
        serde_json::Value::Object(m) => Ok(m),
        other => Err(other),
    }
}

/// A map with no fields at all.
pub open spec fn no_fields() -> Map<Seq<char>, Json> {
    Map::<Seq<char>, Json>::empty()
}

/// Relies on serde_json::Map::new: the new map has no fields.
#[verifier::external_body]
fn object_new() -> (r: serde_json::Map<String, serde_json::Value>)
    ensures
        mval(r) == no_fields(),
{
    serde_json::Map::new()
}

/// Relies on serde_json::Map::remove: the named field leaves the map and is
/// returned if it was present.
#[verifier::external_body]
fn object_remove(m: &mut serde_json::Map<String, serde_json::Value>, key: &str) -> (r: Option<serde_json::Value>)
    ensures
        mval(*final(m)) == mval(*old(m)).remove(key@),
        r is Some <==> mval(*old(m)).contains_key(key@),
        r matches Some(v) ==> jval(v) == mval(*old(m))[key@],
{
    m.remove(key)
}

/// Relies on serde_json::Map::insert: the named field now maps to the given
/// value and every other field is untouched.
#[verifier::external_body]
fn object_insert(
    m: &mut serde_json::Map<String, serde_json::Value>,
    key: &str,
    value: serde_json::Value,
)
    ensures
        mval(*final(m)) == mval(*old(m)).insert(key@, jval(value)),
{
    m.insert(key.to_string(), value);
}

/// Relies on the definition of serde_json::Value: `Value::String` holds
/// exactly the given text.
#[verifier::external_body]
fn json_string(s: &str) -> (r: serde_json::Value)
    ensures
        jval(r) == Json::Str(s@),
{
    serde_json::Value::String(s.to_string())
}

/// Relies on the definition of serde_json::Value: `Value::Object` holds
/// exactly the given fields.
#[verifier::external_body]
fn json_object(m: serde_json::Map<String, serde_json::Value>) -> (r: serde_json::Value)
    ensures
        jval(r) == Json::Obj(mval(m)),
{
    serde_json::Value::Object(m)
}

/// Relies on serde_json::to_string_pretty: pretty-printing a `Value` cannot
/// fail (every object key is a string and every number is finite) and its
/// output depends on the document alone. Parsing the output back yields the
/// same document as long as the document sits within the parser's recursion
/// limit; the serializer itself has no depth limit, so nothing is promised
/// beyond it.
#[verifier::external_body]
fn to_pretty(v: &serde_json::Value) -> (r: String)
    ensures
        r@ == pretty_of(jval(*v)),
        depth_at_most(jval(*v), parse_depth_limit()) ==> parse_spec(r@) == Some(jval(*v)),
{
    serde_json::to_string_pretty(v).unwrap()
}

/// Why patching a manifest failed.
#[derive(Clone, Copy, PartialEq, Eq, Debug, Structural)]
pub enum ManifestError {
    /// The text is not valid JSON.
    Parse,
    /// The document parsed, but its top level is not an object, so it has
    /// no fields to patch.
    NotAnObject,
}

/// The `scripts` object that the patch starts from: the document's own
/// `scripts` object where it has one, otherwise a fresh empty object.
pub open spec fn base_scripts(fields: Map<Seq<char>, Json>) -> Map<Seq<char>, Json> {
    if fields.contains_key("scripts"@) && fields["scripts"@] is Obj {
        fields["scripts"@]->Obj_0
    } else {
        no_fields()
    }
}

/// The top-level fields after the patch: `scripts` now maps to its previous
/// object (or a fresh one) with `build` and `start` set, and every other
/// field is exactly as before.
pub open spec fn patched_fields(
    fields: Map<Seq<char>, Json>,
    build: Seq<char>,
    start: Seq<char>,
) -> Map<Seq<char>, Json> {
    fields.insert(
        "scripts"@,
        Json::Obj(base_scripts(fields).insert("build"@, Json::Str(build)).insert("start"@, Json::Str(start))),
    )
}

/// The whole document after the patch.
pub open spec fn patched_doc(d: Json, build: Seq<char>, start: Seq<char>) -> Json
    recommends
        d is Obj,
{
    Json::Obj(patched_fields(d->Obj_0, build, start))
}

/// Patching never deepens a document beyond what the two fresh levels of
/// `scripts` need: a document within the parser's depth stays within it.
proof fn lemma_patched_fields_depth(
    fields: Map<Seq<char>, Json>,
    build: Seq<char>,
    start: Seq<char>,
    n: nat,
)
    requires
        n >= 2,
        depth_at_most(Json::Obj(fields), n),
    ensures
        depth_at_most(Json::Obj(patched_fields(fields, build, start)), n),
{
    assert forall|k: Seq<char>| fields.contains_key(k) implies depth_at_most(
        #[trigger] fields[k],
        (n - 1) as nat,
    ) by {
        assert(Json::Obj(fields)->Obj_0[k] == fields[k]);
    }
    let scripts = base_scripts(fields).insert("build"@, Json::Str(build)).insert(
        "start"@,
        Json::Str(start),
    );
    assert forall|k: Seq<char>| scripts.contains_key(k) implies depth_at_most(
        scripts[k],
        (n - 2) as nat,
    ) by {
        if k != "start"@ && k != "build"@ {
            assert(scripts[k] == base_scripts(fields)[k]);
            assert(base_scripts(fields).contains_key(k));
            let sv = fields["scripts"@];
            assert(sv is Obj && depth_at_most(sv, (n - 1) as nat));
            assert(sv->Obj_0[k] == base_scripts(fields)[k]);
            assert(depth_at_most(sv->Obj_0[k], (n - 2) as nat));
        }
    }
    assert(depth_at_most(Json::Obj(scripts), (n - 1) as nat));
    let patched = patched_fields(fields, build, start);
    assert forall|k: Seq<char>| patched.contains_key(k) implies depth_at_most(
        patched[k],
        (n - 1) as nat,
    ) by {
        if k == "scripts"@ {
            assert(patched[k] == Json::Obj(scripts));
        } else {
            assert(patched[k] == fields[k]);
            assert(fields.contains_key(k));
        }
    }
}

/// Sets `scripts.build` and `scripts.start` on the parsed document.
fn patch_document(doc: serde_json::Value, build_cmd: &str, start_cmd: &str) -> (r: Result<serde_json::Value, ManifestError>)
    ensures
        r is Ok <==> jval(doc) is Obj,
        !(jval(doc) is Obj) ==> (r matches Err(e) && e == ManifestError::NotAnObject),
        r matches Ok(v) ==> jval(v) == patched_doc(jval(doc), build_cmd@, start_cmd@),
        r matches Ok(v) ==> (depth_at_most(jval(doc), parse_depth_limit()) ==> depth_at_most(
            jval(v),
            parse_depth_limit(),
        )),
{
    match as_object(doc) {
        Ok(mut fields) => {
            let ghost fields0 = mval(fields);
            let previous = object_remove(&mut fields, "scripts");
            let mut scripts = match previous {
                Some(v) => match as_object(v) {
                    Ok(m) => m,
                    Err(_) => object_new(),
                },
                None => object_new(),
            };
            assert(mval(scripts) == base_scripts(fields0));
            object_insert(&mut scripts, "build", json_string(build_cmd));
            object_insert(&mut scripts, "start", json_string(start_cmd));
            object_insert(&mut fields, "scripts", json_object(scripts));
            proof {
                assert(mval(fields) =~= patched_fields(fields0, build_cmd@, start_cmd@));
                if depth_at_most(jval(doc), parse_depth_limit()) {
                    lemma_patched_fields_depth(
                        fields0,
                        build_cmd@,
                        start_cmd@,
                        parse_depth_limit(),
                    );
                }
            }
            Ok(json_object(fields))
        },
        Err(_) => Err(ManifestError::NotAnObject),
    }
}

/// Patches the manifest text: parses it, sets `scripts.build` and
/// `scripts.start` to the two given command strings, and returns the
/// pretty-printed result. Succeeds exactly when the text is valid JSON
/// whose top level is an object; the returned text parses back to the
/// patched document.
pub fn patch_manifest_text(contents: &str, build_cmd: &str, start_cmd: &str) -> (r: Result<String, ManifestError>)
    ensures
        (r matches Err(e) && e == ManifestError::Parse) <==> parse_spec(contents@) is None,
        (r matches Err(e) && e == ManifestError::NotAnObject) <==> (parse_spec(contents@) matches Some(d)
            && !(d is Obj)),
        r matches Ok(out) ==> (parse_spec(contents@) matches Some(d) && d is Obj
            && out@ == pretty_of(patched_doc(d, build_cmd@, start_cmd@))
            && parse_spec(out@) == Some(patched_doc(d, build_cmd@, start_cmd@))),
{
    let doc = match parse_json(contents) {
        Ok(v) => v,
        Err(_) => {
            return Err(ManifestError::Parse);
        },
    };
    let patched = match patch_document(doc, build_cmd, start_cmd) {
        Ok(v) => v,
        Err(e) => {
            return Err(e);
        },
    };
    Ok(to_pretty(&patched))
}

/// Law: patching preserves every top-level field other than `scripts`,
/// both its presence and its value.
pub proof fn lemma_patch_preserves_other_fields(
    fields: Map<Seq<char>, Json>,
    build: Seq<char>,
    start: Seq<char>,
    k: Seq<char>,
)
    requires
        k != "scripts"@,
    ensures
        patched_fields(fields, build, start).contains_key(k) <==> fields.contains_key(k),
        fields.contains_key(k) ==> patched_fields(fields, build, start)[k] == fields[k],
{
}

/// Law: patching preserves every entry of a pre-existing `scripts` object
/// other than `build` and `start`, and sets those two to the given commands.
pub proof fn lemma_patch_rewires_scripts(
    fields: Map<Seq<char>, Json>,
    build: Seq<char>,
    start: Seq<char>,
    k: Seq<char>,
)
    requires
        k != "build"@,
        k != "start"@,
    ensures
        patched_fields(fields, build, start)["scripts"@] is Obj,
        patched_fields(fields, build, start)["scripts"@]->Obj_0["build"@] == Json::Str(build),
        patched_fields(fields, build, start)["scripts"@]->Obj_0["start"@] == Json::Str(start),
        patched_fields(fields, build, start)["scripts"@]->Obj_0.contains_key(k)
            <==> base_scripts(fields).contains_key(k),
        base_scripts(fields).contains_key(k) ==> patched_fields(fields, build, start)["scripts"@]->Obj_0[k]
            == base_scripts(fields)[k],
{
    reveal_strlit("build");
    reveal_strlit("start");
    assert("build"@[0] != "start"@[0]);
    assert("build"@ != "start"@);
}

} // verus!
