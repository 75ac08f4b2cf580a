//! Function declarations that a chat request may carry: a name, a
//! description, and a JSON-Schema-like parameter tree.
use vstd::prelude::*;
use crate::json::{array_text, json_quoted, members_view, object_text, quote, render_array, render_object, texts};
use crate::payload::{optional_member, push_member, push_optional, quote_option, quoted_text, Members, option_view};

verus! {

broadcast use {vstd::std_specs::vec::group_vec_axioms, vstd::seq::group_seq_axioms};

/// A function that the model may ask to call. Its parameters are always an
/// object schema, so adding a property can never meet a string schema.
#[derive(Debug)]
pub struct Function {
    pub name: String,
    pub description: String,
    pub parameters: JsonObject,
}

/// One node of a parameter schema.
#[derive(Debug)]
pub enum Parameter {
    Object(JsonObject),
    String(JsonString),
}

/// An object schema: named properties, in the order they were added, and the
/// names of the required ones.
#[derive(Debug)]
pub struct JsonObject {
    pub properties: Vec<(String, Parameter)>,
    pub required: Vec<String>,
}

/// A string schema, with an optional description and closed value set.
#[derive(Debug)]
pub struct JsonString {
    pub description: Option<String>,
    pub enum_values: Option<Vec<String>>,
}

/// The position of the first property named `key`.
pub open spec fn key_index(props: Seq<(String, Parameter)>, key: Seq<char>) -> Option<int>
    decreases props.len(),
{
    if props.len() == 0 {
        None
    } else if props[0].0@ == key {
        Some(0)
    } else {
        match key_index(props.drop_first(), key) {
            Some(i) => Some(i + 1),
            None => None,
        }
    }
}

/// No two properties share a name.
pub open spec fn keys_distinct(props: Seq<(String, Parameter)>) -> bool {
    forall|i: int, j: int|
        0 <= i < j < props.len() ==> (#[trigger] props[i]).0@ != (#[trigger] props[j]).0@
}

/// The JSON texts of a list of strings.
pub open spec fn quoted_list(items: Seq<String>) -> Seq<Seq<char>> {
    Seq::new(items.len(), |i: int| json_quoted(items[i]@))
}

/// The JSON text of an optional list of strings.
pub open spec fn quoted_list_text(o: Option<Vec<String>>) -> Option<Seq<char>> {
    match o {
        Some(v) => Some(array_text(quoted_list(v@))),
        None => None,
    }
}

/// The members of a string schema.
pub open spec fn string_members(s: JsonString) -> Members {
    seq![("type"@, json_quoted("string"@))]
        + optional_member("description"@, quoted_text(s.description))
        + optional_member("enum"@, quoted_list_text(s.enum_values))
}

/// The JSON text of a parameter schema.
pub open spec fn parameter_text(p: Parameter) -> Seq<char>
    decreases p,
{
    match p {
        Parameter::Object(o) => object_text(
            seq![("type"@, json_quoted("object"@))]
                + seq![("properties"@, object_text(property_texts(o.properties@)))]
                + seq![("required"@, array_text(quoted_list(o.required@)))],
        ),
        Parameter::String(s) => object_text(string_members(s)),
    }
}

/// The names and schema texts of a list of properties.
pub open spec fn property_texts(props: Seq<(String, Parameter)>) -> Members
    decreases props,
{
    Seq::new(
        props.len(),
        |i: int|
            if 0 <= i < props.len() {
                (props[i].0@, parameter_text(props[i].1))
            } else {
                (seq![], seq![])
            },
    )
}

/// The JSON text of an object schema.
pub open spec fn object_schema_text(o: JsonObject) -> Seq<char> {
    parameter_text(Parameter::Object(o))
}

/// The members of a function declaration.
pub open spec fn function_members(f: Function) -> Members {
    seq![("name"@, json_quoted(f.name@))]
        + seq![("description"@, json_quoted(f.description@))]
        + seq![("parameters"@, object_schema_text(f.parameters))]
}

/// The JSON texts of a list of strings.
fn quote_all(items: &Vec<String>) -> (r: Vec<String>)
    ensures
        texts(r@) == quoted_list(items@),
{
    let mut out: Vec<String> = Vec::new();
    let mut i: usize = 0;
    while i < items.len()
        invariant
            i <= items@.len(),
            out@.len() == i,
            forall|k: int| 0 <= k < i ==> (#[trigger] out@[k])@ == json_quoted(items@[k]@),
        decreases items@.len() - i,
    {
        out.push(quote(items[i].as_str()));
        i += 1;
    }
    assert(texts(out@) =~= quoted_list(items@));
    out
}

fn quote_list_option(o: &Option<Vec<String>>) -> (r: Option<String>)
    ensures
        option_view(r) == quoted_list_text(*o),
{
    match o {
        Some(v) => Some(render_array(&quote_all(v))),
        None => None,
    }
}

impl Function {
    /// A declaration with no parameters yet: an empty object schema.
    pub fn new(name: String, description: String) -> (r: Function)
        ensures
            r.name == name,
            r.description == description,
            r.parameters.properties@.len() == 0,
            r.parameters.required@.len() == 0,
            keys_distinct(r.parameters.properties@),
    {
        let parameters = JsonObject::new(Vec::new(), Vec::new());
        Function { name, description, parameters }
    }

    /// Adds the property `key` to the parameters, replacing the schema of a
    /// property of that name, and lists it as required when asked.
    pub fn add_property(self, key: String, value: Parameter, required: bool) -> (r: Function)
        ensures
            r.name == self.name,
            r.description == self.description,
            match key_index(self.parameters.properties@, key@) {
                Some(i) => r.parameters.properties@ == self.parameters.properties@.update(
                    i,
                    (self.parameters.properties@[i].0, value),
                ),
                None => r.parameters.properties@ == self.parameters.properties@.push((key, value)),
            },
            r.parameters.required@ == if required {
                self.parameters.required@.push(key)
            } else {
                self.parameters.required@
            },
            keys_distinct(self.parameters.properties@) ==> keys_distinct(r.parameters.properties@),
    {
        let Function { name, description, parameters } = self;
        let JsonObject { properties, required: names } = parameters;
        let mut properties = properties;
        let mut names = names;
        let ghost old_props = properties@;
        let mut i: usize = 0;
        let mut found = false;
        while i < properties.len() && !found
            invariant
                i <= properties@.len(),
                properties@ == old_props,
                found ==> i < old_props.len() && old_props[i as int].0@ == key@,
                forall|k: int| 0 <= k < i ==> (#[trigger] old_props[k]).0@ != key@,
            decreases properties@.len() + 1 - i - (if found { 1int } else { 0int }),
        {
            if properties[i].0 == key {
                found = true;
            } else {
                i += 1;
            }
        }
        proof {
            lemma_key_index_first(old_props, key@, i as int, found);
        }
        if required {
            names.push(key.clone());
        }
        if found {
            let k = properties[i].0.clone();
            properties.set(i, (k, value));
        } else {
            properties.push((key, value));
        }
        Function { name, description, parameters: JsonObject { properties, required: names } }
    }

    /// The JSON text of the declaration.
    pub fn to_json(&self) -> (r: String)
        ensures
            r@ == object_text(function_members(*self)),
    {
        let mut m: Vec<(String, String)> = Vec::new();
        push_member(&mut m, "name", quote(self.name.as_str()));
        assert(members_view(m@) =~= seq![("name"@, json_quoted(self.name@))]);
        push_member(&mut m, "description", quote(self.description.as_str()));
        push_member(&mut m, "parameters", self.parameters.to_json());
        render_object(&m)
    }
}

proof fn lemma_key_index_first(props: Seq<(String, Parameter)>, key: Seq<char>, i: int, found: bool)
    requires
        0 <= i <= props.len(),
        forall|k: int| 0 <= k < i ==> (#[trigger] props[k]).0@ != key,
        found ==> i < props.len() && props[i].0@ == key,
        !found ==> i == props.len(),
    ensures
        found ==> key_index(props, key) == Some(i),
        !found ==> key_index(props, key) is None,
    decreases props.len(),
{
    if props.len() > 0 {
        if i > 0 {
            assert forall|k: int| 0 <= k < i - 1 implies (#[trigger] props.drop_first()[k]).0@ != key by {
                assert(props.drop_first()[k] == props[k + 1]);
            }
            assert(props[0].0@ != key);
            if found {
                assert(props.drop_first()[i - 1] == props[i]);
            }
            lemma_key_index_first(props.drop_first(), key, i - 1, found);
        }
    }
}

impl JsonObject {
    /// An object schema with the given properties, which have different
    /// names, and required names.
    pub fn new(properties: Vec<(String, Parameter)>, required: Vec<String>) -> (r: JsonObject)
        requires
            keys_distinct(properties@),
        ensures
            r.properties == properties,
            r.required == required,
    {
        JsonObject { properties, required }
    }

    /// The JSON text of the schema.
    pub fn to_json(&self) -> (r: String)
        ensures
            r@ == object_schema_text(*self),
    {
        Parameter::object_text_of(self)
    }
}

impl JsonString {
    /// A string schema.
    pub fn new(description: Option<String>, enum_values: Option<Vec<String>>) -> (r: JsonString)
        ensures
            r.description == description,
            r.enum_values == enum_values,
    {
        JsonString { description, enum_values }
    }

    /// The JSON text of the schema.
    pub fn to_json(&self) -> (r: String)
        ensures
            r@ == object_text(string_members(*self)),
    {
        proof { reveal_strlit("string"); }
        let mut m: Vec<(String, String)> = Vec::new();
        push_member(&mut m, "type", quote("string"));
        assert(members_view(m@) =~= seq![("type"@, json_quoted("string"@))]);
        push_optional(&mut m, "description", quote_option(&self.description));
        push_optional(&mut m, "enum", quote_list_option(&self.enum_values));
        render_object(&m)
    }
}

impl Parameter {
    fn object_text_of(o: &JsonObject) -> (r: String)
        ensures
            r@ == object_schema_text(*o),
        decreases o,
    {
        let mut props: Vec<(String, String)> = Vec::new();
        let mut i: usize = 0;
        while i < o.properties.len()
            invariant
                i <= o.properties@.len(),
                props@.len() == i,
                forall|k: int| 0 <= k < i ==> (#[trigger] props@[k]).0@ == o.properties@[k].0@
                    && props@[k].1@ == parameter_text(o.properties@[k].1),
            decreases o.properties@.len() - i,
        {
            proof {
                assert(decreases_to!(*o => o.properties));
                assert(decreases_to!(o.properties => o.properties@));
                assert(decreases_to!(o.properties@ => o.properties@[i as int]));
                assert(decreases_to!(o.properties@[i as int] => o.properties@[i as int].1));
            }
            props.push((o.properties[i].0.clone(), o.properties[i].1.to_json()));
            i += 1;
        }
        assert(members_view(props@) =~= property_texts(o.properties@));
        let mut m: Vec<(String, String)> = Vec::new();
        push_member(&mut m, "type", quote("object"));
        assert(members_view(m@) =~= seq![("type"@, json_quoted("object"@))]);
        push_member(&mut m, "properties", render_object(&props));
        push_member(&mut m, "required", render_array(&quote_all(&o.required)));
        render_object(&m)
    }

    /// The JSON text of the schema.
    pub fn to_json(&self) -> (r: String)
        ensures
            r@ == parameter_text(*self),
        decreases self,
    {
        match self {
            Parameter::Object(o) => {
                proof { assert(decreases_to!(*self => (*self)->Object_0)); }
                Parameter::object_text_of(o)
            },
            Parameter::String(s) => s.to_json(),
        }
    }
}

} // verus!
