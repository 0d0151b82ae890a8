//! Prompt templates: an ordered list of described fields that renders to one
//! instruction string.

pub use vstd::hash_map::StringHashMap;
use vstd::prelude::*;
use vstd::string::*;

verus! {

/// One described field of a template.
#[derive(Debug, Clone)]
pub struct Field {
    pub name: String,
    pub field_type: String,
    pub description: String,
}

/// An ordered sequence of fields with optional system and user preambles.
#[derive(Debug, Clone)]
pub struct PromptTemplate {
    pub fields: Vec<Field>,
    pub system_input: Option<String>,
    pub user_input: Option<String>,
}

/// The line a preamble contributes: nothing when it is absent, otherwise the
/// label, the text and a line break.
pub open spec fn preamble_text(label: Seq<char>, input: Option<String>) -> Seq<char> {
    match input {
        Some(text) => label + text@ + "\n"@,
        None => Seq::<char>::empty(),
    }
}

/// The text a field is rendered with: its value in the mapping, or nothing
/// when the mapping has no entry under the field's name.
pub open spec fn field_value(field: Field, objects: Map<Seq<char>, String>) -> Seq<char> {
    if objects.contains_key(field.name@) {
        objects[field.name@]@
    } else {
        Seq::<char>::empty()
    }
}

/// The line of one field: `name (type): value` and a line break.
pub open spec fn field_line(field: Field, objects: Map<Seq<char>, String>) -> Seq<char> {
    field.name@ + " ("@ + field.field_type@ + "): "@ + field_value(field, objects) + "\n"@
}

/// The lines of a sequence of fields, in the sequence's order.
pub open spec fn fields_text(fields: Seq<Field>, objects: Map<Seq<char>, String>) -> Seq<char>
    decreases fields.len(),
{
    if fields.len() == 0 {
        Seq::<char>::empty()
    } else {
        fields_text(fields.drop_last(), objects) + field_line(fields.last(), objects)
    }
}

impl PromptTemplate {
    pub fn new(fields: Vec<Field>, system_input: Option<String>, user_input: Option<String>) -> (t:
        Self)
        ensures
            t.fields == fields,
            t.system_input == system_input,
            t.user_input == user_input,
    {
        Self { fields, system_input, user_input }
    }

    /// The rendered prompt: the preambles that are present, the heading, then
    /// one line per field in stored order.
    pub open spec fn prompt_text(self, objects: Map<Seq<char>, String>) -> Seq<char> {
        preamble_text("System Input: "@, self.system_input) + preamble_text(
            "User Input: "@,
            self.user_input,
        ) + "JSON INSTRUCT with Fields:\n"@ + fields_text(self.fields@, objects)
    }

    pub fn generate_prompt(&self, objects: StringHashMap<String>) -> (prompt: String)
        ensures
            prompt@ == self.prompt_text(objects@),
    {
        let mut prompt = String::new();
        if let Some(system_input) = &self.system_input {
            prompt.append("System Input: ");
            prompt.append(system_input.as_str());
            prompt.append("\n");
        }
        if let Some(user_input) = &self.user_input {
            prompt.append("User Input: ");
            prompt.append(user_input.as_str());
            prompt.append("\n");
        }
        prompt.append("JSON INSTRUCT with Fields:\n");
        let ghost head = prompt@;
        let mut i: usize = 0;
        while i < self.fields.len()
            invariant
                i <= self.fields.len(),
                prompt@ == head + fields_text(self.fields@.take(i as int), objects@),
            decreases self.fields.len() - i,
        {
            let field = &self.fields[i];
            proof {
                assert(self.fields@.take(i + 1).drop_last() == self.fields@.take(i as int));
                assert(self.fields@.take(i + 1).last() == *field);
            }
            prompt.append(field.name.as_str());
            prompt.append(" (");
            prompt.append(field.field_type.as_str());
            prompt.append("): ");
            if let Some(value) = objects.get(field.name.as_str()) {
                prompt.append(value.as_str());
            }
            prompt.append("\n");
            i = i + 1;
        }
        proof {
            assert(self.fields@.take(i as int) == self.fields@);
        }
        prompt
    }
}

/// Whether two optional texts are both absent or hold the same characters.
pub open spec fn same_optional_text(a: Option<String>, b: Option<String>) -> bool {
    match (a, b) {
        (Some(a), Some(b)) => a@ == b@,
        (None, None) => true,
        _ => false,
    }
}

/// Whether two field sequences have the same names and type labels, in the
/// same order, and find the same value texts in their mappings.
pub open spec fn same_fields(
    a: Seq<Field>,
    x: Map<Seq<char>, String>,
    b: Seq<Field>,
    y: Map<Seq<char>, String>,
) -> bool {
    &&& a.len() == b.len()
    &&& forall|i: int|
        0 <= i < a.len() ==> {
            &&& (#[trigger] a[i]).name@ == b[i].name@
            &&& a[i].field_type@ == b[i].field_type@
            &&& field_value(a[i], x) == field_value(b[i], y)
        }
}

/// The lines of the fields are determined by the names, the type labels and
/// the values that the names find.
pub proof fn lemma_fields_text_determined(
    a: Seq<Field>,
    x: Map<Seq<char>, String>,
    b: Seq<Field>,
    y: Map<Seq<char>, String>,
)
    requires
        same_fields(a, x, b, y),
    ensures
        fields_text(a, x) == fields_text(b, y),
    decreases a.len(),
{
    if a.len() > 0 {
        assert(a.last() == a[a.len() - 1]);
        assert(b.last() == b[b.len() - 1]);
        lemma_fields_text_determined(a.drop_last(), x, b.drop_last(), y);
    }
}

/// Rendering is deterministic: two renders from the same preambles, the same
/// field sequence and mappings that give the fields the same values produce
/// the same text, character for character. Neither a field's description nor
/// an entry of the mapping that no field names has any part in it.
pub proof fn lemma_rendering_is_deterministic(
    a: PromptTemplate,
    x: Map<Seq<char>, String>,
    b: PromptTemplate,
    y: Map<Seq<char>, String>,
)
    requires
        same_optional_text(a.system_input, b.system_input),
        same_optional_text(a.user_input, b.user_input),
        same_fields(a.fields@, x, b.fields@, y),
    ensures
        a.prompt_text(x) == b.prompt_text(y),
{
    lemma_fields_text_determined(a.fields@, x, b.fields@, y);
}

/// A field that the mapping has no entry for is not left out: it
/// contributes its line, with nothing between the colon's space and the line
/// break.
pub proof fn lemma_absent_field_is_rendered_empty(
    fields: Seq<Field>,
    field: Field,
    objects: Map<Seq<char>, String>,
)
    requires
        !objects.contains_key(field.name@),
    ensures
        field_line(field, objects) == field.name@ + " ("@ + field.field_type@ + "): "@ + "\n"@,
        fields_text(fields.push(field), objects) == fields_text(fields, objects) + field_line(
            field,
            objects,
        ),
{
    assert(fields.push(field).drop_last() == fields);
    assert(field_line(field, objects) =~= field.name@ + " ("@ + field.field_type@ + "): "@
        + "\n"@);
}

} // verus!
