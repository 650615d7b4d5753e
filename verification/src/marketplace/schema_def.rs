//! Schema definition for scraper output.
use vstd::prelude::*;
use vstd::string::*;

verus! {

/// Type of a schema field.
#[derive(Debug, Clone, Copy, PartialEq, Eq, Structural)]
pub enum SchemaFieldType {
    /// String value
    String,
    /// Numeric value (integer or float)
    Number,
    /// Boolean value
    Boolean,
    /// Array of values
    Array,
    /// Nested object
    Object,
    /// Any type
    Any,
}

impl Default for SchemaFieldType {
    fn default() -> (r: Self)
        ensures
            r == SchemaFieldType::String,
    {
        SchemaFieldType::String
    }
}

/// A field in the schema definition.
#[derive(Debug)]
pub struct SchemaField {
    /// Field type
    pub field_type: SchemaFieldType,
    /// Optional description
    pub description: Option<String>,
    /// Whether the field is required
    pub required: bool,
    /// For array types, the type of items
    pub items: Option<Box<SchemaField>>,
    /// For object types, nested properties
    pub properties: Option<FieldMap>,
}

/// One named field of a [`FieldMap`].
#[derive(Debug)]
pub struct FieldEntry {
    pub name: String,
    pub field: SchemaField,
}

/// Named schema fields: a map from field names to fields, each name at most once.
#[derive(Debug)]
pub struct FieldMap {
    entries: Vec<FieldEntry>,
}

/// The map that a list of entries stands for; a later entry of a name
/// stands over an earlier one.
pub open spec fn entries_map(e: Seq<FieldEntry>) -> Map<Seq<char>, SchemaField>
    decreases e.len(),
{
    if e.len() == 0 {
        Map::empty()
    } else {
        entries_map(e.drop_last()).insert(e.last().name@, e.last().field)
    }
}

/// `i` is the last entry named `k`.
pub open spec fn last_named(e: Seq<FieldEntry>, k: Seq<char>, i: int) -> bool {
    0 <= i < e.len() && e[i].name@ == k && forall|j: int| i < j < e.len() ==> e[j].name@ != k
}

proof fn lemma_entries_lookup(e: Seq<FieldEntry>, k: Seq<char>, i: int)
    requires
        last_named(e, k, i),
    ensures
        entries_map(e).contains_key(k),
        entries_map(e)[k] == e[i].field,
    decreases e.len(),
{
    if i < e.len() - 1 {
        let d = e.drop_last();
        assert(last_named(d, k, i)) by {
            assert forall|j: int| i < j < d.len() implies d[j].name@ != k by {
                assert(d[j] == e[j]);
            }
        }
        lemma_entries_lookup(d, k, i);
        assert(e.last().name@ != k);
        assert(e[i] == d[i]);
    }
}

proof fn lemma_entries_absent(e: Seq<FieldEntry>, k: Seq<char>)
    requires
        forall|j: int| 0 <= j < e.len() ==> e[j].name@ != k,
    ensures
        !entries_map(e).contains_key(k),
    decreases e.len(),
{
    if e.len() > 0 {
        let d = e.drop_last();
        assert forall|j: int| 0 <= j < d.len() implies d[j].name@ != k by {
            assert(d[j] == e[j]);
        }
        lemma_entries_absent(d, k);
        assert(e.last().name@ != k);
    }
}

proof fn lemma_entries_update(e: Seq<FieldEntry>, i: int, key: String, v: SchemaField)
    requires
        last_named(e, key@, i),
    ensures
        entries_map(e.update(i, FieldEntry { name: key, field: v })) == entries_map(e).insert(
            key@,
            v,
        ),
    decreases e.len(),
{
    let u = e.update(i, FieldEntry { name: key, field: v });
    let d = e.drop_last();
    if i == e.len() - 1 {
        assert(u.drop_last() =~= d);
        assert(entries_map(e).insert(key@, v) =~= entries_map(d).insert(key@, v));
    } else {
        assert(last_named(d, key@, i)) by {
            assert forall|j: int| i < j < d.len() implies d[j].name@ != key@ by {
                assert(d[j] == e[j]);
            }
        }
        lemma_entries_update(d, i, key, v);
        assert(u.drop_last() =~= d.update(i, FieldEntry { name: key, field: v }));
        assert(e.last().name@ != key@);
        assert(entries_map(u) =~= entries_map(e).insert(key@, v));
    }
}

impl FieldMap {
    /// The fields by name.
    pub closed spec fn fields(&self) -> Map<Seq<char>, SchemaField> {
        entries_map(self.entries@)
    }

    /// The entries of the map, in order; where a name occurs more than once,
    /// the later entry stands over the earlier one.
    pub fn entries(&self) -> (r: &Vec<FieldEntry>)
        ensures
            entries_map(r@) == self.fields(),
    {
        &self.entries
    }

    /// An empty map.
    pub fn new() -> (r: Self)
        ensures
            r.fields() == Map::<Seq<char>, SchemaField>::empty(),
    {
        FieldMap { entries: Vec::new() }
    }

    /// The position of the last entry named `key`, if any.
    fn position(&self, key: &str) -> (r: Option<usize>)
        ensures
            match r {
                Some(i) => last_named(self.entries@, key@, i as int),
                None => forall|i: int|
                    0 <= i < self.entries@.len() ==> self.entries@[i].name@ != key@,
            },
    {
        let k = String::from_str(key);
        let mut i: usize = self.entries.len();
        while i > 0
            invariant
                i <= self.entries@.len(),
                k@ == key@,
                forall|j: int| i <= j < self.entries@.len() ==> self.entries@[j].name@ != key@,
            decreases i,
        {
            if self.entries[i - 1].name == k {
                return Some(i - 1);
            }
            i = i - 1;
        }
        None
    }

    /// Whether a field is named `key`.
    pub fn contains_key(&self, key: &str) -> (r: bool)
        ensures
            r == self.fields().contains_key(key@),
    {
        match self.position(key) {
            Some(i) => {
                proof {
                    lemma_entries_lookup(self.entries@, key@, i as int);
                }
                true
            },
            None => {
                proof {
                    lemma_entries_absent(self.entries@, key@);
                }
                false
            },
        }
    }

    /// The field named `key`, if any.
    pub fn get(&self, key: &str) -> (r: Option<&SchemaField>)
        ensures
            match r {
                Some(f) => self.fields().contains_key(key@) && self.fields()[key@] == *f,
                None => !self.fields().contains_key(key@),
            },
    {
        match self.position(key) {
            Some(i) => {
                proof {
                    lemma_entries_lookup(self.entries@, key@, i as int);
                }
                Some(&self.entries[i].field)
            },
            None => {
                proof {
                    lemma_entries_absent(self.entries@, key@);
                }
                None
            },
        }
    }

    /// Names `field` `key`, replacing any field of that name.
    pub fn insert(&mut self, key: String, field: SchemaField)
        ensures
            final(self).fields() == old(self).fields().insert(key@, field),
    {
        match self.position(key.as_str()) {
            Some(i) => {
                proof {
                    lemma_entries_update(self.entries@, i as int, key, field);
                }
                self.entries.set(i, FieldEntry { name: key, field });
            },
            None => {
                let ghost old_entries = self.entries@;
                self.entries.push(FieldEntry { name: key, field });
                assert(self.entries@.drop_last() =~= old_entries);
            },
        }
    }
}

impl SchemaField {
    /// Creates a new string field.
    pub fn string() -> (r: Self)
        ensures
            r == (SchemaField {
                field_type: SchemaFieldType::String,
                description: None,
                required: false,
                items: None,
                properties: None,
            }),
    {
        SchemaField {
            field_type: SchemaFieldType::String,
            description: None,
            required: false,
            items: None,
            properties: None,
        }
    }

    /// Creates a new required string field.
    pub fn required_string() -> (r: Self)
        ensures
            r == (SchemaField {
                field_type: SchemaFieldType::String,
                description: None,
                required: true,
                items: None,
                properties: None,
            }),
    {
        SchemaField {
            field_type: SchemaFieldType::String,
            description: None,
            required: true,
            items: None,
            properties: None,
        }
    }

    /// Creates a new array field of the given item type.
    pub fn array(item_type: SchemaField) -> (r: Self)
        ensures
            r == (SchemaField {
                field_type: SchemaFieldType::Array,
                description: None,
                required: false,
                items: Some(Box::new(item_type)),
                properties: None,
            }),
    {
        SchemaField {
            field_type: SchemaFieldType::Array,
            description: None,
            required: false,
            items: Some(Box::new(item_type)),
            properties: None,
        }
    }

    /// Creates a new object field with the given properties.
    pub fn object(properties: FieldMap) -> (r: Self)
        ensures
            r == (SchemaField {
                field_type: SchemaFieldType::Object,
                description: None,
                required: false,
                items: None,
                properties: Some(properties),
            }),
    {
        SchemaField {
            field_type: SchemaFieldType::Object,
            description: None,
            required: false,
            items: None,
            properties: Some(properties),
        }
    }

    /// Adds a description to the field.
    pub fn with_description(self, desc: &str) -> (r: Self)
        ensures
            r.description matches Some(d) && d@ == desc@,
            r == (SchemaField { description: r.description, ..self }),
    {
        SchemaField { description: Some(String::from_str(desc)), ..self }
    }

    /// Makes the field required.
    pub fn as_required(self) -> (r: Self)
        ensures
            r == (SchemaField { required: true, ..self }),
    {
        SchemaField { required: true, ..self }
    }
}

/// A field of the given type with the given description, no items and no properties.
pub open spec fn is_plain_field(
    f: SchemaField,
    ty: SchemaFieldType,
    desc: Seq<char>,
    required: bool,
) -> bool {
    &&& f.field_type == ty
    &&& f.description matches Some(d) && d@ == desc
    &&& f.required == required
    &&& f.items is None
    &&& f.properties is None
}

/// An optional array of plain strings with the given description.
pub open spec fn is_string_list_field(f: SchemaField, desc: Seq<char>) -> bool {
    &&& f.field_type == SchemaFieldType::Array
    &&& f.description matches Some(d) && d@ == desc
    &&& !f.required
    &&& f.items matches Some(it) && *it == SchemaField {
        field_type: SchemaFieldType::String,
        description: None,
        required: false,
        items: None,
        properties: None,
    }
    &&& f.properties is None
}

/// Schema definition for scraper output: the expected structure of the data
/// a scraper extracts.
#[derive(Debug)]
pub struct SchemaDefinition {
    /// Output schema fields
    pub output: FieldMap,
}

impl Default for SchemaDefinition {
    fn default() -> (r: Self)
        ensures
            r.output.fields() == Map::<Seq<char>, SchemaField>::empty(),
    {
        SchemaDefinition { output: FieldMap::new() }
    }
}

impl SchemaDefinition {
    /// Creates a new empty schema definition.
    pub fn new() -> (r: Self)
        ensures
            r.output.fields() == Map::<Seq<char>, SchemaField>::empty(),
    {
        SchemaDefinition { output: FieldMap::new() }
    }

    /// Adds a field to the output schema, replacing any field of that name.
    pub fn with_field(self, name: &str, field: SchemaField) -> (r: Self)
        ensures
            r.output.fields() == self.output.fields().insert(name@, field),
    {
        let mut output = self.output;
        output.insert(String::from_str(name), field);
        SchemaDefinition { output }
    }

    /// Creates a schema for a LinkedIn profile scraper.
    pub fn linkedin_profile() -> (r: Self)
        ensures
            r.output.fields().dom() =~= set!["name"@, "headline"@, "experience"@, "education"@, "skills"@],
            is_plain_field(r.output.fields()["name"@], SchemaFieldType::String, "Full name"@, true),
            is_plain_field(
                r.output.fields()["headline"@],
                SchemaFieldType::String,
                "Professional headline"@,
                false,
            ),
            is_string_list_field(r.output.fields()["experience"@], "Work experience"@),
            is_string_list_field(r.output.fields()["education"@], "Education history"@),
            is_string_list_field(r.output.fields()["skills"@], "Skills list"@),
    {
        proof {
            reveal_strlit("name");
            reveal_strlit("headline");
            reveal_strlit("experience");
            reveal_strlit("education");
            reveal_strlit("skills");
            assert("name"@.len() == 4);
            assert("headline"@.len() == 8);
            assert("experience"@.len() == 10);
            assert("education"@.len() == 9);
            assert("skills"@.len() == 6);
        }
        let mut schema = Self::new();
        schema.output.insert(
            String::from_str("name"),
            SchemaField::required_string().with_description("Full name"),
        );
        schema.output.insert(
            String::from_str("headline"),
            SchemaField::string().with_description("Professional headline"),
        );
        schema.output.insert(
            String::from_str("experience"),
            SchemaField::array(SchemaField::string()).with_description("Work experience"),
        );
        schema.output.insert(
            String::from_str("education"),
            SchemaField::array(SchemaField::string()).with_description("Education history"),
        );
        schema.output.insert(
            String::from_str("skills"),
            SchemaField::array(SchemaField::string()).with_description("Skills list"),
        );
        schema
    }

    /// Creates a schema for an Amazon product scraper.
    pub fn amazon_product() -> (r: Self)
        ensures
            r.output.fields().dom() =~= set![
                "title"@,
                "price"@,
                "rating"@,
                "reviews_count"@,
                "description"@,
                "images"@,
            ],
            is_plain_field(r.output.fields()["title"@], SchemaFieldType::String, "Product title"@, true),
            is_plain_field(r.output.fields()["price"@], SchemaFieldType::Number, "Product price"@, true),
            is_plain_field(r.output.fields()["rating"@], SchemaFieldType::Number, "Average rating"@, false),
            is_plain_field(
                r.output.fields()["reviews_count"@],
                SchemaFieldType::Number,
                "Number of reviews"@,
                false,
            ),
            is_plain_field(
                r.output.fields()["description"@],
                SchemaFieldType::String,
                "Product description"@,
                false,
            ),
            is_string_list_field(r.output.fields()["images"@], "Product images URLs"@),
    {
        proof {
            reveal_strlit("title");
            reveal_strlit("price");
            reveal_strlit("rating");
            reveal_strlit("reviews_count");
            reveal_strlit("description");
            reveal_strlit("images");
            assert("title"@.len() == 5 && "title"@[0] == 't');
            assert("price"@.len() == 5 && "price"@[0] == 'p');
            assert("rating"@.len() == 6 && "rating"@[0] == 'r');
            assert("reviews_count"@.len() == 13);
            assert("description"@.len() == 11);
            assert("images"@.len() == 6 && "images"@[0] == 'i');
        }
        let mut schema = Self::new();
        schema.output.insert(
            String::from_str("title"),
            SchemaField::required_string().with_description("Product title"),
        );
        schema.output.insert(
            String::from_str("price"),
            SchemaField {
                field_type: SchemaFieldType::Number,
                description: Some(String::from_str("Product price")),
                required: true,
                items: None,
                properties: None,
            },
        );
        schema.output.insert(
            String::from_str("rating"),
            SchemaField {
                field_type: SchemaFieldType::Number,
                description: Some(String::from_str("Average rating")),
                required: false,
                items: None,
                properties: None,
            },
        );
        schema.output.insert(
            String::from_str("reviews_count"),
            SchemaField {
                field_type: SchemaFieldType::Number,
                description: Some(String::from_str("Number of reviews")),
                required: false,
                items: None,
                properties: None,
            },
        );
        schema.output.insert(
            String::from_str("description"),
            SchemaField::string().with_description("Product description"),
        );
        schema.output.insert(
            String::from_str("images"),
            SchemaField::array(SchemaField::string()).with_description("Product images URLs"),
        );
        schema
    }
}

/// Setting a field under a name and then reading: the name is present and
/// gives back the field set; every other name keeps what it had.
pub proof fn law_field_read_after_write(
    before: FieldMap,
    key: Seq<char>,
    field: SchemaField,
    after: FieldMap,
)
    requires
        after.fields() == before.fields().insert(key, field),
    ensures
        after.fields().contains_key(key),
        after.fields()[key] == field,
        forall|k: Seq<char>|
            k != key ==> (after.fields().contains_key(k) == before.fields().contains_key(k)
                && (before.fields().contains_key(k) ==> after.fields()[k] == before.fields()[k])),
{
}

} // verus!
