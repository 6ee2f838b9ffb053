//! The smallest payload: a named leaf with one field.

use vstd::prelude::*;
use crate::json::json_safe;
use crate::json::json_string;
use crate::odata::ResourceMetadata;
use crate::odata::Serialize;
use crate::path::ResourcePath;

verus! {

/// A person, carrying nothing but a name.
pub struct Person(pub String);

impl Person {
    /// Accepted only when the name can stand in a JSON string as it
    /// is.
    pub fn new(name: String) -> (r: Option<Person>)
        ensures
            match r {
                Some(p) => p == Person(name) && p.inv(),
                None => !json_safe(name@),
            },
    {
        if crate::json::is_json_safe(name.as_str()) {
            Some(Person(name))
        } else {
            None
        }
    }
}

impl ResourceMetadata for Person {
    open spec fn type_tag(&self) -> Seq<char> {
        "#Person"@
    }

    open spec fn inv(&self) -> bool {
        json_safe(self.0@)
    }

    fn type_tag_str(&self) -> (r: String) {
        String::from_str("#Person")
    }
}

impl Serialize for Person {
    open spec fn field_count(&self) -> nat {
        1
    }

    open spec fn fields(&self, me: Seq<char>) -> Seq<(Seq<char>, Seq<char>)> {
        seq![("Name"@, json_string(self.0@))]
    }

    proof fn fields_count(&self, me: Seq<char>) {
    }

    fn serialize(&self, me: &ResourcePath, out: &mut String) {
        crate::json::append_string_field(out, "Name", self.0.as_str());
        proof {
            reveal_with_fuel(crate::json::render_fields, 3);
            assert(final(out)@ =~= old(out)@ + crate::json::render_fields(self.fields(me@)));
        }
    }
}

} // verus!
