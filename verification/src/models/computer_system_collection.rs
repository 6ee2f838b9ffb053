//! The collection of computer systems.
//!
//! The collection serializes its members as links resolved against its
//! own path, and routes a delegated request over its members in order:
//! the first member that answers wins.

use vstd::prelude::*;
use vstd::string::StringExecFns;
use crate::json::dec_digits;
use crate::json::json_safe;
use crate::json::json_string;
use crate::json::render_array;
use crate::json::render_array_items;
use crate::models::computer_system::ComputerSystem;
use crate::odata::ResourceMetadata;
use crate::odata::Serialize;
use crate::path::join_paths;
use crate::path::ResourcePath;
use crate::service::Dispatch;
use crate::service::Method;
use crate::service::ODataResource;
use crate::service::Request;
use crate::service::Response;
use crate::service::ResponseModel;

verus! {

/// The links the collection serializes for its members: each member's
/// identity resolved against the collection's own path.
pub open spec fn member_links(
    ms: Seq<ODataResource<ComputerSystem>>,
    me: Seq<char>,
) -> Seq<Seq<char>> {
    ms.map_values(|m: ODataResource<ComputerSystem>| crate::redfish::link_json(
        join_paths(me, m.0.odata_id@),
    ))
}

/// The decision of the members in order, each served at its absolute
/// address under the collection's address `me`: the first member that
/// answers wins; a collection with no answering member declines.
pub open spec fn first_route(
    ms: Seq<ODataResource<ComputerSystem>>,
    path: Seq<char>,
    method: Method,
    me: Seq<char>,
) -> Option<ResponseModel>
    decreases ms.len(),
{
    if ms.len() == 0 {
        None
    } else {
        match ms[0].route(path, method, join_paths(me, ms[0].0.odata_id@)) {
            Some(r) => Some(r),
            None => first_route(ms.drop_first(), path, method, me),
        }
    }
}

/// The first member wins: when the first enumerated member answers a
/// path, the collection's decision is that answer, whatever any later
/// member — even one claiming the same path — would have said.
pub proof fn lemma_first_member_wins(
    ms: Seq<ODataResource<ComputerSystem>>,
    path: Seq<char>,
    method: Method,
    me: Seq<char>,
    model: ResponseModel,
)
    requires
        ms.len() > 0,
        ms[0].route(path, method, join_paths(me, ms[0].0.odata_id@)) == Some(model),
    ensures
        first_route(ms, path, method, me) == Some(model),
{
}

/// A collection of computer system resources.
pub struct ComputerSystemCollection {
    pub name: String,
    pub members: Vec<ODataResource<ComputerSystem>>,
}

impl ComputerSystemCollection {
    /// An empty collection under the given name.  Accepted only when
    /// the name can stand in a JSON string as it is.
    pub fn new(name: String) -> (r: Option<ComputerSystemCollection>)
        ensures
            match r {
                Some(c) => c.name@ == name@ && c.members@ =~= Seq::<
                    ODataResource<ComputerSystem>,
                >::empty() && c.inv(),
                None => !json_safe(name@),
            },
    {
        if crate::json::is_json_safe(name.as_str()) {
            Some(ComputerSystemCollection { name, members: Vec::new() })
        } else {
            None
        }
    }

    /// Appends one member envelope; existing members and their order
    /// are kept.
    pub fn add_system(&mut self, system: ODataResource<ComputerSystem>)
        ensures
            final(self).name == old(self).name,
            final(self).members@ == old(self).members@.push(system),
            old(self).inv() && system.inv() ==> final(self).inv(),
    {
        self.members.push(system);
    }
}

impl ResourceMetadata for ComputerSystemCollection {
    open spec fn type_tag(&self) -> Seq<char> {
        "#ComputerSystemCollection.ComputerSystemCollection"@
    }

    open spec fn inv(&self) -> bool {
        &&& json_safe(self.name@)
        &&& forall|i: int| 0 <= i < self.members@.len() ==> (#[trigger] self.members@[i]).0.wf()
    }

    fn type_tag_str(&self) -> (r: String) {
        String::from_str("#ComputerSystemCollection.ComputerSystemCollection")
    }
}

impl Serialize for ComputerSystemCollection {
    open spec fn field_count(&self) -> nat {
        3
    }

    open spec fn fields(&self, me: Seq<char>) -> Seq<(Seq<char>, Seq<char>)> {
        seq![
            ("Name"@, json_string(self.name@)),
            ("Members@odata.count"@, dec_digits(self.members@.len())),
            ("Members"@, render_array(member_links(self.members@, me))),
        ]
    }

    proof fn fields_count(&self, me: Seq<char>) {
    }

    fn serialize(&self, me: &ResourcePath, out: &mut String) {
        crate::json::append_string_field(out, "Name", self.name.as_str());
        let mut count = String::new();
        crate::json::append_decimal(&mut count, self.members.len() as u64);
        crate::json::append_raw_field(out, "Members@odata.count", count.as_str());
        let mut arr = String::new();
        arr.append("[");
        proof {
            reveal_strlit("[");
            assert(self.members@.take(0) =~= Seq::<ODataResource<ComputerSystem>>::empty());
            assert(arr@ =~= seq!['['] + render_array_items(
                member_links(self.members@.take(0), me@),
            ));
        }
        let mut i: usize = 0;
        while i < self.members.len()
            invariant
                0 <= i <= self.members@.len(),
                self.inv(),
                me.wf(),
                arr@ == seq!['['] + render_array_items(member_links(self.members@.take(i as int), me@)),
            decreases self.members@.len() - i,
        {
            if i > 0 {
                arr.append(",");
            }
            let link = self.members[i].0.identity().resolve(me);
            let link_text = link.to_json();
            arr.append(link_text.as_str());
            proof {
                reveal_strlit(",");
                let done = member_links(self.members@.take(i as int), me@);
                let item = crate::redfish::link_json(
                    join_paths(me@, self.members@[i as int].0.odata_id@),
                );
                crate::json::lemma_render_array_items_push(done, item);
                assert(member_links(self.members@.take(i + 1), me@) =~= done.push(item));
                assert(arr@ =~= seq!['['] + render_array_items(
                    member_links(self.members@.take(i + 1), me@),
                ));
            }
            i += 1;
        }
        arr.append("]");
        proof {
            reveal_strlit("]");
            assert(self.members@.take(self.members@.len() as int) =~= self.members@);
            assert(arr@ =~= render_array(member_links(self.members@, me@)));
        }
        crate::json::append_raw_field(out, "Members", arr.as_str());
        proof {
            reveal_with_fuel(crate::json::render_fields, 5);
            assert(final(out)@ =~= old(out)@ + crate::json::render_fields(self.fields(me@)));
        }
    }
}

impl Dispatch for ComputerSystemCollection {
    open spec fn route(&self, path: Seq<char>, method: Method, me: Seq<char>) -> Option<
        ResponseModel,
    > {
        first_route(self.members@, path, method, me)
    }

    fn dispatch(&self, path: &ResourcePath, request: &Request, me: &ResourcePath) -> (r: Option<
        Response,
    >) {
        proof {
            assert(self.members@.skip(0) =~= self.members@);
        }
        let mut i: usize = 0;
        while i < self.members.len()
            invariant
                0 <= i <= self.members@.len(),
                self.inv(),
                path.wf(),
                me.wf(),
                first_route(self.members@.skip(i as int), path@, request.method, me@)
                    == first_route(self.members@, path@, request.method, me@),
            decreases self.members@.len() - i,
        {
            let member = &self.members[i];
            let member_abs = me.join(&member.0.odata_id);
            let answer = member.dispatch(path, request, &member_abs);
            proof {
                assert(self.members@.skip(i as int)[0] == self.members@[i as int]);
            }
            match answer {
                Some(response) => {
                    return Some(response);
                },
                None => {
                    proof {
                        assert(self.members@.skip(i as int).drop_first() =~= self.members@.skip(
                            i + 1,
                        ));
                    }
                },
            }
            i += 1;
        }
        proof {
            assert(self.members@.skip(self.members@.len() as int) =~= Seq::<
                ODataResource<ComputerSystem>,
            >::empty());
        }
        None
    }
}

} // verus!
