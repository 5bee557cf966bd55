//! The node registry: the declarations that independently compiled modules
//! contribute, the process-wide binding of node names to numeric ids, and
//! the entry-dispatch helpers that lay resource arguments out.
//!
//! Binding runs once, during a well-defined startup phase. A name must
//! resolve to exactly one id for the lifetime of the process: call sites are
//! numbered against the bound ids, so a later rebinding to a different id is
//! a fatal consistency violation and is reported as an error value here.

use vstd::prelude::*;

use crate::Error;
use crate::access::CRpsParamAttr;
use crate::access::PARAMETER_FLAG_RESOURCE_BIT;
use crate::rpsl_runtime::CRpsTypeInfo;

verus! {

/// The description of one declared node or entry parameter.
#[derive(Clone, PartialEq, Eq, Debug)]
pub struct ParameterDescriptor {
    /// The size and id of the parameter's wire type.
    pub type_info: CRpsTypeInfo,
    /// The element count when the parameter is an array; zero otherwise.
    pub array_size: u32,
    /// The packed access descriptor of the parameter.
    pub attr: CRpsParamAttr,
    /// The parameter's name.
    pub name: String,
    /// The parameter flags; the resource flag marks a resource view.
    pub flags: u32,
}

/// One declared node: its queue and scheduling preferences, its ordered
/// parameters, and its name.
#[derive(Clone, PartialEq, Eq, Debug)]
pub struct NodeDeclaration {
    /// The node kind and preference flags.
    pub flags: u32,
    /// The ordered parameter descriptors.
    pub params: Vec<ParameterDescriptor>,
    /// The node's textual name; binding resolves it to a numeric id.
    pub name: String,
}

/// One registered entry procedure: its name, its ordered parameters, and —
/// bound after registration — how many node declarations its module sees.
#[derive(Clone, PartialEq, Eq, Debug)]
pub struct EntryDeclaration {
    /// The entry's name.
    pub name: String,
    /// The ordered parameter descriptors.
    pub params: Vec<ParameterDescriptor>,
    /// The number of node declarations bound to this entry; filled in by
    /// [`bind_entry_node_decls`] after every module has registered.
    pub node_decl_count: u32,
}

/// The names of a declaration list, as character sequences.
pub open spec fn spec_decl_names(decls: Seq<NodeDeclaration>) -> Seq<Seq<char>> {
    decls.map_values(|d: NodeDeclaration| d.name@)
}

/// No name occurs twice.
pub open spec fn spec_names_distinct(names: Seq<Seq<char>>) -> bool {
    forall|i: int, j: int| 0 <= i < j < names.len() ==> names[i] != names[j]
}

/// The process-wide name-to-id binding table: the id of a name is its
/// position in the merged declaration list.
#[derive(Clone, PartialEq, Eq, Debug)]
pub struct GlobalNodeIdBindingTable {
    /// The bound names; the id of `names[i]` is `i`.
    pub names: Vec<String>,
}

impl GlobalNodeIdBindingTable {
    /// The names this table binds.
    pub open spec fn spec_names(self) -> Seq<Seq<char>> {
        self.names@.map_values(|n: String| n@)
    }

    /// Merges the registered declarations into a binding table, assigning
    /// ids `0..N-1` in registration order. Succeeds exactly when no name is
    /// declared twice; a duplicate would rebind an already-bound name to a
    /// different id, which is fatal.
    pub fn bind(decls: &Vec<NodeDeclaration>) -> (r: Result<GlobalNodeIdBindingTable, Error>)
        ensures
            spec_names_distinct(spec_decl_names(decls@)) ==> (r matches Ok(t) && t.spec_names()
                == spec_decl_names(decls@)),
            !spec_names_distinct(spec_decl_names(decls@)) ==> r == Err::<
                GlobalNodeIdBindingTable,
                Error,
            >(Error::NodeIdConflict),
    {
        let mut names: Vec<String> = Vec::new();
        let mut i: usize = 0;
        while i < decls.len()
            invariant
                i <= decls@.len(),
                names@.len() == i,
                forall|j: int| 0 <= j < i ==> names@[j]@ == decls@[j].name@,
                forall|j: int, l: int| 0 <= j < l < i ==> decls@[j].name@ != decls@[l].name@,
            decreases decls@.len() - i,
        {
            let candidate = &decls[i].name;
            let mut j: usize = 0;
            while j < names.len()
                invariant
                    j <= names@.len(),
                    names@.len() == i,
                    i < decls@.len(),
                    candidate@ == decls@[i as int].name@,
                    forall|l: int| 0 <= l < i ==> names@[l]@ == decls@[l].name@,
                    forall|l: int| 0 <= l < j ==> names@[l]@ != candidate@,
                decreases names@.len() - j,
            {
                if crate::access::str_eq(names[j].as_str(), candidate.as_str()) {
                    proof {
                        assert(names@[j as int]@ == decls@[j as int].name@);
                        assert(decls@[j as int].name@ == decls@[i as int].name@);
                        assert(spec_decl_names(decls@)[j as int] == decls@[j as int].name@);
                        assert(spec_decl_names(decls@)[i as int] == decls@[i as int].name@);
                        assert(!spec_names_distinct(spec_decl_names(decls@)));
                    }
                    return Err(Error::NodeIdConflict);
                }
                j = j + 1;
            }
            proof {
                assert forall|a: int, b: int| 0 <= a < b < i + 1 implies decls@[a].name@
                    != decls@[b].name@ by {
                    if b == i as int {
                        assert(names@[a]@ == decls@[a].name@);
                        assert(names@[a]@ != candidate@);
                    }
                }
            }
            let mut copied = String::new();
            copied.append(candidate.as_str());
            names.push(copied);
            i = i + 1;
        }
        proof {
            assert forall|a: int, b: int|
                0 <= a < b < spec_decl_names(decls@).len() implies spec_decl_names(decls@)[a]
                != spec_decl_names(decls@)[b] by {
                assert(decls@[a].name@ != decls@[b].name@);
            }
            assert(GlobalNodeIdBindingTable { names }.spec_names() =~= spec_decl_names(decls@));
        }
        Ok(GlobalNodeIdBindingTable { names })
    }

    /// The id bound to `name`: the first position holding it.
    pub fn lookup(&self, name: &str) -> (r: Option<u32>)
        requires
            self.names@.len() <= u32::MAX,
        ensures
            r matches Some(id) ==> id < self.spec_names().len() && self.spec_names()[id as int]
                == name@ && (forall|j: int| 0 <= j < id ==> self.spec_names()[j] != name@),
            r is None ==> (forall|j: int|
                0 <= j < self.spec_names().len() ==> self.spec_names()[j] != name@),
    {
        let mut i: usize = 0;
        while i < self.names.len()
            invariant
                i <= self.names@.len(),
                self.names@.len() <= u32::MAX,
                forall|j: int| 0 <= j < i ==> self.names@[j]@ != name@,
            decreases self.names@.len() - i,
        {
            if crate::access::str_eq(self.names[i].as_str(), name) {
                return Some(i as u32);
            }
            i = i + 1;
        }
        None
    }
}

/// Whether no registered declaration carries this call-site name: the fatal
/// resolution failure of the binding step.
pub open spec fn spec_site_unresolvable(decls: Seq<NodeDeclaration>, name: Seq<char>) -> bool {
    forall|j: int| 0 <= j < decls.len() ==> spec_decl_names(decls)[j] != name
}

/// Performs the one-time node-id binding: merges every registered
/// declaration into the binding table and resolves each call-site name to
/// its numeric id.
///
/// Succeeds exactly when no node name is declared twice and every call-site
/// name is declared; a duplicate is the fatal rebind
/// (`Err(NodeIdConflict)`), an unknown call-site name the fatal resolution
/// failure (`Err(InvalidArgs)`).
pub fn init_node_ids(decls: &Vec<NodeDeclaration>, site_names: &Vec<String>) -> (r: Result<
    (GlobalNodeIdBindingTable, Vec<u32>),
    Error,
>)
    requires
        decls@.len() <= u32::MAX,
    ensures
        r matches Ok(p) ==> ({
            &&& spec_names_distinct(spec_decl_names(decls@))
            &&& p.0.spec_names() == spec_decl_names(decls@)
            &&& p.1@.len() == site_names@.len()
            &&& forall|i: int|
                0 <= i < site_names@.len() ==> p.1@[i] < decls@.len() && decls@[
                    p.1@[i] as int
                ].name@ == site_names@[i]@
        }),
        !spec_names_distinct(spec_decl_names(decls@)) ==> r == Err::<
            (GlobalNodeIdBindingTable, Vec<u32>),
            Error,
        >(Error::NodeIdConflict),
        spec_names_distinct(spec_decl_names(decls@)) && (exists|i: int|
            #![trigger site_names@[i]]
            0 <= i < site_names@.len() && spec_site_unresolvable(decls@, site_names@[i]@)) ==> r
            == Err::<(GlobalNodeIdBindingTable, Vec<u32>), Error>(Error::InvalidArgs),
        spec_names_distinct(spec_decl_names(decls@)) && (forall|i: int|
            #![trigger site_names@[i]]
            0 <= i < site_names@.len() ==> !spec_site_unresolvable(decls@, site_names@[i]@))
            ==> r is Ok,
{
    let table = match GlobalNodeIdBindingTable::bind(decls) {
        Ok(t) => t,
        Err(e) => {
            return Err(e);
        },
    };
    proof {
        assert(spec_names_distinct(spec_decl_names(decls@)));
        assert(table.spec_names().len() == table.names@.len());
        assert(spec_decl_names(decls@).len() == decls@.len());
    }
    let mut resolved: Vec<u32> = Vec::new();
    let mut i: usize = 0;
    while i < site_names.len()
        invariant
            i <= site_names@.len(),
            decls@.len() <= u32::MAX,
            spec_names_distinct(spec_decl_names(decls@)),
            table.spec_names() == spec_decl_names(decls@),
            table.names@.len() == decls@.len(),
            resolved@.len() == i,
            forall|j: int|
                0 <= j < i ==> resolved@[j] < decls@.len() && decls@[resolved@[j] as int].name@
                    == site_names@[j]@,
        decreases site_names@.len() - i,
    {
        match table.lookup(site_names[i].as_str()) {
            Some(id) => {
                proof {
                    assert(table.spec_names()[id as int] == spec_decl_names(decls@)[id as int]);
                    assert(spec_decl_names(decls@)[id as int] == decls@[id as int].name@);
                }
                resolved.push(id);
            },
            None => {
                proof {
                    assert(spec_site_unresolvable(decls@, site_names@[i as int]@));
                    assert(site_names@[i as int] == site_names@[i as int]);
                }
                return Err(Error::InvalidArgs);
            },
        }
        i = i + 1;
    }
    proof {
        assert forall|w: int| #![trigger site_names@[w]] 0 <= w < site_names@.len()
            implies !spec_site_unresolvable(decls@, site_names@[w]@) by {
            let id = resolved@[w];
            assert(spec_decl_names(decls@)[id as int] == decls@[id as int].name@);
            assert(decls@[id as int].name@ == site_names@[w]@);
        }
    }
    Ok((table, resolved))
}

/// After every module has registered, each entry sees the whole merged node
/// declaration list: record its length on every entry.
pub fn bind_entry_node_decls(entries: Vec<EntryDeclaration>, node_decl_count: u32) -> (r: Vec<
    EntryDeclaration,
>)
    ensures
        r@.len() == entries@.len(),
        forall|i: int|
            0 <= i < entries@.len() ==> r@[i] == (EntryDeclaration {
                node_decl_count,
                ..entries@[i]
            }),
{
    let ghost orig = entries@;
    let n = entries.len();
    let mut rest = entries;
    let mut out: Vec<EntryDeclaration> = Vec::new();
    let mut i: usize = 0;
    while rest.len() > 0
        invariant
            n == orig.len(),
            i + rest@.len() == orig.len(),
            rest@ =~= orig.skip(i as int),
            out@.len() == i,
            forall|j: int|
                0 <= j < i ==> out@[j] == (EntryDeclaration { node_decl_count, ..orig[j] }),
        decreases rest@.len(),
    {
        let e = rest.remove(0);
        proof {
            assert(e == orig[i as int]);
            assert(rest@ =~= orig.skip(i + 1 as int));
        }
        let EntryDeclaration { name, params, node_decl_count: _ } = e;
        out.push(EntryDeclaration { name, params, node_decl_count });
        i = i + 1;
    }
    out
}

/// The registration name of an entry: a fixed prefix, the module name, and
/// the entry name, so a host loader can enumerate entries without prior
/// knowledge of module contents.
pub fn entry_registration_name(module: &str, entry: &str) -> (r: String)
    ensures
        r@ == "rpsl_M_"@ + module@ + "_E_"@ + entry@,
{
    let mut out = String::new();
    out.append("rpsl_M_");
    out.append(module);
    out.append("_E_");
    out.append(entry);
    proof {
        assert(out@ =~= "rpsl_M_"@ + module@ + "_E_"@ + entry@);
    }
    out
}

/// How many resource slots one parameter consumes at entry dispatch: arrays
/// of views consume one slot per element, single views one, and plain
/// values none.
pub open spec fn spec_resource_slots(p: ParameterDescriptor) -> nat {
    if p.flags & PARAMETER_FLAG_RESOURCE_BIT != 0 {
        if p.array_size > 0 {
            p.array_size as nat
        } else {
            1
        }
    } else {
        0
    }
}

/// The resource slot offset of parameter `i`: the slots consumed by the
/// resource parameters before it.
pub open spec fn spec_resource_offset(params: Seq<ParameterDescriptor>, i: int) -> nat
    decreases i,
{
    if i <= 0 {
        0
    } else {
        spec_resource_offset(params, i - 1) + spec_resource_slots(params[i - 1])
    }
}

/// Lays an entry's resource arguments out for dispatch: hands back, for
/// each parameter, the offset of its first resource slot among the entry's
/// resource arguments, in declaration order.
pub fn entry_param_resource_offsets(params: &Vec<ParameterDescriptor>) -> (r: Vec<u32>)
    requires
        spec_resource_offset(params@, params@.len() as int) <= u32::MAX,
    ensures
        r@.len() == params@.len(),
        forall|i: int| 0 <= i < params@.len() ==> r@[i] == spec_resource_offset(params@, i),
{
    let mut out: Vec<u32> = Vec::new();
    let mut acc: u32 = 0;
    let mut i: usize = 0;
    while i < params.len()
        invariant
            i <= params@.len(),
            spec_resource_offset(params@, params@.len() as int) <= u32::MAX,
            out@.len() == i,
            acc == spec_resource_offset(params@, i as int),
            forall|j: int| 0 <= j < i ==> out@[j] == spec_resource_offset(params@, j),
        decreases params@.len() - i,
    {
        proof {
            lemma_resource_offset_monotone(params@, i + 1 as int, params@.len() as int);
        }
        out.push(acc);
        let slots: u32 = if params[i].flags & PARAMETER_FLAG_RESOURCE_BIT != 0 {
            if params[i].array_size > 0 {
                params[i].array_size
            } else {
                1
            }
        } else {
            0
        };
        acc = acc + slots;
        i = i + 1;
    }
    out
}

/// Offsets grow with the parameter index.
proof fn lemma_resource_offset_monotone(params: Seq<ParameterDescriptor>, i: int, j: int)
    requires
        i <= j,
    ensures
        spec_resource_offset(params, i) <= spec_resource_offset(params, j),
    decreases j - i,
{
    if i < j {
        lemma_resource_offset_monotone(params, i, j - 1);
    }
}

} // verus!
