//! The tool registry: tool names mapped to descriptions and handler entries,
//! kept in registration order, names unique.
use vstd::prelude::*;
use crate::tool::{Argument, field_str, test_param_field};

verus! {

/// Which handler a registered tool dispatches to.
#[derive(PartialEq, Eq, Structural, Debug, Clone, Copy)]
pub enum ToolKind {
    TestMessage,
}

impl ToolKind {
    /// The declared string fields of the tool's parameters.
    pub open spec fn schema(self) -> Seq<Seq<char>> {
        match self {
            ToolKind::TestMessage => seq![test_param_field()],
        }
    }

    /// Arguments conform to the tool's parameter schema.
    pub open spec fn conforms(self, args: Seq<Argument>) -> bool {
        match self {
            ToolKind::TestMessage => field_str(args, test_param_field()) is Some,
        }
    }

    /// Field names of the parameter schema, for discovery responses.
    pub fn schema_fields(&self) -> (r: Vec<String>)
        ensures
            r@.len() == self.schema().len(),
            forall|i: int| 0 <= i < r@.len() ==> #[trigger] r@[i]@ == self.schema()[i],
    {
        let mut r: Vec<String> = Vec::new();
        match self {
            ToolKind::TestMessage => {
                r.push(String::from_str("test_param"));
            },
        }
        r
    }
}

/// A registered tool as discovery lists it.
pub struct ToolDescriptor {
    pub name: String,
    pub description: String,
    pub kind: ToolKind,
}

impl View for ToolDescriptor {
    type V = (Seq<char>, Seq<char>, ToolKind);

    open spec fn view(&self) -> Self::V {
        (self.name@, self.description@, self.kind)
    }
}

impl ToolDescriptor {
    pub fn copy(&self) -> (r: ToolDescriptor)
        ensures
            r@ == self@,
    {
        ToolDescriptor { name: self.name.clone(), description: self.description.clone(), kind: self.kind }
    }
}

/// Registering a name that is already taken.
#[derive(PartialEq, Eq, Structural, Debug, Clone, Copy)]
pub enum RegistryError {
    DuplicateName,
}

pub struct ToolRegistry {
    tools: Vec<ToolDescriptor>,
}

/// Some tool in `tools` is named `name`.
pub open spec fn has_name(tools: Seq<(Seq<char>, Seq<char>, ToolKind)>, name: Seq<char>) -> bool {
    exists|i: int| 0 <= i < tools.len() && (#[trigger] tools[i]).0 == name
}

impl View for ToolRegistry {
    type V = Seq<(Seq<char>, Seq<char>, ToolKind)>;

    closed spec fn view(&self) -> Self::V {
        self.tools@.map_values(|t: ToolDescriptor| t@)
    }
}

impl ToolRegistry {
    /// No two tools share a name.
    pub open spec fn wf(&self) -> bool {
        forall|i: int, j: int|
            0 <= i < j < self@.len() ==> (#[trigger] self@[i]).0 != (#[trigger] self@[j]).0
    }

    pub fn new() -> (r: ToolRegistry)
        ensures
            r.wf(),
            r@.len() == 0,
    {
        ToolRegistry { tools: Vec::new() }
    }

    /// Looks a tool up by name: its position, or `None` when no tool has it.
    pub fn lookup(&self, name: &String) -> (r: Option<usize>)
        requires
            self.wf(),
        ensures
            r is None <==> !has_name(self@, name@),
            r matches Some(i) ==> i < self@.len() && self@[i as int].0 == name@,
    {
        let mut i: usize = 0;
        while i < self.tools.len()
            invariant
                0 <= i <= self.tools@.len(),
                forall|k: int| 0 <= k < i ==> (#[trigger] self@[k]).0 != name@,
            decreases self.tools.len() - i,
        {
            if self.tools[i].name == *name {
                proof {
                    assert(self@[i as int].0 == name@);
                }
                return Some(i);
            }
            i = i + 1;
        }
        None
    }

    /// Adds a tool at the end; a taken name is refused and nothing changes.
    pub fn register(&mut self, name: String, description: String, kind: ToolKind) -> (r: Result<(), RegistryError>)
        requires
            old(self).wf(),
        ensures
            final(self).wf(),
            r is Err <==> has_name(old(self)@, name@),
            r is Ok ==> final(self)@ == old(self)@.push((name@, description@, kind)),
            r is Err ==> final(self)@ == old(self)@,
    {
        match self.lookup(&name) {
            Some(_) => Err(RegistryError::DuplicateName),
            None => {
                let ghost before = self@;
                self.tools.push(ToolDescriptor { name, description, kind });
                proof {
                    assert(self@ =~= before.push((name@, description@, kind)));
                }
                Ok(())
            },
        }
    }

    /// The descriptor at position `i`.
    pub fn get(&self, i: usize) -> (r: &ToolDescriptor)
        requires
            i < self@.len(),
        ensures
            r@ == self@[i as int],
    {
        &self.tools[i]
    }

    /// All descriptors, in registration order.
    pub fn list(&self) -> (r: Vec<ToolDescriptor>)
        ensures
            r@.map_values(|t: ToolDescriptor| t@) == self@,
    {
        let mut r: Vec<ToolDescriptor> = Vec::new();
        let mut i: usize = 0;
        while i < self.tools.len()
            invariant
                0 <= i <= self.tools@.len(),
                r@.len() == i,
                forall|k: int| 0 <= k < i ==> (#[trigger] r@[k])@ == self@[k],
            decreases self.tools.len() - i,
        {
            let d = self.tools[i].copy();
            proof {
                assert(d@ == self@[i as int]);
            }
            r.push(d);
            i = i + 1;
        }
        proof {
            assert(r@.map_values(|t: ToolDescriptor| t@) =~= self@);
        }
        r
    }
}

} // verus!
