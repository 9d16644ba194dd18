//! The registry of tools: a mapping from names to handles.

use vstd::prelude::*;
use vstd::string::StringExecFns;
use crate::views::views;
use crate::tools::ToolError;

verus! {

/// What a provider is told about a tool.
#[derive(Debug, PartialEq)]
pub struct ToolSpec {
    pub name: String,
    pub description: String,
    /// The JSON Schema of the tool's parameters.
    pub parameters_schema: serde_json::Value,
}

/// The mathematical content of a [`ToolSpec`].
pub struct ToolSpecView {
    pub name: Seq<char>,
    pub description: Seq<char>,
    pub parameters_schema: serde_json::Value,
}

impl View for ToolSpec {
    type V = ToolSpecView;

    open spec fn view(&self) -> ToolSpecView {
        ToolSpecView {
            name: self.name@,
            description: self.description@,
            parameters_schema: self.parameters_schema,
        }
    }
}

impl Clone for ToolSpec {
    fn clone(&self) -> (copy: Self)
        ensures
            copy == *self,
    {
        ToolSpec {
            name: self.name.clone(),
            description: self.description.clone(),
            parameters_schema: self.parameters_schema.clone(),
        }
    }
}

/// Whether no two tools of a list share a name.
pub open spec fn names_unique(tools: Seq<ToolSpecView>) -> bool {
    forall|i: int, j: int|
        0 <= i < tools.len() && 0 <= j < tools.len() && i != j ==> #[trigger] tools[i].name
            != #[trigger] tools[j].name
}

/// Whether a list holds a tool of the given name.
pub open spec fn has_name(tools: Seq<ToolSpecView>, name: Seq<char>) -> bool {
    exists|i: int| 0 <= i < tools.len() && #[trigger] tools[i].name == name
}

/// The tools that a kernel can run, each under its own name. A tool is
/// known to callers by its handle: its position in the order of registration.
#[derive(Debug)]
pub struct ToolRegistry {
    tools: Vec<ToolSpec>,
}

impl View for ToolRegistry {
    type V = Seq<ToolSpecView>;

    closed spec fn view(&self) -> Seq<ToolSpecView> {
        views(self.tools@)
    }
}

impl ToolRegistry {
    /// The registry's invariant: no two registered tools share a name.
    pub open spec fn wf(&self) -> bool {
        names_unique(self@)
    }

    /// A registry without tools.
    pub fn new() -> (registry: Self)
        ensures
            registry.wf(),
            registry@ == Seq::<ToolSpecView>::empty(),
    {
        let registry = ToolRegistry { tools: Vec::new() };
        assert(registry@ =~= Seq::<ToolSpecView>::empty());
        registry
    }

    /// The number of registered tools.
    pub fn len(&self) -> (n: usize)
        ensures
            n == self@.len(),
    {
        self.tools.len()
    }

    /// Finds a tool by name. An absent name is the error `Unknown`. In a
    /// well-formed registry at most one handle fits a name.
    pub fn lookup(&self, name: &str) -> (res: Result<usize, ToolError>)
        ensures
            match res {
                Ok(handle) => handle < self@.len() && self@[handle as int].name == name@,
                Err(e) => !has_name(self@, name@) && (e matches ToolError::Unknown(n) && n@
                    == name@),
            },
    {
        let wanted = String::from_str(name);
        let mut i: usize = 0;
        while i < self.tools.len()
            invariant
                0 <= i <= self.tools.len(),
                wanted@ == name@,
                forall|k: int| 0 <= k < i ==> (#[trigger] self@[k]).name != name@,
            decreases self.tools.len() - i,
        {
            if self.tools[i].name == wanted {
                return Ok(i);
            }
            i = i + 1;
        }
        Err(ToolError::Unknown(wanted))
    }

    /// Registers a tool and returns its handle, or returns `None` and leaves
    /// the registry as it is where the name is taken.
    pub fn register(&mut self, spec: ToolSpec) -> (res: Option<usize>)
        requires
            old(self).wf(),
        ensures
            final(self).wf(),
            match res {
                Some(handle) => !has_name(old(self)@, spec@.name) && handle == old(self)@.len()
                    && final(self)@ == old(self)@.push(spec@),
                None => has_name(old(self)@, spec@.name) && final(self)@ == old(self)@,
            },
    {
        match self.lookup(spec.name.as_str()) {
            Ok(_) => None,
            Err(_) => {
                let handle = self.tools.len();
                proof {
                    assert(views(self.tools@.push(spec)) =~= views(self.tools@).push(spec@));
                }
                self.tools.push(spec);
                Some(handle)
            },
        }
    }

    /// The tool behind a handle, if the handle is one of this registry.
    pub fn get(&self, handle: usize) -> (res: Option<&ToolSpec>)
        ensures
            match res {
                Some(spec) => handle < self@.len() && spec@ == self@[handle as int],
                None => handle >= self@.len(),
            },
    {
        if handle < self.tools.len() {
            Some(&self.tools[handle])
        } else {
            None
        }
    }

    /// What is advertised to a provider: every tool, in order of
    /// registration.
    pub fn list(&self) -> (specs: Vec<ToolSpec>)
        ensures
            views(specs@) == self@,
    {
        let mut specs: Vec<ToolSpec> = Vec::new();
        let mut i: usize = 0;
        while i < self.tools.len()
            invariant
                0 <= i <= self.tools.len(),
                specs@ == self.tools@.take(i as int),
            decreases self.tools.len() - i,
        {
            specs.push(self.tools[i].clone());
            assert(self.tools@.take(i as int + 1) =~= self.tools@.take(i as int).push(
                self.tools@[i as int],
            ));
            i = i + 1;
        }
        assert(self.tools@.take(i as int) =~= self.tools@);
        specs
    }
}

} // verus!
