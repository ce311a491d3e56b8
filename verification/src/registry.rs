//! The command registry: one descriptor per named operation.

use vstd::prelude::*;

use crate::args::{ArgType, ArgValue, Args};
use crate::errors::ErrorKind;

verus! {

/// One field of a command's argument schema.
#[derive(Clone, Debug)]
pub struct FieldSpec {
    pub name: String,
    pub ty: ArgType,
    pub required: bool,
}

/// How a command's final response result is read.
#[derive(Clone, Copy, Debug, PartialEq, Eq, Structural)]
pub enum ExtractKind {
    /// A plain descriptive string.
    TextSummary,
    /// A structured edit list.
    EditList,
    /// A location list.
    LocationList,
    /// The cached diagnostics of the named document; no request is sent.
    CachedDiagnostics,
}

/// One registered command: its argument schema, the ordered protocol
/// methods of its request steps, which arguments name documents that must
/// be open first, its per-command timeout, and its result shape.
#[derive(Clone, Debug)]
pub struct CommandDescriptor {
    pub name: String,
    pub fields: Vec<FieldSpec>,
    pub methods: Vec<String>,
    pub doc_args: Vec<String>,
    pub timeout_ms: u64,
    pub extract: ExtractKind,
}

/// Whether a value is within range: positions and counts must fit the
/// protocol's 32-bit coordinates.
pub open spec fn in_range(v: ArgValue) -> bool {
    match v {
        ArgValue::Nat(n) => n <= 0xFFFF_FFFF,
        _ => true,
    }
}

/// Whether the argument map satisfies one schema field: a required field
/// is present, well-typed and in range; an optional one may be absent.
pub open spec fn field_ok(args: Args, f: FieldSpec) -> bool {
    match args.spec_get(f.name@) {
        Some(v) => v.has_type(f.ty) && in_range(v),
        None => !f.required,
    }
}

/// Whether the argument map satisfies a whole schema.
pub open spec fn args_match(args: Args, fields: Seq<FieldSpec>) -> bool {
    forall|j: int| 0 <= j < fields.len() ==> field_ok(args, #[trigger] fields[j])
}

/// Checks an argument map against a descriptor's schema.
pub fn validate_args(desc: &CommandDescriptor, args: &Args) -> (ok: bool)
    ensures
        ok == args_match(*args, desc.fields@),
{
    let n: usize = desc.fields.len();
    let mut j: usize = 0;
    while j < n
        invariant
            n == desc.fields@.len(),
            j <= n,
            forall|m: int| 0 <= m < j ==> field_ok(*args, #[trigger] desc.fields@[m]),
        decreases n - j,
    {
        let f = &desc.fields[j];
        match args.get(f.name.as_str()) {
            Some(v) => {
                if v.type_of() != f.ty {
                    proof {
                        assert(!field_ok(*args, desc.fields@[j as int]));
                    }
                    return false;
                }
                if let ArgValue::Nat(x) = v {
                    if *x > 0xFFFF_FFFF {
                        proof {
                            assert(!field_ok(*args, desc.fields@[j as int]));
                        }
                        return false;
                    }
                }
            },
            None => {
                if f.required {
                    proof {
                        assert(!field_ok(*args, desc.fields@[j as int]));
                    }
                    return false;
                }
            },
        }
        j = j + 1;
    }
    true
}

/// The first descriptor registered under `name`, if any.
pub open spec fn spec_find(cmds: Seq<CommandDescriptor>, name: Seq<char>) -> Option<
    CommandDescriptor,
>
    decreases cmds.len(),
{
    if cmds.len() == 0 {
        None
    } else if cmds[0].name@ == name {
        Some(cmds[0])
    } else {
        spec_find(cmds.skip(1), name)
    }
}

/// Whether no two registered descriptors share a name.
pub open spec fn unique_names(cmds: Seq<CommandDescriptor>) -> bool {
    forall|a: int, b: int|
        #![trigger cmds[a].name@, cmds[b].name@]
        0 <= a < b < cmds.len() ==> cmds[a].name@ != cmds[b].name@
}

/// If the entries before `j` miss `name` and entry `j` carries it, the
/// first match is entry `j`.
pub proof fn lemma_spec_find_first(cmds: Seq<CommandDescriptor>, name: Seq<char>, j: int)
    requires
        0 <= j < cmds.len(),
        forall|m: int| 0 <= m < j ==> #[trigger] cmds[m].name@ != name,
        cmds[j].name@ == name,
    ensures
        spec_find(cmds, name) == Some(cmds[j]),
    decreases j,
{
    if j == 0 {
    } else {
        assert forall|m: int| 0 <= m < j - 1 implies #[trigger] cmds.skip(1)[m].name@ != name by {
            assert(cmds.skip(1)[m] == cmds[m + 1]);
        }
        assert(cmds.skip(1)[j - 1] == cmds[j]);
        lemma_spec_find_first(cmds.skip(1), name, j - 1);
        assert(cmds[0].name@ != name);
    }
}

/// A name with no match is carried by no entry at all.
pub proof fn lemma_spec_find_none_absent(cmds: Seq<CommandDescriptor>, name: Seq<char>)
    requires
        spec_find(cmds, name) is None,
    ensures
        forall|m: int| 0 <= m < cmds.len() ==> #[trigger] cmds[m].name@ != name,
    decreases cmds.len(),
{
    if cmds.len() > 0 {
        lemma_spec_find_none_absent(cmds.skip(1), name);
        assert forall|m: int| 0 <= m < cmds.len() implies #[trigger] cmds[m].name@ != name by {
            if m > 0 {
                assert(cmds.skip(1)[m - 1] == cmds[m]);
            }
        }
    }
}

/// Appending a descriptor under another name leaves a name's first match
/// unchanged.
pub proof fn lemma_spec_find_push_other(
    cmds: Seq<CommandDescriptor>,
    d: CommandDescriptor,
    name: Seq<char>,
)
    requires
        d.name@ != name,
    ensures
        spec_find(cmds.push(d), name) == spec_find(cmds, name),
    decreases cmds.len(),
{
    if cmds.len() == 0 {
        assert(cmds.push(d)[0] == d);
        assert(cmds.push(d).skip(1) =~= Seq::<CommandDescriptor>::empty());
        assert(spec_find(Seq::<CommandDescriptor>::empty(), name) is None);
        assert(spec_find(cmds.push(d), name) is None);
    } else {
        assert(cmds.push(d)[0] == cmds[0]);
        assert(cmds.push(d).skip(1) =~= cmds.skip(1).push(d));
        lemma_spec_find_push_other(cmds.skip(1), d, name);
        assert(spec_find(cmds.push(d).skip(1), name) == spec_find(cmds.skip(1), name));
    }
}

/// A flat registry of command descriptors, immutable once start-up
/// registration is done.
pub struct Registry {
    pub commands: Vec<CommandDescriptor>,
}

impl Registry {
    /// An empty registry.
    pub fn new() -> (r: Registry)
        ensures
            r.commands@.len() == 0,
    {
        Registry { commands: Vec::new() }
    }

    /// Looks a command up by name.
    pub fn find(&self, name: &str) -> (r: Option<&CommandDescriptor>)
        ensures
            match r {
                Some(d) => spec_find(self.commands@, name@) == Some(*d),
                None => spec_find(self.commands@, name@) is None,
            },
    {
        let name_s: String = name.to_owned();
        let n: usize = self.commands.len();
        let mut j: usize = 0;
        proof {
            assert(self.commands@.skip(0) =~= self.commands@);
        }
        while j < n
            invariant
                n == self.commands@.len(),
                j <= n,
                name_s@ == name@,
                spec_find(self.commands@.skip(j as int), name@) == spec_find(
                    self.commands@,
                    name@,
                ),
            decreases n - j,
        {
            proof {
                assert(self.commands@.skip(j as int)[0] == self.commands@[j as int]);
            }
            if <String as PartialEq>::eq(&self.commands[j].name, &name_s) {
                return Some(&self.commands[j]);
            }
            proof {
                assert(self.commands@.skip(j as int).skip(1) =~= self.commands@.skip(j as int + 1));
            }
            j = j + 1;
        }
        proof {
            assert(self.commands@.skip(n as int) =~= Seq::<CommandDescriptor>::empty());
        }
        None
    }

    /// The registered command names, in registration order.
    pub fn names(&self) -> (r: Vec<String>)
        ensures
            r@.len() == self.commands@.len(),
            forall|j: int| 0 <= j < r@.len() ==> (#[trigger] r@[j])@ == self.commands@[j].name@,
    {
        let mut r: Vec<String> = Vec::new();
        let n: usize = self.commands.len();
        let mut j: usize = 0;
        while j < n
            invariant
                n == self.commands@.len(),
                j <= n,
                r@.len() == j,
                forall|m: int| 0 <= m < j ==> (#[trigger] r@[m])@ == self.commands@[m].name@,
            decreases n - j,
        {
            r.push(self.commands[j].name.clone());
            j = j + 1;
        }
        r
    }

    /// Registers one descriptor. A name registered twice fails fast with
    /// `DuplicateCommand` and changes nothing.
    pub fn register(&mut self, desc: CommandDescriptor) -> (r: Result<(), ErrorKind>)
        ensures
            match r {
                Ok(()) => {
                    &&& spec_find(old(self).commands@, desc.name@) is None
                    &&& final(self).commands@ == old(self).commands@.push(desc)
                    &&& spec_find(final(self).commands@, desc.name@) == Some(desc)
                    &&& forall|n: Seq<char>|
                        n != desc.name@ ==> spec_find(final(self).commands@, n) == spec_find(
                            old(self).commands@,
                            n,
                        )
                    &&& unique_names(old(self).commands@) ==> unique_names(final(self).commands@)
                },
                Err(k) => {
                    &&& k == ErrorKind::DuplicateCommand
                    &&& spec_find(old(self).commands@, desc.name@) is Some
                    &&& final(self).commands@ == old(self).commands@
                },
            },
    {
        if self.find(desc.name.as_str()).is_some() {
            return Err(ErrorKind::DuplicateCommand);
        }
        let ghost before = self.commands@;
        let ghost name_view = desc.name@;
        self.commands.push(desc);
        proof {
            lemma_spec_find_none_absent(before, name_view);
            assert(self.commands@[before.len() as int].name@ == name_view);
            assert forall|m: int|
                0 <= m < before.len() implies #[trigger] self.commands@[m].name@ != name_view by {
                assert(self.commands@[m] == before[m]);
            }
            lemma_spec_find_first(self.commands@, name_view, before.len() as int);
            assert forall|n: Seq<char>| n != name_view implies spec_find(self.commands@, n)
                == spec_find(before, n) by {
                lemma_spec_find_push_other(before, self.commands@[before.len() as int], n);
            }
            if unique_names(before) {
                assert forall|a: int, b: int|
                    #![trigger self.commands@[a].name@, self.commands@[b].name@]
                    0 <= a < b < self.commands@.len() implies self.commands@[a].name@
                    != self.commands@[b].name@ by {
                    if b < before.len() {
                        assert(self.commands@[a] == before[a]);
                        assert(self.commands@[b] == before[b]);
                    } else {
                        assert(self.commands@[a] == before[a]);
                        assert(self.commands@[b].name@ == name_view);
                    }
                }
            }
        }
        Ok(())
    }
}

} // verus!
