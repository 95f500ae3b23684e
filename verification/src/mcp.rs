//! Tool definitions, the input a tool reads, and the registry that maps a
//! tool's name to its definition and its handler.

use vstd::prelude::*;
use crate::host::system_home_dir;
use crate::tools::{self, Tool, ToolRequest, planned, expanded, opt_view};

verus! {

/// What a tool reads of one field of its JSON input.
#[derive(Debug, Clone)]
pub enum JsonValue {
    /// A JSON string.
    Str(String),
    /// A JSON boolean.
    Bool(bool),
    /// A JSON number that is an integer in the range of `u64`.
    UInt(u64),
    /// Any other JSON value.
    Other,
}

/// One field of a tool's input object.
#[derive(Debug, Clone)]
pub struct InputField {
    pub key: String,
    pub value: JsonValue,
}

/// A tool's input: the fields of its JSON object (none when it is no object).
#[derive(Debug, Clone)]
pub struct ToolInput {
    pub fields: Vec<InputField>,
}

/// The value of the first field named `key`.
pub open spec fn field_value(fields: Seq<InputField>, key: Seq<char>) -> Option<JsonValue>
    decreases fields.len(),
{
    if fields.len() == 0 {
        None
    } else if fields[0].key@ == key {
        Some(fields[0].value)
    } else {
        field_value(fields.drop_first(), key)
    }
}

impl ToolInput {
    /// The value of the field `key`, as `input.get(key)` gives it.
    pub open spec fn get(self, key: Seq<char>) -> Option<JsonValue> {
        field_value(self.fields@, key)
    }

    /// The field `key` when it is a string, as `input.get(key).and_then(|v| v.as_str())`.
    pub open spec fn str_field(self, key: Seq<char>) -> Option<Seq<char>> {
        match self.get(key) {
            Some(JsonValue::Str(s)) => Some(s@),
            _ => None,
        }
    }

    /// The field `key` when it is a boolean.
    pub open spec fn bool_field(self, key: Seq<char>) -> Option<bool> {
        match self.get(key) {
            Some(JsonValue::Bool(b)) => Some(b),
            _ => None,
        }
    }

    /// The field `key` when it is an integer that fits `u64`.
    pub open spec fn u64_field(self, key: Seq<char>) -> Option<u64> {
        match self.get(key) {
            Some(JsonValue::UInt(n)) => Some(n),
            _ => None,
        }
    }

    /// The index of the first field named `key`.
    fn find(&self, key: &str) -> (r: Option<usize>)
        ensures
            match r {
                Some(i) => i < self.fields@.len() && self.get(key@) == Some(
                    self.fields@[i as int].value,
                ),
                None => self.get(key@) is None,
            },
    {
        let k = String::from_str(key);
        let n = self.fields.len();
        let mut i: usize = 0;
        assert(self.fields@.skip(0) =~= self.fields@);
        while i < n
            invariant
                n == self.fields@.len(),
                i <= n,
                k@ == key@,
                field_value(self.fields@.skip(i as int), key@) == self.get(key@),
            decreases n - i,
        {
            assert(self.fields@.skip(i as int)[0] == self.fields@[i as int]);
            if self.fields[i].key == k {
                return Some(i);
            }
            assert(self.fields@.skip(i as int).drop_first() =~= self.fields@.skip(i + 1));
            i = i + 1;
        }
        None
    }

    /// The field `key` when it is a string.
    pub fn get_str(&self, key: &str) -> (r: Option<String>)
        ensures
            match r {
                Some(s) => self.str_field(key@) == Some(s@),
                None => self.str_field(key@) is None,
            },
    {
        match self.find(key) {
            Some(i) => match &self.fields[i].value {
                JsonValue::Str(s) => Some(s.clone()),
                _ => None,
            },
            None => None,
        }
    }

    /// The field `key` when it is a boolean.
    pub fn get_bool(&self, key: &str) -> (r: Option<bool>)
        ensures
            r == self.bool_field(key@),
    {
        match self.find(key) {
            Some(i) => match &self.fields[i].value {
                JsonValue::Bool(b) => Some(*b),
                _ => None,
            },
            None => None,
        }
    }

    /// The field `key` when it is an integer that fits `u64`.
    pub fn get_u64(&self, key: &str) -> (r: Option<u64>)
        ensures
            r == self.u64_field(key@),
    {
        match self.find(key) {
            Some(i) => match &self.fields[i].value {
                JsonValue::UInt(n) => Some(*n),
                _ => None,
            },
            None => None,
        }
    }
}


/// What a tool is: its name, what it does, the JSON schema of its input (as
/// JSON text) and how much it may change ("read", "write" or "destructive").
#[derive(Debug)]
pub struct ToolDefinition {
    pub name: String,
    pub description: String,
    pub input_schema: String,
    pub safety: String,
}

impl ToolDefinition {
    /// A copy of this definition.
    pub fn duplicate(&self) -> (d: ToolDefinition)
        ensures
            d == *self,
    {
        ToolDefinition {
            name: self.name.clone(),
            description: self.description.clone(),
            input_schema: self.input_schema.clone(),
            safety: self.safety.clone(),
        }
    }
}

/// A registered tool: its definition and its handler.
#[derive(Debug)]
pub struct RegisteredTool {
    pub definition: ToolDefinition,
    pub handler: Tool,
}

/// Some entry of `entries` is named `name`.
pub open spec fn has_entry(entries: Seq<RegisteredTool>, name: Seq<char>) -> bool {
    exists|i: int| 0 <= i < entries.len() && entries[i].definition.name@ == name
}

/// No two entries share a name.
pub open spec fn names_unique(entries: Seq<RegisteredTool>) -> bool {
    forall|i: int, j: int|
        0 <= i < entries.len() && 0 <= j < entries.len() && i != j
            ==> entries[i].definition.name@ != entries[j].definition.name@
}

/// The entry named `name`, where there is one.
pub open spec fn entry_named(entries: Seq<RegisteredTool>, name: Seq<char>) -> RegisteredTool {
    entries[choose|i: int| 0 <= i < entries.len() && entries[i].definition.name@ == name]
}

/// The entries as a map from name to entry.
pub open spec fn entry_map(entries: Seq<RegisteredTool>) -> Map<Seq<char>, RegisteredTool> {
    Map::new(|name: Seq<char>| has_entry(entries, name), |name: Seq<char>| entry_named(entries, name))
}

/// Looking a name up in a list without repeated names gives the entry at the
/// index that holds it.
proof fn lemma_entry_at(entries: Seq<RegisteredTool>, i: int)
    requires
        names_unique(entries),
        0 <= i < entries.len(),
    ensures
        entry_map(entries).contains_key(entries[i].definition.name@),
        entry_map(entries)[entries[i].definition.name@] == entries[i],
{
    let name = entries[i].definition.name@;
    assert(has_entry(entries, name));
    let j = choose|j: int| 0 <= j < entries.len() && entries[j].definition.name@ == name;
    assert(j == i);
}

/// The names of a list without repeated names are as many as its entries.
proof fn lemma_entry_count(entries: Seq<RegisteredTool>)
    requires
        names_unique(entries),
    ensures
        entry_map(entries).dom().finite(),
        entry_map(entries).dom().len() == entries.len(),
    decreases entries.len(),
{
    if entries.len() == 0 {
        assert(entry_map(entries).dom() =~= Set::<Seq<char>>::empty());
    } else {
        let rest = entries.drop_last();
        let last = entries.last().definition.name@;
        assert(names_unique(rest));
        lemma_entry_count(rest);
        assert forall|k: Seq<char>| #[trigger] entry_map(entries).dom().contains(k)
            == entry_map(rest).dom().insert(last).contains(k) by {
            if has_entry(entries, k) && k != last {
                let j = choose|j: int| 0 <= j < entries.len() && entries[j].definition.name@ == k;
                assert(j != entries.len() - 1);
                assert(rest[j].definition.name@ == k);
            }
            if has_entry(rest, k) {
                let j = choose|j: int| 0 <= j < rest.len() && rest[j].definition.name@ == k;
                assert(entries[j].definition.name@ == k);
            }
            if k == last {
                assert(entries[entries.len() - 1].definition.name@ == k);
            }
        }
        assert(entry_map(entries).dom() =~= entry_map(rest).dom().insert(last));
        assert(!entry_map(rest).dom().contains(last)) by {
            if has_entry(rest, last) {
                let j = choose|j: int| 0 <= j < rest.len() && rest[j].definition.name@ == last;
                assert(entries[j].definition.name@ == last);
                assert(entries[entries.len() - 1].definition.name@ == last);
            }
        }
    }
}

/// Putting an entry in place of the one with the same name keeps names
/// unique and updates the map at that name.
proof fn lemma_replace_entry(entries: Seq<RegisteredTool>, i: int, e: RegisteredTool)
    requires
        names_unique(entries),
        0 <= i < entries.len(),
        entries[i].definition.name@ == e.definition.name@,
    ensures
        names_unique(entries.update(i, e)),
        entry_map(entries.update(i, e)) =~= entry_map(entries).insert(e.definition.name@, e),
{
    let after = entries.update(i, e);
    let name = e.definition.name@;
    assert(names_unique(after));
    assert forall|k: Seq<char>|
        #[trigger] entry_map(after).contains_key(k) == entry_map(entries).insert(name, e).contains_key(k)
        by {
        if has_entry(entries, k) {
            let j = choose|j: int| 0 <= j < entries.len() && entries[j].definition.name@ == k;
            if j != i {
                assert(after[j].definition.name@ == k);
            }
        }
        if has_entry(after, k) {
            let j = choose|j: int| 0 <= j < after.len() && after[j].definition.name@ == k;
            if j != i {
                assert(entries[j].definition.name@ == k);
            }
        }
        if k == name {
            assert(after[i].definition.name@ == k);
        }
    }
    assert forall|k: Seq<char>| #[trigger] entry_map(after).contains_key(k) implies entry_map(after)[k]
        == entry_map(entries).insert(name, e)[k] by {
        let j = choose|j: int| 0 <= j < after.len() && after[j].definition.name@ == k;
        lemma_entry_at(after, j);
        if j != i {
            lemma_entry_at(entries, j);
        }
    }
}

/// Adding an entry under a new name keeps names unique and adds that name
/// to the map.
proof fn lemma_append_entry(entries: Seq<RegisteredTool>, e: RegisteredTool)
    requires
        names_unique(entries),
        !has_entry(entries, e.definition.name@),
    ensures
        names_unique(entries.push(e)),
        entry_map(entries.push(e)) =~= entry_map(entries).insert(e.definition.name@, e),
{
    let after = entries.push(e);
    let name = e.definition.name@;
    let n = entries.len() as int;
    assert(after[n] == e);
    assert(names_unique(after));
    assert forall|k: Seq<char>|
        #[trigger] entry_map(after).contains_key(k) == entry_map(entries).insert(name, e).contains_key(k)
        by {
        if has_entry(entries, k) {
            let j = choose|j: int| 0 <= j < entries.len() && entries[j].definition.name@ == k;
            assert(after[j].definition.name@ == k);
        }
        if has_entry(after, k) {
            let j = choose|j: int| 0 <= j < after.len() && after[j].definition.name@ == k;
            if j != n {
                assert(entries[j].definition.name@ == k);
            }
        }
    }
    assert forall|k: Seq<char>| #[trigger] entry_map(after).contains_key(k) implies entry_map(after)[k]
        == entry_map(entries).insert(name, e)[k] by {
        let j = choose|j: int| 0 <= j < after.len() && after[j].definition.name@ == k;
        lemma_entry_at(after, j);
        if j != n {
            lemma_entry_at(entries, j);
        }
    }
}

/// The index of the entry named `name`.
fn position_of(entries: &Vec<RegisteredTool>, name: &String) -> (r: Option<usize>)
    ensures
        match r {
            Some(i) => i < entries@.len() && entries@[i as int].definition.name@ == name@,
            None => !has_entry(entries@, name@),
        },
{
    let n = entries.len();
    let mut i: usize = 0;
    while i < n
        invariant
            n == entries@.len(),
            i <= n,
            forall|k: int| 0 <= k < i ==> entries@[k].definition.name@ != name@,
        decreases n - i,
    {
        if entries[i].definition.name == *name {
            return Some(i);
        }
        i = i + 1;
    }
    None
}

/// The tools the daemon knows, each under its own name.
pub struct ToolRegistry {
    tools: Vec<RegisteredTool>,
}

impl ToolRegistry {
    #[verifier::type_invariant]
    spec fn names_are_unique(self) -> bool {
        names_unique(self.tools@)
    }

    /// The registered tools by name.
    pub closed spec fn entries(self) -> Map<Seq<char>, RegisteredTool> {
        entry_map(self.tools@)
    }

    /// A registry with no tools.
    pub fn new() -> (r: ToolRegistry)
        ensures
            r.entries() == Map::<Seq<char>, RegisteredTool>::empty(),
    {
        let r = ToolRegistry { tools: Vec::new() };
        assert(r.entries() =~= Map::<Seq<char>, RegisteredTool>::empty());
        r
    }

    /// Registers `handler` under the name of `def`; a tool of that name is replaced.
    pub fn register(&mut self, def: ToolDefinition, handler: Tool)
        ensures
            final(self).entries() == old(self).entries().insert(
                def.name@,
                RegisteredTool { definition: def, handler },
            ),
    {
        proof {
            use_type_invariant(&*self);
        }
        let ghost before = self.tools@;
        let ghost name = def.name@;
        let entry = RegisteredTool { definition: def, handler };
        let mut tools: Vec<RegisteredTool> = Vec::new();
        std::mem::swap(&mut tools, &mut self.tools);
        assert(tools@ == before);
        let found = position_of(&tools, &entry.definition.name);
        if let Some(i) = found {
            proof {
                lemma_replace_entry(before, i as int, entry);
            }
            tools.set(i, entry);
        } else {
            proof {
                lemma_append_entry(before, entry);
            }
            tools.push(entry);
        }
        self.tools = tools;
    }

    /// The definitions of all registered tools, one for each name.
    pub fn definitions(&self) -> (defs: Vec<ToolDefinition>)
        ensures
            forall|i: int|
                0 <= i < defs@.len() ==> #[trigger] self.entries().contains_key(defs@[i].name@)
                    && self.entries()[defs@[i].name@].definition == defs@[i],
            forall|name: Seq<char>|
                #[trigger] self.entries().contains_key(name) ==> exists|i: int|
                    0 <= i < defs@.len() && defs@[i].name@ == name,
            forall|i: int, j: int|
                0 <= i < defs@.len() && 0 <= j < defs@.len() && i != j ==> defs@[i].name@
                    != defs@[j].name@,
            self.entries().dom().finite(),
            defs@.len() == self.entries().len(),
    {
        proof {
            use_type_invariant(self);
            lemma_entry_count(self.tools@);
        }
        let n = self.tools.len();
        let mut defs: Vec<ToolDefinition> = Vec::new();
        let mut i: usize = 0;
        while i < n
            invariant
                n == self.tools@.len(),
                i <= n,
                defs@.len() == i,
                forall|k: int| 0 <= k < i ==> defs@[k] == self.tools@[k].definition,
            decreases n - i,
        {
            defs.push(self.tools[i].definition.duplicate());
            i = i + 1;
        }
        proof {
            assert forall|k: int| 0 <= k < defs@.len() implies #[trigger] self.entries().contains_key(
                defs@[k].name@,
            ) && self.entries()[defs@[k].name@].definition == defs@[k] by {
                lemma_entry_at(self.tools@, k);
            }
            assert forall|name: Seq<char>| #[trigger] self.entries().contains_key(name) implies exists|
                k: int,
            | 0 <= k < defs@.len() && defs@[k].name@ == name by {
                let k = choose|k: int| 0 <= k < self.tools@.len() && self.tools@[k].definition.name@ == name;
                assert(defs@[k].name@ == name);
            }
        }
        defs
    }

    /// Calls the tool `name` with `input`: the checked request for the
    /// machine, with its paths tilde-expanded against the home directory
    /// `home`, or why there is none.
    pub fn call_with_home(&self, name: &str, input: &ToolInput, home: &Option<String>) -> (r:
        Result<ToolRequest, String>)
        ensures
            !self.entries().contains_key(name@) ==> (r matches Err(e) && e@ == "Unknown tool: "@
                + name@),
            self.entries().contains_key(name@) ==> match planned(
                self.entries()[name@].handler,
                *input,
            ) {
                Err(e) => r matches Err(m) && m@ == e,
                Ok(v) => r matches Ok(q) && expanded(v, q@, opt_view(*home)),
            },
    {
        match self.handler_of(name) {
            None => {
                let mut e = String::from_str("Unknown tool: ");
                e.append(name);
                Err(e)
            },
            Some(handler) => {
                let q = tools::plan(handler, input)?;
                Ok(tools::expand_paths_with(q, home))
            },
        }
    }

    /// Calls the tool `name` with `input`: the checked request for the
    /// machine, with its paths tilde-expanded against this user's home
    /// directory, or why there is none. Which directory that is, and whether
    /// there is one, is the environment's: all paths of the request are
    /// expanded against one home directory, or, when there is none, kept.
    pub fn call(&self, name: &str, input: &ToolInput) -> (r: Result<ToolRequest, String>)
        ensures
            !self.entries().contains_key(name@) ==> (r matches Err(e) && e@ == "Unknown tool: "@
                + name@),
            self.entries().contains_key(name@) ==> match planned(
                self.entries()[name@].handler,
                *input,
            ) {
                Err(e) => r matches Err(m) && m@ == e,
                Ok(v) => r matches Ok(q) && exists|home: Option<Seq<char>>| expanded(v, q@, home),
            },
    {
        let home = system_home_dir();
        let r = self.call_with_home(name, input, &home);
        proof {
            if self.entries().contains_key(name@) {
                if let Ok(v) = planned(self.entries()[name@].handler, *input) {
                    assert(r matches Ok(q) && expanded(v, q@, opt_view(home)));
                }
            }
        }
        r
    }

    /// The handler registered under `name`.
    pub fn handler_of(&self, name: &str) -> (h: Option<Tool>)
        ensures
            h == (if self.entries().contains_key(name@) {
                Some(self.entries()[name@].handler)
            } else {
                None
            }),
    {
        proof {
            use_type_invariant(self);
        }
        let key = String::from_str(name);
        match position_of(&self.tools, &key) {
            Some(i) => {
                proof {
                    lemma_entry_at(self.tools@, i as int);
                }
                Some(self.tools[i].handler)
            },
            None => None,
        }
    }
}


/// A tool registered under a name is what that name reaches from then on,
/// and every other name reaches what it reached before.
pub proof fn lemma_register_then_lookup(
    before: Map<Seq<char>, RegisteredTool>,
    def: ToolDefinition,
    handler: Tool,
    other: Seq<char>,
)
    ensures
        ({
            let after = before.insert(def.name@, RegisteredTool { definition: def, handler });
            &&& after.contains_key(def.name@)
            &&& after[def.name@].handler == handler
            &&& after[def.name@].definition == def
            &&& other != def.name@ ==> (after.contains_key(other) == before.contains_key(other) && (
            before.contains_key(other) ==> after[other] == before[other]))
        }),
{
}

} // verus!
